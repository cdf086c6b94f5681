//! General purpose timer (GPT)
//!
//! The register block of the timer, the sub-fields that the driver uses,
//! and the instance that owns one block.

use vstd::prelude::*;
use crate::ral::Write;

pub mod instances;

verus! {

/// Counter enable, bit 0 of `CR`
pub const CR_EN_MASK: u32 = 0x0000_0001;
pub const CR_EN_OFFSET: u32 = 0;
/// Reset the counter when it is enabled, bit 1 of `CR`
pub const CR_ENMOD_MASK: u32 = 0x0000_0002;
pub const CR_ENMOD_OFFSET: u32 = 1;
/// Run in wait mode, bit 3 of `CR`
pub const CR_WAITEN_MASK: u32 = 0x0000_0008;
pub const CR_WAITEN_OFFSET: u32 = 3;
/// Clock source select, bits 6 to 8 of `CR`
pub const CR_CLKSRC_MASK: u32 = 0x0000_01C0;
pub const CR_CLKSRC_OFFSET: u32 = 6;
/// Free-run or restart mode, bit 9 of `CR`
pub const CR_FRR_MASK: u32 = 0x0000_0200;
pub const CR_FRR_OFFSET: u32 = 9;
/// Enable the 24 MHz crystal oscillator input, bit 10 of `CR`
pub const CR_EN_24M_MASK: u32 = 0x0000_0400;
pub const CR_EN_24M_OFFSET: u32 = 10;

/// Prescaler of the crystal oscillator input, bits 12 to 15 of `PR`
pub const PR_PRESCALER24M_MASK: u32 = 0x0000_F000;
pub const PR_PRESCALER24M_OFFSET: u32 = 12;

/// Rollover interrupt enable, bit 5 of `IR`
pub const IR_ROVIE_MASK: u32 = 0x0000_0020;
pub const IR_ROVIE_OFFSET: u32 = 5;

/// The flags of `SR`: three output compare flags from bit 0, two input
/// capture flags and the rollover flag. Each stays set until a one is
/// written to it.
pub const SR_FLAGS_MASK: u32 = 0x0000_003F;

/// The registers of one GPT, in the order of their addresses
#[allow(non_snake_case)]
#[derive(Clone, Copy, PartialEq, Eq, Structural, Debug)]
pub struct RegisterBlock {
    /// GPT Control Register
    pub CR: u32,
    /// GPT Prescaler Register
    pub PR: u32,
    /// GPT Status Register
    pub SR: u32,
    /// GPT Interrupt Register
    pub IR: u32,
    /// GPT Output Compare Register 1
    pub OCR1: u32,
    /// GPT Output Compare Register 2
    pub OCR2: u32,
    /// GPT Output Compare Register 3
    pub OCR3: u32,
    /// GPT Input Capture Register 1
    pub ICR1: u32,
    /// GPT Input Capture Register 2
    pub ICR2: u32,
    /// GPT Counter Register
    pub CNT: u32,
}

/// The value of each register after a reset
#[allow(non_snake_case)]
#[derive(Clone, Copy, PartialEq, Eq, Structural, Debug)]
pub struct ResetValues {
    pub CR: u32,
    pub PR: u32,
    pub SR: u32,
    pub IR: u32,
    pub OCR1: u32,
    pub OCR2: u32,
    pub OCR3: u32,
    pub ICR1: u32,
    pub ICR2: u32,
    pub CNT: u32,
}

/// Names one register of the block
#[allow(non_camel_case_types)]
#[derive(Clone, Copy, PartialEq, Eq, Structural, Debug)]
pub enum Register {
    CR,
    PR,
    SR,
    IR,
    OCR1,
    OCR2,
    OCR3,
    ICR1,
    ICR2,
    CNT,
}

impl Register {
    /// Distance in bytes of the register from the start of its block
    pub open spec fn offset_spec(self) -> u32 {
        match self {
            Register::CR => 0x00,
            Register::PR => 0x04,
            Register::SR => 0x08,
            Register::IR => 0x0C,
            Register::OCR1 => 0x10,
            Register::OCR2 => 0x14,
            Register::OCR3 => 0x18,
            Register::ICR1 => 0x1C,
            Register::ICR2 => 0x20,
            Register::CNT => 0x24,
        }
    }

    /// Distance in bytes of the register from the start of its block
    pub fn offset(self) -> (bytes: u32)
        ensures
            bytes == self.offset_spec(),
    {
        match self {
            Register::CR => 0x00,
            Register::PR => 0x04,
            Register::SR => 0x08,
            Register::IR => 0x0C,
            Register::OCR1 => 0x10,
            Register::OCR2 => 0x14,
            Register::OCR3 => 0x18,
            Register::ICR1 => 0x1C,
            Register::ICR2 => 0x20,
            Register::CNT => 0x24,
        }
    }
}

/// What `SR` holds after `value` is written to it: a flag is cleared where
/// a one is written and kept otherwise.
pub open spec fn sr_written(sr: u32, value: u32) -> u32 {
    sr & !(value & SR_FLAGS_MASK)
}

impl RegisterBlock {
    /// The word that a read of `reg` returns
    pub open spec fn get(self, reg: Register) -> u32 {
        match reg {
            Register::CR => self.CR,
            Register::PR => self.PR,
            Register::SR => self.SR,
            Register::IR => self.IR,
            Register::OCR1 => self.OCR1,
            Register::OCR2 => self.OCR2,
            Register::OCR3 => self.OCR3,
            Register::ICR1 => self.ICR1,
            Register::ICR2 => self.ICR2,
            Register::CNT => self.CNT,
        }
    }

    /// The block with `reg` holding `value`, as the bus reported it
    pub open spec fn loaded(self, reg: Register, value: u32) -> RegisterBlock {
        match reg {
            Register::CR => RegisterBlock { CR: value, ..self },
            Register::PR => RegisterBlock { PR: value, ..self },
            Register::SR => RegisterBlock { SR: value, ..self },
            Register::IR => RegisterBlock { IR: value, ..self },
            Register::OCR1 => RegisterBlock { OCR1: value, ..self },
            Register::OCR2 => RegisterBlock { OCR2: value, ..self },
            Register::OCR3 => RegisterBlock { OCR3: value, ..self },
            Register::ICR1 => RegisterBlock { ICR1: value, ..self },
            Register::ICR2 => RegisterBlock { ICR2: value, ..self },
            Register::CNT => RegisterBlock { CNT: value, ..self },
        }
    }

    /// The block after the driver writes `value` to `reg`.
    ///
    /// The input capture registers and the counter are read-only. `SR`
    /// follows [`sr_written`]. Every other register holds what was written
    /// last.
    pub open spec fn written(self, reg: Register, value: u32) -> RegisterBlock {
        match reg {
            Register::ICR1 | Register::ICR2 | Register::CNT => self,
            Register::SR => RegisterBlock { SR: sr_written(self.SR, value), ..self },
            _ => self.loaded(reg, value),
        }
    }

    /// The block that holds the reset values
    pub open spec fn from_reset(reset: ResetValues) -> RegisterBlock {
        RegisterBlock {
            CR: reset.CR,
            PR: reset.PR,
            SR: reset.SR,
            IR: reset.IR,
            OCR1: reset.OCR1,
            OCR2: reset.OCR2,
            OCR3: reset.OCR3,
            ICR1: reset.ICR1,
            ICR2: reset.ICR2,
            CNT: reset.CNT,
        }
    }

    /// Read one register of the image
    pub fn read(&self, reg: Register) -> (value: u32)
        ensures
            value == self.get(reg),
    {
        match reg {
            Register::CR => self.CR,
            Register::PR => self.PR,
            Register::SR => self.SR,
            Register::IR => self.IR,
            Register::OCR1 => self.OCR1,
            Register::OCR2 => self.OCR2,
            Register::OCR3 => self.OCR3,
            Register::ICR1 => self.ICR1,
            Register::ICR2 => self.ICR2,
            Register::CNT => self.CNT,
        }
    }

    /// Record the word that the bus returned for `reg`
    pub fn load(&mut self, reg: Register, value: u32)
        ensures
            *final(self) == old(self).loaded(reg, value),
    {
        match reg {
            Register::CR => self.CR = value,
            Register::PR => self.PR = value,
            Register::SR => self.SR = value,
            Register::IR => self.IR = value,
            Register::OCR1 => self.OCR1 = value,
            Register::OCR2 => self.OCR2 = value,
            Register::OCR3 => self.OCR3 = value,
            Register::ICR1 => self.ICR1 = value,
            Register::ICR2 => self.ICR2 = value,
            Register::CNT => self.CNT = value,
        }
    }

    /// Apply a write of `value` to `reg`
    pub fn store(&mut self, reg: Register, value: u32)
        ensures
            *final(self) == old(self).written(reg, value),
    {
        match reg {
            Register::ICR1 | Register::ICR2 | Register::CNT => {},
            Register::SR => {
                self.SR = self.SR & !(value & SR_FLAGS_MASK);
            },
            _ => self.load(reg, value),
        }
    }

    /// The block as it is after a reset
    pub fn reset(reset: &ResetValues) -> (block: RegisterBlock)
        ensures
            block == RegisterBlock::from_reset(*reset),
    {
        RegisterBlock {
            CR: reset.CR,
            PR: reset.PR,
            SR: reset.SR,
            IR: reset.IR,
            OCR1: reset.OCR1,
            OCR2: reset.OCR2,
            OCR3: reset.OCR3,
            ICR1: reset.ICR1,
            ICR2: reset.ICR2,
            CNT: reset.CNT,
        }
    }
}

/// Address of GPT1
pub const BASE: u32 = 0x401E_C000;
/// Distance between GPT1 and GPT2
pub const STRIDE: u32 = 0x4000;

/// The start address of GPT `n`, counted from 1
pub open spec fn address_of(n: int) -> u32 {
    (BASE + STRIDE * (n - 1)) as u32
}

/// True of the start addresses of GPT1 and GPT2
pub open spec fn is_instance_address(addr: u32) -> bool {
    exists|n: int| 1 <= n <= 2 && addr == #[trigger] address_of(n)
}

/// What an instance stands for: the address of its block, the image of its
/// registers, and the writes it has issued that were not collected yet
pub struct Model {
    pub addr: u32,
    pub regs: RegisterBlock,
    pub writes: Seq<Write>,
}

impl Model {
    /// The instance after the bus reported `value` for `reg`
    pub open spec fn load(self, reg: Register, value: u32) -> Model {
        Model { regs: self.regs.loaded(reg, value), ..self }
    }

    /// The instance after the driver wrote `value` to `reg`
    pub open spec fn write(self, reg: Register, value: u32) -> Model {
        Model {
            addr: self.addr,
            regs: self.regs.written(reg, value),
            writes: self.writes.push(
                Write { addr: (self.addr + reg.offset_spec()) as u32, value },
            ),
        }
    }

    /// The instance after a read-modify-write that replaces one sub-field
    pub open spec fn modify(self, reg: Register, mask: u32, offset: u32, value: u32) -> Model {
        self.write(reg, crate::ral::with_field(self.regs.get(reg), mask, offset, value))
    }
}

/// The start address of one GPT's register block
struct Base {
    addr: u32,
}

impl Base {
    #[verifier::type_invariant]
    spec fn well_formed(self) -> bool {
        is_instance_address(self.addr)
    }

    fn get(&self) -> (addr: u32)
        ensures
            addr == self.addr,
            is_instance_address(addr),
    {
        proof {
            use_type_invariant(self);
        }
        self.addr
    }
}

/// One GPT: the capability to touch its register block
pub struct Instance {
    base: Base,
    regs: RegisterBlock,
    writes: Vec<Write>,
}

impl View for Instance {
    type V = Model;

    closed spec fn view(&self) -> Model {
        Model { addr: self.base.addr, regs: self.regs, writes: self.writes@ }
    }
}

impl Instance {
    /// An instance for the block at `addr`, with every register at its
    /// reset value
    pub(crate) fn at(addr: u32, reset: &ResetValues) -> (inst: Instance)
        requires
            is_instance_address(addr),
        ensures
            inst@ == (Model {
                addr,
                regs: RegisterBlock::from_reset(*reset),
                writes: Seq::empty(),
            }),
    {
        Instance { base: Base { addr }, regs: RegisterBlock::reset(reset), writes: Vec::new() }
    }

    /// The address of the register block
    pub fn addr(&self) -> (addr: u32)
        ensures
            addr == self@.addr,
            is_instance_address(addr),
    {
        self.base.get()
    }

    /// The image of the registers
    pub fn registers(&self) -> (regs: RegisterBlock)
        ensures
            regs == self@.regs,
    {
        self.regs
    }

    /// Read a register
    pub fn read(&self, reg: Register) -> (value: u32)
        ensures
            value == self@.regs.get(reg),
    {
        self.regs.read(reg)
    }

    /// Write a register: the image follows the register's write rule, and
    /// the write is recorded after those recorded before
    pub fn write(&mut self, reg: Register, value: u32)
        ensures
            final(self)@ == old(self)@.write(reg, value),
    {
        self.regs.store(reg, value);
        let addr: u32 = self.base.get() + reg.offset();
        self.writes.push(Write { addr, value });
    }

    /// Replace one sub-field of a register by a read-modify-write
    pub fn modify(&mut self, reg: Register, mask: u32, offset: u32, value: u32)
        requires
            offset < 32,
        ensures
            final(self)@ == old(self)@.modify(reg, mask, offset, value),
    {
        let word: u32 = crate::ral::modify_field(self.read(reg), mask, offset, value);
        self.write(reg, word);
    }

    /// Record the word that the bus returned for `reg`
    pub fn load(&mut self, reg: Register, value: u32)
        ensures
            final(self)@ == old(self)@.load(reg, value),
    {
        self.regs.load(reg, value);
    }

    /// Hand out the recorded writes, oldest first, and start a new record
    pub fn take_writes(&mut self) -> (writes: Vec<Write>)
        ensures
            writes@ == old(self)@.writes,
            final(self)@ == (Model { writes: Seq::empty(), ..old(self)@ }),
    {
        let mut writes: Vec<Write> = Vec::new();
        core::mem::swap(&mut self.writes, &mut writes);
        writes
    }
}

} // verus!
