//! LPUART
//!
//! The register block of the low-power UART, the sub-fields that the driver
//! uses, and the instance that owns one block.

use vstd::prelude::*;
use crate::ral::Write;

pub mod instances;

verus! {

/// Sample-rate divisor, the low 13 bits of `BAUD`
pub const BAUD_SBR_MASK: u32 = 0x0000_1FFF;
pub const BAUD_SBR_OFFSET: u32 = 0;
/// Both-edge sampling, bit 17 of `BAUD`
pub const BAUD_BOTHEDGE_MASK: u32 = 0x0002_0000;
pub const BAUD_BOTHEDGE_OFFSET: u32 = 17;
/// Oversampling ratio, bits 24 to 28 of `BAUD`
pub const BAUD_OSR_MASK: u32 = 0x1F00_0000;
pub const BAUD_OSR_OFFSET: u32 = 24;

/// Parity error flag, bit 16 of `STAT`
pub const STAT_PF_MASK: u32 = 0x0001_0000;
pub const STAT_PF_OFFSET: u32 = 16;
/// Framing error flag, bit 17 of `STAT`
pub const STAT_FE_MASK: u32 = 0x0002_0000;
pub const STAT_FE_OFFSET: u32 = 17;
/// Noise flag, bit 18 of `STAT`
pub const STAT_NF_MASK: u32 = 0x0004_0000;
pub const STAT_NF_OFFSET: u32 = 18;
/// Receiver overrun flag, bit 19 of `STAT`
pub const STAT_OR_MASK: u32 = 0x0008_0000;
pub const STAT_OR_OFFSET: u32 = 19;
/// Idle line flag, bit 20 of `STAT`
pub const STAT_IDLE_MASK: u32 = 0x0010_0000;
pub const STAT_IDLE_OFFSET: u32 = 20;
/// Transmit data register empty flag, bit 23 of `STAT`
pub const STAT_TDRE_MASK: u32 = 0x0080_0000;
pub const STAT_TDRE_OFFSET: u32 = 23;

/// The flags of `STAT` that stay set until a one is written to them
pub const STAT_STICKY_MASK: u32 = 0xC01F_C000;
/// The flags of `STAT` that only the hardware changes
pub const STAT_READ_ONLY_MASK: u32 = 0x01E0_0000;
/// The configuration bits of `STAT`
pub const STAT_CONFIG_MASK: u32 = 0x3E00_0000;

/// Receiver enable, bit 18 of `CTRL`
pub const CTRL_RE_MASK: u32 = 0x0004_0000;
pub const CTRL_RE_OFFSET: u32 = 18;
/// Transmitter enable, bit 19 of `CTRL`
pub const CTRL_TE_MASK: u32 = 0x0008_0000;
pub const CTRL_TE_OFFSET: u32 = 19;

/// Receive buffer empty, bit 12 of `DATA`
pub const DATA_RXEMPT_MASK: u32 = 0x0000_1000;
/// Framing error on the received word, bit 13 of `DATA`
pub const DATA_FRETSC_MASK: u32 = 0x0000_2000;
/// Parity error on the received word, bit 14 of `DATA`
pub const DATA_PARITYE_MASK: u32 = 0x0000_4000;
/// Noise on the received word, bit 15 of `DATA`
pub const DATA_NOISY_MASK: u32 = 0x0000_8000;

/// Receive FIFO flush, bit 14 of `FIFO`
pub const FIFO_RXFLUSH_MASK: u32 = 0x0000_4000;
pub const FIFO_RXFLUSH_OFFSET: u32 = 14;
/// Transmit FIFO flush, bit 15 of `FIFO`
pub const FIFO_TXFLUSH_MASK: u32 = 0x0000_8000;
pub const FIFO_TXFLUSH_OFFSET: u32 = 15;

/// The bits of `FIFO` that only the hardware changes
pub const FIFO_READ_ONLY_MASK: u32 = 0x00C0_0077;
/// The underflow and overflow flags of `FIFO`, which stay set until a one
/// is written to them
pub const FIFO_STICKY_MASK: u32 = 0x0003_0000;
/// The configuration bits of `FIFO`
pub const FIFO_CONFIG_MASK: u32 = 0x0000_1F88;

/// The registers of one LPUART, in the order of their addresses
#[allow(non_snake_case)]
#[derive(Clone, Copy, PartialEq, Eq, Structural, Debug)]
pub struct RegisterBlock {
    /// Version ID Register
    pub VERID: u32,
    /// Parameter Register
    pub PARAM: u32,
    /// LPUART Global Register
    pub GLOBAL: u32,
    /// LPUART Pin Configuration Register
    pub PINCFG: u32,
    /// LPUART Baud Rate Register
    pub BAUD: u32,
    /// LPUART Status Register
    pub STAT: u32,
    /// LPUART Control Register
    pub CTRL: u32,
    /// LPUART Data Register
    pub DATA: u32,
    /// LPUART Match Address Register
    pub MATCH: u32,
    /// LPUART Modem IrDA Register
    pub MODIR: u32,
    /// LPUART FIFO Register
    pub FIFO: u32,
    /// LPUART Watermark Register
    pub WATER: u32,
}

/// The value of each register after a reset
#[allow(non_snake_case)]
#[derive(Clone, Copy, PartialEq, Eq, Structural, Debug)]
pub struct ResetValues {
    pub VERID: u32,
    pub PARAM: u32,
    pub GLOBAL: u32,
    pub PINCFG: u32,
    pub BAUD: u32,
    pub STAT: u32,
    pub CTRL: u32,
    pub DATA: u32,
    pub MATCH: u32,
    pub MODIR: u32,
    pub FIFO: u32,
    pub WATER: u32,
}

/// Names one register of the block
#[allow(non_camel_case_types)]
#[derive(Clone, Copy, PartialEq, Eq, Structural, Debug)]
pub enum Register {
    VERID,
    PARAM,
    GLOBAL,
    PINCFG,
    BAUD,
    STAT,
    CTRL,
    DATA,
    MATCH,
    MODIR,
    FIFO,
    WATER,
}

impl Register {
    /// Distance in bytes of the register from the start of its block
    pub open spec fn offset_spec(self) -> u32 {
        match self {
            Register::VERID => 0x00,
            Register::PARAM => 0x04,
            Register::GLOBAL => 0x08,
            Register::PINCFG => 0x0C,
            Register::BAUD => 0x10,
            Register::STAT => 0x14,
            Register::CTRL => 0x18,
            Register::DATA => 0x1C,
            Register::MATCH => 0x20,
            Register::MODIR => 0x24,
            Register::FIFO => 0x28,
            Register::WATER => 0x2C,
        }
    }

    /// Distance in bytes of the register from the start of its block
    pub fn offset(self) -> (bytes: u32)
        ensures
            bytes == self.offset_spec(),
    {
        match self {
            Register::VERID => 0x00,
            Register::PARAM => 0x04,
            Register::GLOBAL => 0x08,
            Register::PINCFG => 0x0C,
            Register::BAUD => 0x10,
            Register::STAT => 0x14,
            Register::CTRL => 0x18,
            Register::DATA => 0x1C,
            Register::MATCH => 0x20,
            Register::MODIR => 0x24,
            Register::FIFO => 0x28,
            Register::WATER => 0x2C,
        }
    }
}

/// What `STAT` holds after `value` is written to it: the configuration bits
/// take the written bits, a sticky flag is cleared where a one is written
/// and kept otherwise, and the hardware's own flags stay.
pub open spec fn stat_written(stat: u32, value: u32) -> u32 {
    (stat & STAT_READ_ONLY_MASK) | (value & STAT_CONFIG_MASK) | (stat & STAT_STICKY_MASK & !value)
}

/// What `FIFO` holds after `value` is written to it: the configuration bits
/// take the written bits, the underflow and overflow flags are cleared where
/// a one is written, the hardware's own bits stay, and the two flush bits
/// act once and read as zero.
pub open spec fn fifo_written(fifo: u32, value: u32) -> u32 {
    (fifo & FIFO_READ_ONLY_MASK) | (value & FIFO_CONFIG_MASK) | (fifo & FIFO_STICKY_MASK & !value)
}

impl RegisterBlock {
    /// The word that a read of `reg` returns
    pub open spec fn get(self, reg: Register) -> u32 {
        match reg {
            Register::VERID => self.VERID,
            Register::PARAM => self.PARAM,
            Register::GLOBAL => self.GLOBAL,
            Register::PINCFG => self.PINCFG,
            Register::BAUD => self.BAUD,
            Register::STAT => self.STAT,
            Register::CTRL => self.CTRL,
            Register::DATA => self.DATA,
            Register::MATCH => self.MATCH,
            Register::MODIR => self.MODIR,
            Register::FIFO => self.FIFO,
            Register::WATER => self.WATER,
        }
    }

    /// The block with `reg` holding `value`, as the bus reported it
    pub open spec fn loaded(self, reg: Register, value: u32) -> RegisterBlock {
        match reg {
            Register::VERID => RegisterBlock { VERID: value, ..self },
            Register::PARAM => RegisterBlock { PARAM: value, ..self },
            Register::GLOBAL => RegisterBlock { GLOBAL: value, ..self },
            Register::PINCFG => RegisterBlock { PINCFG: value, ..self },
            Register::BAUD => RegisterBlock { BAUD: value, ..self },
            Register::STAT => RegisterBlock { STAT: value, ..self },
            Register::CTRL => RegisterBlock { CTRL: value, ..self },
            Register::DATA => RegisterBlock { DATA: value, ..self },
            Register::MATCH => RegisterBlock { MATCH: value, ..self },
            Register::MODIR => RegisterBlock { MODIR: value, ..self },
            Register::FIFO => RegisterBlock { FIFO: value, ..self },
            Register::WATER => RegisterBlock { WATER: value, ..self },
        }
    }

    /// The block after the driver writes `value` to `reg`.
    ///
    /// `VERID` and `PARAM` are read-only. A write to `DATA` queues a word
    /// for transmission and leaves the receive side, which is what a read
    /// of `DATA` returns, as it is. `STAT` and `FIFO` follow
    /// [`stat_written`] and [`fifo_written`]. Every other register holds
    /// what was written last.
    pub open spec fn written(self, reg: Register, value: u32) -> RegisterBlock {
        match reg {
            Register::VERID | Register::PARAM | Register::DATA => self,
            Register::STAT => RegisterBlock { STAT: stat_written(self.STAT, value), ..self },
            Register::FIFO => RegisterBlock { FIFO: fifo_written(self.FIFO, value), ..self },
            _ => self.loaded(reg, value),
        }
    }

    /// The block that holds the reset values
    pub open spec fn from_reset(reset: ResetValues) -> RegisterBlock {
        RegisterBlock {
            VERID: reset.VERID,
            PARAM: reset.PARAM,
            GLOBAL: reset.GLOBAL,
            PINCFG: reset.PINCFG,
            BAUD: reset.BAUD,
            STAT: reset.STAT,
            CTRL: reset.CTRL,
            DATA: reset.DATA,
            MATCH: reset.MATCH,
            MODIR: reset.MODIR,
            FIFO: reset.FIFO,
            WATER: reset.WATER,
        }
    }

    /// Read one register of the image
    pub fn read(&self, reg: Register) -> (value: u32)
        ensures
            value == self.get(reg),
    {
        match reg {
            Register::VERID => self.VERID,
            Register::PARAM => self.PARAM,
            Register::GLOBAL => self.GLOBAL,
            Register::PINCFG => self.PINCFG,
            Register::BAUD => self.BAUD,
            Register::STAT => self.STAT,
            Register::CTRL => self.CTRL,
            Register::DATA => self.DATA,
            Register::MATCH => self.MATCH,
            Register::MODIR => self.MODIR,
            Register::FIFO => self.FIFO,
            Register::WATER => self.WATER,
        }
    }

    /// Record the word that the bus returned for `reg`
    pub fn load(&mut self, reg: Register, value: u32)
        ensures
            *final(self) == old(self).loaded(reg, value),
    {
        match reg {
            Register::VERID => self.VERID = value,
            Register::PARAM => self.PARAM = value,
            Register::GLOBAL => self.GLOBAL = value,
            Register::PINCFG => self.PINCFG = value,
            Register::BAUD => self.BAUD = value,
            Register::STAT => self.STAT = value,
            Register::CTRL => self.CTRL = value,
            Register::DATA => self.DATA = value,
            Register::MATCH => self.MATCH = value,
            Register::MODIR => self.MODIR = value,
            Register::FIFO => self.FIFO = value,
            Register::WATER => self.WATER = value,
        }
    }

    /// Apply a write of `value` to `reg`
    pub fn store(&mut self, reg: Register, value: u32)
        ensures
            *final(self) == old(self).written(reg, value),
    {
        match reg {
            Register::VERID | Register::PARAM | Register::DATA => {},
            Register::STAT => {
                self.STAT = (self.STAT & STAT_READ_ONLY_MASK) | (value & STAT_CONFIG_MASK) | (
                self.STAT & STAT_STICKY_MASK & !value);
            },
            Register::FIFO => {
                self.FIFO = (self.FIFO & FIFO_READ_ONLY_MASK) | (value & FIFO_CONFIG_MASK) | (
                self.FIFO & FIFO_STICKY_MASK & !value);
            },
            _ => self.load(reg, value),
        }
    }

    /// The block as it is after a reset
    pub fn reset(reset: &ResetValues) -> (block: RegisterBlock)
        ensures
            block == RegisterBlock::from_reset(*reset),
    {
        RegisterBlock {
            VERID: reset.VERID,
            PARAM: reset.PARAM,
            GLOBAL: reset.GLOBAL,
            PINCFG: reset.PINCFG,
            BAUD: reset.BAUD,
            STAT: reset.STAT,
            CTRL: reset.CTRL,
            DATA: reset.DATA,
            MATCH: reset.MATCH,
            MODIR: reset.MODIR,
            FIFO: reset.FIFO,
            WATER: reset.WATER,
        }
    }
}

/// Address of the first LPUART
pub const BASE: u32 = 0x4018_4000;
/// Distance between one LPUART and the next
pub const STRIDE: u32 = 0x4000;

/// The start address of LPUART `n`, counted from 1
pub open spec fn address_of(n: int) -> u32 {
    (BASE + STRIDE * (n - 1)) as u32
}

/// True of the start addresses of LPUART 1 to 8
pub open spec fn is_instance_address(addr: u32) -> bool {
    exists|n: int| 1 <= n <= 8 && addr == #[trigger] address_of(n)
}

/// What an instance stands for: the address of its block, the image of its
/// registers, and the writes it has issued that were not collected yet
pub struct Model {
    pub addr: u32,
    pub regs: RegisterBlock,
    pub writes: Seq<Write>,
}

impl Model {
    /// The instance after the bus reported `value` for `reg`
    pub open spec fn load(self, reg: Register, value: u32) -> Model {
        Model { regs: self.regs.loaded(reg, value), ..self }
    }

    /// The instance after the driver wrote `value` to `reg`
    pub open spec fn write(self, reg: Register, value: u32) -> Model {
        Model {
            addr: self.addr,
            regs: self.regs.written(reg, value),
            writes: self.writes.push(
                Write { addr: (self.addr + reg.offset_spec()) as u32, value },
            ),
        }
    }

    /// The instance after a read-modify-write that replaces one sub-field
    pub open spec fn modify(self, reg: Register, mask: u32, offset: u32, value: u32) -> Model {
        self.write(reg, crate::ral::with_field(self.regs.get(reg), mask, offset, value))
    }
}

/// The start address of one LPUART's register block
struct Base {
    addr: u32,
}

impl Base {
    #[verifier::type_invariant]
    spec fn well_formed(self) -> bool {
        is_instance_address(self.addr)
    }

    fn get(&self) -> (addr: u32)
        ensures
            addr == self.addr,
            is_instance_address(addr),
    {
        proof {
            use_type_invariant(self);
        }
        self.addr
    }
}

/// One LPUART: the capability to touch its register block
pub struct Instance {
    base: Base,
    regs: RegisterBlock,
    writes: Vec<Write>,
}

impl View for Instance {
    type V = Model;

    closed spec fn view(&self) -> Model {
        Model { addr: self.base.addr, regs: self.regs, writes: self.writes@ }
    }
}

impl Instance {
    /// An instance for the block at `addr`, with every register at its
    /// reset value
    pub(crate) fn at(addr: u32, reset: &ResetValues) -> (inst: Instance)
        requires
            is_instance_address(addr),
        ensures
            inst@ == (Model {
                addr,
                regs: RegisterBlock::from_reset(*reset),
                writes: Seq::empty(),
            }),
    {
        Instance { base: Base { addr }, regs: RegisterBlock::reset(reset), writes: Vec::new() }
    }

    /// The address of the register block
    pub fn addr(&self) -> (addr: u32)
        ensures
            addr == self@.addr,
            is_instance_address(addr),
    {
        self.base.get()
    }

    /// The image of the registers
    pub fn registers(&self) -> (regs: RegisterBlock)
        ensures
            regs == self@.regs,
    {
        self.regs
    }

    /// Read a register
    pub fn read(&self, reg: Register) -> (value: u32)
        ensures
            value == self@.regs.get(reg),
    {
        self.regs.read(reg)
    }

    /// Write a register: the image follows the register's write rule, and
    /// the write is recorded after those recorded before
    pub fn write(&mut self, reg: Register, value: u32)
        ensures
            final(self)@ == old(self)@.write(reg, value),
    {
        self.regs.store(reg, value);
        let addr: u32 = self.base.get() + reg.offset();
        self.writes.push(Write { addr, value });
    }

    /// Replace one sub-field of a register by a read-modify-write
    pub fn modify(&mut self, reg: Register, mask: u32, offset: u32, value: u32)
        requires
            offset < 32,
        ensures
            final(self)@ == old(self)@.modify(reg, mask, offset, value),
    {
        let word: u32 = crate::ral::modify_field(self.read(reg), mask, offset, value);
        self.write(reg, word);
    }

    /// Record the word that the bus returned for `reg`
    pub fn load(&mut self, reg: Register, value: u32)
        ensures
            final(self)@ == old(self)@.load(reg, value),
    {
        self.regs.load(reg, value);
    }

    /// Hand out the recorded writes, oldest first, and start a new record
    pub fn take_writes(&mut self) -> (writes: Vec<Write>)
        ensures
            writes@ == old(self)@.writes,
            final(self)@ == (Model { writes: Seq::empty(), ..old(self)@ }),
    {
        let mut writes: Vec<Write> = Vec::new();
        core::mem::swap(&mut self.writes, &mut writes);
        writes
    }
}

} // verus!
