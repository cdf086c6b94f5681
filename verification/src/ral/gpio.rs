//! GPIO
//!
//! The register block of a GPIO module, the instance that owns one block,
//! and the modules of a chip taken together. The pins of a module share
//! its registers, so the drivers of the pins borrow the modules for each
//! operation.

use vstd::prelude::*;
use crate::ral::{Chip, Write};

verus! {

/// The registers of one GPIO module, in the order of their addresses
#[allow(non_snake_case)]
#[derive(Clone, Copy, PartialEq, Eq, Structural, Debug)]
pub struct RegisterBlock {
    /// GPIO data register
    pub DR: u32,
    /// GPIO direction register
    pub GDIR: u32,
    /// GPIO pad status register
    pub PSR: u32,
    /// GPIO interrupt configuration register1
    pub ICR1: u32,
    /// GPIO interrupt configuration register2
    pub ICR2: u32,
    /// GPIO interrupt mask register
    pub IMR: u32,
    /// GPIO interrupt status register
    pub ISR: u32,
    /// GPIO edge select register
    pub EDGE_SEL: u32,
    /// GPIO data register SET
    pub DR_SET: u32,
    /// GPIO data register CLEAR
    pub DR_CLEAR: u32,
    /// GPIO data register TOGGLE
    pub DR_TOGGLE: u32,
}

/// The value of each register after a reset
#[allow(non_snake_case)]
#[derive(Clone, Copy, PartialEq, Eq, Structural, Debug)]
pub struct ResetValues {
    pub DR: u32,
    pub GDIR: u32,
    pub PSR: u32,
    pub ICR1: u32,
    pub ICR2: u32,
    pub IMR: u32,
    pub ISR: u32,
    pub EDGE_SEL: u32,
    pub DR_SET: u32,
    pub DR_CLEAR: u32,
    pub DR_TOGGLE: u32,
}

/// Names one register of the block
#[allow(non_camel_case_types)]
#[derive(Clone, Copy, PartialEq, Eq, Structural, Debug)]
pub enum Register {
    DR,
    GDIR,
    PSR,
    ICR1,
    ICR2,
    IMR,
    ISR,
    EDGE_SEL,
    DR_SET,
    DR_CLEAR,
    DR_TOGGLE,
}

impl Register {
    /// Distance in bytes of the register from the start of its block
    pub open spec fn offset_spec(self) -> u32 {
        match self {
            Register::DR => 0x00,
            Register::GDIR => 0x04,
            Register::PSR => 0x08,
            Register::ICR1 => 0x0C,
            Register::ICR2 => 0x10,
            Register::IMR => 0x14,
            Register::ISR => 0x18,
            Register::EDGE_SEL => 0x1C,
            Register::DR_SET => 0x84,
            Register::DR_CLEAR => 0x88,
            Register::DR_TOGGLE => 0x8C,
        }
    }

    /// Distance in bytes of the register from the start of its block
    pub fn offset(self) -> (bytes: u32)
        ensures
            bytes == self.offset_spec(),
    {
        match self {
            Register::DR => 0x00,
            Register::GDIR => 0x04,
            Register::PSR => 0x08,
            Register::ICR1 => 0x0C,
            Register::ICR2 => 0x10,
            Register::IMR => 0x14,
            Register::ISR => 0x18,
            Register::EDGE_SEL => 0x1C,
            Register::DR_SET => 0x84,
            Register::DR_CLEAR => 0x88,
            Register::DR_TOGGLE => 0x8C,
        }
    }
}

impl RegisterBlock {
    /// The word that a read of `reg` returns
    pub open spec fn get(self, reg: Register) -> u32 {
        match reg {
            Register::DR => self.DR,
            Register::GDIR => self.GDIR,
            Register::PSR => self.PSR,
            Register::ICR1 => self.ICR1,
            Register::ICR2 => self.ICR2,
            Register::IMR => self.IMR,
            Register::ISR => self.ISR,
            Register::EDGE_SEL => self.EDGE_SEL,
            Register::DR_SET => self.DR_SET,
            Register::DR_CLEAR => self.DR_CLEAR,
            Register::DR_TOGGLE => self.DR_TOGGLE,
        }
    }

    /// The block with `reg` holding `value`, as the bus reported it
    pub open spec fn loaded(self, reg: Register, value: u32) -> RegisterBlock {
        match reg {
            Register::DR => RegisterBlock { DR: value, ..self },
            Register::GDIR => RegisterBlock { GDIR: value, ..self },
            Register::PSR => RegisterBlock { PSR: value, ..self },
            Register::ICR1 => RegisterBlock { ICR1: value, ..self },
            Register::ICR2 => RegisterBlock { ICR2: value, ..self },
            Register::IMR => RegisterBlock { IMR: value, ..self },
            Register::ISR => RegisterBlock { ISR: value, ..self },
            Register::EDGE_SEL => RegisterBlock { EDGE_SEL: value, ..self },
            Register::DR_SET => RegisterBlock { DR_SET: value, ..self },
            Register::DR_CLEAR => RegisterBlock { DR_CLEAR: value, ..self },
            Register::DR_TOGGLE => RegisterBlock { DR_TOGGLE: value, ..self },
        }
    }

    /// The block after the driver writes `value` to `reg`.
    ///
    /// The pad status register is read-only. A write to the set, clear or
    /// toggle register sets, clears or inverts the bits of the data
    /// register where `value` has a one, and nothing else; the three
    /// registers themselves hold nothing. A flag of the interrupt status
    /// register is cleared where a one is written. Every other register
    /// holds what was written last.
    pub open spec fn written(self, reg: Register, value: u32) -> RegisterBlock {
        match reg {
            Register::PSR => self,
            Register::ISR => RegisterBlock { ISR: self.ISR & !value, ..self },
            Register::DR_SET => RegisterBlock { DR: self.DR | value, ..self },
            Register::DR_CLEAR => RegisterBlock { DR: self.DR & !value, ..self },
            Register::DR_TOGGLE => RegisterBlock { DR: self.DR ^ value, ..self },
            _ => self.loaded(reg, value),
        }
    }

    /// The block that holds the reset values
    pub open spec fn from_reset(reset: ResetValues) -> RegisterBlock {
        RegisterBlock {
            DR: reset.DR,
            GDIR: reset.GDIR,
            PSR: reset.PSR,
            ICR1: reset.ICR1,
            ICR2: reset.ICR2,
            IMR: reset.IMR,
            ISR: reset.ISR,
            EDGE_SEL: reset.EDGE_SEL,
            DR_SET: reset.DR_SET,
            DR_CLEAR: reset.DR_CLEAR,
            DR_TOGGLE: reset.DR_TOGGLE,
        }
    }

    /// Read one register of the image
    pub fn read(&self, reg: Register) -> (value: u32)
        ensures
            value == self.get(reg),
    {
        match reg {
            Register::DR => self.DR,
            Register::GDIR => self.GDIR,
            Register::PSR => self.PSR,
            Register::ICR1 => self.ICR1,
            Register::ICR2 => self.ICR2,
            Register::IMR => self.IMR,
            Register::ISR => self.ISR,
            Register::EDGE_SEL => self.EDGE_SEL,
            Register::DR_SET => self.DR_SET,
            Register::DR_CLEAR => self.DR_CLEAR,
            Register::DR_TOGGLE => self.DR_TOGGLE,
        }
    }

    /// Record the word that the bus returned for `reg`
    pub fn load(&mut self, reg: Register, value: u32)
        ensures
            *final(self) == old(self).loaded(reg, value),
    {
        match reg {
            Register::DR => self.DR = value,
            Register::GDIR => self.GDIR = value,
            Register::PSR => self.PSR = value,
            Register::ICR1 => self.ICR1 = value,
            Register::ICR2 => self.ICR2 = value,
            Register::IMR => self.IMR = value,
            Register::ISR => self.ISR = value,
            Register::EDGE_SEL => self.EDGE_SEL = value,
            Register::DR_SET => self.DR_SET = value,
            Register::DR_CLEAR => self.DR_CLEAR = value,
            Register::DR_TOGGLE => self.DR_TOGGLE = value,
        }
    }

    /// Apply a write of `value` to `reg`
    pub fn store(&mut self, reg: Register, value: u32)
        ensures
            *final(self) == old(self).written(reg, value),
    {
        match reg {
            Register::PSR => {},
            Register::ISR => {
                self.ISR = self.ISR & !value;
            },
            Register::DR_SET => {
                self.DR = self.DR | value;
            },
            Register::DR_CLEAR => {
                self.DR = self.DR & !value;
            },
            Register::DR_TOGGLE => {
                self.DR = self.DR ^ value;
            },
            _ => self.load(reg, value),
        }
    }

    /// The block as it is after a reset
    pub fn reset(reset: &ResetValues) -> (block: RegisterBlock)
        ensures
            block == RegisterBlock::from_reset(*reset),
    {
        RegisterBlock {
            DR: reset.DR,
            GDIR: reset.GDIR,
            PSR: reset.PSR,
            ICR1: reset.ICR1,
            ICR2: reset.ICR2,
            IMR: reset.IMR,
            ISR: reset.ISR,
            EDGE_SEL: reset.EDGE_SEL,
            DR_SET: reset.DR_SET,
            DR_CLEAR: reset.DR_CLEAR,
            DR_TOGGLE: reset.DR_TOGGLE,
        }
    }
}

/// Reset values for each register of a GPIO module: all zero
pub open spec fn reset_values() -> ResetValues {
    ResetValues {
        DR: 0,
        GDIR: 0,
        PSR: 0,
        ICR1: 0,
        ICR2: 0,
        IMR: 0,
        ISR: 0,
        EDGE_SEL: 0,
        DR_SET: 0,
        DR_CLEAR: 0,
        DR_TOGGLE: 0,
    }
}

/// Reset values for each register of a GPIO module
pub fn reset() -> (values: ResetValues)
    ensures
        values == reset_values(),
{
    ResetValues {
        DR: 0,
        GDIR: 0,
        PSR: 0,
        ICR1: 0,
        ICR2: 0,
        IMR: 0,
        ISR: 0,
        EDGE_SEL: 0,
        DR_SET: 0,
        DR_CLEAR: 0,
        DR_TOGGLE: 0,
    }
}

/// Start address of GPIO1
pub const GPIO1: u32 = 0x401B_8000;
/// Start address of GPIO2 on the i.MX RT 1060
pub const GPIO2: u32 = 0x401B_C000;
/// Start address of GPIO2 on the i.MX RT 1010
pub const GPIO2_1010: u32 = 0x4200_0000;
/// Start address of GPIO3
pub const GPIO3: u32 = 0x401C_0000;
/// Start address of GPIO4
pub const GPIO4: u32 = 0x401C_4000;
/// Start address of GPIO5
pub const GPIO5: u32 = 0x400C_0000;

/// The start address of GPIO module `module`, counted from 1, on `chip`
pub open spec fn address_of(chip: Chip, module: int) -> u32 {
    if module == 1 {
        GPIO1
    } else if module == 2 {
        match chip {
            Chip::Imxrt1010 => GPIO2_1010,
            Chip::Imxrt1060 => GPIO2,
        }
    } else if module == 3 {
        GPIO3
    } else if module == 4 {
        GPIO4
    } else {
        GPIO5
    }
}

/// True if `chip` has a GPIO module `module`
pub open spec fn present(chip: Chip, module: int) -> bool {
    module == 1 || module == 2 || module == 5 || (chip == Chip::Imxrt1060 && (module == 3
        || module == 4))
}

/// True of the start addresses of the GPIO modules
pub open spec fn is_instance_address(addr: u32) -> bool {
    addr == GPIO1 || addr == GPIO2 || addr == GPIO2_1010 || addr == GPIO3 || addr == GPIO4 || addr
        == GPIO5
}

/// What an instance stands for: the address of its block, the image of its
/// registers, and the writes it has issued that were not collected yet
pub struct Model {
    pub addr: u32,
    pub regs: RegisterBlock,
    pub writes: Seq<Write>,
}

impl Model {
    /// The instance after the bus reported `value` for `reg`
    pub open spec fn load(self, reg: Register, value: u32) -> Model {
        Model { regs: self.regs.loaded(reg, value), ..self }
    }

    /// The instance after the driver wrote `value` to `reg`
    pub open spec fn write(self, reg: Register, value: u32) -> Model {
        Model {
            addr: self.addr,
            regs: self.regs.written(reg, value),
            writes: self.writes.push(
                Write { addr: (self.addr + reg.offset_spec()) as u32, value },
            ),
        }
    }

    /// The instance after a read-modify-write that replaces one sub-field
    pub open spec fn modify(self, reg: Register, mask: u32, offset: u32, value: u32) -> Model {
        self.write(reg, crate::ral::with_field(self.regs.get(reg), mask, offset, value))
    }
}

/// The start address of one GPIO module's register block
struct Base {
    addr: u32,
}

impl Base {
    #[verifier::type_invariant]
    spec fn well_formed(self) -> bool {
        is_instance_address(self.addr)
    }

    fn get(&self) -> (addr: u32)
        ensures
            addr == self.addr,
            is_instance_address(addr),
    {
        proof {
            use_type_invariant(self);
        }
        self.addr
    }
}

/// One GPIO module: the capability to touch its register block
pub struct Instance {
    base: Base,
    regs: RegisterBlock,
    writes: Vec<Write>,
}

impl View for Instance {
    type V = Model;

    closed spec fn view(&self) -> Model {
        Model { addr: self.base.addr, regs: self.regs, writes: self.writes@ }
    }
}

impl Instance {
    /// An instance for the block at `addr`, with every register at its
    /// reset value
    pub(crate) fn at(addr: u32, reset: &ResetValues) -> (inst: Instance)
        requires
            is_instance_address(addr),
        ensures
            inst@ == (Model {
                addr,
                regs: RegisterBlock::from_reset(*reset),
                writes: Seq::empty(),
            }),
    {
        Instance { base: Base { addr }, regs: RegisterBlock::reset(reset), writes: Vec::new() }
    }

    /// The address of the register block
    pub fn addr(&self) -> (addr: u32)
        ensures
            addr == self@.addr,
            is_instance_address(addr),
    {
        self.base.get()
    }

    /// The image of the registers
    pub fn registers(&self) -> (regs: RegisterBlock)
        ensures
            regs == self@.regs,
    {
        self.regs
    }

    /// Read a register
    pub fn read(&self, reg: Register) -> (value: u32)
        ensures
            value == self@.regs.get(reg),
    {
        self.regs.read(reg)
    }

    /// Write a register: the image follows the register's write rule, and
    /// the write is recorded after those recorded before
    pub fn write(&mut self, reg: Register, value: u32)
        ensures
            final(self)@ == old(self)@.write(reg, value),
    {
        self.regs.store(reg, value);
        let addr: u32 = self.base.get() + reg.offset();
        self.writes.push(Write { addr, value });
    }

    /// Replace one sub-field of a register by a read-modify-write
    pub fn modify(&mut self, reg: Register, mask: u32, offset: u32, value: u32)
        requires
            offset < 32,
        ensures
            final(self)@ == old(self)@.modify(reg, mask, offset, value),
    {
        let word: u32 = crate::ral::modify_field(self.read(reg), mask, offset, value);
        self.write(reg, word);
    }

    /// Record the word that the bus returned for `reg`
    pub fn load(&mut self, reg: Register, value: u32)
        ensures
            final(self)@ == old(self)@.load(reg, value),
    {
        self.regs.load(reg, value);
    }

    /// Hand out the recorded writes, oldest first, and start a new record
    pub fn take_writes(&mut self) -> (writes: Vec<Write>)
        ensures
            writes@ == old(self)@.writes,
            final(self)@ == (Model { writes: Seq::empty(), ..old(self)@ }),
    {
        let mut writes: Vec<Write> = Vec::new();
        core::mem::swap(&mut self.writes, &mut writes);
        writes
    }
}

/// What the modules stand for: the chip, and the register block of each
/// of GPIO1 to GPIO5
pub struct PortsModel {
    pub chip: Chip,
    pub gpio1: Model,
    pub gpio2: Model,
    pub gpio3: Model,
    pub gpio4: Model,
    pub gpio5: Model,
}

impl PortsModel {
    /// The register block of GPIO module `module`, counted from 1
    pub open spec fn port(self, module: int) -> Model {
        if module == 1 {
            self.gpio1
        } else if module == 2 {
            self.gpio2
        } else if module == 3 {
            self.gpio3
        } else if module == 4 {
            self.gpio4
        } else {
            self.gpio5
        }
    }

    /// The modules with the register block of `module` replaced
    pub open spec fn with_port(self, module: int, port: Model) -> PortsModel {
        if module == 1 {
            PortsModel { gpio1: port, ..self }
        } else if module == 2 {
            PortsModel { gpio2: port, ..self }
        } else if module == 3 {
            PortsModel { gpio3: port, ..self }
        } else if module == 4 {
            PortsModel { gpio4: port, ..self }
        } else {
            PortsModel { gpio5: port, ..self }
        }
    }
}

/// The GPIO modules of a chip
///
/// A chip without GPIO3 and GPIO4 never uses their blocks.
pub struct Ports {
    chip: Chip,
    gpio1: Instance,
    gpio2: Instance,
    gpio3: Instance,
    gpio4: Instance,
    gpio5: Instance,
}

impl View for Ports {
    type V = PortsModel;

    closed spec fn view(&self) -> PortsModel {
        PortsModel {
            chip: self.chip,
            gpio1: self.gpio1@,
            gpio2: self.gpio2@,
            gpio3: self.gpio3@,
            gpio4: self.gpio4@,
            gpio5: self.gpio5@,
        }
    }
}

/// A GPIO module of `chip` after a reset, with nothing written
pub open spec fn fresh_port(chip: Chip, module: int) -> Model {
    Model {
        addr: address_of(chip, module),
        regs: RegisterBlock::from_reset(reset_values()),
        writes: Seq::empty(),
    }
}

/// The modules of `chip` after a reset, with nothing written
pub open spec fn fresh(chip: Chip) -> PortsModel {
    PortsModel {
        chip,
        gpio1: fresh_port(chip, 1),
        gpio2: fresh_port(chip, 2),
        gpio3: fresh_port(chip, 3),
        gpio4: fresh_port(chip, 4),
        gpio5: fresh_port(chip, 5),
    }
}

impl Ports {
    /// The GPIO modules of `chip`, every register at its reset value
    pub fn new(chip: Chip) -> (ports: Ports)
        ensures
            ports@ == fresh(chip),
    {
        let second: u32 = match chip {
            Chip::Imxrt1010 => GPIO2_1010,
            Chip::Imxrt1060 => GPIO2,
        };
        let ports = Ports {
            chip,
            gpio1: Instance::at(GPIO1, &reset()),
            gpio2: Instance::at(second, &reset()),
            gpio3: Instance::at(GPIO3, &reset()),
            gpio4: Instance::at(GPIO4, &reset()),
            gpio5: Instance::at(GPIO5, &reset()),
        };
        ports
    }

    /// The chip that the modules belong to
    pub fn chip(&self) -> (chip: Chip)
        ensures
            chip == self@.chip,
    {
        self.chip
    }

    /// True if the chip has a GPIO module `module`
    pub fn has(&self, module: usize) -> (there: bool)
        ensures
            there == present(self@.chip, module as int),
    {
        module == 1 || module == 2 || module == 5 || (match self.chip {
            Chip::Imxrt1010 => false,
            Chip::Imxrt1060 => module == 3 || module == 4,
        })
    }

    /// The register block of GPIO module `module`
    pub fn port(&self, module: usize) -> (port: &Instance)
        requires
            1 <= module <= 5,
        ensures
            port@ == self@.port(module as int),
    {
        if module == 1 {
            &self.gpio1
        } else if module == 2 {
            &self.gpio2
        } else if module == 3 {
            &self.gpio3
        } else if module == 4 {
            &self.gpio4
        } else {
            &self.gpio5
        }
    }

    /// The register block of GPIO module `module`, to write to it, to
    /// refresh its image, or to collect its writes
    pub fn port_mut(&mut self, module: usize) -> (port: &mut Instance)
        requires
            1 <= module <= 5,
        ensures
            port@ == old(self)@.port(module as int),
            final(self)@ == old(self)@.with_port(module as int, final(port)@),
    {
        if module == 1 {
            &mut self.gpio1
        } else if module == 2 {
            &mut self.gpio2
        } else if module == 3 {
            &mut self.gpio3
        } else if module == 4 {
            &mut self.gpio4
        } else {
            &mut self.gpio5
        }
    }
}

} // verus!
