//! GPIO driver
//!
//! A pin is an input or an output, and its type says which. The change
//! from one to the other takes the pin and returns it in the other type,
//! and changes the pin's bit in the direction register of its module on
//! the way. Nothing else writes that bit.

use vstd::prelude::*;
use core::marker::PhantomData;
use crate::ral::gpio::{present, Instance, Model, Ports, Register};

verus! {

/// Indicates that a pin is configured as an input
pub enum Input {
    Input,
}

/// Indicates that a pin is configured as an output
pub enum Output {
    Output,
}

/// Names a pin: its GPIO module, from 1 to 5, and its place in the
/// module's registers, from 0 to 31
#[derive(Clone, Copy, PartialEq, Eq, Debug)]
pub struct Pin {
    module: usize,
    offset: u32,
}

impl Pin {
    #[verifier::type_invariant]
    spec fn well_formed(self) -> bool {
        1 <= self.module <= 5 && self.offset < 32
    }

    /// The GPIO module of the pin
    pub closed spec fn module_spec(self) -> usize {
        self.module
    }

    /// The place of the pin in the module's registers
    pub closed spec fn offset_spec(self) -> u32 {
        self.offset
    }

    /// The word with only the pin's bit set
    pub open spec fn mask_spec(self) -> u32 {
        1u32 << self.offset_spec()
    }

    /// Pin `offset` of GPIO module `module`, if there is such a pin:
    /// `module` is between 1 and 5, and `offset` is below 32
    pub fn new(module: usize, offset: u32) -> (pin: Option<Pin>)
        ensures
            pin.is_some() == (1 <= module <= 5 && offset < 32),
            pin matches Some(p) ==> p.module_spec() == module && p.offset_spec() == offset,
    {
        if 1 <= module && module <= 5 && offset < 32 {
            Some(Pin { module, offset })
        } else {
            None
        }
    }

    /// The GPIO module of the pin
    pub fn module(&self) -> (module: usize)
        ensures
            module == self.module_spec(),
            1 <= module <= 5,
    {
        proof {
            use_type_invariant(self);
        }
        self.module
    }

    /// The place of the pin in the module's registers
    pub fn offset(&self) -> (offset: u32)
        ensures
            offset == self.offset_spec(),
            offset < 32,
    {
        proof {
            use_type_invariant(self);
        }
        self.offset
    }
}

/// A GPIO pin in the direction `D`, made from the pad `P`
pub struct GPIO<P, D> {
    pin: P,
    id: Pin,
    dir: PhantomData<D>,
}

/// The module's block after the pins of `mask` were made outputs
pub open spec fn made_output(port: Model, mask: u32) -> Model {
    port.write(Register::GDIR, port.regs.GDIR | mask)
}

/// The module's block after the pins of `mask` were made inputs
pub open spec fn made_input(port: Model, mask: u32) -> Model {
    port.write(Register::GDIR, port.regs.GDIR & !mask)
}

impl<P, D> GPIO<P, D> {
    /// The pad that the pin was made from
    pub closed spec fn pad_spec(&self) -> P {
        self.pin
    }

    /// The name of the pin
    pub closed spec fn id_spec(&self) -> Pin {
        self.id
    }

    /// The register block of the pin's GPIO module
    pub fn register_block<'a>(&self, ports: &'a Ports) -> (block: &'a Instance)
        requires
            present(ports@.chip, self.id_spec().module_spec() as int),
        ensures
            block@ == ports@.port(self.id_spec().module_spec() as int),
    {
        ports.port(self.module())
    }

    /// The word with only the pin's bit set
    pub fn offset(&self) -> (mask: u32)
        ensures
            mask == self.id_spec().mask_spec(),
    {
        1u32 << self.id.offset()
    }

    /// The return is a non-zero number, since the GPIO identifiers
    /// start with '1.'
    pub fn module(&self) -> (module: usize)
        ensures
            module == self.id_spec().module_spec(),
            1 <= module <= 5,
    {
        self.id.module()
    }

    /// Write `value` to `reg` of the pin's GPIO module
    fn write(&self, ports: &mut Ports, reg: Register, value: u32)
        requires
            present(old(ports)@.chip, self.id_spec().module_spec() as int),
        ensures
            final(ports)@ == old(ports)@.with_port(
                self.id_spec().module_spec() as int,
                old(ports)@.port(self.id_spec().module_spec() as int).write(reg, value),
            ),
    {
        let module: usize = self.module();
        let port = ports.port_mut(module);
        port.write(reg, value);
    }
}

impl<P> GPIO<P, Input> {
    /// Create a GPIO from a pad that supports a GPIO configuration
    ///
    /// The pad must be prepared for use as a GPIO, and `id` must name the
    /// pin of that pad. All pads may be used as a GPIO.
    pub fn new(pin: P, id: Pin) -> (gpio: Self)
        ensures
            gpio.pad_spec() == pin,
            gpio.id_spec() == id,
    {
        GPIO { pin, id, dir: PhantomData }
    }

    /// Transition the GPIO from an input to an output
    ///
    /// One read-modify-write of the module's direction register sets the
    /// pin's bit and keeps the bits of the other pins.
    pub fn output(self, ports: &mut Ports) -> (gpio: GPIO<P, Output>)
        requires
            present(old(ports)@.chip, self.id_spec().module_spec() as int),
        ensures
            gpio.pad_spec() == self.pad_spec(),
            gpio.id_spec() == self.id_spec(),
            final(ports)@ == old(ports)@.with_port(
                self.id_spec().module_spec() as int,
                made_output(
                    old(ports)@.port(self.id_spec().module_spec() as int),
                    self.id_spec().mask_spec(),
                ),
            ),
    {
        let gdir: u32 = self.register_block(ports).read(Register::GDIR);
        self.write(ports, Register::GDIR, gdir | self.offset());
        GPIO { pin: self.pin, id: self.id, dir: PhantomData }
    }

    /// Returns `true` if this input pin is high
    pub fn is_set(&self, ports: &Ports) -> (high: bool)
        requires
            present(ports@.chip, self.id_spec().module_spec() as int),
        ensures
            high == (ports@.port(self.id_spec().module_spec() as int).regs.PSR
                & self.id_spec().mask_spec() != 0),
    {
        self.register_block(ports).read(Register::PSR) & self.offset() != 0
    }
}

impl<P> GPIO<P, Output> {
    /// Transition the pin from an output to an input
    ///
    /// One read-modify-write of the module's direction register clears
    /// the pin's bit and keeps the bits of the other pins.
    pub fn input(self, ports: &mut Ports) -> (gpio: GPIO<P, Input>)
        requires
            present(old(ports)@.chip, self.id_spec().module_spec() as int),
        ensures
            gpio.pad_spec() == self.pad_spec(),
            gpio.id_spec() == self.id_spec(),
            final(ports)@ == old(ports)@.with_port(
                self.id_spec().module_spec() as int,
                made_input(
                    old(ports)@.port(self.id_spec().module_spec() as int),
                    self.id_spec().mask_spec(),
                ),
            ),
    {
        let gdir: u32 = self.register_block(ports).read(Register::GDIR);
        self.write(ports, Register::GDIR, gdir & !self.offset());
        GPIO { pin: self.pin, id: self.id, dir: PhantomData }
    }

    /// Drive the GPIO high
    pub fn set(&mut self, ports: &mut Ports)
        requires
            present(old(ports)@.chip, old(self).id_spec().module_spec() as int),
        ensures
            *final(self) == *old(self),
            final(ports)@ == old(ports)@.with_port(
                old(self).id_spec().module_spec() as int,
                old(ports)@.port(old(self).id_spec().module_spec() as int).write(
                    Register::DR_SET,
                    old(self).id_spec().mask_spec(),
                ),
            ),
            final(ports)@.port(old(self).id_spec().module_spec() as int).regs.DR
                & old(self).id_spec().mask_spec() != 0,
    {
        proof {
            use_type_invariant(self.id);
            lemma_drive(
                ports@.port(self.id_spec().module_spec() as int),
                self.id_spec().offset_spec(),
            );
        }
        self.write(ports, Register::DR_SET, self.offset());
    }

    /// Drive the GPIO low
    pub fn clear(&mut self, ports: &mut Ports)
        requires
            present(old(ports)@.chip, old(self).id_spec().module_spec() as int),
        ensures
            *final(self) == *old(self),
            final(ports)@ == old(ports)@.with_port(
                old(self).id_spec().module_spec() as int,
                old(ports)@.port(old(self).id_spec().module_spec() as int).write(
                    Register::DR_CLEAR,
                    old(self).id_spec().mask_spec(),
                ),
            ),
            final(ports)@.port(old(self).id_spec().module_spec() as int).regs.DR
                & old(self).id_spec().mask_spec() == 0,
    {
        proof {
            use_type_invariant(self.id);
            lemma_drive(
                ports@.port(self.id_spec().module_spec() as int),
                self.id_spec().offset_spec(),
            );
        }
        self.write(ports, Register::DR_CLEAR, self.offset());
    }

    /// Returns `true` if the pin is driving high
    pub fn is_set(&self, ports: &Ports) -> (high: bool)
        requires
            present(ports@.chip, self.id_spec().module_spec() as int),
        ensures
            high == (ports@.port(self.id_spec().module_spec() as int).regs.DR
                & self.id_spec().mask_spec() != 0),
    {
        self.register_block(ports).read(Register::DR) & self.offset() != 0u32
    }

    /// Alternate the state of the pin
    ///
    /// Using `toggle` will be more efficient than checking [`is_set`](#method.is_set)
    /// and then selecting the opposite state.
    pub fn toggle(&mut self, ports: &mut Ports)
        requires
            present(old(ports)@.chip, old(self).id_spec().module_spec() as int),
        ensures
            *final(self) == *old(self),
            final(ports)@ == old(ports)@.with_port(
                old(self).id_spec().module_spec() as int,
                old(ports)@.port(old(self).id_spec().module_spec() as int).write(
                    Register::DR_TOGGLE,
                    old(self).id_spec().mask_spec(),
                ),
            ),
            (final(ports)@.port(old(self).id_spec().module_spec() as int).regs.DR
                & old(self).id_spec().mask_spec() != 0) == (old(ports)@.port(
                old(self).id_spec().module_spec() as int,
            ).regs.DR & old(self).id_spec().mask_spec() == 0),
    {
        proof {
            use_type_invariant(self.id);
            lemma_drive(
                ports@.port(self.id_spec().module_spec() as int),
                self.id_spec().offset_spec(),
            );
        }
        self.write(ports, Register::DR_TOGGLE, self.offset());
    }
}

/// A pin that is made an output and then an input again has its direction
/// bit cleared, and the direction bit of every other pin of the module is
/// what it was before. So the direction register is back at its first
/// value if the pin's bit was clear at first, as it is for an input.
pub proof fn lemma_round_trip(port: Model, offset: u32, other: u32)
    requires
        offset < 32,
        other < 32,
        other != offset,
    ensures
        ({
            let mask = 1u32 << offset;
            let back = made_input(made_output(port, mask), mask);
            &&& back.regs.GDIR == port.regs.GDIR & !mask
            &&& port.regs.GDIR & mask == 0 ==> back.regs.GDIR == port.regs.GDIR
            &&& back.regs.GDIR & (1u32 << other) == port.regs.GDIR & (1u32 << other)
            &&& made_output(port, mask).regs.GDIR & (1u32 << other) == port.regs.GDIR & (1u32
                << other)
            &&& made_output(port, mask).regs.GDIR & mask == mask
        }),
{
    let gdir = port.regs.GDIR;
    assert(offset < 32 && other < 32 && other != offset ==> {
        let mask = 1u32 << offset;
        &&& (gdir | mask) & !mask == gdir & !mask
        &&& (gdir & mask == 0 ==> gdir & !mask == gdir)
        &&& (gdir & !mask) & (1u32 << other) == gdir & (1u32 << other)
        &&& (gdir | mask) & (1u32 << other) == gdir & (1u32 << other)
        &&& (gdir | mask) & mask == mask
    }) by (bit_vector);
}

/// What the data register shows of a pin after the pin was set, cleared or
/// toggled: high, low, and the opposite of before.
pub proof fn lemma_drive(port: Model, offset: u32)
    requires
        offset < 32,
    ensures
        ({
            let mask = 1u32 << offset;
            let dr = port.regs.DR;
            &&& port.write(Register::DR_SET, mask).regs.DR & mask != 0
            &&& port.write(Register::DR_CLEAR, mask).regs.DR & mask == 0
            &&& (port.write(Register::DR_TOGGLE, mask).regs.DR & mask != 0) == (dr & mask == 0)
        }),
{
    let dr = port.regs.DR;
    assert(offset < 32 ==> {
        let mask = 1u32 << offset;
        &&& (dr | mask) & mask != 0
        &&& (dr & !mask) & mask == 0
        &&& (((dr ^ mask) & mask != 0) == (dr & mask == 0))
    }) by (bit_vector);
}

/// Setting, clearing or toggling a pin leaves what the data register
/// shows of every other pin of the module.
pub proof fn lemma_drive_keeps_others(port: Model, offset: u32, other: u32)
    requires
        offset < 32,
        other < 32,
        other != offset,
    ensures
        ({
            let mask = 1u32 << offset;
            let bit = 1u32 << other;
            let dr = port.regs.DR;
            &&& port.write(Register::DR_SET, mask).regs.DR & bit == dr & bit
            &&& port.write(Register::DR_CLEAR, mask).regs.DR & bit == dr & bit
            &&& port.write(Register::DR_TOGGLE, mask).regs.DR & bit == dr & bit
        }),
{
    let dr = port.regs.DR;
    assert(offset < 32 && other < 32 && other != offset ==> {
        let mask = 1u32 << offset;
        let bit = 1u32 << other;
        &&& (dr | mask) & bit == dr & bit
        &&& (dr & !mask) & bit == dr & bit
        &&& (dr ^ mask) & bit == dr & bit
    }) by (bit_vector);
}

} // verus!
