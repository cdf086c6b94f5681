//! i.MX RT Clock Control Module (CCM)
//!
//! The clock roots start disabled. Enabling a root takes the [`Handle`] to
//! the clock controller's registers, turns every clock gate on that root
//! off, and selects the root's source and divider. A peripheral's gate is
//! then set through the enabled root. A gate is a 2-bit field; sixteen of
//! them share one gate register, and setting one leaves the others alone.

use vstd::prelude::*;
use core::marker::PhantomData;
use crate::ral;
use crate::ral::{Chip, Write};

pub mod perclock;
pub mod uart;

pub use perclock::{
    clock_gate_gpt, configure as configure_perclock, CLOCK_FREQUENCY_HZ as PERCLOCK_FREQUENCY_HZ,
    GPT,
};
pub use uart::{
    clock_gate as clock_gate_uart, configure as configure_uart,
    CLOCK_FREQUENCY_HZ as UART_CLOCK_FREQUENCY_HZ, UART,
};

verus! {

/// A peripheral instance whose clock can be gated
///
/// Implement `Instance` only for a true peripheral instance of the chip:
/// the clock gates are set for whatever `instance` names.
pub trait Instance {
    /// An identifier that describes the instance
    type Inst: Copy + PartialEq;

    /// The identifier that describes this peripheral instance
    spec fn instance_spec(&self) -> Self::Inst;

    /// True if `inst` exists on `chip`
    spec fn is_valid_spec(chip: Chip, inst: Self::Inst) -> bool;

    /// Returns the identifier that describes this peripheral instance
    fn instance(&self) -> (inst: Self::Inst)
        ensures
            inst == self.instance_spec(),
    ;

    /// Returns `true` if this instance is valid for a particular chip
    fn is_valid(chip: Chip, inst: Self::Inst) -> (valid: bool)
        ensures
            valid == Self::is_valid_spec(chip, inst),
    ;
}

/// Returns `Some(inst)` if `inst` is valid for this peripheral, or
/// `None` if `inst` is not valid.
pub fn check_instance<I: Instance>(chip: Chip, inst: I::Inst) -> (checked: Option<I::Inst>)
    ensures
        checked == (if I::is_valid_spec(chip, inst) {
            Some(inst)
        } else {
            None
        }),
{
    if I::is_valid(chip, inst) {
        Some(inst)
    } else {
        None
    }
}

/// Describes a clock gate setting
#[derive(Debug, Clone, Copy, PartialEq, Eq, Structural)]
pub enum ClockGate {
    /// Clock is off during all modes
    ///
    /// Stop enter hardware handshake is disabled.
    Off,
    /// Clock is on in run mode, but off in wait and stop modes
    OnlyRun,
    /// Clock is on in all modes, except stop mode
    On,
}

impl ClockGate {
    /// The two bits that stand for the setting in a gate register
    pub open spec fn bits_spec(self) -> u8 {
        match self {
            ClockGate::Off => 0b00,
            ClockGate::OnlyRun => 0b01,
            ClockGate::On => 0b11,
        }
    }

    /// The two bits that stand for the setting in a gate register
    pub fn bits(self) -> (bits: u8)
        ensures
            bits == self.bits_spec(),
    {
        match self {
            ClockGate::Off => 0b00,
            ClockGate::OnlyRun => 0b01,
            ClockGate::On => 0b11,
        }
    }
}

/// Crystal oscillator frequency
pub const OSCILLATOR_FREQUENCY_HZ: u32 = 24_000_000;

/// Address of the first clock gate register
pub const CCGR_BASE: u32 = 0x400F_C068;
/// Address of the register that selects and divides the periodic clock
pub const CSCMR1: u32 = 0x400F_C01C;
/// Address of the register that selects and divides the UART clock
pub const CSCDR1: u32 = 0x400F_C024;

/// The 2-bit field of gate `gate` in a gate register
pub open spec fn gate_of(register: u32, gate: usize) -> u32 {
    (register >> ((gate * 2) as u32)) & 0b11
}

/// The clock gate register with the field of gate `gate` holding the low
/// two bits of `value`
pub open spec fn with_gate(register: u32, gate: usize, value: u8) -> u32 {
    (register & !(0b11u32 << ((gate * 2) as u32))) | ((0b11u32 & (value as u32)) << ((gate
        * 2) as u32))
}

/// The clock gate register after the fields of `gates` were set to
/// `value`, one after the other
pub open spec fn with_gates(register: u32, gates: Seq<usize>, value: u8) -> u32
    decreases gates.len(),
{
    if gates.len() == 0 {
        register
    } else {
        with_gate(with_gates(register, gates.drop_last(), value), gates.last(), value)
    }
}

/// True if every element of `gates` names one of the sixteen fields of a
/// gate register
pub open spec fn valid_gates(gates: Seq<usize>) -> bool {
    forall|i: int| 0 <= i < gates.len() ==> gates[i] < 16
}

/// Setting one gate gives that gate the value and keeps every other gate.
pub proof fn lemma_with_gate(register: u32, gate: usize, value: u8, other: usize)
    requires
        gate < 16,
        other < 16,
    ensures
        gate_of(with_gate(register, gate, value), other) == (if other == gate {
            (value & 0b11) as u32
        } else {
            gate_of(register, other)
        }),
{
    let g: u32 = (gate * 2) as u32;
    let o: u32 = (other * 2) as u32;
    let v: u32 = value as u32;
    let low: u8 = value & 0b11;
    assert(low as u32 == v & 0b11) by (bit_vector)
        requires
            low == value & 0b11,
            v == value as u32,
    ;
    assert(g < 32 && o < 32 && g % 2 == 0 && o % 2 == 0 ==> (((register & !(0b11u32 << g)) | ((
    0b11u32 & v) << g)) >> o) & 0b11 == (if o == g {
        v & 0b11
    } else {
        (register >> o) & 0b11
    })) by (bit_vector);
}

/// After a masked write of `value` to the fields of `gates`, each of the
/// sixteen gates of the register holds `value` if it is named in `gates`,
/// and what it held before if it is not.
pub proof fn lemma_with_gates(register: u32, gates: Seq<usize>, value: u8, other: usize)
    requires
        valid_gates(gates),
        other < 16,
    ensures
        gate_of(with_gates(register, gates, value), other) == (if gates.contains(other) {
            (value & 0b11) as u32
        } else {
            gate_of(register, other)
        }),
    decreases gates.len(),
{
    if gates.len() > 0 {
        let front = gates.drop_last();
        lemma_with_gates(register, front, value, other);
        lemma_with_gate(with_gates(register, front, value), gates.last(), value, other);
        if gates.last() == other {
            assert(gates[gates.len() - 1] == other);
        } else if front.contains(other) {
            let i = choose|i: int| 0 <= i < front.len() && front[i] == other;
            assert(gates[i] == other);
        } else if gates.contains(other) {
            let i = choose|i: int| 0 <= i < gates.len() && gates[i] == other;
            assert(front[i] == other);
        }
    }
}

/// Set the fields of `gates` in a gate register to `value`, leaving every
/// other field of the register as it is
///
/// Each element of `gates` names one of the sixteen 2-bit fields of the
/// register. Afterwards each field that is named holds the low two bits of
/// `value`, and each field that is not named holds what it held before.
pub fn set_clock_gate(ccgr: &mut u32, gates: &[usize], value: u8)
    requires
        valid_gates(gates@),
    ensures
        *final(ccgr) == with_gates(*old(ccgr), gates@, value),
        forall|gate: usize|
            gate < 16 ==> #[trigger] gate_of(*final(ccgr), gate) == (if gates@.contains(gate) {
                (value & 0b11) as u32
            } else {
                gate_of(*old(ccgr), gate)
            }),
{
    let mut register: u32 = *ccgr;
    let mut i: usize = 0;
    while i < gates.len()
        invariant
            i <= gates.len(),
            valid_gates(gates@),
            register == with_gates(*old(ccgr), gates@.take(i as int), value),
        decreases gates.len() - i,
    {
        let shift: usize = gates[i] * 2;
        register &= !(0b11u32 << shift);
        register |= (0b11u32 & (value as u32)) << shift;
        proof {
            assert(gates@.take(i + 1).drop_last() =~= gates@.take(i as int));
        }
        i += 1;
    }
    proof {
        assert(gates@.take(gates.len() as int) =~= gates@);
        assert forall|gate: usize| gate < 16 implies #[trigger] gate_of(register, gate) == (
        if gates@.contains(gate) {
            (value & 0b11) as u32
        } else {
            gate_of(*old(ccgr), gate)
        }) by {
            lemma_with_gates(*old(ccgr), gates@, value, gate);
        }
    }
    *ccgr = register;
}

/// What the handle stands for: the chip, the image of the clock
/// controller's registers, and the writes that were issued and not
/// collected yet
pub struct Model {
    pub chip: Chip,
    /// The eight clock gate registers
    pub ccgr: Seq<u32>,
    /// The register that selects and divides the periodic clock
    pub cscmr1: u32,
    /// The register that selects and divides the UART clock
    pub cscdr1: u32,
    pub writes: Seq<Write>,
}

impl Model {
    /// The controller after the fields `gates` of gate register `index`
    /// were set to `value` by one read-modify-write
    pub open spec fn gated(self, index: int, gates: Seq<usize>, value: u8) -> Model {
        let word = with_gates(self.ccgr[index], gates, value);
        Model {
            ccgr: self.ccgr.update(index, word),
            writes: self.writes.push(Write { addr: (CCGR_BASE + 4 * index) as u32, value: word }),
            ..self
        }
    }

    /// The controller after one write of `value` to `CSCMR1`
    pub open spec fn wrote_cscmr1(self, value: u32) -> Model {
        Model {
            cscmr1: value,
            writes: self.writes.push(Write { addr: CSCMR1, value }),
            ..self
        }
    }

    /// The controller after one write of `value` to `CSCDR1`
    pub open spec fn wrote_cscdr1(self, value: u32) -> Model {
        Model {
            cscdr1: value,
            writes: self.writes.push(Write { addr: CSCDR1, value }),
            ..self
        }
    }
}

/// A gating sets the gates that it names, in the one register that it
/// names, to the low two bits of the value. It leaves every other gate of
/// every register, and the two clock root registers, as they were.
pub proof fn lemma_gated(
    ccm: Model,
    index: int,
    gates: Seq<usize>,
    value: u8,
    other_index: int,
    other: usize,
)
    requires
        0 <= index < ccm.ccgr.len(),
        0 <= other_index < ccm.ccgr.len(),
        valid_gates(gates),
        other < 16,
    ensures
        ({
            let after = ccm.gated(index, gates, value);
            &&& after.chip == ccm.chip
            &&& after.ccgr.len() == ccm.ccgr.len()
            &&& after.cscmr1 == ccm.cscmr1
            &&& after.cscdr1 == ccm.cscdr1
            &&& gate_of(after.ccgr[other_index], other) == (if other_index == index
                && gates.contains(other) {
                (value & 0b11) as u32
            } else {
                gate_of(ccm.ccgr[other_index], other)
            })
        }),
{
    lemma_with_gates(ccm.ccgr[index], gates, value, other);
}

/// Handle to the CCM register block
///
/// Whoever holds the handle has the only access to the clock controller's
/// shared configuration registers.
pub struct Handle {
    chip: Chip,
    ccgr: [u32; 8],
    cscmr1: u32,
    cscdr1: u32,
    writes: Vec<Write>,
}

impl View for Handle {
    type V = Model;

    closed spec fn view(&self) -> Model {
        Model {
            chip: self.chip,
            ccgr: self.ccgr@,
            cscmr1: self.cscmr1,
            cscdr1: self.cscdr1,
            writes: self.writes@,
        }
    }
}

impl Handle {
    /// The handle holds the image of eight gate registers.
    pub proof fn lemma_eight_gate_registers(&self)
        ensures
            self@.ccgr.len() == 8,
    {
    }

    /// The chip that the handle belongs to
    pub fn chip(&self) -> (chip: Chip)
        ensures
            chip == self@.chip,
    {
        self.chip
    }

    /// The image of gate register `index`
    pub fn ccgr(&self, index: usize) -> (word: u32)
        requires
            index < 8,
        ensures
            word == self@.ccgr[index as int],
    {
        self.ccgr[index]
    }

    /// The image of `CSCMR1`
    pub fn cscmr1(&self) -> (word: u32)
        ensures
            word == self@.cscmr1,
    {
        self.cscmr1
    }

    /// The image of `CSCDR1`
    pub fn cscdr1(&self) -> (word: u32)
        ensures
            word == self@.cscdr1,
    {
        self.cscdr1
    }

    /// Record the word that the bus returned for gate register `index`
    pub fn load_ccgr(&mut self, index: usize, value: u32)
        requires
            index < 8,
        ensures
            final(self)@ == (Model {
                ccgr: old(self)@.ccgr.update(index as int, value),
                ..old(self)@
            }),
    {
        self.ccgr[index] = value;
        assert(self@.ccgr =~= old(self)@.ccgr.update(index as int, value));
    }

    /// Record the word that the bus returned for `CSCMR1`
    pub fn load_cscmr1(&mut self, value: u32)
        ensures
            final(self)@ == (Model { cscmr1: value, ..old(self)@ }),
    {
        self.cscmr1 = value;
    }

    /// Record the word that the bus returned for `CSCDR1`
    pub fn load_cscdr1(&mut self, value: u32)
        ensures
            final(self)@ == (Model { cscdr1: value, ..old(self)@ }),
    {
        self.cscdr1 = value;
    }

    /// Hand out the recorded writes, oldest first, and start a new record
    pub fn take_writes(&mut self) -> (writes: Vec<Write>)
        ensures
            writes@ == old(self)@.writes,
            final(self)@ == (Model { writes: Seq::empty(), ..old(self)@ }),
    {
        let mut writes: Vec<Write> = Vec::new();
        core::mem::swap(&mut self.writes, &mut writes);
        writes
    }

    /// Set the fields `gates` of gate register `index` to `value` by one
    /// read-modify-write
    pub(crate) fn gate(&mut self, index: usize, gates: &[usize], value: u8)
        requires
            index < 8,
            valid_gates(gates@),
        ensures
            final(self)@ == old(self)@.gated(index as int, gates@, value),
    {
        let mut word: u32 = self.ccgr[index];
        set_clock_gate(&mut word, gates, value);
        self.ccgr[index] = word;
        let addr: u32 = CCGR_BASE + 4 * (index as u32);
        self.writes.push(Write { addr, value: word });
        assert(self@.ccgr =~= old(self)@.ccgr.update(index as int, word));
    }

    pub(crate) fn write_cscmr1(&mut self, value: u32)
        ensures
            final(self)@ == old(self)@.wrote_cscmr1(value),
    {
        self.cscmr1 = value;
        self.writes.push(Write { addr: CSCMR1, value });
    }

    pub(crate) fn write_cscdr1(&mut self, value: u32)
        ensures
            final(self)@ == old(self)@.wrote_cscdr1(value),
    {
        self.cscdr1 = value;
        self.writes.push(Write { addr: CSCDR1, value });
    }
}

/// The root clocks and CCM handle
///
/// Most root clocks are disabled. Call `enable`, and supply the
/// `handle`, to enable them.
#[non_exhaustive]
pub struct CCM {
    /// The handle to the CCM register block
    ///
    /// `Handle` is used throughout the HAL
    pub handle: Handle,
    /// The periodic clock handle
    ///
    /// `perclock` is used for timers, including GPT and PIT timers
    pub perclock: Disabled<PerClock<ral::gpt::Instance>>,
    /// The UART clock
    ///
    /// `uart_clock` is for UART peripherals.
    pub uart_clock: Disabled<UARTClock<ral::lpuart::Instance>>,
}

impl CCM {
    /// Construct a new CCM peripheral
    ///
    /// This should only be called once for a chip: the handle it returns is
    /// meant to be the only access to the clock controller. The image of the
    /// registers starts at zero and nothing is recorded as written; load the
    /// registers before they are modified.
    pub fn new(chip: Chip) -> (ccm: CCM)
        ensures
            ccm.handle@ == (Model {
                chip,
                ccgr: Seq::new(8, |i: int| 0u32),
                cscmr1: 0,
                cscdr1: 0,
                writes: Seq::empty(),
            }),
    {
        let handle = Handle { chip, ccgr: [0u32; 8], cscmr1: 0, cscdr1: 0, writes: Vec::new() };
        assert(handle@.ccgr =~= Seq::new(8, |i: int| 0u32));
        CCM {
            handle,
            perclock: Disabled(PerClock::assume_enabled()),
            uart_clock: Disabled(UARTClock::assume_enabled()),
        }
    }
}

/// A disabled clock of type `Clock`
///
/// Call `enable` on your instance to enable the clock.
pub struct Disabled<Clock>(pub(crate) Clock);

/// The periodic clock root
///
/// `PerClock` is the input clock for GPT and PIT. It runs at
/// 1MHz.
pub struct PerClock<G>(PhantomData<G>);

impl<G> PerClock<G> {
    /// Assume that the clock is enabled, and acquire the enabled clock
    ///
    /// Nothing is written: use this only when the clock was configured
    /// through another interface.
    pub fn assume_enabled() -> Self {
        PerClock(PhantomData)
    }
}

/// The UART clock
pub struct UARTClock<C>(PhantomData<C>);

impl<C> UARTClock<C> {
    /// Assume that the clock is enabled, and acquire the enabled clock
    ///
    /// Nothing is written: use this only when the clock was configured
    /// through another interface.
    pub fn assume_enabled() -> Self {
        UARTClock(PhantomData)
    }
}

} // verus!
