//! Periodic clock implementations

use vstd::prelude::*;
use vstd::pervasive::unreached;
use super::{check_instance, gate_of, ClockGate, Disabled, Handle, Instance, Model, PerClock};
use crate::ral;
use crate::ral::gpt::instances::{GPT1, GPT2};
use crate::ral::{field, with_field, Chip};

verus! {

/// Peripheral instance identifier for GPT
#[derive(Debug, Clone, Copy, PartialEq, Eq, Structural)]
pub enum GPT {
    GPT1,
    GPT2,
}

/// Periodic clock frequency (Hz)
///
/// This may be further divided by internal GPT dividers.
pub const CLOCK_FREQUENCY_HZ: u32 = super::OSCILLATOR_FREQUENCY_HZ / PERIODIC_CLOCK_DIVIDER;

/// The divider between the oscillator and the periodic clock. Not every
/// value works on the silicon, so this is a constant and no parameter.
pub const PERIODIC_CLOCK_DIVIDER: u32 = 24;

/// Divider of the periodic clock, the low 5 bits of `CSCMR1`; the clock is
/// divided by the field's value plus one
pub const PERCLK_PODF_MASK: u32 = 0x0000_001F;
pub const PERCLK_PODF_OFFSET: u32 = 0;
/// Source of the periodic clock, bit 6 of `CSCMR1`
pub const PERCLK_SEL_MASK: u32 = 0x0000_0040;
pub const PERCLK_SEL_OFFSET: u32 = 6;
/// The source value that selects the crystal oscillator
pub const OSCILLATOR: u32 = 1;

/// The clock gate register that holds the gates of `gpt`
pub open spec fn gate_register(gpt: GPT) -> int {
    match gpt {
        GPT::GPT1 => 1,
        GPT::GPT2 => 0,
    }
}

/// The gates of `gpt` in its gate register
pub open spec fn gates(gpt: GPT) -> Seq<usize> {
    match gpt {
        GPT::GPT1 => seq![10usize, 11usize],
        GPT::GPT2 => seq![12usize, 13usize],
    }
}

/// The clock controller after the gates of `gpt` were set to `gate`:
/// nothing changes, and nothing is written, if `gpt` is no valid instance
/// of `G` on the chip
pub open spec fn gated<G: Instance<Inst = GPT>>(ccm: Model, gpt: GPT, gate: ClockGate) -> Model {
    if G::is_valid_spec(ccm.chip, gpt) {
        ccm.gated(gate_register(gpt), gates(gpt), gate.bits_spec())
    } else {
        ccm
    }
}

/// The clock controller after the periodic clock root was configured: the
/// oscillator is its source, divided by [`PERIODIC_CLOCK_DIVIDER`]
pub open spec fn configured(ccm: Model) -> Model {
    ccm.wrote_cscmr1(
        with_field(
            with_field(
                ccm.cscmr1,
                PERCLK_PODF_MASK,
                PERCLK_PODF_OFFSET,
                (PERIODIC_CLOCK_DIVIDER - 1) as u32,
            ),
            PERCLK_SEL_MASK,
            PERCLK_SEL_OFFSET,
            OSCILLATOR,
        ),
    )
}

/// The clock controller after the periodic clock root was enabled: the
/// gates of both timers were turned off, then the root was configured
pub open spec fn enabled<G: Instance<Inst = GPT>>(ccm: Model) -> Model {
    configured(gated::<G>(gated::<G>(ccm, GPT::GPT1, ClockGate::Off), GPT::GPT2, ClockGate::Off))
}

impl<G> PerClock<G> {
    /// Set the clock gate for the GPT
    pub fn clock_gate_gpt(&mut self, handle: &mut Handle, gpt: &mut G, gate: ClockGate) where
        G: Instance<Inst = GPT>,

        ensures
            final(handle)@ == gated::<G>(old(handle)@, old(gpt).instance_spec(), gate),
            *final(gpt) == *old(gpt),
    {
        let inst = gpt.instance();
        clock_gate_gpt::<G>(handle, inst, gate);
    }
}

impl<G> Disabled<PerClock<G>> {
    /// Enable the periodic clock root
    ///
    /// When `enable` returns, all GPT clock gates will be set to off. To
    /// re-enable clock gates, use the clock gate methods on
    /// [`PerClock`](struct.PerClock.html).
    ///
    /// The gates of GPT1 and then of GPT2 are turned off, each pair by one
    /// read-modify-write of its gate register; then the clock root
    /// register is written once. So both gates of every GPT that is valid
    /// on the chip are off afterwards, and every other gate is what it
    /// was.
    pub fn enable(self, handle: &mut Handle) -> (clock: PerClock<G>) where
        G: Instance<Inst = GPT>,

        ensures
            final(handle)@ == enabled::<G>(old(handle)@),
            forall|index: int, gate: usize|
                0 <= index < 8 && gate < 16 ==> #[trigger] gate_of(
                    final(handle)@.ccgr[index],
                    gate,
                ) == (if is_gpt_gate::<G>(old(handle)@.chip, index, gate) {
                    0
                } else {
                    gate_of(old(handle)@.ccgr[index], gate)
                }),
    {
        proof {
            handle.lemma_eight_gate_registers();
            assert forall|index: int, gate: usize|
                0 <= index < 8 && gate < 16 implies #[trigger] gate_of(
                enabled::<G>(handle@).ccgr[index],
                gate,
            ) == (if is_gpt_gate::<G>(handle@.chip, index, gate) {
                0
            } else {
                gate_of(handle@.ccgr[index], gate)
            }) by {
                lemma_enabled::<G>(handle@, index, gate);
            }
        }
        clock_gate_gpt::<G>(handle, GPT::GPT1, ClockGate::Off);
        clock_gate_gpt::<G>(handle, GPT::GPT2, ClockGate::Off);
        configure(handle);
        self.0
    }
}

/// Set the GPT clock gate
///
/// This does not ask for the enabled clock root. Consider using the
/// [`PerClock`](struct.PerClock.html) for a safer interface.
pub fn clock_gate_gpt<G: Instance<Inst = GPT>>(handle: &mut Handle, gpt: GPT, gate: ClockGate)
    ensures
        final(handle)@ == gated::<G>(old(handle)@, gpt, gate),
{
    let value = gate.bits();
    match check_instance::<G>(handle.chip(), gpt) {
        Some(GPT::GPT1) => {
            let gates: [usize; 2] = [10, 11];
            assert(gates@ =~= self::gates(GPT::GPT1));
            handle.gate(1, gates.as_slice(), value)
        },
        Some(GPT::GPT2) => {
            let gates: [usize; 2] = [12, 13];
            assert(gates@ =~= self::gates(GPT::GPT2));
            handle.gate(0, gates.as_slice(), value)
        },
        _ => (),
    }
}

/// Configure the periodic clock root
///
/// This does not ask for the disabled clock root. Consider using the
/// [`PerClock`](struct.PerClock.html) for a safer interface.
pub fn configure(handle: &mut Handle)
    ensures
        final(handle)@ == configured(old(handle)@),
{
    let mut cscmr1: u32 = handle.cscmr1();
    cscmr1 = ral::modify_field(
        cscmr1,
        PERCLK_PODF_MASK,
        PERCLK_PODF_OFFSET,
        PERIODIC_CLOCK_DIVIDER - 1,
    );
    cscmr1 = ral::modify_field(cscmr1, PERCLK_SEL_MASK, PERCLK_SEL_OFFSET, OSCILLATOR);
    handle.write_cscmr1(cscmr1);
}

impl Instance for ral::gpt::Instance {
    type Inst = GPT;

    open spec fn instance_spec(&self) -> GPT {
        if self@.addr == GPT1 {
            GPT::GPT1
        } else {
            GPT::GPT2
        }
    }

    open spec fn is_valid_spec(chip: Chip, gpt: GPT) -> bool {
        true
    }

    fn instance(&self) -> (gpt: GPT) {
        let addr: u32 = self.addr();
        if addr == GPT1 {
            GPT::GPT1
        } else if addr == GPT2 {
            GPT::GPT2
        } else {
            proof {
                let n = choose|n: int| 1 <= n <= 2 && addr == #[trigger] ral::gpt::address_of(n);
                assert(n == 1 || n == 2);
            }
            unreached()
        }
    }

    fn is_valid(chip: Chip, gpt: GPT) -> (valid: bool) {
        match gpt {
            GPT::GPT1 | GPT::GPT2 => true,
        }
    }
}

/// True if gate `gate` of gate register `index` is a clock gate of a GPT
/// that is valid for `G` on `chip`
pub open spec fn is_gpt_gate<G: Instance<Inst = GPT>>(
    chip: Chip,
    index: int,
    gate: usize,
) -> bool {
    exists|gpt: GPT|
        G::is_valid_spec(chip, gpt) && #[trigger] gate_register(gpt) == index && gates(
            gpt,
        ).contains(gate)
}

/// Setting the gates of one GPT changes its two gates, if the GPT is
/// valid, and nothing else.
pub proof fn lemma_gated<G: Instance<Inst = GPT>>(
    ccm: Model,
    gpt: GPT,
    gate: ClockGate,
    index: int,
    other: usize,
)
    requires
        ccm.ccgr.len() == 8,
        0 <= index < 8,
        other < 16,
    ensures
        ({
            let after = gated::<G>(ccm, gpt, gate);
            &&& after.chip == ccm.chip
            &&& after.ccgr.len() == 8
            &&& after.cscmr1 == ccm.cscmr1
            &&& after.cscdr1 == ccm.cscdr1
            &&& gate_of(after.ccgr[index], other) == (if G::is_valid_spec(ccm.chip, gpt)
                && gate_register(gpt) == index && gates(gpt).contains(other) {
                gate.bits_spec() as u32
            } else {
                gate_of(ccm.ccgr[index], other)
            })
        }),
{
    if G::is_valid_spec(ccm.chip, gpt) {
        assert(gates(gpt)[0] < 16 && gates(gpt)[1] < 16);
        super::lemma_gated(ccm, gate_register(gpt), gates(gpt), gate.bits_spec(), index, other);
        let bits = gate.bits_spec();
        assert(bits & 0b11 == bits) by (bit_vector)
            requires
                bits == 0 || bits == 1 || bits == 3,
        ;
    }
}

/// After the periodic clock root was enabled, both gates of every GPT
/// that is valid on the chip are off, and every other gate of every gate
/// register is what it was. The clock root register selects the
/// oscillator, divided by [`PERIODIC_CLOCK_DIVIDER`], and keeps its other
/// bits. The register of the UART clock root is untouched.
pub proof fn lemma_enabled<G: Instance<Inst = GPT>>(ccm: Model, index: int, gate: usize)
    requires
        ccm.ccgr.len() == 8,
        0 <= index < 8,
        gate < 16,
    ensures
        ({
            let after = enabled::<G>(ccm);
            &&& after.chip == ccm.chip
            &&& after.ccgr.len() == 8
            &&& after.cscdr1 == ccm.cscdr1
            &&& gate_of(after.ccgr[index], gate) == (if is_gpt_gate::<G>(ccm.chip, index, gate) {
                0
            } else {
                gate_of(ccm.ccgr[index], gate)
            })
            &&& field(after.cscmr1, PERCLK_PODF_MASK, PERCLK_PODF_OFFSET) == PERIODIC_CLOCK_DIVIDER
                - 1
            &&& field(after.cscmr1, PERCLK_SEL_MASK, PERCLK_SEL_OFFSET) == OSCILLATOR
            &&& after.cscmr1 & !(PERCLK_PODF_MASK | PERCLK_SEL_MASK) == ccm.cscmr1 & !(
            PERCLK_PODF_MASK | PERCLK_SEL_MASK)
        }),
{
    let off = ClockGate::Off;
    let c1 = gated::<G>(ccm, GPT::GPT1, off);
    lemma_gated::<G>(ccm, GPT::GPT1, off, index, gate);
    lemma_gated::<G>(c1, GPT::GPT2, off, index, gate);
    if !is_gpt_gate::<G>(ccm.chip, index, gate) {
        assert(gate_register(GPT::GPT1) == 1);
        assert(gate_register(GPT::GPT2) == 0);
    }
    let cscmr1 = ccm.cscmr1;
    assert({
        let after = with_field(
            with_field(cscmr1, PERCLK_PODF_MASK, PERCLK_PODF_OFFSET, 23),
            PERCLK_SEL_MASK,
            PERCLK_SEL_OFFSET,
            OSCILLATOR,
        );
        &&& field(after, PERCLK_PODF_MASK, PERCLK_PODF_OFFSET) == 23
        &&& field(after, PERCLK_SEL_MASK, PERCLK_SEL_OFFSET) == OSCILLATOR
        &&& after & !(PERCLK_PODF_MASK | PERCLK_SEL_MASK) == cscmr1 & !(PERCLK_PODF_MASK
            | PERCLK_SEL_MASK)
    }) by (bit_vector);
}

} // verus!
