//! UART clock control

use vstd::prelude::*;
use vstd::pervasive::unreached;
use super::{check_instance, gate_of, ClockGate, Disabled, Handle, Instance, Model, UARTClock};
use crate::ral;
use crate::ral::lpuart::instances::{
    LPUART1, LPUART2, LPUART3, LPUART4, LPUART5, LPUART6, LPUART7, LPUART8,
};
use crate::ral::{field, with_field, Chip};

verus! {

/// UART clock frequency (Hz)
pub const CLOCK_FREQUENCY_HZ: u32 = super::OSCILLATOR_FREQUENCY_HZ;

/// Divider of the UART clock, the low 6 bits of `CSCDR1`; the clock is
/// divided by the field's value plus one
pub const UART_CLK_PODF_MASK: u32 = 0x0000_003F;
pub const UART_CLK_PODF_OFFSET: u32 = 0;
/// Source of the UART clock, bits 6 and 7 of `CSCDR1`
pub const UART_CLK_SEL_MASK: u32 = 0x0000_00C0;
pub const UART_CLK_SEL_OFFSET: u32 = 6;
/// The source value that selects the crystal oscillator
pub const OSCILLATOR: u32 = 1;
/// The divider value that divides by one
pub const DIVIDE_1: u32 = 0;

/// Peripheral instance identifier for UART
#[derive(Debug, Clone, Copy, PartialEq, Eq, Structural)]
pub enum UART {
    UART1,
    UART2,
    UART3,
    UART4,
    UART5,
    UART6,
    UART7,
    UART8,
}

/// The clock gate register that holds the clock gate of `uart`
pub open spec fn gate_register(uart: UART) -> int {
    match uart {
        UART::UART1 => 5,
        UART::UART2 => 0,
        UART::UART3 => 0,
        UART::UART4 => 1,
        UART::UART5 => 3,
        UART::UART6 => 3,
        UART::UART7 => 5,
        UART::UART8 => 6,
    }
}

/// The clock gate of `uart` in its gate register
pub open spec fn gates(uart: UART) -> Seq<usize> {
    match uart {
        UART::UART1 => seq![12usize],
        UART::UART2 => seq![14usize],
        UART::UART3 => seq![6usize],
        UART::UART4 => seq![12usize],
        UART::UART5 => seq![1usize],
        UART::UART6 => seq![3usize],
        UART::UART7 => seq![13usize],
        UART::UART8 => seq![7usize],
    }
}

/// The clock controller after the clock gate of `uart` was set to `gate`:
/// nothing changes, and nothing is written, if `uart` is no valid instance
/// of `U` on the chip
pub open spec fn gated<U: Instance<Inst = UART>>(
    ccm: Model,
    uart: UART,
    gate: ClockGate,
) -> Model {
    if U::is_valid_spec(ccm.chip, uart) {
        ccm.gated(gate_register(uart), gates(uart), gate.bits_spec())
    } else {
        ccm
    }
}

/// The clock controller after the UART clock root was configured: the
/// oscillator is its source, divided by one
pub open spec fn configured(ccm: Model) -> Model {
    ccm.wrote_cscdr1(
        with_field(
            with_field(ccm.cscdr1, UART_CLK_PODF_MASK, UART_CLK_PODF_OFFSET, DIVIDE_1),
            UART_CLK_SEL_MASK,
            UART_CLK_SEL_OFFSET,
            OSCILLATOR,
        ),
    )
}

/// The clock controller after the gates of all eight UARTs were turned
/// off, in the order of their numbers
pub open spec fn all_off<U: Instance<Inst = UART>>(ccm: Model) -> Model {
    let off = ClockGate::Off;
    let ccm = gated::<U>(ccm, UART::UART1, off);
    let ccm = gated::<U>(ccm, UART::UART2, off);
    let ccm = gated::<U>(ccm, UART::UART3, off);
    let ccm = gated::<U>(ccm, UART::UART4, off);
    let ccm = gated::<U>(ccm, UART::UART5, off);
    let ccm = gated::<U>(ccm, UART::UART6, off);
    let ccm = gated::<U>(ccm, UART::UART7, off);
    gated::<U>(ccm, UART::UART8, off)
}

/// The clock controller after the UART clock root was enabled: the gates of
/// all UARTs were turned off, then the root was configured
pub open spec fn enabled<U: Instance<Inst = UART>>(ccm: Model) -> Model {
    configured(all_off::<U>(ccm))
}

impl<U> Disabled<UARTClock<U>> {
    /// Enable the UART clocks
    ///
    /// When `enable` returns, all UART clock gates will be set to off.
    /// Use [`clock_gate`](struct.UARTClock.html#method.clock_gate)
    /// to turn on UART clock gates.
    ///
    /// The gates are turned off one after the other, in the order of the
    /// UARTs' numbers and each by one read-modify-write of its gate
    /// register; then the clock root register is written once. So every
    /// UART that is valid on the chip has its clock gate off afterwards,
    /// and every other gate is what it was.
    pub fn enable(self, handle: &mut Handle) -> (clock: UARTClock<U>) where
        U: Instance<Inst = UART>,

        ensures
            final(handle)@ == enabled::<U>(old(handle)@),
            forall|index: int, gate: usize|
                0 <= index < 8 && gate < 16 ==> #[trigger] gate_of(
                    final(handle)@.ccgr[index],
                    gate,
                ) == (if is_uart_gate::<U>(old(handle)@.chip, index, gate) {
                    0
                } else {
                    gate_of(old(handle)@.ccgr[index], gate)
                }),
    {
        proof {
            handle.lemma_eight_gate_registers();
            assert forall|index: int, gate: usize|
                0 <= index < 8 && gate < 16 implies #[trigger] gate_of(
                enabled::<U>(handle@).ccgr[index],
                gate,
            ) == (if is_uart_gate::<U>(handle@.chip, index, gate) {
                0
            } else {
                gate_of(handle@.ccgr[index], gate)
            }) by {
                lemma_enabled::<U>(handle@, index, gate);
            }
        }
        clock_gate::<U>(handle, UART::UART1, ClockGate::Off);
        clock_gate::<U>(handle, UART::UART2, ClockGate::Off);
        clock_gate::<U>(handle, UART::UART3, ClockGate::Off);
        clock_gate::<U>(handle, UART::UART4, ClockGate::Off);
        clock_gate::<U>(handle, UART::UART5, ClockGate::Off);
        clock_gate::<U>(handle, UART::UART6, ClockGate::Off);
        clock_gate::<U>(handle, UART::UART7, ClockGate::Off);
        clock_gate::<U>(handle, UART::UART8, ClockGate::Off);

        configure(handle);
        self.0
    }
}

impl<U> UARTClock<U> {
    /// Set the clock gate for the UART instance
    pub fn clock_gate(&mut self, handle: &mut Handle, uart: &mut U, gate: ClockGate) where
        U: Instance<Inst = UART>,

        ensures
            final(handle)@ == gated::<U>(old(handle)@, old(uart).instance_spec(), gate),
            *final(uart) == *old(uart),
    {
        let inst = uart.instance();
        clock_gate::<U>(handle, inst, gate)
    }
}

/// Set the clock gate for a UART peripheral
///
/// This does not ask for the enabled clock root. Consider using the
/// [`UARTClock`](struct.UARTClock.html) for a safer interface.
pub fn clock_gate<U: Instance<Inst = UART>>(handle: &mut Handle, uart: UART, gate: ClockGate)
    ensures
        final(handle)@ == gated::<U>(old(handle)@, uart, gate),
{
    let value = gate.bits();
    match check_instance::<U>(handle.chip(), uart) {
        Some(UART::UART1) => set(handle, 5, 12, value, Ghost(UART::UART1)),
        Some(UART::UART2) => set(handle, 0, 14, value, Ghost(UART::UART2)),
        Some(UART::UART3) => set(handle, 0, 6, value, Ghost(UART::UART3)),
        Some(UART::UART4) => set(handle, 1, 12, value, Ghost(UART::UART4)),
        Some(UART::UART5) => set(handle, 3, 1, value, Ghost(UART::UART5)),
        Some(UART::UART6) => set(handle, 3, 3, value, Ghost(UART::UART6)),
        Some(UART::UART7) => set(handle, 5, 13, value, Ghost(UART::UART7)),
        Some(UART::UART8) => set(handle, 6, 7, value, Ghost(UART::UART8)),
        _ => (),
    }
}

/// Set the one gate `gate` of gate register `index`, which is the clock gate of
/// `uart`
fn set(handle: &mut Handle, index: usize, gate: usize, value: u8, uart: Ghost<UART>)
    requires
        index == gate_register(uart@),
        gates(uart@) =~= seq![gate],
    ensures
        final(handle)@ == old(handle)@.gated(gate_register(uart@), gates(uart@), value),
{
    let one: [usize; 1] = [gate];
    assert(one@ =~= gates(uart@));
    assert(gates(uart@)[0] < 16);
    handle.gate(index, one.as_slice(), value)
}

/// Configure the UART clock root
///
/// This does not ask for the disabled clock root. Consider using the
/// [`UARTClock`](struct.UARTClock.html) for a safer interface.
pub fn configure(handle: &mut Handle)
    ensures
        final(handle)@ == configured(old(handle)@),
{
    let mut cscdr1: u32 = handle.cscdr1();
    cscdr1 = ral::modify_field(cscdr1, UART_CLK_PODF_MASK, UART_CLK_PODF_OFFSET, DIVIDE_1);
    cscdr1 = ral::modify_field(cscdr1, UART_CLK_SEL_MASK, UART_CLK_SEL_OFFSET, OSCILLATOR);
    handle.write_cscdr1(cscdr1);
}

impl Instance for ral::lpuart::Instance {
    type Inst = UART;

    open spec fn instance_spec(&self) -> UART {
        let addr = self@.addr;
        if addr == LPUART1 {
            UART::UART1
        } else if addr == LPUART2 {
            UART::UART2
        } else if addr == LPUART3 {
            UART::UART3
        } else if addr == LPUART4 {
            UART::UART4
        } else if addr == LPUART5 {
            UART::UART5
        } else if addr == LPUART6 {
            UART::UART6
        } else if addr == LPUART7 {
            UART::UART7
        } else {
            UART::UART8
        }
    }

    open spec fn is_valid_spec(chip: Chip, uart: UART) -> bool {
        match uart {
            UART::UART1 | UART::UART2 | UART::UART3 | UART::UART4 => true,
            UART::UART5 | UART::UART6 | UART::UART7 | UART::UART8 => chip == Chip::Imxrt1060,
        }
    }

    fn instance(&self) -> (uart: UART) {
        let addr: u32 = self.addr();
        if addr == LPUART1 {
            UART::UART1
        } else if addr == LPUART2 {
            UART::UART2
        } else if addr == LPUART3 {
            UART::UART3
        } else if addr == LPUART4 {
            UART::UART4
        } else if addr == LPUART5 {
            UART::UART5
        } else if addr == LPUART6 {
            UART::UART6
        } else if addr == LPUART7 {
            UART::UART7
        } else if addr == LPUART8 {
            UART::UART8
        } else {
            proof {
                let n = choose|n: int| 1 <= n <= 8 && addr == #[trigger] ral::lpuart::address_of(n);
                assert(n == 1 || n == 2 || n == 3 || n == 4 || n == 5 || n == 6 || n == 7 || n == 8);
            }
            unreached()
        }
    }

    fn is_valid(chip: Chip, uart: UART) -> (valid: bool) {
        match uart {
            UART::UART1 | UART::UART2 | UART::UART3 | UART::UART4 => true,
            UART::UART5 | UART::UART6 | UART::UART7 | UART::UART8 => match chip {
                Chip::Imxrt1010 => false,
                Chip::Imxrt1060 => true,
            },
        }
    }
}

/// True if gate `gate` of gate register `index` is the clock gate of a
/// UART that is valid for `U` on `chip`
pub open spec fn is_uart_gate<U: Instance<Inst = UART>>(
    chip: Chip,
    index: int,
    gate: usize,
) -> bool {
    exists|uart: UART|
        U::is_valid_spec(chip, uart) && #[trigger] gate_register(uart) == index && gates(uart)[0]
            == gate
}

/// Setting the clock gate of one UART changes that one gate, if the UART
/// is valid, and nothing else.
pub proof fn lemma_gated<U: Instance<Inst = UART>>(
    ccm: Model,
    uart: UART,
    gate: ClockGate,
    index: int,
    other: usize,
)
    requires
        ccm.ccgr.len() == 8,
        0 <= index < 8,
        other < 16,
    ensures
        ({
            let after = gated::<U>(ccm, uart, gate);
            &&& after.chip == ccm.chip
            &&& after.ccgr.len() == 8
            &&& after.cscmr1 == ccm.cscmr1
            &&& after.cscdr1 == ccm.cscdr1
            &&& gate_of(after.ccgr[index], other) == (if U::is_valid_spec(ccm.chip, uart)
                && gate_register(uart) == index && gates(uart)[0] == other {
                gate.bits_spec() as u32
            } else {
                gate_of(ccm.ccgr[index], other)
            })
        }),
{
    if U::is_valid_spec(ccm.chip, uart) {
        super::lemma_gated(ccm, gate_register(uart), gates(uart), gate.bits_spec(), index, other);
        let bits = gate.bits_spec();
        assert(bits & 0b11 == bits) by (bit_vector)
            requires
                bits == 0 || bits == 1 || bits == 3,
        ;
        if gates(uart).contains(other) {
            let i = choose|i: int| 0 <= i < gates(uart).len() && gates(uart)[i] == other;
            assert(gates(uart)[0] == other);
        }
    }
}

/// After the UART clock root was enabled, the clock gate of every UART
/// that is valid on the chip is off, and every other gate of every gate register
/// is what it was. The clock root register selects the oscillator, divided
/// by one, and keeps its other bits. The register of the periodic clock
/// root is untouched.
pub proof fn lemma_enabled<U: Instance<Inst = UART>>(ccm: Model, index: int, gate: usize)
    requires
        ccm.ccgr.len() == 8,
        0 <= index < 8,
        gate < 16,
    ensures
        ({
            let after = enabled::<U>(ccm);
            &&& after.chip == ccm.chip
            &&& after.ccgr.len() == 8
            &&& after.cscmr1 == ccm.cscmr1
            &&& gate_of(after.ccgr[index], gate) == (if is_uart_gate::<U>(ccm.chip, index, gate) {
                0
            } else {
                gate_of(ccm.ccgr[index], gate)
            })
            &&& field(after.cscdr1, UART_CLK_PODF_MASK, UART_CLK_PODF_OFFSET) == DIVIDE_1
            &&& field(after.cscdr1, UART_CLK_SEL_MASK, UART_CLK_SEL_OFFSET) == OSCILLATOR
            &&& after.cscdr1 & !(UART_CLK_PODF_MASK | UART_CLK_SEL_MASK) == ccm.cscdr1 & !(
            UART_CLK_PODF_MASK | UART_CLK_SEL_MASK)
        }),
{
    let off = ClockGate::Off;
    let c1 = gated::<U>(ccm, UART::UART1, off);
    lemma_gated::<U>(ccm, UART::UART1, off, index, gate);
    let c2 = gated::<U>(c1, UART::UART2, off);
    lemma_gated::<U>(c1, UART::UART2, off, index, gate);
    let c3 = gated::<U>(c2, UART::UART3, off);
    lemma_gated::<U>(c2, UART::UART3, off, index, gate);
    let c4 = gated::<U>(c3, UART::UART4, off);
    lemma_gated::<U>(c3, UART::UART4, off, index, gate);
    let c5 = gated::<U>(c4, UART::UART5, off);
    lemma_gated::<U>(c4, UART::UART5, off, index, gate);
    let c6 = gated::<U>(c5, UART::UART6, off);
    lemma_gated::<U>(c5, UART::UART6, off, index, gate);
    let c7 = gated::<U>(c6, UART::UART7, off);
    lemma_gated::<U>(c6, UART::UART7, off, index, gate);
    let c8 = gated::<U>(c7, UART::UART8, off);
    lemma_gated::<U>(c7, UART::UART8, off, index, gate);
    assert(c8 == all_off::<U>(ccm));
    assert(is_uart_gate::<U>(ccm.chip, index, gate) <==> exists|uart: UART|
        U::is_valid_spec(ccm.chip, uart) && #[trigger] gate_register(uart) == index && gates(
            uart,
        )[0] == gate);
    if !is_uart_gate::<U>(ccm.chip, index, gate) {
        assert(gate_register(UART::UART1) == 5);
        assert(gate_register(UART::UART2) == 0);
        assert(gate_register(UART::UART3) == 0);
        assert(gate_register(UART::UART4) == 1);
        assert(gate_register(UART::UART5) == 3);
        assert(gate_register(UART::UART6) == 3);
        assert(gate_register(UART::UART7) == 5);
        assert(gate_register(UART::UART8) == 6);
    }
    let cscdr1 = c8.cscdr1;
    assert({
        let after = with_field(
            with_field(cscdr1, UART_CLK_PODF_MASK, UART_CLK_PODF_OFFSET, DIVIDE_1),
            UART_CLK_SEL_MASK,
            UART_CLK_SEL_OFFSET,
            OSCILLATOR,
        );
        &&& field(after, UART_CLK_PODF_MASK, UART_CLK_PODF_OFFSET) == DIVIDE_1
        &&& field(after, UART_CLK_SEL_MASK, UART_CLK_SEL_OFFSET) == OSCILLATOR
        &&& after & !(UART_CLK_PODF_MASK | UART_CLK_SEL_MASK) == cscdr1 & !(UART_CLK_PODF_MASK
            | UART_CLK_SEL_MASK)
    }) by (bit_vector);
}

} // verus!
