//! UART serial driver

use vstd::prelude::*;
use vstd::arithmetic::div_mod::{lemma_div_denominator, lemma_div_is_ordered_by_denominator};
use crate::ral;
use crate::ral::lpuart::{
    Instance, Model, Register, BAUD_BOTHEDGE_MASK, BAUD_BOTHEDGE_OFFSET, BAUD_OSR_MASK,
    BAUD_OSR_OFFSET, BAUD_SBR_MASK, BAUD_SBR_OFFSET, CTRL_RE_MASK, CTRL_RE_OFFSET, CTRL_TE_MASK,
    CTRL_TE_OFFSET, DATA_FRETSC_MASK, DATA_NOISY_MASK, DATA_PARITYE_MASK, DATA_RXEMPT_MASK,
    FIFO_RXFLUSH_MASK, FIFO_RXFLUSH_OFFSET, FIFO_TXFLUSH_MASK, FIFO_TXFLUSH_OFFSET, STAT_FE_MASK,
    STAT_FE_OFFSET, STAT_IDLE_MASK, STAT_IDLE_OFFSET, STAT_NF_MASK, STAT_NF_OFFSET, STAT_OR_MASK,
    STAT_OR_OFFSET, STAT_PF_MASK, STAT_PF_OFFSET, STAT_TDRE_MASK, STAT_TDRE_OFFSET,
};
use crate::ral::{field, with_field, Write};

verus! {

/// The frequency of the clock that the baud rate is divided from
pub const UART_CLOCK: u32 = crate::ccm::UART_CLOCK_FREQUENCY_HZ;

/// The smallest oversampling ratio
pub const OSR_MIN: u32 = 4;
/// The largest oversampling ratio
pub const OSR_MAX: u32 = 32;
/// The largest sample-rate divisor
pub const SBR_MAX: u32 = 8191;

/// Timing configuration of a UART
#[derive(Clone, Copy, PartialEq, Eq, Structural, Debug)]
pub struct Timings {
    /// OSR register value. Accounts for the -1. May be written
    /// directly to the register
    pub osr: u8,
    /// True if we need to set BOTHEDGE given the OSR value
    pub both_edge: bool,
    /// SBR value;
    pub sbr: u16,
}

/// Errors propagated from a [`UART`](struct.UART.html) device
#[non_exhaustive]
#[derive(Clone, Copy, PartialEq, Eq, Structural, Debug)]
pub enum Error {
    /// There was an error when preparing the baud rate or clocks
    Clock,
}

/// The sample-rate divisor for a baud rate and an oversampling ratio: the
/// clock divided by both, kept between 1 and [`SBR_MAX`]
pub open spec fn sbr_for(clock: int, baud: int, osr: int) -> int {
    let sbr = clock / (baud * osr);
    if sbr < 1 {
        1
    } else if sbr > SBR_MAX {
        SBR_MAX as int
    } else {
        sbr
    }
}

/// The baud rate that an oversampling ratio gives with its divisor
pub open spec fn effective_baud(clock: int, baud: int, osr: int) -> int {
    clock / (osr * sbr_for(clock, baud, osr))
}

/// How far the baud rate that an oversampling ratio gives is from the
/// baud rate that was asked for
pub open spec fn baud_error(clock: int, baud: int, osr: int) -> int {
    let effective = effective_baud(clock, baud, osr);
    if effective >= baud {
        effective - baud
    } else {
        baud - effective
    }
}

/// True if `osr` is an oversampling ratio whose error no other ratio
/// undercuts, and the smallest such ratio
pub open spec fn is_best(clock: int, baud: int, osr: int) -> bool {
    &&& OSR_MIN <= osr <= OSR_MAX
    &&& forall|o: int|
        OSR_MIN <= o <= OSR_MAX ==> baud_error(clock, baud, osr) <= #[trigger] baud_error(
            clock,
            baud,
            o,
        )
    &&& forall|o: int|
        OSR_MIN <= o < osr ==> baud_error(clock, baud, osr) < #[trigger] baud_error(clock, baud, o)
}

/// True if the clock can give the baud rate: the baud rate is not zero,
/// and it is not above the clock divided by the smallest oversampling
/// ratio, which is the highest rate that any ratio and divisor give
pub open spec fn can_reach(clock: int, baud: int) -> bool {
    0 < baud <= clock / (OSR_MIN as int)
}

/// The oversampling ratio that the solver selects
pub open spec fn best_osr(clock: int, baud: int) -> int {
    choose|osr: int| is_best(clock, baud, osr)
}

/// The timings for an oversampling ratio
pub open spec fn timings_for(clock: int, baud: int, osr: int) -> Timings {
    Timings {
        osr: (osr - 1) as u8,
        both_edge: osr < 8,
        sbr: sbr_for(clock, baud, osr) as u16,
    }
}

/// The timings that the solver returns for a baud rate that the clock can
/// give
pub open spec fn solution(clock: int, baud: int) -> Timings {
    timings_for(clock, baud, best_osr(clock, baud))
}

/// At most one oversampling ratio is the best.
pub proof fn lemma_best_is_unique(clock: int, baud: int, first: int, second: int)
    requires
        is_best(clock, baud, first),
        is_best(clock, baud, second),
    ensures
        first == second,
{
    if first < second {
        assert(baud_error(clock, baud, second) < baud_error(clock, baud, first));
        assert(baud_error(clock, baud, first) <= baud_error(clock, baud, second));
    } else if second < first {
        assert(baud_error(clock, baud, first) < baud_error(clock, baud, second));
        assert(baud_error(clock, baud, second) <= baud_error(clock, baud, first));
    }
}

/// A baud rate that is not zero can be given by the clock exactly if some
/// oversampling ratio, with its divisor, gives at least that rate. So a
/// baud rate that cannot be given is above the rate of every ratio.
pub proof fn lemma_can_reach(clock: u32, baud: u32)
    requires
        baud > 0,
    ensures
        can_reach(clock as int, baud as int) <==> exists|osr: int|
            OSR_MIN <= osr <= OSR_MAX && #[trigger] effective_baud(clock as int, baud as int, osr)
                >= baud,
{
    let hz = clock as int;
    let target = baud as int;
    if can_reach(hz, target) {
        // the smallest ratio, with its divisor, gives at least the rate
        let raw = hz / (target * 4);
        let sbr = sbr_for(hz, target, 4);
        assert(target * 4 > 0 && raw >= 1 && raw * (target * 4) <= hz) by (nonlinear_arith)
            requires
                0 < target,
                target * 4 <= hz,
                raw == hz / (target * 4),
        ;
        assert(1 <= sbr <= raw);
        assert((4 * sbr) * target <= hz && 4 * sbr > 0) by (nonlinear_arith)
            requires
                1 <= sbr <= raw,
                raw * (target * 4) <= hz,
                0 < target,
        ;
        assert(hz / (4 * sbr) >= target) by (nonlinear_arith)
            requires
                (4 * sbr) * target <= hz,
                4 * sbr > 0,
        ;
        assert(effective_baud(hz, target, 4) >= baud);
    } else {
        assert forall|osr: int| OSR_MIN <= osr <= OSR_MAX implies #[trigger] effective_baud(
            hz,
            target,
            osr,
        ) < baud by {
            let sbr = sbr_for(hz, target, osr);
            assert(osr * sbr >= 4) by (nonlinear_arith)
                requires
                    4 <= osr,
                    1 <= sbr,
            ;
            lemma_div_is_ordered_by_denominator(hz, 4, osr * sbr);
        }
    }
}

/// The divisor and the error of one oversampling ratio
fn candidate(clock: u32, baud: u32, osr: u32) -> (found: (u32, u32))
    requires
        baud > 0,
        OSR_MIN <= osr <= OSR_MAX,
    ensures
        found.0 == sbr_for(clock as int, baud as int, osr as int),
        found.1 == baud_error(clock as int, baud as int, osr as int),
        1 <= found.0 <= SBR_MAX,
{
    let base_clock: u32 = clock / baud;
    let sbr: u32 = base_clock / osr;
    proof {
        lemma_div_denominator(clock as int, baud as int, osr as int);
    }
    let sbr: u32 = if sbr < 1 {
        1
    } else if sbr > SBR_MAX {
        SBR_MAX
    } else {
        sbr
    };
    assert(0 < osr * sbr <= 32 * 8191) by (nonlinear_arith)
        requires
            4 <= osr <= 32,
            1 <= sbr <= 8191,
    ;
    let effective: u32 = clock / (osr * sbr);
    let error: u32 = if effective >= baud {
        effective - baud
    } else {
        baud - effective
    };
    (sbr, error)
}

/// Compute timings for a UART peripheral
///
/// Searches the oversampling ratios from [`OSR_MIN`] to [`OSR_MAX`] for
/// the one whose baud rate is closest to `baud`; of two that are as close,
/// the smaller ratio wins. Fails with [`Error::Clock`] if, and only if,
/// the clock cannot give the baud rate: `baud` is zero, or `baud` is above
/// the clock divided by [`OSR_MIN`].
pub fn timings(effective_clock: u32, baud: u32) -> (result: Result<Timings, Error>)
    ensures
        result.is_ok() <==> can_reach(effective_clock as int, baud as int),
        result matches Err(error) ==> error == Error::Clock,
        result matches Ok(found) ==> {
            let osr = found.osr + 1;
            &&& is_best(effective_clock as int, baud as int, osr)
            &&& found.sbr == sbr_for(effective_clock as int, baud as int, osr)
            &&& 1 <= found.sbr <= SBR_MAX
            &&& found.both_edge == (osr < 8)
            &&& found == solution(effective_clock as int, baud as int)
        },
{
    if baud == 0 || baud > effective_clock / OSR_MIN {
        return Err(Error::Clock);
    }
    let ghost clock = effective_clock as int;
    let ghost target = baud as int;
    let (sbr, err) = candidate(effective_clock, baud, OSR_MIN);
    let mut error: u32 = err;
    let mut best_osr: u32 = OSR_MIN;
    let mut best_sbr: u32 = sbr;

    let mut osr: u32 = OSR_MIN + 1;
    while osr <= OSR_MAX
        invariant
            baud > 0,
            clock == effective_clock as int,
            target == baud as int,
            OSR_MIN < osr <= OSR_MAX + 1,
            OSR_MIN <= best_osr < osr,
            error == baud_error(clock, target, best_osr as int),
            best_sbr == sbr_for(clock, target, best_osr as int),
            1 <= best_sbr <= SBR_MAX,
            forall|o: int| OSR_MIN <= o < osr ==> error <= #[trigger] baud_error(clock, target, o),
            forall|o: int|
                OSR_MIN <= o < best_osr ==> error < #[trigger] baud_error(clock, target, o),
        decreases OSR_MAX + 1 - osr,
    {
        let (sbr, err) = candidate(effective_clock, baud, osr);
        if err < error {
            best_osr = osr;
            best_sbr = sbr;
            error = err
        }
        osr += 1;
    }

    proof {
        assert(is_best(clock, target, best_osr as int));
        lemma_best_is_unique(clock, target, best_osr as int, self::best_osr(clock, target));
    }
    Ok(Timings { osr: (best_osr - 1) as u8, sbr: best_sbr as u16, both_edge: best_osr < 8 })
}

/// Errors that may occur when reading data
#[derive(Clone, Copy, PartialEq, Eq, Structural, Debug)]
pub struct ReadErrorFlags {
    bits: u8,
}

impl ReadErrorFlags {
    /// Data was received with noise
    pub const NOISY: u8 = 0x80;

    /// Parity error when receiving data
    pub const PARITY: u8 = 0x40;

    /// Framing error when receiving data
    pub const FRAME_ERROR: u8 = 0x20;

    /// Overrun occurred, and we lost data in the shift register
    pub const OVERRUN: u8 = 0x10;

    /// Not a real flag
    pub const WOULDBLOCK: u8 = 0x01;

    /// The flags as one byte
    pub closed spec fn bits_spec(self) -> u8 {
        self.bits
    }

    /// The flags that stand for the byte `bits`
    pub closed spec fn from_bits_spec(bits: u8) -> ReadErrorFlags {
        ReadErrorFlags { bits }
    }

    /// The flags with those of `mask` set if `on`, and cleared if not
    pub open spec fn with(self, mask: u8, on: bool) -> ReadErrorFlags {
        ReadErrorFlags::from_bits_spec(
            if on {
                self.bits_spec() | mask
            } else {
                self.bits_spec() & !mask
            },
        )
    }

    /// The flags are their byte, and the byte is its flags.
    pub proof fn lemma_bits(self, bits: u8)
        ensures
            ReadErrorFlags::from_bits_spec(bits).bits_spec() == bits,
            ReadErrorFlags::from_bits_spec(self.bits_spec()) == self,
    {
    }

    /// No flag
    pub fn empty() -> (flags: ReadErrorFlags)
        ensures
            flags == ReadErrorFlags::from_bits_spec(0),
    {
        ReadErrorFlags { bits: 0 }
    }

    /// The flags that stand for the byte `bits`
    pub fn from_bits(bits: u8) -> (flags: ReadErrorFlags)
        ensures
            flags == ReadErrorFlags::from_bits_spec(bits),
    {
        ReadErrorFlags { bits }
    }

    /// The flags as one byte
    pub fn bits(&self) -> (bits: u8)
        ensures
            bits == self.bits_spec(),
    {
        self.bits
    }

    /// True if no flag is set
    pub fn is_empty(&self) -> (empty: bool)
        ensures
            empty == (self.bits_spec() == 0),
    {
        self.bits == 0
    }

    /// True if every flag of `mask` is set
    pub fn contains(&self, mask: u8) -> (all: bool)
        ensures
            all == (self.bits_spec() & mask == mask),
    {
        self.bits & mask == mask
    }

    /// Set the flags of `mask` if `value`, clear them if not
    pub fn set(&mut self, mask: u8, value: bool)
        ensures
            *final(self) == old(self).with(mask, value),
    {
        if value {
            self.bits = self.bits | mask;
        } else {
            self.bits = self.bits & !mask;
        }
    }
}

/// Type that describes a read error
#[derive(Clone, Copy, PartialEq, Eq, Structural, Debug)]
pub struct ReadError {
    /// Describes the reason for the error
    pub flags: ReadErrorFlags,
    /// The raw value read, if you'd like to consider it
    pub raw: u8,
}

/// The FIFO word `fifo` with both flush bits set
pub open spec fn flushed(fifo: u32) -> u32 {
    with_field(
        with_field(fifo, FIFO_TXFLUSH_MASK, FIFO_TXFLUSH_OFFSET, 1),
        FIFO_RXFLUSH_MASK,
        FIFO_RXFLUSH_OFFSET,
        1,
    )
}

/// The block with the transmitter and the receiver off: both FIFOs were
/// flushed, then both enables were cleared
pub open spec fn disabled(uart: Model) -> Model {
    let uart = uart.write(Register::FIFO, flushed(uart.regs.FIFO));
    uart.write(Register::CTRL, enables(uart.regs.CTRL, 0, 0))
}

/// The block after `act` ran while the transmitter and the receiver were
/// off: they were turned off, `act` ran once, and the two enables were
/// put back as `uart` had them
pub open spec fn while_disabled(uart: Model, act: spec_fn(Model) -> Model) -> Model {
    let te = field(uart.regs.CTRL, CTRL_TE_MASK, CTRL_TE_OFFSET);
    let re = field(uart.regs.CTRL, CTRL_RE_MASK, CTRL_RE_OFFSET);
    let after = act(disabled(uart));
    after.write(Register::CTRL, enables(after.regs.CTRL, te, re))
}

/// The action that writes `timings` to the baud register
pub open spec fn apply_timings(timings: Timings) -> spec_fn(Model) -> Model {
    |uart: Model| uart.write(Register::BAUD, timed(uart.regs.BAUD, timings))
}

/// The block after both FIFOs were flushed, the transmitter and the
/// receiver were disabled, the timings were applied, and the transmitter
/// and the receiver were put back as they were, in that order
pub open spec fn reconfigured(uart: Model, timings: Timings) -> Model {
    while_disabled(uart, apply_timings(timings))
}

/// The control word `ctrl` with the transmitter enable holding `te` and
/// the receiver enable holding `re`
pub open spec fn enables(ctrl: u32, te: u32, re: u32) -> u32 {
    with_field(
        with_field(ctrl, CTRL_TE_MASK, CTRL_TE_OFFSET, te),
        CTRL_RE_MASK,
        CTRL_RE_OFFSET,
        re,
    )
}

/// The baud word `baud` with the oversampling ratio, the divisor and the
/// both-edge sampling of `timings`
pub open spec fn timed(baud: u32, timings: Timings) -> u32 {
    with_field(
        with_field(
            with_field(baud, BAUD_OSR_MASK, BAUD_OSR_OFFSET, timings.osr as u32),
            BAUD_SBR_MASK,
            BAUD_SBR_OFFSET,
            timings.sbr as u32,
        ),
        BAUD_BOTHEDGE_MASK,
        BAUD_BOTHEDGE_OFFSET,
        if timings.both_edge {
            1
        } else {
            0
        },
    )
}

/// True if the baud word holds the oversampling ratio, the divisor and the
/// both-edge sampling of `timings`
pub open spec fn holds_timings(baud: u32, timings: Timings) -> bool {
    &&& field(baud, BAUD_OSR_MASK, BAUD_OSR_OFFSET) == timings.osr
    &&& field(baud, BAUD_SBR_MASK, BAUD_SBR_OFFSET) == timings.sbr
    &&& (field(baud, BAUD_BOTHEDGE_MASK, BAUD_BOTHEDGE_OFFSET) == 1) == timings.both_edge
}

/// The five receive flags of the status register that a read clears
pub open spec fn receive_flags() -> u32 {
    STAT_IDLE_MASK | STAT_OR_MASK | STAT_NF_MASK | STAT_FE_MASK | STAT_PF_MASK
}

/// The status word `stat` with a one in each of the five receive flags:
/// written back, it clears them
pub open spec fn status_cleared(stat: u32) -> u32 {
    with_field(
        with_field(
            with_field(
                with_field(
                    with_field(stat, STAT_IDLE_MASK, STAT_IDLE_OFFSET, 1),
                    STAT_OR_MASK,
                    STAT_OR_OFFSET,
                    1,
                ),
                STAT_NF_MASK,
                STAT_NF_OFFSET,
                1,
            ),
            STAT_FE_MASK,
            STAT_FE_OFFSET,
            1,
        ),
        STAT_PF_MASK,
        STAT_PF_OFFSET,
        1,
    )
}

/// The flags that a read reports for the data word and the status word
pub open spec fn read_flags(data: u32, stat: u32) -> ReadErrorFlags {
    ReadErrorFlags::from_bits_spec(0).with(
        ReadErrorFlags::OVERRUN,
        field(stat, STAT_OR_MASK, STAT_OR_OFFSET) == 1,
    ).with(ReadErrorFlags::PARITY, data & DATA_PARITYE_MASK != 0).with(
        ReadErrorFlags::FRAME_ERROR,
        data & DATA_FRETSC_MASK != 0,
    ).with(ReadErrorFlags::NOISY, data & DATA_NOISY_MASK != 0)
}

/// True if the control register shows the transmitter enabled
pub open spec fn transmitter_enabled(uart: Model) -> bool {
    field(uart.regs.CTRL, CTRL_TE_MASK, CTRL_TE_OFFSET) == 1
}

/// True if the control register shows the receiver enabled
pub open spec fn receiver_enabled(uart: Model) -> bool {
    field(uart.regs.CTRL, CTRL_RE_MASK, CTRL_RE_OFFSET) == 1
}

/// True if the receive buffer holds no word
pub open spec fn receive_empty(uart: Model) -> bool {
    uart.regs.DATA & DATA_RXEMPT_MASK != 0
}

/// True if the transmit data register can take a word
pub open spec fn transmit_empty(uart: Model) -> bool {
    field(uart.regs.STAT, STAT_TDRE_MASK, STAT_TDRE_OFFSET) != 0
}

/// What a read returns
pub open spec fn read_result(uart: Model) -> Result<u8, ReadError> {
    if receive_empty(uart) {
        Err(ReadError { flags: ReadErrorFlags::from_bits_spec(ReadErrorFlags::WOULDBLOCK), raw: 0 })
    } else {
        let flags = read_flags(uart.regs.DATA, uart.regs.STAT);
        let raw = (uart.regs.DATA & 0xFF) as u8;
        if flags.bits_spec() == 0 {
            Ok(raw)
        } else {
            Err(ReadError { flags, raw })
        }
    }
}

/// UART Serial driver
pub struct UART<TX, RX> {
    uart: Instance,
    tx: TX,
    rx: RX,
}

impl<TX, RX> View for UART<TX, RX> {
    type V = Model;

    /// The UART's register block
    closed spec fn view(&self) -> Model {
        self.uart@
    }
}

impl<TX, RX> UART<TX, RX> {
    /// The UART's register block
    pub closed spec fn registers_spec(&self) -> Instance {
        self.uart
    }

    /// What the driver stands for is what its register block stands for.
    pub proof fn lemma_view(&self)
        ensures
            self.registers_spec()@ == self@,
    {
    }

    /// The transmit pin
    pub closed spec fn tx_spec(&self) -> TX {
        self.tx
    }

    /// The receive pin
    pub closed spec fn rx_spec(&self) -> RX {
        self.rx
    }

    /// Create a new `UART` from a UART instance and its TX and RX pins
    ///
    /// The enabled UART clock root shows that the clock runs. The pins
    /// must be prepared for the UART. The baud rate is set to 9600, then
    /// the transmitter and the receiver are enabled. Use
    /// [`set_baud`](#method.set_baud) for another baud rate.
    pub fn new(
        uart: Instance,
        tx: TX,
        rx: RX,
        _clock: &crate::ccm::UARTClock<Instance>,
    ) -> (serial: UART<TX, RX>)
        ensures
            serial@ == started(uart@),
            serial.tx_spec() == tx,
            serial.rx_spec() == rx,
            transmitter_enabled(serial@),
            receiver_enabled(serial@),
    {
        proof {
            let ctrl = reconfigured(uart@, solution(UART_CLOCK as int, 9600)).regs.CTRL;
            assert({
                &&& field(enables(ctrl, 1, 1), CTRL_TE_MASK, CTRL_TE_OFFSET) == 1
                &&& field(enables(ctrl, 1, 1), CTRL_RE_MASK, CTRL_RE_OFFSET) == 1
            }) by (bit_vector);
        }
        let mut serial = UART { uart, tx, rx };
        let _ = serial.set_baud(9600);
        let ctrl: u32 = serial.uart.read(Register::CTRL);
        let ctrl: u32 = ral::modify_field(ctrl, CTRL_TE_MASK, CTRL_TE_OFFSET, 1);
        let ctrl: u32 = ral::modify_field(ctrl, CTRL_RE_MASK, CTRL_RE_OFFSET, 1);
        serial.uart.write(Register::CTRL, ctrl);
        serial
    }

    /// Returns the UART's register block, for refreshing the image and
    /// collecting the writes
    pub fn registers(&mut self) -> (registers: &mut Instance)
        ensures
            registers@ == old(self)@,
            final(self)@ == final(registers)@,
            *registers == old(self).registers_spec(),
            final(self).registers_spec() == *final(registers),
            final(self).tx_spec() == old(self).tx_spec(),
            final(self).rx_spec() == old(self).rx_spec(),
    {
        &mut self.uart
    }

    /// Set the serial baud rate
    ///
    /// Fails if, and only if, the UART clock cannot give the baud rate:
    /// `baud` is zero or above [`UART_CLOCK`] divided by [`OSR_MIN`]. The
    /// error is then [`Error::Clock`], and nothing was written. The
    /// transmitter and the receiver are enabled after the call exactly if
    /// they were before it.
    pub fn set_baud(&mut self, baud: u32) -> (result: Result<(), Error>)
        ensures
            !can_reach(UART_CLOCK as int, baud as int) ==> result == Err::<(), Error>(Error::Clock)
                && final(self)@ == old(self)@,
            can_reach(UART_CLOCK as int, baud as int) ==> result == Ok::<(), Error>(())
                && final(self)@ == reconfigured(
                old(self)@,
                solution(UART_CLOCK as int, baud as int),
            ),
            final(self)@.regs.CTRL == old(self)@.regs.CTRL,
            transmitter_enabled(final(self)@) == transmitter_enabled(old(self)@),
            receiver_enabled(final(self)@) == receiver_enabled(old(self)@),
            can_reach(UART_CLOCK as int, baud as int) ==> holds_timings(
                final(self)@.regs.BAUD,
                solution(UART_CLOCK as int, baud as int),
            ),
            final(self).tx_spec() == old(self).tx_spec(),
            final(self).rx_spec() == old(self).rx_spec(),
    {
        match timings(UART_CLOCK, baud) {
            Ok(timings) => {
                proof {
                    lemma_reconfigured_keeps_control(self@, timings);
                    lemma_timed(self@.regs.BAUD, timings);
                }
                self.while_disabled(&timings);
                Ok(())
            },
            Err(error) => Err(error),
        }
    }

    /// Apply `timings` while the transmitter and the receiver are off
    ///
    /// Both FIFOs are flushed, the two enables are read and then cleared,
    /// the timings are written, and the two enables are put back.
    fn while_disabled(&mut self, timings: &Timings)
        ensures
            final(self)@ == while_disabled(old(self)@, apply_timings(*timings)),
            final(self)@ == reconfigured(old(self)@, *timings),
            final(self).tx_spec() == old(self).tx_spec(),
            final(self).rx_spec() == old(self).rx_spec(),
    {
        let fifo: u32 = self.uart.read(Register::FIFO);
        let fifo: u32 = ral::modify_field(fifo, FIFO_TXFLUSH_MASK, FIFO_TXFLUSH_OFFSET, 1);
        let fifo: u32 = ral::modify_field(fifo, FIFO_RXFLUSH_MASK, FIFO_RXFLUSH_OFFSET, 1);
        self.uart.write(Register::FIFO, fifo);

        let ctrl: u32 = self.uart.read(Register::CTRL);
        let te: u32 = ral::read_field(ctrl, CTRL_TE_MASK, CTRL_TE_OFFSET);
        let re: u32 = ral::read_field(ctrl, CTRL_RE_MASK, CTRL_RE_OFFSET);
        let ctrl: u32 = ral::modify_field(ctrl, CTRL_TE_MASK, CTRL_TE_OFFSET, 0);
        let ctrl: u32 = ral::modify_field(ctrl, CTRL_RE_MASK, CTRL_RE_OFFSET, 0);
        self.uart.write(Register::CTRL, ctrl);

        self.apply(timings);

        let ctrl: u32 = self.uart.read(Register::CTRL);
        let ctrl: u32 = ral::modify_field(ctrl, CTRL_TE_MASK, CTRL_TE_OFFSET, te);
        let ctrl: u32 = ral::modify_field(ctrl, CTRL_RE_MASK, CTRL_RE_OFFSET, re);
        self.uart.write(Register::CTRL, ctrl);
    }

    /// Write `timings` to the baud register
    fn apply(&mut self, timings: &Timings)
        ensures
            final(self)@ == old(self)@.write(Register::BAUD, timed(old(self)@.regs.BAUD, *timings)),
            final(self).tx_spec() == old(self).tx_spec(),
            final(self).rx_spec() == old(self).rx_spec(),
    {
        let both_edge: u32 = if timings.both_edge {
            1
        } else {
            0
        };
        let baud: u32 = self.uart.read(Register::BAUD);
        let baud: u32 = ral::modify_field(baud, BAUD_OSR_MASK, BAUD_OSR_OFFSET, timings.osr as u32);
        let baud: u32 = ral::modify_field(baud, BAUD_SBR_MASK, BAUD_SBR_OFFSET, timings.sbr as u32);
        let baud: u32 = ral::modify_field(
            baud,
            BAUD_BOTHEDGE_MASK,
            BAUD_BOTHEDGE_OFFSET,
            both_edge,
        );
        self.uart.write(Register::BAUD, baud);
    }

    /// Return the pins and RAL instance that comprise the UART driver
    pub fn release(self) -> (parts: (TX, RX, Instance))
        ensures
            parts.0 == self.tx_spec(),
            parts.1 == self.rx_spec(),
            parts.2 == self.registers_spec(),
            parts.2@ == self@,
    {
        (self.tx, self.rx, self.uart)
    }

    /// Clear the idle, overrun, noise, framing and parity flags
    fn clear_status(&mut self)
        ensures
            final(self)@ == old(self)@.write(Register::STAT, status_cleared(old(self)@.regs.STAT)),
            final(self).tx_spec() == old(self).tx_spec(),
            final(self).rx_spec() == old(self).rx_spec(),
    {
        let stat: u32 = self.uart.read(Register::STAT);
        let stat: u32 = ral::modify_field(stat, STAT_IDLE_MASK, STAT_IDLE_OFFSET, 1);
        let stat: u32 = ral::modify_field(stat, STAT_OR_MASK, STAT_OR_OFFSET, 1);
        let stat: u32 = ral::modify_field(stat, STAT_NF_MASK, STAT_NF_OFFSET, 1);
        let stat: u32 = ral::modify_field(stat, STAT_FE_MASK, STAT_FE_OFFSET, 1);
        let stat: u32 = ral::modify_field(stat, STAT_PF_MASK, STAT_PF_OFFSET, 1);
        self.uart.write(Register::STAT, stat);
    }

    /// Read a byte from the UART receiver
    ///
    /// This does not wait. If the data register says that the receive
    /// buffer is empty, the error holds the would-block flag alone and
    /// nothing is written. Otherwise the sticky status flags are cleared,
    /// and the byte is returned: alone if it was received without overrun,
    /// parity, framing or noise error, else in the error beside the flags.
    pub fn read(&mut self) -> (result: Result<u8, ReadError>)
        ensures
            result == read_result(old(self)@),
            final(self)@ == (if receive_empty(old(self)@) {
                old(self)@
            } else {
                old(self)@.write(Register::STAT, status_cleared(old(self)@.regs.STAT))
            }),
            !receive_empty(old(self)@) ==> final(self)@.regs.STAT & receive_flags() == 0,
            final(self).tx_spec() == old(self).tx_spec(),
            final(self).rx_spec() == old(self).rx_spec(),
    {
        proof {
            lemma_status_cleared(self@.regs.STAT);
        }
        let data: u32 = self.uart.read(Register::DATA);
        if data & DATA_RXEMPT_MASK != 0 {
            Err(ReadError { flags: ReadErrorFlags::from_bits(ReadErrorFlags::WOULDBLOCK), raw: 0 })
        } else {
            let mut flags = ReadErrorFlags::empty();
            let stat: u32 = self.uart.read(Register::STAT);
            flags.set(
                ReadErrorFlags::OVERRUN,
                ral::read_field(stat, STAT_OR_MASK, STAT_OR_OFFSET) == 1,
            );
            flags.set(ReadErrorFlags::PARITY, data & DATA_PARITYE_MASK != 0);
            flags.set(ReadErrorFlags::FRAME_ERROR, data & DATA_FRETSC_MASK != 0);
            flags.set(ReadErrorFlags::NOISY, data & DATA_NOISY_MASK != 0);

            let raw: u8 = (data & 0xFF) as u8;
            self.clear_status();

            if flags.is_empty() {
                Ok(raw)
            } else {
                Err(ReadError { flags, raw })
            }
        }
    }

    /// One poll of the wait for the transmitter: `true` if the transmit
    /// data register is empty
    pub fn flush(&self) -> (empty: bool)
        ensures
            empty == transmit_empty(self@),
    {
        ral::read_field(self.uart.read(Register::STAT), STAT_TDRE_MASK, STAT_TDRE_OFFSET) != 0
    }

    /// Write a byte out of the UART peripheral
    ///
    /// One step of the wait for the transmitter. If the transmit data
    /// register is empty, the byte is written and `Ok(true)` returned. If
    /// it is not, nothing is written and `Ok(false)` returned: the caller
    /// tries again with a fresh image of the status register. There is no
    /// error.
    pub fn write(&mut self, word: u8) -> (result: Result<bool, Error>)
        ensures
            result == Ok::<bool, Error>(transmit_empty(old(self)@)),
            final(self)@ == (if transmit_empty(old(self)@) {
                old(self)@.write(Register::DATA, word as u32)
            } else {
                old(self)@
            }),
            final(self).tx_spec() == old(self).tx_spec(),
            final(self).rx_spec() == old(self).rx_spec(),
    {
        if self.flush() {
            self.uart.write(Register::DATA, word as u32);
            Ok(true)
        } else {
            Ok(false)
        }
    }
}

/// The block after a new driver was started on it: reconfigured for 9600
/// baud, then transmitter and receiver enabled
pub open spec fn started(uart: Model) -> Model {
    let uart = reconfigured(uart, solution(UART_CLOCK as int, 9600));
    uart.write(Register::CTRL, enables(uart.regs.CTRL, 1, 1))
}

/// Whatever runs while the transmitter and the receiver are off finds
/// both of them off. If it leaves the control register as it finds it,
/// the control register is afterwards, bit for bit, what it was before:
/// the transmitter and the receiver are enabled exactly if they were.
pub proof fn lemma_while_disabled(uart: Model, act: spec_fn(Model) -> Model)
    ensures
        !transmitter_enabled(disabled(uart)),
        !receiver_enabled(disabled(uart)),
        disabled(uart).regs.CTRL & !(CTRL_TE_MASK | CTRL_RE_MASK) == uart.regs.CTRL & !(
        CTRL_TE_MASK | CTRL_RE_MASK),
        act(disabled(uart)).regs.CTRL == disabled(uart).regs.CTRL ==> {
            let after = while_disabled(uart, act);
            &&& after.regs.CTRL == uart.regs.CTRL
            &&& transmitter_enabled(after) == transmitter_enabled(uart)
            &&& receiver_enabled(after) == receiver_enabled(uart)
        },
{
    let ctrl = uart.regs.CTRL;
    let te = field(ctrl, CTRL_TE_MASK, CTRL_TE_OFFSET);
    let re = field(ctrl, CTRL_RE_MASK, CTRL_RE_OFFSET);
    assert({
        let off = enables(ctrl, 0, 0);
        &&& field(off, CTRL_TE_MASK, CTRL_TE_OFFSET) == 0
        &&& field(off, CTRL_RE_MASK, CTRL_RE_OFFSET) == 0
        &&& off & !(CTRL_TE_MASK | CTRL_RE_MASK) == ctrl & !(CTRL_TE_MASK | CTRL_RE_MASK)
        &&& enables(off, te, re) == ctrl
    }) by (bit_vector)
        requires
            te == (ctrl & 0x0008_0000u32) >> 19u32,
            re == (ctrl & 0x0004_0000u32) >> 18u32,
    ;
}

/// A reconfiguration leaves the control register, and with it the
/// transmitter and receiver enables, exactly as it was.
pub proof fn lemma_reconfigured_keeps_control(uart: Model, timings: Timings)
    ensures
        reconfigured(uart, timings).regs.CTRL == uart.regs.CTRL,
        transmitter_enabled(reconfigured(uart, timings)) == transmitter_enabled(uart),
        receiver_enabled(reconfigured(uart, timings)) == receiver_enabled(uart),
{
    lemma_while_disabled(uart, apply_timings(timings));
}

/// A reconfiguration issues four writes after those that were pending:
/// the FIFO register with both flush bits set, the control register with
/// transmitter and receiver disabled, the baud register with the new
/// timings, and the control register as it was at first. So the baud
/// register is written while both directions are off.
pub proof fn lemma_reconfigured_order(uart: Model, timings: Timings)
    ensures
        ({
            let after = reconfigured(uart, timings);
            let off = enables(uart.regs.CTRL, 0, 0);
            &&& after.addr == uart.addr
            &&& after.writes == uart.writes.push(
                Write { addr: (uart.addr + 0x28) as u32, value: flushed(uart.regs.FIFO) },
            ).push(Write { addr: (uart.addr + 0x18) as u32, value: off }).push(
                Write {
                    addr: (uart.addr + 0x10) as u32,
                    value: timed(uart.regs.BAUD, timings),
                },
            ).push(Write { addr: (uart.addr + 0x18) as u32, value: uart.regs.CTRL })
            &&& flushed(uart.regs.FIFO) & FIFO_TXFLUSH_MASK != 0
            &&& flushed(uart.regs.FIFO) & FIFO_RXFLUSH_MASK != 0
            &&& off & (CTRL_TE_MASK | CTRL_RE_MASK) == 0
            &&& off & !(CTRL_TE_MASK | CTRL_RE_MASK) == uart.regs.CTRL & !(CTRL_TE_MASK
                | CTRL_RE_MASK)
            &&& after.regs.BAUD == timed(uart.regs.BAUD, timings)
            &&& after.regs.FIFO == ral::lpuart::fifo_written(
                uart.regs.FIFO,
                flushed(uart.regs.FIFO),
            )
            &&& after.regs.STAT == uart.regs.STAT
            &&& after.regs.DATA == uart.regs.DATA
        }),
{
    lemma_while_disabled(uart, apply_timings(timings));
    let fifo = uart.regs.FIFO;
    let ctrl = uart.regs.CTRL;
    assert({
        let off = enables(ctrl, 0, 0);
        &&& flushed(fifo) & FIFO_TXFLUSH_MASK != 0
        &&& flushed(fifo) & FIFO_RXFLUSH_MASK != 0
        &&& off & (CTRL_TE_MASK | CTRL_RE_MASK) == 0
    }) by (bit_vector);
}

/// The baud register holds the timings after they were applied, and its
/// other bits are kept.
pub proof fn lemma_timed(baud: u32, timings: Timings)
    requires
        timings.osr <= 31,
        timings.sbr <= SBR_MAX,
    ensures
        ({
            let after = timed(baud, timings);
            let fields = BAUD_OSR_MASK | BAUD_SBR_MASK | BAUD_BOTHEDGE_MASK;
            &&& holds_timings(after, timings)
            &&& after & !fields == baud & !fields
        }),
{
    let osr = timings.osr as u32;
    let sbr = timings.sbr as u32;
    let edge: u32 = if timings.both_edge {
        1
    } else {
        0
    };
    assert(osr <= 31 && sbr <= 8191 && edge <= 1 ==> {
        let after = with_field(
            with_field(
                with_field(baud, BAUD_OSR_MASK, BAUD_OSR_OFFSET, osr),
                BAUD_SBR_MASK,
                BAUD_SBR_OFFSET,
                sbr,
            ),
            BAUD_BOTHEDGE_MASK,
            BAUD_BOTHEDGE_OFFSET,
            edge,
        );
        let fields = BAUD_OSR_MASK | BAUD_SBR_MASK | BAUD_BOTHEDGE_MASK;
        &&& field(after, BAUD_OSR_MASK, BAUD_OSR_OFFSET) == osr
        &&& field(after, BAUD_SBR_MASK, BAUD_SBR_OFFSET) == sbr
        &&& field(after, BAUD_BOTHEDGE_MASK, BAUD_BOTHEDGE_OFFSET) == edge
        &&& after & !fields == baud & !fields
    }) by (bit_vector);
}

/// Each flag of a read stands for one condition: overrun for the overrun
/// flag of the status register, and parity, framing and noise for the
/// flags of the received word. No flag is set exactly if none of the four
/// holds, and the would-block flag is never among them.
pub proof fn lemma_read_flags(data: u32, stat: u32)
    ensures
        ({
            let bits = read_flags(data, stat).bits_spec();
            &&& (bits & ReadErrorFlags::OVERRUN != 0) == (field(stat, STAT_OR_MASK, STAT_OR_OFFSET)
                == 1)
            &&& (bits & ReadErrorFlags::PARITY != 0) == (data & DATA_PARITYE_MASK != 0)
            &&& (bits & ReadErrorFlags::FRAME_ERROR != 0) == (data & DATA_FRETSC_MASK != 0)
            &&& (bits & ReadErrorFlags::NOISY != 0) == (data & DATA_NOISY_MASK != 0)
            &&& bits & ReadErrorFlags::WOULDBLOCK == 0
            &&& (bits == 0) == (field(stat, STAT_OR_MASK, STAT_OR_OFFSET) != 1 && data
                & DATA_PARITYE_MASK == 0 && data & DATA_FRETSC_MASK == 0 && data & DATA_NOISY_MASK
                == 0)
        }),
{
    let overrun = field(stat, STAT_OR_MASK, STAT_OR_OFFSET) == 1;
    let parity = data & DATA_PARITYE_MASK != 0;
    let frame = data & DATA_FRETSC_MASK != 0;
    let noisy = data & DATA_NOISY_MASK != 0;
    let b0: u8 = 0;
    let b1: u8 = if overrun {
        b0 | 0x10
    } else {
        b0 & !0x10
    };
    let b2: u8 = if parity {
        b1 | 0x40
    } else {
        b1 & !0x40
    };
    let b3: u8 = if frame {
        b2 | 0x20
    } else {
        b2 & !0x20
    };
    let b4: u8 = if noisy {
        b3 | 0x80
    } else {
        b3 & !0x80
    };
    assert(read_flags(data, stat).bits_spec() == b4);
    assert({
        &&& (b4 & 0x10 != 0) == overrun
        &&& (b4 & 0x40 != 0) == parity
        &&& (b4 & 0x20 != 0) == frame
        &&& (b4 & 0x80 != 0) == noisy
        &&& b4 & 0x01 == 0
        &&& (b4 == 0) == (!overrun && !parity && !frame && !noisy)
    }) by (bit_vector)
        requires
            b1 == (if overrun {
                0u8 | 0x10
            } else {
                0u8 & !0x10
            }),
            b2 == (if parity {
                b1 | 0x40
            } else {
                b1 & !0x40
            }),
            b3 == (if frame {
                b2 | 0x20
            } else {
                b2 & !0x20
            }),
            b4 == (if noisy {
                b3 | 0x80
            } else {
                b3 & !0x80
            }),
    ;
}

/// Writing back the status word with the five receive flags set clears
/// them in the status register, and keeps the hardware's own flags.
pub proof fn lemma_status_cleared(stat: u32)
    ensures
        ({
            let after = ral::lpuart::stat_written(stat, status_cleared(stat));
            &&& after & receive_flags() == 0
            &&& after & ral::lpuart::STAT_READ_ONLY_MASK == stat & ral::lpuart::STAT_READ_ONLY_MASK
            &&& after & ral::lpuart::STAT_CONFIG_MASK == stat & ral::lpuart::STAT_CONFIG_MASK
        }),
{
    assert({
        let after = ral::lpuart::stat_written(stat, status_cleared(stat));
        &&& after & receive_flags() == 0
        &&& after & ral::lpuart::STAT_READ_ONLY_MASK == stat & ral::lpuart::STAT_READ_ONLY_MASK
        &&& after & ral::lpuart::STAT_CONFIG_MASK == stat & ral::lpuart::STAT_CONFIG_MASK
    }) by (bit_vector);
}

} // verus!
