//! General purpose timer (GPT) driver

use vstd::prelude::*;
use core::time::Duration;
use crate::ral;
use crate::ral::gpt::{
    Instance, Model, Register, CR_CLKSRC_MASK, CR_CLKSRC_OFFSET, CR_ENMOD_MASK, CR_ENMOD_OFFSET,
    CR_EN_24M_MASK, CR_EN_24M_OFFSET, CR_EN_MASK, CR_EN_OFFSET, CR_FRR_MASK, CR_FRR_OFFSET,
    CR_WAITEN_MASK, CR_WAITEN_OFFSET, IR_ROVIE_MASK, IR_ROVIE_OFFSET, PR_PRESCALER24M_MASK,
    PR_PRESCALER24M_OFFSET, SR_FLAGS_MASK,
};
use crate::ral::{field, with_field, Write};

verus! {

/// General purpose timers (GPT)
pub struct GPT {
    /// Registers for this GPT instance
    registers: Instance,
}

/// GPT clock divider
///
/// This crystal oscillator is very sensitive. Not all values
/// seem to work. 5 is one of them that does. So is 3. 10 does
/// not work. The field is supposed to support values up to 0xF.
pub const DIVIDER: u32 = 5;

/// GPT effective frequency
pub const CLOCK_HZ: u32 = crate::ccm::PERCLOCK_FREQUENCY_HZ / DIVIDER;

/// The value that selects the crystal oscillator as the clock source
pub const CLKSRC_OSCILLATOR: u32 = 0b101;

/// An output compare register (OCR)
#[derive(Clone, Copy, PartialEq, Eq, Structural, Debug)]
pub enum OutputCompareRegister {
    One,
    Two,
    Three,
}

impl OutputCompareRegister {
    /// The position of the channel's flag in the status register
    pub open spec fn index_spec(self) -> u32 {
        match self {
            OutputCompareRegister::One => 0,
            OutputCompareRegister::Two => 1,
            OutputCompareRegister::Three => 2,
        }
    }

    /// The position of the channel's flag in the status register
    pub fn index(self) -> (index: u32)
        ensures
            index == self.index_spec(),
    {
        match self {
            OutputCompareRegister::One => 0,
            OutputCompareRegister::Two => 1,
            OutputCompareRegister::Three => 2,
        }
    }

    /// The compare register of the channel
    pub open spec fn register_spec(self) -> Register {
        match self {
            OutputCompareRegister::One => Register::OCR1,
            OutputCompareRegister::Two => Register::OCR2,
            OutputCompareRegister::Three => Register::OCR3,
        }
    }

    /// The compare register of the channel
    pub fn register(self) -> (reg: Register)
        ensures
            reg == self.register_spec(),
    {
        match self {
            OutputCompareRegister::One => Register::OCR1,
            OutputCompareRegister::Two => Register::OCR2,
            OutputCompareRegister::Three => Register::OCR3,
        }
    }

    /// The word with only the channel's status flag set
    pub open spec fn flag(self) -> u32 {
        1u32 << self.index_spec()
    }
}

/// Possible modes of the GPT
#[derive(Debug, Clone, Copy, PartialEq, Eq, Structural)]
pub enum Mode {
    /// Reset mode
    ///
    /// A comparisons event on channel 1 will reset the GPT counter.
    /// Comparison events on channels 2 and 3 do not reset the counter.
    Reset,
    /// Free running mode
    ///
    /// Comparisons on channel 1 are treated like comparisons on channels
    /// 2 and 3. The counter continues to increment on comparison.
    FreeRunning,
}

impl Mode {
    /// The value of the free-run field that stands for the mode
    pub open spec fn bits_spec(self) -> u32 {
        match self {
            Mode::Reset => 0,
            Mode::FreeRunning => 1,
        }
    }

    /// The value of the free-run field that stands for the mode
    pub fn bits(self) -> (bits: u32)
        ensures
            bits == self.bits_spec(),
    {
        match self {
            Mode::Reset => 0,
            Mode::FreeRunning => 1,
        }
    }
}

/// The value of a one-bit field that stands for `on`
pub open spec fn bit(on: bool) -> u32 {
    if on {
        1
    } else {
        0
    }
}

/// The mode that the control register shows
pub open spec fn mode_of(gpt: Model) -> Mode {
    if field(gpt.regs.CR, CR_FRR_MASK, CR_FRR_OFFSET) == 0 {
        Mode::Reset
    } else {
        Mode::FreeRunning
    }
}

/// True if the control register shows the counter enabled
pub open spec fn is_enabled(gpt: Model) -> bool {
    field(gpt.regs.CR, CR_EN_MASK, CR_EN_OFFSET) == 1
}

/// True if the control register shows that the counter restarts from zero
/// when it is enabled
pub open spec fn resets_on_enable(gpt: Model) -> bool {
    field(gpt.regs.CR, CR_ENMOD_MASK, CR_ENMOD_OFFSET) == 1
}

/// True if the control register shows that the timer runs in wait mode
pub open spec fn runs_in_wait_mode(gpt: Model) -> bool {
    field(gpt.regs.CR, CR_WAITEN_MASK, CR_WAITEN_OFFSET) == 1
}

/// The control word that enables the crystal oscillator input and selects
/// it as the clock source, with every other field zero
pub open spec fn oscillator_selected() -> u32 {
    with_field(
        with_field(0, CR_EN_24M_MASK, CR_EN_24M_OFFSET, 1),
        CR_CLKSRC_MASK,
        CR_CLKSRC_OFFSET,
        CLKSRC_OSCILLATOR,
    )
}

/// The prescaler word that divides the oscillator input by [`DIVIDER`]
pub open spec fn prescaled() -> u32 {
    with_field(0, PR_PRESCALER24M_MASK, PR_PRESCALER24M_OFFSET, (DIVIDER - 1) as u32)
}

/// The control word `cr` with free-running mode and run-in-wait-mode set,
/// reset-on-enable cleared and the counter enabled
pub open spec fn started(cr: u32) -> u32 {
    with_field(
        with_field(
            with_field(
                with_field(cr, CR_FRR_MASK, CR_FRR_OFFSET, 1),
                CR_WAITEN_MASK,
                CR_WAITEN_OFFSET,
                1,
            ),
            CR_ENMOD_MASK,
            CR_ENMOD_OFFSET,
            0,
        ),
        CR_EN_MASK,
        CR_EN_OFFSET,
        1,
    )
}

/// The timer after its initialization, step by step: select the
/// oscillator, program the prescaler, clear every status flag, disable the
/// rollover interrupt, then set the modes and start the counter
pub open spec fn initialized(gpt: Model) -> Model {
    let gpt = gpt.write(Register::CR, oscillator_selected());
    let gpt = gpt.write(Register::PR, prescaled());
    let gpt = gpt.write(Register::SR, SR_FLAGS_MASK);
    let gpt = gpt.modify(Register::IR, IR_ROVIE_MASK, IR_ROVIE_OFFSET, 0);
    gpt.write(Register::CR, started(gpt.regs.CR))
}

/// What [`Duration::from_nanos`] returns for a number of nanoseconds
pub uninterp spec fn duration_from_nanos(nanos: u64) -> Duration;

/// `core::time::Duration::from_nanos`: the duration of that many
/// nanoseconds. The result depends on the argument alone.
#[verifier::external_body]
fn from_nanos(nanos: u64) -> (duration: Duration)
    ensures
        duration == duration_from_nanos(nanos),
{
    Duration::from_nanos(nanos)
}

impl View for GPT {
    type V = Model;

    /// The timer's register block
    closed spec fn view(&self) -> Model {
        self.registers@
    }
}

impl GPT {
    /// Create a new `GPT` from a RAL GPT instance
    ///
    /// The enabled periodic clock root shows that the timer's clock runs.
    pub fn new(gpt: Instance, _clock: &crate::ccm::PerClock<Instance>) -> (timer: GPT)
        ensures
            timer@ == initialized(gpt@),
            mode_of(timer@) == Mode::FreeRunning,
            is_enabled(timer@),
            runs_in_wait_mode(timer@),
            !resets_on_enable(timer@),
            timer@.regs.SR & SR_FLAGS_MASK == 0,
    {
        proof {
            lemma_initialized(gpt@);
        }
        let mut gpt = gpt;
        let mut cr: u32 = ral::modify_field(0, CR_EN_24M_MASK, CR_EN_24M_OFFSET, 1);
        cr = ral::modify_field(cr, CR_CLKSRC_MASK, CR_CLKSRC_OFFSET, CLKSRC_OSCILLATOR);
        gpt.write(Register::CR, cr);
        gpt.write(
            Register::PR,
            ral::modify_field(0, PR_PRESCALER24M_MASK, PR_PRESCALER24M_OFFSET, DIVIDER - 1),
        );

        // Clear all statuses
        gpt.write(Register::SR, SR_FLAGS_MASK);
        // Rollover interrupt disabled
        gpt.modify(Register::IR, IR_ROVIE_MASK, IR_ROVIE_OFFSET, 0);

        let mut cr: u32 = gpt.read(Register::CR);
        // Free-running mode, no matter the output compare channel
        cr = ral::modify_field(cr, CR_FRR_MASK, CR_FRR_OFFSET, 1);
        // Run in wait mode
        cr = ral::modify_field(cr, CR_WAITEN_MASK, CR_WAITEN_OFFSET, 1);
        // Counter maintains value when disabled
        cr = ral::modify_field(cr, CR_ENMOD_MASK, CR_ENMOD_OFFSET, 0);
        // Start the timer
        cr = ral::modify_field(cr, CR_EN_MASK, CR_EN_OFFSET, 1);
        gpt.write(Register::CR, cr);

        GPT { registers: gpt }
    }

    /// Returns the timer's register block, for refreshing the image and
    /// collecting the writes
    pub fn registers(&mut self) -> (registers: &mut Instance)
        ensures
            registers@ == old(self)@,
            final(self)@ == final(registers)@,
            *registers == old(self).registers_spec(),
            final(self).registers_spec() == *final(registers),
    {
        &mut self.registers
    }

    /// The timer's register block
    pub closed spec fn registers_spec(&self) -> Instance {
        self.registers
    }

    /// What the driver stands for is what its register block stands for.
    pub proof fn lemma_view(&self)
        ensures
            self.registers_spec()@ == self@,
    {
    }

    /// Returns the current mode of the GPT
    pub fn mode(&self) -> (mode: Mode)
        ensures
            mode == mode_of(self@),
    {
        if ral::read_field(self.registers.read(Register::CR), CR_FRR_MASK, CR_FRR_OFFSET) == 0 {
            Mode::Reset
        } else {
            Mode::FreeRunning
        }
    }

    /// Set the GPT mode
    pub fn set_mode(&mut self, mode: Mode)
        ensures
            final(self)@ == old(self)@.modify(
                Register::CR,
                CR_FRR_MASK,
                CR_FRR_OFFSET,
                mode.bits_spec(),
            ),
            mode_of(final(self)@) == mode,
            is_enabled(final(self)@) == is_enabled(old(self)@),
            resets_on_enable(final(self)@) == resets_on_enable(old(self)@),
            runs_in_wait_mode(final(self)@) == runs_in_wait_mode(old(self)@),
    {
        proof {
            let cr = self@.regs.CR;
            lemma_control_fields(cr, mode.bits_spec());
            lemma_flag_from_other_flags(
                with_field(cr, CR_FRR_MASK, CR_FRR_OFFSET, mode.bits_spec()),
                cr,
            );
        }
        self.registers.modify(Register::CR, CR_FRR_MASK, CR_FRR_OFFSET, mode.bits());
    }

    /// Set the reset on enable behavior
    pub fn set_reset_on_enable(&mut self, reset_on_enable: bool)
        ensures
            final(self)@ == old(self)@.modify(
                Register::CR,
                CR_ENMOD_MASK,
                CR_ENMOD_OFFSET,
                bit(reset_on_enable),
            ),
            resets_on_enable(final(self)@) == reset_on_enable,
            mode_of(final(self)@) == mode_of(old(self)@),
            is_enabled(final(self)@) == is_enabled(old(self)@),
            runs_in_wait_mode(final(self)@) == runs_in_wait_mode(old(self)@),
    {
        proof {
            let cr = self@.regs.CR;
            lemma_control_fields(cr, bit(reset_on_enable));
            lemma_flag_from_other_flags(
                with_field(cr, CR_ENMOD_MASK, CR_ENMOD_OFFSET, bit(reset_on_enable)),
                cr,
            );
        }
        self.registers.modify(Register::CR, CR_ENMOD_MASK, CR_ENMOD_OFFSET, flag(reset_on_enable));
    }

    /// Returns `true` if the GPT counter will reset the next time it is enabled
    pub fn reset_on_enable(&self) -> (on: bool)
        ensures
            on == resets_on_enable(self@),
    {
        ral::read_field(self.registers.read(Register::CR), CR_ENMOD_MASK, CR_ENMOD_OFFSET) == 1
    }

    /// Enable or disable the GPT
    ///
    /// When enabled, the counter starts counting. When disabled, the counter will
    /// stop counting.
    pub fn set_enable(&mut self, enable: bool)
        ensures
            final(self)@ == old(self)@.modify(Register::CR, CR_EN_MASK, CR_EN_OFFSET, bit(enable)),
            is_enabled(final(self)@) == enable,
            mode_of(final(self)@) == mode_of(old(self)@),
            resets_on_enable(final(self)@) == resets_on_enable(old(self)@),
            runs_in_wait_mode(final(self)@) == runs_in_wait_mode(old(self)@),
    {
        proof {
            let cr = self@.regs.CR;
            lemma_control_fields(cr, bit(enable));
            lemma_flag_from_other_flags(with_field(cr, CR_EN_MASK, CR_EN_OFFSET, bit(enable)), cr);
        }
        self.registers.modify(Register::CR, CR_EN_MASK, CR_EN_OFFSET, flag(enable));
    }

    /// Indicates if the GPT is enabled (`true`) or disabled (`false`).
    pub fn enabled(&self) -> (on: bool)
        ensures
            on == is_enabled(self@),
    {
        ral::read_field(self.registers.read(Register::CR), CR_EN_MASK, CR_EN_OFFSET) == 1
    }

    /// Allow the GPT to run in wait mode; or, prevent the GPT from running
    /// in wait mode.
    pub fn set_wait_mode_enable(&mut self, wait: bool)
        ensures
            final(self)@ == old(self)@.modify(
                Register::CR,
                CR_WAITEN_MASK,
                CR_WAITEN_OFFSET,
                bit(wait),
            ),
            runs_in_wait_mode(final(self)@) == wait,
            mode_of(final(self)@) == mode_of(old(self)@),
            is_enabled(final(self)@) == is_enabled(old(self)@),
            resets_on_enable(final(self)@) == resets_on_enable(old(self)@),
    {
        proof {
            let cr = self@.regs.CR;
            lemma_control_fields(cr, bit(wait));
            lemma_flag_from_other_flags(
                with_field(cr, CR_WAITEN_MASK, CR_WAITEN_OFFSET, bit(wait)),
                cr,
            );
        }
        self.registers.modify(Register::CR, CR_WAITEN_MASK, CR_WAITEN_OFFSET, flag(wait));
    }

    /// Indicates if the GPT runs while in wait mode
    pub fn wait_mode_enabled(&self) -> (on: bool)
        ensures
            on == runs_in_wait_mode(self@),
    {
        ral::read_field(self.registers.read(Register::CR), CR_WAITEN_MASK, CR_WAITEN_OFFSET) == 1
    }

    /// Returns the current count of the GPT
    pub fn count(&self) -> (count: u32)
        ensures
            count == self@.regs.CNT,
    {
        self.registers.read(Register::CNT)
    }

    /// Set an output compare register to trigger on the next `count` value of the
    /// counter.
    pub fn set_output_compare_count(&mut self, output: OutputCompareRegister, count: u32)
        ensures
            final(self)@ == old(self)@.write(output.register_spec(), count),
            final(self)@.regs.get(output.register_spec()) == count,
    {
        match output {
            OutputCompareRegister::One => self.registers.write(Register::OCR1, count),
            OutputCompareRegister::Two => self.registers.write(Register::OCR2, count),
            OutputCompareRegister::Three => self.registers.write(Register::OCR3, count),
        }
    }

    /// Returns the current output compare count for the specified register
    pub fn output_compare_count(&self, output: OutputCompareRegister) -> (count: u32)
        ensures
            count == self@.regs.get(output.register_spec()),
    {
        match output {
            OutputCompareRegister::One => self.registers.read(Register::OCR1),
            OutputCompareRegister::Two => self.registers.read(Register::OCR2),
            OutputCompareRegister::Three => self.registers.read(Register::OCR3),
        }
    }

    /// Returns a handle that can query and modify the output compare status for the provided output
    pub fn output_compare_status(&mut self, output: OutputCompareRegister) -> (status:
        OutputCompareStatus<'_>)
        ensures
            status.timer() == *old(self),
            status.output == output,
            *final(self) == *final(status.gpt),
    {
        OutputCompareStatus { gpt: self, output }
    }

    /// Returns the clock period as a duration
    ///
    /// This represents the resolution of the clock. The maximum measurement
    /// interval is `clock_period() * u32::max_value()`.
    pub fn clock_period(&self) -> (period: Duration)
        ensures
            period == duration_from_nanos((1_000_000_000u32 / CLOCK_HZ) as u64),
    {
        let nanos: u32 = 1_000_000_000u32 / CLOCK_HZ;
        from_nanos(nanos as u64)
    }
}

/// The value of a one-bit field that stands for `on`
fn flag(on: bool) -> (value: u32)
    ensures
        value == bit(on),
{
    if on {
        1
    } else {
        0
    }
}

/// A handle to evaluate and modify the output compare status
pub struct OutputCompareStatus<'a> {
    /// The timer whose status this is
    pub gpt: &'a mut GPT,
    /// The channel whose status this is
    pub output: OutputCompareRegister,
}

impl<'a> OutputCompareStatus<'a> {
    /// The timer as the handle sees it
    pub open spec fn timer(&self) -> GPT {
        *self.gpt
    }

    /// Returns true if this output compare has triggered
    pub fn is_set(&self) -> (set: bool)
        ensures
            set == (self.timer()@.regs.SR & self.output.flag() != 0),
    {
        let sr: u32 = self.gpt.registers.read(Register::SR);
        sr & (1u32 << self.output.index()) != 0
    }

    /// Clear the output compare status flag
    ///
    /// It's necessary to clear the flag when the comparison has triggered
    /// an interrupt.
    pub fn clear(&mut self)
        ensures
            final(self).timer()@ == old(self).timer()@.write(Register::SR, old(self).output.flag()),
            final(self).output == old(self).output,
            *final(final(self).gpt) == *final(old(self).gpt),
    {
        self.gpt.registers.write(Register::SR, 1u32 << self.output.index());
    }
}

/// After the initialization the control register holds the oscillator
/// as clock source, free-running mode, run in wait mode, no reset on
/// enable and the enabled counter; the prescaler divides by [`DIVIDER`];
/// all six status flags are clear; the rollover interrupt is disabled and
/// the other interrupt enables are as before; the compare registers are
/// untouched; and the five writes went out in their order.
pub proof fn lemma_initialized(gpt: Model)
    ensures
        ({
            let timer = initialized(gpt);
            &&& timer.addr == gpt.addr
            &&& timer.regs.CR == 0x0000_0749
            &&& timer.regs.PR == 0x0000_4000
            &&& timer.regs.SR == gpt.regs.SR & !SR_FLAGS_MASK
            &&& timer.regs.SR & SR_FLAGS_MASK == 0
            &&& timer.regs.IR == gpt.regs.IR & !IR_ROVIE_MASK
            &&& timer.regs.OCR1 == gpt.regs.OCR1
            &&& timer.regs.OCR2 == gpt.regs.OCR2
            &&& timer.regs.OCR3 == gpt.regs.OCR3
            &&& timer.regs.CNT == gpt.regs.CNT
            &&& mode_of(timer) == Mode::FreeRunning
            &&& is_enabled(timer)
            &&& runs_in_wait_mode(timer)
            &&& !resets_on_enable(timer)
            &&& timer.writes == gpt.writes.push(
                Write { addr: gpt.addr, value: 0x0000_0540 },
            ).push(Write { addr: (gpt.addr + 0x04) as u32, value: 0x0000_4000 }).push(
                Write { addr: (gpt.addr + 0x08) as u32, value: 0x0000_003F },
            ).push(
                Write { addr: (gpt.addr + 0x0C) as u32, value: gpt.regs.IR & !IR_ROVIE_MASK },
            ).push(Write { addr: gpt.addr, value: 0x0000_0749 })
        }),
{
    let sr = gpt.regs.SR;
    let ir = gpt.regs.IR;
    assert({
        &&& oscillator_selected() == 0x0000_0540
        &&& prescaled() == 0x0000_4000
        &&& started(0x0000_0540) == 0x0000_0749
        &&& sr & !(0x3Fu32 & 0x3Fu32) == sr & !0x3Fu32
        &&& (sr & !0x3Fu32) & 0x3Fu32 == 0
        &&& with_field(ir, IR_ROVIE_MASK, IR_ROVIE_OFFSET, 0) == ir & !0x20u32
        &&& field(0x0000_0749, CR_FRR_MASK, CR_FRR_OFFSET) == 1
        &&& field(0x0000_0749, CR_EN_MASK, CR_EN_OFFSET) == 1
        &&& field(0x0000_0749, CR_WAITEN_MASK, CR_WAITEN_OFFSET) == 1
        &&& field(0x0000_0749, CR_ENMOD_MASK, CR_ENMOD_OFFSET) == 0
    }) by (bit_vector);
}

/// Each of the four control flags reads back the bit that was written to
/// it, and writing one of them leaves the other three as they were.
pub proof fn lemma_control_fields(cr: u32, value: u32)
    requires
        value <= 1,
    ensures
        ({
            let after = with_field(cr, CR_EN_MASK, CR_EN_OFFSET, value);
            &&& field(after, CR_EN_MASK, CR_EN_OFFSET) == value
            &&& other_flags(after, CR_EN_MASK) == other_flags(cr, CR_EN_MASK)
        }),
        ({
            let after = with_field(cr, CR_ENMOD_MASK, CR_ENMOD_OFFSET, value);
            &&& field(after, CR_ENMOD_MASK, CR_ENMOD_OFFSET) == value
            &&& other_flags(after, CR_ENMOD_MASK) == other_flags(cr, CR_ENMOD_MASK)
        }),
        ({
            let after = with_field(cr, CR_WAITEN_MASK, CR_WAITEN_OFFSET, value);
            &&& field(after, CR_WAITEN_MASK, CR_WAITEN_OFFSET) == value
            &&& other_flags(after, CR_WAITEN_MASK) == other_flags(cr, CR_WAITEN_MASK)
        }),
        ({
            let after = with_field(cr, CR_FRR_MASK, CR_FRR_OFFSET, value);
            &&& field(after, CR_FRR_MASK, CR_FRR_OFFSET) == value
            &&& other_flags(after, CR_FRR_MASK) == other_flags(cr, CR_FRR_MASK)
        }),
{
    assert(value <= 1 ==> {
        &&& field(with_field(cr, CR_EN_MASK, CR_EN_OFFSET, value), CR_EN_MASK, CR_EN_OFFSET)
            == value
        &&& field(
            with_field(cr, CR_ENMOD_MASK, CR_ENMOD_OFFSET, value),
            CR_ENMOD_MASK,
            CR_ENMOD_OFFSET,
        ) == value
        &&& field(
            with_field(cr, CR_WAITEN_MASK, CR_WAITEN_OFFSET, value),
            CR_WAITEN_MASK,
            CR_WAITEN_OFFSET,
        ) == value
        &&& field(with_field(cr, CR_FRR_MASK, CR_FRR_OFFSET, value), CR_FRR_MASK, CR_FRR_OFFSET)
            == value
    }) by (bit_vector);
    crate::ral::lemma_with_field_keeps_others(cr, CR_EN_MASK, CR_EN_OFFSET, value);
    crate::ral::lemma_with_field_keeps_others(cr, CR_ENMOD_MASK, CR_ENMOD_OFFSET, value);
    crate::ral::lemma_with_field_keeps_others(cr, CR_WAITEN_MASK, CR_WAITEN_OFFSET, value);
    crate::ral::lemma_with_field_keeps_others(cr, CR_FRR_MASK, CR_FRR_OFFSET, value);
}

/// The bits of the control word outside the flag `mask`
pub open spec fn other_flags(cr: u32, mask: u32) -> u32 {
    cr & !mask
}

/// A control flag is read from its own bit alone: two control words that
/// agree outside another flag show the same flag.
pub proof fn lemma_flag_from_other_flags(first: u32, second: u32)
    ensures
        other_flags(first, CR_EN_MASK) == other_flags(second, CR_EN_MASK) ==> {
            &&& field(first, CR_ENMOD_MASK, CR_ENMOD_OFFSET) == field(
                second,
                CR_ENMOD_MASK,
                CR_ENMOD_OFFSET,
            )
            &&& field(first, CR_WAITEN_MASK, CR_WAITEN_OFFSET) == field(
                second,
                CR_WAITEN_MASK,
                CR_WAITEN_OFFSET,
            )
            &&& field(first, CR_FRR_MASK, CR_FRR_OFFSET) == field(
                second,
                CR_FRR_MASK,
                CR_FRR_OFFSET,
            )
        },
        other_flags(first, CR_ENMOD_MASK) == other_flags(second, CR_ENMOD_MASK) ==> {
            &&& field(first, CR_EN_MASK, CR_EN_OFFSET) == field(second, CR_EN_MASK, CR_EN_OFFSET)
            &&& field(first, CR_WAITEN_MASK, CR_WAITEN_OFFSET) == field(
                second,
                CR_WAITEN_MASK,
                CR_WAITEN_OFFSET,
            )
            &&& field(first, CR_FRR_MASK, CR_FRR_OFFSET) == field(
                second,
                CR_FRR_MASK,
                CR_FRR_OFFSET,
            )
        },
        other_flags(first, CR_WAITEN_MASK) == other_flags(second, CR_WAITEN_MASK) ==> {
            &&& field(first, CR_EN_MASK, CR_EN_OFFSET) == field(second, CR_EN_MASK, CR_EN_OFFSET)
            &&& field(first, CR_ENMOD_MASK, CR_ENMOD_OFFSET) == field(
                second,
                CR_ENMOD_MASK,
                CR_ENMOD_OFFSET,
            )
            &&& field(first, CR_FRR_MASK, CR_FRR_OFFSET) == field(
                second,
                CR_FRR_MASK,
                CR_FRR_OFFSET,
            )
        },
        other_flags(first, CR_FRR_MASK) == other_flags(second, CR_FRR_MASK) ==> {
            &&& field(first, CR_EN_MASK, CR_EN_OFFSET) == field(second, CR_EN_MASK, CR_EN_OFFSET)
            &&& field(first, CR_ENMOD_MASK, CR_ENMOD_OFFSET) == field(
                second,
                CR_ENMOD_MASK,
                CR_ENMOD_OFFSET,
            )
            &&& field(first, CR_WAITEN_MASK, CR_WAITEN_OFFSET) == field(
                second,
                CR_WAITEN_MASK,
                CR_WAITEN_OFFSET,
            )
        },
{
    assert({
        &&& (first & !0x1u32 == second & !0x1u32 ==> first & 0x2u32 == second & 0x2u32 && first
            & 0x8u32 == second & 0x8u32 && first & 0x200u32 == second & 0x200u32)
        &&& (first & !0x2u32 == second & !0x2u32 ==> first & 0x1u32 == second & 0x1u32 && first
            & 0x8u32 == second & 0x8u32 && first & 0x200u32 == second & 0x200u32)
        &&& (first & !0x8u32 == second & !0x8u32 ==> first & 0x1u32 == second & 0x1u32 && first
            & 0x2u32 == second & 0x2u32 && first & 0x200u32 == second & 0x200u32)
        &&& (first & !0x200u32 == second & !0x200u32 ==> first & 0x1u32 == second & 0x1u32
            && first & 0x2u32 == second & 0x2u32 && first & 0x8u32 == second & 0x8u32)
    }) by (bit_vector);
}

} // verus!
