//! A blocking delay on a GPT output compare channel
//!
//! The wait itself is a poll of the timer's status register, which only the
//! hardware changes. So the delay comes in two parts: [`start`] arms the
//! channel, and [`poll`], called with a fresh image of the status register
//! until it returns `true`, ends the delay.

use vstd::prelude::*;
use crate::gpt::{OutputCompareRegister, GPT};
use crate::ral::gpt::{Model, Register, CR_EN_MASK, CR_EN_OFFSET};

verus! {

/// The length of the delay in ticks of the timer
pub const FIVE_HUNDRED_MILLISECONDS_IN_TICKS: u32 = 100000;

/// The output compare channel that times the delay
pub open spec fn channel() -> OutputCompareRegister {
    OutputCompareRegister::One
}

/// The compare value `ticks` after `count`, on a counter of 32 bits that
/// starts again at zero after its largest value
pub open spec fn ticks_after(count: u32, ticks: u32) -> u32 {
    ((count + ticks) % 0x1_0000_0000) as u32
}

/// The timer after `output` was armed `ticks` ahead of its compare value:
/// the counter is disabled, the compare value is moved, and the counter is
/// enabled
pub open spec fn armed(timer: Model, output: OutputCompareRegister, ticks: u32) -> Model {
    let timer = timer.modify(Register::CR, CR_EN_MASK, CR_EN_OFFSET, 0);
    let count = timer.regs.get(output.register_spec());
    let timer = timer.write(output.register_spec(), ticks_after(count, ticks));
    timer.modify(Register::CR, CR_EN_MASK, CR_EN_OFFSET, 1)
}

/// True if the compare event of `output` has happened
pub open spec fn fired(timer: Model, output: OutputCompareRegister) -> bool {
    timer.regs.SR & output.flag() != 0
}

/// The timer after the delay on `output` was ended: the channel's flag is
/// cleared, then the counter is disabled
pub open spec fn finished(timer: Model, output: OutputCompareRegister) -> Model {
    timer.write(Register::SR, output.flag()).modify(Register::CR, CR_EN_MASK, CR_EN_OFFSET, 0)
}

/// Arm `output` to fire `ticks` after its current compare value
pub fn arm(timer: &mut GPT, output: OutputCompareRegister, ticks: u32)
    ensures
        final(timer)@ == armed(old(timer)@, output, ticks),
{
    timer.set_enable(false);
    let count: u32 = timer.output_compare_count(output);
    let count: u32 = count.wrapping_add(ticks);
    timer.set_output_compare_count(output, count);
    timer.set_enable(true);
}

/// End the delay on `output` if its compare event has happened
///
/// Returns `true`, with the flag cleared and the counter disabled, if the
/// flag of `output` is set. Returns `false`, and changes nothing, if it is
/// not: the caller polls again with a fresh image of the status register.
pub fn expire(timer: &mut GPT, output: OutputCompareRegister) -> (done: bool)
    ensures
        done == fired(old(timer)@, output),
        final(timer)@ == (if done {
            finished(old(timer)@, output)
        } else {
            old(timer)@
        }),
{
    let mut status = timer.output_compare_status(output);
    if status.is_set() {
        status.clear();
        timer.set_enable(false);
        true
    } else {
        false
    }
}

/// Start a wait of [`FIVE_HUNDRED_MILLISECONDS_IN_TICKS`] ticks
pub fn start(timer: &mut GPT)
    ensures
        final(timer)@ == armed(old(timer)@, channel(), FIVE_HUNDRED_MILLISECONDS_IN_TICKS),
{
    arm(timer, OutputCompareRegister::One, FIVE_HUNDRED_MILLISECONDS_IN_TICKS);
}

/// One poll of the wait that [`start`] began: `true` when the wait is over
pub fn poll(timer: &mut GPT) -> (done: bool)
    ensures
        done == fired(old(timer)@, channel()),
        final(timer)@ == (if done {
            finished(old(timer)@, channel())
        } else {
            old(timer)@
        }),
{
    expire(timer, OutputCompareRegister::One)
}

/// A compare value that is moved ahead wraps at 32 bits: it is the sum
/// where the sum fits, and the sum less 2^32 where it does not. So a
/// compare value just below the largest count, moved ahead, lands just
/// above zero.
pub proof fn lemma_ticks_after_wraps(count: u32, ticks: u32)
    ensures
        ticks_after(count, ticks) == count.wrapping_add(ticks),
        count + ticks <= u32::MAX ==> ticks_after(count, ticks) == count + ticks,
        count + ticks > u32::MAX ==> ticks_after(count, ticks) == count + ticks - 0x1_0000_0000,
{
}

/// Whether the compare event of a channel has happened depends on the
/// channel's flag alone, whatever the compare value is.
pub proof fn lemma_fired_ignores_compare_value(
    timer: Model,
    output: OutputCompareRegister,
    other: OutputCompareRegister,
    count: u32,
)
    ensures
        fired(timer.write(other.register_spec(), count), output) == fired(timer, output),
{
}

} // verus!
