//! GPT instances
//!
//! Each GPT of a chip is handed out at most once at a time. [`Taken`]
//! holds one flag for each of them; [`take`], [`release`] and [`steal`]
//! check and change the flags. A binding calls them with interrupts masked.

use vstd::prelude::*;
use crate::ral::Chip;
use crate::ral::gpt::{address_of, Instance, Model, RegisterBlock, ResetValues, BASE, STRIDE};

verus! {

/// Start address of GPT1
pub const GPT1: u32 = 0x401E_C000;
/// Start address of GPT2
pub const GPT2: u32 = 0x401F_0000;

/// Reset values for each register of a GPT
pub open spec fn reset_values() -> ResetValues {
    ResetValues {
        CR: 0x0000_0000,
        PR: 0x0000_0000,
        SR: 0x0000_0000,
        IR: 0x0000_0000,
        OCR1: 0xFFFF_FFFF,
        OCR2: 0xFFFF_FFFF,
        OCR3: 0xFFFF_FFFF,
        ICR1: 0x0000_0000,
        ICR2: 0x0000_0000,
        CNT: 0x0000_0000,
    }
}

/// Reset values for each register of a GPT
pub fn reset() -> (values: ResetValues)
    ensures
        values == reset_values(),
{
    ResetValues {
        CR: 0x0000_0000,
        PR: 0x0000_0000,
        SR: 0x0000_0000,
        IR: 0x0000_0000,
        OCR1: 0xFFFF_FFFF,
        OCR2: 0xFFFF_FFFF,
        OCR3: 0xFFFF_FFFF,
        ICR1: 0x0000_0000,
        ICR2: 0x0000_0000,
        CNT: 0x0000_0000,
    }
}

/// How many GPTs the chip has
pub open spec fn count_spec(chip: Chip) -> int {
    match chip {
        Chip::Imxrt1010 => 2,
        Chip::Imxrt1060 => 2,
    }
}

/// How many GPTs the chip has
pub fn count(chip: Chip) -> (n: usize)
    ensures
        n == count_spec(chip),
{
    match chip {
        Chip::Imxrt1010 => 2,
        Chip::Imxrt1060 => 2,
    }
}

/// True if the chip has a GPT `n`, counted from 1
pub open spec fn present(chip: Chip, n: int) -> bool {
    1 <= n <= count_spec(chip)
}

/// True if [`take`] hands out GPT `n` when `taken` are out
pub open spec fn can_take(chip: Chip, taken: Set<int>, n: int) -> bool {
    present(chip, n) && !taken.contains(n)
}

/// True if [`release`] takes the instance at `addr` back for GPT `n`: GPT
/// `n` is out, and `addr` is its address
pub open spec fn can_release(taken: Set<int>, n: int, addr: u32) -> bool {
    taken.contains(n) && addr == address_of(n)
}

/// The instance that [`take`] and [`steal`] hand out for GPT `n`: the
/// block at its address, every register at its reset value, nothing written
pub open spec fn fresh(n: int) -> Model {
    Model {
        addr: address_of(n),
        regs: RegisterBlock::from_reset(reset_values()),
        writes: Seq::empty(),
    }
}

/// The taken flags of a chip's GPTs
pub struct Taken {
    chip: Chip,
    flags: [bool; 2],
}

impl View for Taken {
    type V = Set<int>;

    /// The numbers of the GPTs that are out
    closed spec fn view(&self) -> Set<int> {
        Set::new(|n: int| 1 <= n <= 2 && self.flags[n - 1])
    }
}

impl Taken {
    /// The chip whose GPTs these flags stand for
    pub closed spec fn chip(&self) -> Chip {
        self.chip
    }

    /// The flags of a chip on which no GPT is out
    pub fn new(chip: Chip) -> (taken: Taken)
        ensures
            taken@ == Set::<int>::empty(),
            taken.chip() == chip,
    {
        let taken = Taken { chip, flags: [false; 2] };
        assert(taken@ =~= Set::<int>::empty());
        taken
    }

    /// True if GPT `n` is out
    pub fn is_taken(&self, n: usize) -> (out: bool)
        ensures
            out == self@.contains(n as int),
    {
        1 <= n && n <= 2 && self.flags[n - 1]
    }

    /// True if the chip has a GPT `n`
    pub fn has(&self, n: usize) -> (there: bool)
        ensures
            there == present(self.chip(), n as int),
    {
        1 <= n && n <= count(self.chip)
    }

    /// True if [`release`] takes `inst` back for GPT `n`
    pub fn can_release(&self, n: usize, inst: &Instance) -> (ok: bool)
        ensures
            ok == can_release(self@, n as int, inst@.addr),
    {
        self.is_taken(n) && inst.addr() == address(n)
    }

    fn set(&mut self, n: usize, out: bool)
        requires
            1 <= n <= 2,
        ensures
            final(self)@ == (if out {
                old(self)@.insert(n as int)
            } else {
                old(self)@.remove(n as int)
            }),
            final(self).chip() == old(self).chip(),
    {
        self.flags[n - 1] = out;
        assert(self@ =~= (if out {
            old(self)@.insert(n as int)
        } else {
            old(self)@.remove(n as int)
        }));
    }
}

fn address(n: usize) -> (addr: u32)
    requires
        1 <= n <= 2,
    ensures
        addr == address_of(n as int),
{
    BASE + STRIDE * ((n - 1) as u32)
}

/// Safe access to GPT `n`
///
/// Returns the instance if the chip has a GPT `n` that is not out, and
/// marks it as out; returns `None`, and changes nothing, otherwise. Whoever
/// holds the instance has the only access to that register block, until it
/// is handed back with [`release`].
pub fn take(taken: &mut Taken, n: usize) -> (inst: Option<Instance>)
    ensures
        inst.is_some() == can_take(old(taken).chip(), old(taken)@, n as int),
        inst matches Some(i) ==> i@ == fresh(n as int),
        final(taken)@ == (if inst.is_some() {
            old(taken)@.insert(n as int)
        } else {
            old(taken)@
        }),
        final(taken).chip() == old(taken).chip(),
{
    if taken.has(n) && !taken.is_taken(n) {
        taken.set(n, true);
        Some(Instance::at(address(n), &reset()))
    } else {
        None
    }
}

/// Release exclusive access to GPT `n`
///
/// The instance must be the one of GPT `n`, and GPT `n` must be out:
/// [`Taken::can_release`] tells. Afterwards it can be taken again.
pub fn release(taken: &mut Taken, n: usize, inst: Instance)
    requires
        can_release(old(taken)@, n as int, inst@.addr),
    ensures
        final(taken)@ == old(taken)@.remove(n as int),
        final(taken).chip() == old(taken).chip(),
{
    let _ = inst;
    taken.set(n, false);
}

/// Take GPT `n` whether or not it is out
///
/// This bypasses the check that keeps the holder of an instance alone
/// with its register block. It is meant for code that knows it is alone
/// for another reason, such as an interrupt handler.
pub fn steal(taken: &mut Taken, n: usize) -> (inst: Instance)
    requires
        present(old(taken).chip(), n as int),
    ensures
        inst@ == fresh(n as int),
        final(taken)@ == old(taken)@.insert(n as int),
        final(taken).chip() == old(taken).chip(),
{
    taken.set(n, true);
    Instance::at(address(n), &reset())
}

/// A GPT that was taken cannot be taken again until it is released,
/// and can be taken again once it is released. Its instance can be
/// released while it is out, and neither before it was taken nor after it
/// was released.
pub proof fn lemma_take_is_exclusive(chip: Chip, taken: Set<int>, n: int)
    requires
        can_take(chip, taken, n),
    ensures
        !can_release(taken, n, address_of(n)),
        !can_take(chip, taken.insert(n), n),
        can_release(taken.insert(n), n, address_of(n)),
        can_take(chip, taken.insert(n).remove(n), n),
        !can_release(taken.insert(n).remove(n), n, address_of(n)),
        taken.insert(n).remove(n) == taken,
{
    assert(taken.insert(n).remove(n) =~= taken);
}

} // verus!
