//! LPUART instances
//!
//! Each LPUART of a chip is handed out at most once at a time. [`Taken`]
//! holds one flag for each of them; [`take`], [`release`] and [`steal`]
//! check and change the flags. A binding calls them with interrupts masked.

use vstd::prelude::*;
use crate::ral::Chip;
use crate::ral::lpuart::{address_of, Instance, Model, RegisterBlock, ResetValues, BASE, STRIDE};

verus! {

/// Start address of LPUART1
pub const LPUART1: u32 = 0x4018_4000;
/// Start address of LPUART2
pub const LPUART2: u32 = 0x4018_8000;
/// Start address of LPUART3
pub const LPUART3: u32 = 0x4018_C000;
/// Start address of LPUART4
pub const LPUART4: u32 = 0x4019_0000;
/// Start address of LPUART5
pub const LPUART5: u32 = 0x4019_4000;
/// Start address of LPUART6
pub const LPUART6: u32 = 0x4019_8000;
/// Start address of LPUART7
pub const LPUART7: u32 = 0x4019_C000;
/// Start address of LPUART8
pub const LPUART8: u32 = 0x401A_0000;

/// Reset values for each register of an LPUART
pub open spec fn reset_values() -> ResetValues {
    ResetValues {
        VERID: 0x0401_0003,
        PARAM: 0x0000_0202,
        GLOBAL: 0x0000_0000,
        PINCFG: 0x0000_0000,
        BAUD: 0x0F00_0004,
        STAT: 0x00C0_0000,
        CTRL: 0x0000_0000,
        DATA: 0x0000_1000,
        MATCH: 0x0000_0000,
        MODIR: 0x0000_0000,
        FIFO: 0x00C0_0011,
        WATER: 0x0000_0000,
    }
}

/// Reset values for each register of an LPUART
pub fn reset() -> (values: ResetValues)
    ensures
        values == reset_values(),
{
    ResetValues {
        VERID: 0x0401_0003,
        PARAM: 0x0000_0202,
        GLOBAL: 0x0000_0000,
        PINCFG: 0x0000_0000,
        BAUD: 0x0F00_0004,
        STAT: 0x00C0_0000,
        CTRL: 0x0000_0000,
        DATA: 0x0000_1000,
        MATCH: 0x0000_0000,
        MODIR: 0x0000_0000,
        FIFO: 0x00C0_0011,
        WATER: 0x0000_0000,
    }
}

/// How many LPUARTs the chip has
pub open spec fn count_spec(chip: Chip) -> int {
    match chip {
        Chip::Imxrt1010 => 4,
        Chip::Imxrt1060 => 8,
    }
}

/// How many LPUARTs the chip has
pub fn count(chip: Chip) -> (n: usize)
    ensures
        n == count_spec(chip),
{
    match chip {
        Chip::Imxrt1010 => 4,
        Chip::Imxrt1060 => 8,
    }
}

/// True if the chip has an LPUART `n`, counted from 1
pub open spec fn present(chip: Chip, n: int) -> bool {
    1 <= n <= count_spec(chip)
}

/// True if [`take`] hands out LPUART `n` when `taken` are out
pub open spec fn can_take(chip: Chip, taken: Set<int>, n: int) -> bool {
    present(chip, n) && !taken.contains(n)
}

/// True if [`release`] takes the instance at `addr` back for LPUART `n`: LPUART
/// `n` is out, and `addr` is its address
pub open spec fn can_release(taken: Set<int>, n: int, addr: u32) -> bool {
    taken.contains(n) && addr == address_of(n)
}

/// The instance that [`take`] and [`steal`] hand out for LPUART `n`: the
/// block at its address, every register at its reset value, nothing written
pub open spec fn fresh(n: int) -> Model {
    Model {
        addr: address_of(n),
        regs: RegisterBlock::from_reset(reset_values()),
        writes: Seq::empty(),
    }
}

/// The taken flags of a chip's LPUARTs
pub struct Taken {
    chip: Chip,
    flags: [bool; 8],
}

impl View for Taken {
    type V = Set<int>;

    /// The numbers of the LPUARTs that are out
    closed spec fn view(&self) -> Set<int> {
        Set::new(|n: int| 1 <= n <= 8 && self.flags[n - 1])
    }
}

impl Taken {
    /// The chip whose LPUARTs these flags stand for
    pub closed spec fn chip(&self) -> Chip {
        self.chip
    }

    /// The flags of a chip on which no LPUART is out
    pub fn new(chip: Chip) -> (taken: Taken)
        ensures
            taken@ == Set::<int>::empty(),
            taken.chip() == chip,
    {
        let taken = Taken { chip, flags: [false; 8] };
        assert(taken@ =~= Set::<int>::empty());
        taken
    }

    /// True if LPUART `n` is out
    pub fn is_taken(&self, n: usize) -> (out: bool)
        ensures
            out == self@.contains(n as int),
    {
        1 <= n && n <= 8 && self.flags[n - 1]
    }

    /// True if the chip has an LPUART `n`
    pub fn has(&self, n: usize) -> (there: bool)
        ensures
            there == present(self.chip(), n as int),
    {
        1 <= n && n <= count(self.chip)
    }

    /// True if [`release`] takes `inst` back for LPUART `n`
    pub fn can_release(&self, n: usize, inst: &Instance) -> (ok: bool)
        ensures
            ok == can_release(self@, n as int, inst@.addr),
    {
        self.is_taken(n) && inst.addr() == address(n)
    }

    fn set(&mut self, n: usize, out: bool)
        requires
            1 <= n <= 8,
        ensures
            final(self)@ == (if out {
                old(self)@.insert(n as int)
            } else {
                old(self)@.remove(n as int)
            }),
            final(self).chip() == old(self).chip(),
    {
        self.flags[n - 1] = out;
        assert(self@ =~= (if out {
            old(self)@.insert(n as int)
        } else {
            old(self)@.remove(n as int)
        }));
    }
}

fn address(n: usize) -> (addr: u32)
    requires
        1 <= n <= 8,
    ensures
        addr == address_of(n as int),
{
    BASE + STRIDE * ((n - 1) as u32)
}

/// Safe access to LPUART `n`
///
/// Returns the instance if the chip has an LPUART `n` that is not out, and
/// marks it as out; returns `None`, and changes nothing, otherwise. Whoever
/// holds the instance has the only access to that register block, until it
/// is handed back with [`release`].
pub fn take(taken: &mut Taken, n: usize) -> (inst: Option<Instance>)
    ensures
        inst.is_some() == can_take(old(taken).chip(), old(taken)@, n as int),
        inst matches Some(i) ==> i@ == fresh(n as int),
        final(taken)@ == (if inst.is_some() {
            old(taken)@.insert(n as int)
        } else {
            old(taken)@
        }),
        final(taken).chip() == old(taken).chip(),
{
    if taken.has(n) && !taken.is_taken(n) {
        taken.set(n, true);
        Some(Instance::at(address(n), &reset()))
    } else {
        None
    }
}

/// Release exclusive access to LPUART `n`
///
/// The instance must be the one of LPUART `n`, and LPUART `n` must be out:
/// [`Taken::can_release`] tells. Afterwards it can be taken again.
pub fn release(taken: &mut Taken, n: usize, inst: Instance)
    requires
        can_release(old(taken)@, n as int, inst@.addr),
    ensures
        final(taken)@ == old(taken)@.remove(n as int),
        final(taken).chip() == old(taken).chip(),
{
    let _ = inst;
    taken.set(n, false);
}

/// Take LPUART `n` whether or not it is out
///
/// This bypasses the check that keeps the holder of an instance alone
/// with its register block. It is meant for code that knows it is alone
/// for another reason, such as an interrupt handler.
pub fn steal(taken: &mut Taken, n: usize) -> (inst: Instance)
    requires
        present(old(taken).chip(), n as int),
    ensures
        inst@ == fresh(n as int),
        final(taken)@ == old(taken)@.insert(n as int),
        final(taken).chip() == old(taken).chip(),
{
    taken.set(n, true);
    Instance::at(address(n), &reset())
}

/// An LPUART that was taken cannot be taken again until it is released,
/// and can be taken again once it is released. Its instance can be
/// released while it is out, and neither before it was taken nor after it
/// was released.
pub proof fn lemma_take_is_exclusive(chip: Chip, taken: Set<int>, n: int)
    requires
        can_take(chip, taken, n),
    ensures
        !can_release(taken, n, address_of(n)),
        !can_take(chip, taken.insert(n), n),
        can_release(taken.insert(n), n, address_of(n)),
        can_take(chip, taken.insert(n).remove(n), n),
        !can_release(taken.insert(n).remove(n), n, address_of(n)),
        taken.insert(n).remove(n) == taken,
{
    assert(taken.insert(n).remove(n) =~= taken);
}

} // verus!
