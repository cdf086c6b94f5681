//! Register access layer
//!
//! A register block is a value with one 32-bit word for each register. A
//! peripheral instance owns the image of its block and records every write
//! it issues, oldest first. Sub-fields of a register are named by a mask and
//! an offset; [`field`] and [`with_field`] say what reading and modifying a
//! sub-field mean.

use vstd::prelude::*;

pub mod gpio;
pub mod gpt;
pub mod lpuart;

verus! {

/// The chip variants that the register layer knows
#[derive(Clone, Copy, PartialEq, Eq, Structural, Debug)]
pub enum Chip {
    /// i.MX RT 1010
    Imxrt1010,
    /// i.MX RT 1060 (1061, 1062, 1064)
    Imxrt1060,
}

/// One 32-bit write on the peripheral bus
#[derive(Clone, Copy, PartialEq, Eq, Structural, Debug)]
pub struct Write {
    /// Absolute address of the register
    pub addr: u32,
    /// The word that was written
    pub value: u32,
}

/// The value of the sub-field `mask`, which starts at bit `offset`, in `reg`
pub open spec fn field(reg: u32, mask: u32, offset: u32) -> u32 {
    (reg & mask) >> offset
}

/// `reg` with the sub-field `mask`, which starts at bit `offset`, replaced
/// by `value`; bits of `value` that do not fit the field are dropped, and
/// every bit outside the field is kept
pub open spec fn with_field(reg: u32, mask: u32, offset: u32, value: u32) -> u32 {
    (reg & !mask) | ((value << offset) & mask)
}

/// Read a sub-field of a register word
pub fn read_field(reg: u32, mask: u32, offset: u32) -> (value: u32)
    requires
        offset < 32,
    ensures
        value == field(reg, mask, offset),
{
    (reg & mask) >> offset
}

/// Replace a sub-field of a register word
///
/// Every bit outside the field is kept. The field reads back `value` if
/// `value` fits the field.
pub fn modify_field(reg: u32, mask: u32, offset: u32, value: u32) -> (word: u32)
    requires
        offset < 32,
    ensures
        word == with_field(reg, mask, offset, value),
        word & !mask == reg & !mask,
        value & (mask >> offset) == value ==> field(word, mask, offset) == value,
{
    proof {
        lemma_with_field_keeps_others(reg, mask, offset, value);
        if value & (mask >> offset) == value {
            lemma_field_reads_back(reg, mask, offset, value);
        }
    }
    (reg & !mask) | ((value << offset) & mask)
}

/// Modifying a sub-field changes no bit outside its mask.
pub proof fn lemma_with_field_keeps_others(reg: u32, mask: u32, offset: u32, value: u32)
    requires
        offset < 32,
    ensures
        with_field(reg, mask, offset, value) & !mask == reg & !mask,
{
    assert(((reg & !mask) | ((value << offset) & mask)) & !mask == reg & !mask) by (bit_vector);
}

/// A sub-field reads back the value that was written to it, if the value
/// fits the field.
pub proof fn lemma_field_reads_back(reg: u32, mask: u32, offset: u32, value: u32)
    requires
        offset < 32,
        value & (mask >> offset) == value,
    ensures
        field(with_field(reg, mask, offset, value), mask, offset) == value,
{
    assert(offset < 32 && value & (mask >> offset) == value ==> ((((reg & !mask) | ((value
        << offset) & mask)) & mask) >> offset) == value) by (bit_vector);
}

} // verus!
