//! The fields of an instruction word.
//!
//! A word is four hexadecimal digits. The first selects the family of the
//! instruction; the others are read, depending on the family, as register
//! indices `x` and `y`, a four-bit count `n`, an eight-bit immediate `kk` or a
//! twelve-bit address `nnn`.

use vstd::prelude::*;
use crate::machine::word;

verus! {

/// The leading digit of `op`.
pub open spec fn family(op: u16) -> int {
    op as int / 0x1000
}

/// The second digit of `op`.
pub open spec fn x_of(op: u16) -> int {
    (op as int / 0x100) % 16
}

/// The third digit of `op`.
pub open spec fn y_of(op: u16) -> int {
    (op as int / 0x10) % 16
}

/// The last digit of `op`.
pub open spec fn n_of(op: u16) -> int {
    op as int % 16
}

/// The low byte of `op`.
pub open spec fn kk_of(op: u16) -> u8 {
    (op as int % 0x100) as u8
}

/// The low twelve bits of `op`.
pub open spec fn nnn_of(op: u16) -> u16 {
    (op as int % 0x1000) as u16
}

/// The instruction word `op` names an instruction. Any other word is treated
/// as a no-op that only moves on to the next instruction.
pub open spec fn recognized(op: u16) -> bool {
    let f = family(op);
    let n = n_of(op);
    let kk = kk_of(op);
    if f == 0x0 {
        n == 0x0 || n == 0xE
    } else if f == 0x8 {
        n <= 0x7 || n == 0xE
    } else if f == 0xE {
        kk == 0x9E || kk == 0xA1
    } else if f == 0xF {
        kk == 0x07 || kk == 0x0A || kk == 0x15 || kk == 0x18 || kk == 0x1E || kk == 0x29 || kk
            == 0x33 || kk == 0x55 || kk == 0x65
    } else {
        true
    }
}

/// Reads the leading digit with a mask and a shift.
pub fn family_field(op: u16) -> (f: u8)
    ensures
        f == family(op),
        f < 16,
{
    assert((op & 0xF000) >> 12 == op / 0x1000) by (bit_vector);
    ((op & 0xF000) >> 12) as u8
}

/// Reads the second digit with a mask and a shift.
pub fn x_field(op: u16) -> (x: usize)
    ensures
        x == x_of(op),
        x < 16,
{
    assert((op & 0x0F00) >> 8 == (op / 0x100) % 16) by (bit_vector);
    ((op & 0x0F00) >> 8) as usize
}

/// Reads the third digit with a mask and a shift.
pub fn y_field(op: u16) -> (y: usize)
    ensures
        y == y_of(op),
        y < 16,
{
    assert((op & 0x00F0) >> 4 == (op / 0x10) % 16) by (bit_vector);
    ((op & 0x00F0) >> 4) as usize
}

/// Reads the last digit with a mask.
pub fn n_field(op: u16) -> (n: usize)
    ensures
        n == n_of(op),
        n < 16,
{
    assert(op & 0x000F == op % 16) by (bit_vector);
    (op & 0x000F) as usize
}

/// Reads the low byte with a mask.
pub fn kk_field(op: u16) -> (kk: u8)
    ensures
        kk == kk_of(op),
{
    assert(op & 0x00FF == op % 0x100) by (bit_vector);
    (op & 0x00FF) as u8
}

/// Reads the low twelve bits with a mask.
pub fn nnn_field(op: u16) -> (nnn: u16)
    ensures
        nnn == nnn_of(op),
        nnn < 0x1000,
{
    assert(op & 0x0FFF == op % 0x1000) by (bit_vector);
    op & 0x0FFF
}

/// Tells whether `op` names an instruction.
pub fn is_recognized(op: u16) -> (known: bool)
    ensures
        known == recognized(op),
{
    let f: u8 = family_field(op);
    let n: usize = n_field(op);
    let kk: u8 = kk_field(op);
    if f == 0x0 {
        n == 0x0 || n == 0xE
    } else if f == 0x8 {
        n <= 0x7 || n == 0xE
    } else if f == 0xE {
        kk == 0x9E || kk == 0xA1
    } else if f == 0xF {
        kk == 0x07 || kk == 0x0A || kk == 0x15 || kk == 0x18 || kk == 0x1E || kk == 0x29 || kk
            == 0x33 || kk == 0x55 || kk == 0x65
    } else {
        true
    }
}

/// Joins two bytes into an instruction word, high byte first.
pub fn join(hi: u8, lo: u8) -> (op: u16)
    ensures
        op == word(hi, lo),
{
    assert(((hi as u16) << 8) | (lo as u16) == (hi as u16) * 256 + (lo as u16)) by (bit_vector);
    ((hi as u16) << 8) | (lo as u16)
}

} // verus!
