//! Opcode fetch-side arithmetic: splitting the two instruction bytes
//! into nibbles and recombining nibbles into addresses and immediates.

use vstd::prelude::*;

verus! {

/// These bytes should be treated as half bytes.
pub type Nibble = u8;

/// Two byte opcode, high byte first.
pub type Opcode = (u8, u8);

/// Opcode broken into four nibbles.
pub type OpcodeDecoded = (Nibble, Nibble, Nibble, Nibble);

/// High nibble of a byte.
pub open spec fn hi_nib(b: u8) -> u8 {
    b / 16
}

/// Low nibble of a byte.
pub open spec fn lo_nib(b: u8) -> u8 {
    b % 16
}

/// The 12-bit address held in an opcode whose high byte is `hi` and low
/// byte is `lo`: the low nibble of `hi` followed by all of `lo`.
pub open spec fn spec_addr12(hi: u8, lo: u8) -> u16 {
    (lo_nib(hi) * 0x100 + lo) as u16
}

/// Combines the last three nibbles of an opcode into a u16.
pub fn nnn(opcode: OpcodeDecoded) -> (r: u16)
    requires
        opcode.1 < 16,
        opcode.2 < 16,
        opcode.3 < 16,
    ensures
        r == opcode.1 * 0x100 + opcode.2 * 0x10 + opcode.3,
{
    (opcode.1 as u16) * 0x100 + (opcode.2 as u16) * 0x10 + (opcode.3 as u16)
}

/// Combines the third and fourth nibbles of an opcode into a single byte.
pub fn nn(opcode: OpcodeDecoded) -> (r: u8)
    requires
        opcode.2 < 16,
        opcode.3 < 16,
    ensures
        r == opcode.2 * 0x10 + opcode.3,
{
    opcode.2 * 0x10 + opcode.3
}

/// Splitting a byte into nibbles and recombining them gives the byte back.
pub proof fn lemma_nibbles_recombine(b: u8)
    ensures
        hi_nib(b) * 0x10 + lo_nib(b) == b,
        hi_nib(b) < 16,
        lo_nib(b) < 16,
{
}

} // verus!
