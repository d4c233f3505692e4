//! Extraction of the operand fields of a 16-bit instruction word.

use vstd::prelude::*;

verus! {

/// The opcode family: the top four bits of the word.
pub open spec fn family_of(opcode: u16) -> int {
    opcode as int / 0x1000
}

/// The register index `x`: bits 8 to 11 of the word.
pub open spec fn x_of(opcode: u16) -> int {
    (opcode as int / 0x100) % 0x10
}

/// The register index `y`: bits 4 to 7 of the word.
pub open spec fn y_of(opcode: u16) -> int {
    (opcode as int / 0x10) % 0x10
}

/// The 4-bit immediate `n`: bits 0 to 3 of the word.
pub open spec fn nibble_of(opcode: u16) -> int {
    opcode as int % 0x10
}

/// The 8-bit immediate `kk`: bits 0 to 7 of the word.
pub open spec fn byte_of(opcode: u16) -> int {
    opcode as int % 0x100
}

/// The 12-bit address `nnn`: bits 0 to 11 of the word.
pub open spec fn addr_of(opcode: u16) -> int {
    opcode as int % 0x1000
}

/// The word made of two consecutive bytes, most significant first.
pub open spec fn word_of(hi: u8, lo: u8) -> int {
    hi as int * 0x100 + lo as int
}

/// The opcode family of an instruction word.
pub fn dec_family(opcode: u16) -> (f: u16)
    ensures
        f == family_of(opcode),
        f < 16,
{
    assert(opcode >> 12 == opcode / 0x1000) by (bit_vector);
    opcode >> 12
}

/// The register index `x` of an instruction word.
pub fn dec_x(opcode: u16) -> (x: usize)
    ensures
        x == x_of(opcode),
        x < 16,
{
    assert((opcode & 0x0F00) >> 8 == (opcode / 0x100) % 0x10) by (bit_vector);
    ((opcode & 0x0F00) >> 8) as usize
}

/// The register index `y` of an instruction word.
pub fn dec_y(opcode: u16) -> (y: usize)
    ensures
        y == y_of(opcode),
        y < 16,
{
    assert((opcode & 0x00F0) >> 4 == (opcode / 0x10) % 0x10) by (bit_vector);
    ((opcode & 0x00F0) >> 4) as usize
}

/// The 4-bit immediate of an instruction word.
pub fn dec_nibble(opcode: u16) -> (n: u8)
    ensures
        n == nibble_of(opcode),
        n < 16,
{
    assert(opcode & 0x000F == opcode % 0x10) by (bit_vector);
    (opcode & 0x000F) as u8
}

/// The 8-bit immediate of an instruction word.
pub fn dec_byte(opcode: u16) -> (kk: u8)
    ensures
        kk == byte_of(opcode),
{
    assert(opcode & 0x00FF == opcode % 0x100) by (bit_vector);
    (opcode & 0x00FF) as u8
}

/// The 12-bit address of an instruction word.
pub fn dec_addr(opcode: u16) -> (nnn: u16)
    ensures
        nnn == addr_of(opcode),
        nnn < 0x1000,
{
    assert(opcode & 0x0FFF == opcode % 0x1000) by (bit_vector);
    opcode & 0x0FFF
}

/// Joins two bytes into the big-endian word they spell.
pub fn join_bytes(hi: u8, lo: u8) -> (w: u16)
    ensures
        w == word_of(hi, lo),
{
    let h: u16 = hi as u16;
    let l: u16 = lo as u16;
    assert((h << 8) | l == h * 0x100 + l) by (bit_vector)
        requires
            h < 0x100,
            l < 0x100,
    ;
    (h << 8) | l
}

/// Splits a word into its two bytes, most significant first.
pub fn split_word(w: u16) -> (b: (u8, u8))
    ensures
        word_of(b.0, b.1) == w,
        b.0 == w as int / 0x100,
        b.1 == w as int % 0x100,
{
    assert(w >> 8 == w / 0x100) by (bit_vector);
    assert(w & 0x00FF == w % 0x100) by (bit_vector);
    ((w >> 8) as u8, (w & 0x00FF) as u8)
}

} // verus!
