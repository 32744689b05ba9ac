//! Packing and unpacking of the 16-bit halves of a 32-bit BASS value.
use vstd::prelude::*;

verus! {

/// The high and the low 16 bits of `value`, in that order.
pub open spec fn spec_make_word(value: u32) -> (u16, u16) {
    ((value / 0x10000) as u16, (value % 0x10000) as u16)
}

/// The 32-bit value whose high 16 bits are `hi` and whose low 16 bits are `lo`.
pub open spec fn spec_make_long(hi: u16, lo: u16) -> u32 {
    (hi * 0x10000 + lo) as u32
}

/// Splits `input` into its high and low 16-bit halves.
pub fn make_word(input: u32) -> (r: (u16, u16))
    ensures
        r == spec_make_word(input),
        r.0 as int == input as int / 0x10000,
        r.1 as int == input as int % 0x10000,
{
    let hi = (input >> 16u32) as u16;
    let lo = (input & 0xffffu32) as u16;
    assert(input >> 16u32 == input / 0x10000) by (bit_vector);
    assert(input & 0xffffu32 == input % 0x10000) by (bit_vector);
    (hi, lo)
}

/// Joins `hi` and `lo` into one 32-bit value, `hi` in the high half.
pub fn make_long(hi: u16, lo: u16) -> (r: u32)
    ensures
        r == spec_make_long(hi, lo),
        r as int == hi as int * 0x10000 + lo as int,
{
    let h = hi as u32;
    let l = lo as u32;
    assert((h << 16u32) | l == h * 0x10000 + l) by (bit_vector)
        requires
            h < 0x10000,
            l < 0x10000,
    ;
    (h << 16u32) | l
}

/// Joining the two halves of a value gives the value back.
pub proof fn lemma_make_long_of_make_word(value: u32)
    ensures
        spec_make_long(spec_make_word(value).0, spec_make_word(value).1) == value,
{
}

/// Splitting a joined value gives back the two halves it was made of.
pub proof fn lemma_make_word_of_make_long(hi: u16, lo: u16)
    ensures
        spec_make_word(spec_make_long(hi, lo)) == (hi, lo),
{
    let v = hi as int * 0x10000 + lo as int;
    assert(v / 0x10000 == hi as int && v % 0x10000 == lo as int) by (nonlinear_arith)
        requires
            v == hi as int * 0x10000 + lo as int,
            0 <= lo < 0x10000,
            0 <= hi < 0x10000,
    ;
}

} // verus!

verus! {

/// The C `BOOL` for `b`: 1 for true, 0 for false.
pub open spec fn spec_bass_bool(b: bool) -> i32 {
    if b {
        1i32
    } else {
        0i32
    }
}

/// The C `BOOL` for `b`: 1 for true, 0 for false.
pub fn bass_bool(b: bool) -> (r: i32)
    ensures
        r == (if b { 1i32 } else { 0i32 }),
        r == spec_bass_bool(b),
{
    if b {
        1
    } else {
        0
    }
}

} // verus!
