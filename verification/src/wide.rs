//! The null-terminated strings that BASS reads: UTF-16 file names and URLs (with
//! `BASS_UNICODE`), and byte strings for plugin names.
use vstd::prelude::*;
use crate::consts;
use vstd::string::StringSliceAdditionalSpecFns;

verus! {

/// The UTF-16 code units of the character `c`: one unit below `0x10000`, else
/// the surrogate pair of `c - 0x10000` (high ten bits, then low ten bits).
pub open spec fn spec_char_utf16(c: char) -> Seq<u16> {
    let v = c as int;
    if v < 0x10000 {
        seq![v as u16]
    } else {
        seq![(0xD800 + (v - 0x10000) / 0x400) as u16, (0xDC00 + (v - 0x10000) % 0x400) as u16]
    }
}

/// The UTF-16 code units of `s`: those of each character, in order.
pub open spec fn spec_utf16(s: Seq<char>) -> Seq<u16>
    decreases s.len(),
{
    if s.len() == 0 {
        Seq::empty()
    } else {
        spec_utf16(s.drop_last()) + spec_char_utf16(s.last())
    }
}

/// `units` as a nul-terminated wide string: `None` when a zero stands before
/// the last unit; `units` itself when it already ends in its only zero; else
/// `units` with a zero appended.
pub open spec fn spec_nul_terminated(units: Seq<u16>) -> Option<Seq<u16>> {
    if units.len() > 0 && units.drop_last().contains(0u16) {
        None
    } else if units.len() > 0 && units.last() == 0u16 {
        Some(units)
    } else {
        Some(units.push(0u16))
    }
}

/// `str::encode_utf16`, collected: the UTF-16 encoding of `s`, as the standard
/// library documents it.
#[verifier::external_body]
fn encode_utf16(s: &str) -> (r: Vec<u16>)
    ensures
        r@ == spec_utf16(s@),
{
    s.encode_utf16().collect()
}

/// `widestring::U16CString::from_str`, then `into_vec_with_nul`. The source
/// encodes `s` with `str::encode_utf16` and hands the units to `from_vec`, which
/// fails (`ContainsNul`) on a zero before the last unit and otherwise keeps the
/// units, appending a zero unless they already end in one.
#[verifier::external_body]
fn u16_c_string_from_str(s: &str) -> (r: Option<Vec<u16>>)
    ensures
        r matches Some(v) ==> spec_nul_terminated(spec_utf16(s@)) == Some(v@),
        r is None ==> spec_nul_terminated(spec_utf16(s@)) is None,
{
    match widestring::U16CString::from_str(s) {
        Ok(wide) => Some(wide.into_vec_with_nul()),
        Err(_) => None,
    }
}

/// The plugin file name `name` as a managed instance hands it to
/// `BASS_PluginLoad` with `BASS_UNICODE`: its UTF-16 code units, nul-terminated.
/// `None` when a zero stands before its last unit (the plugin is then skipped);
/// a name whose only zero ends it is taken as already terminated.
pub fn plugin_wide_name(name: &str) -> (r: Option<Vec<u16>>)
    ensures
        r is None <==> spec_nul_terminated(spec_utf16(name@)) is None,
        r matches Some(v) ==> Some(v@) == spec_nul_terminated(spec_utf16(name@)),
        r matches Some(v) ==> v@.len() >= 1 && v@.last() == 0u16,
        r matches Some(v) ==> !spec_utf16(name@).contains(0u16) ==> v@ == spec_utf16(name@).push(0u16),
{
    let r = u16_c_string_from_str(name);
    proof {
        let units = spec_utf16(name@);
        if r is Some && units.len() > 0 && units.last() == 0u16 {
            assert(units.contains(0u16)) by {
                assert(units[units.len() - 1] == 0u16);
            }
        }
    }
    r
}

/// `t` is `s` cut before its first zero: a prefix of `s` with no zero in it that
/// is either all of `s` or is followed by a zero.
pub open spec fn cut_at_nul<T>(s: Seq<T>, t: Seq<T>, zero: T) -> bool {
    &&& t.len() <= s.len()
    &&& t == s.subrange(0, t.len() as int)
    &&& forall|i: int| 0 <= i < t.len() ==> t[i] != zero
    &&& t.len() == s.len() || s[t.len() as int] == zero
}

/// The file name or URL `path` as BASS reads it with `BASS_UNICODE`: its UTF-16
/// code units up to the first zero, then a terminating zero.
pub fn wide_path(path: &str) -> (r: Vec<u16>)
    ensures
        r@.len() >= 1,
        r@.last() == 0u16,
        cut_at_nul(spec_utf16(path@), r@.drop_last(), 0u16),
{
    let units = encode_utf16(path);
    let mut r: Vec<u16> = Vec::new();
    let mut i: usize = 0;
    while i < units.len() && units[i] != 0
        invariant
            i <= units@.len(),
            r@ == units@.subrange(0, i as int),
            forall|j: int| 0 <= j < i ==> units@[j] != 0u16,
        decreases units@.len() - i,
    {
        r.push(units[i]);
        i = i + 1;
    }
    let ghost cut = r@;
    r.push(0);
    assert(r@.drop_last() == cut);
    r
}

/// The plugin file name `name` as `BASS_PluginLoad` reads it without
/// `BASS_UNICODE`: its UTF-8 bytes and a terminating zero; `None` when a byte of
/// it is zero, since BASS would read a shorter name.
pub fn plugin_file_name(name: &str) -> (r: Option<Vec<u8>>)
    ensures
        r is None <==> name.spec_bytes().contains(0u8),
        r matches Some(v) ==> v@ == name.spec_bytes().push(0u8),
{
    let bytes = name.as_bytes();
    let mut v: Vec<u8> = Vec::new();
    let mut i: usize = 0;
    while i < bytes.len()
        invariant
            i <= bytes@.len(),
            bytes@ == name.spec_bytes(),
            v@ == bytes@.subrange(0, i as int),
            forall|j: int| 0 <= j < i ==> bytes@[j] != 0u8,
        decreases bytes@.len() - i,
    {
        if bytes[i] == 0 {
            assert(bytes@[i as int] == 0u8);
            return None;
        }
        v.push(bytes[i]);
        i = i + 1;
    }
    assert(bytes@.subrange(0, i as int) == bytes@);
    assert(!bytes@.contains(0u8));
    v.push(0);
    Some(v)
}

/// `flags` with `BASS_UNICODE`, for calls that are handed a UTF-16 string.
pub fn unicode_flags(flags: u32) -> (r: u32)
    ensures
        r == flags | consts::BASS_UNICODE,
{
    flags | consts::BASS_UNICODE
}

} // verus!
