//! Wide strings for the native interfaces: UTF-16 code units ending in a zero.
use vstd::prelude::*;

verus! {

/// The UTF-16 code units of one character: the character itself below
/// 0x10000, a surrogate pair above.
pub open spec fn utf16_of_char(c: char) -> Seq<u16> {
    let v = c as u32 as int;
    if v < 0x10000 {
        seq![v as u16]
    } else {
        let w = v - 0x10000;
        seq![(0xD800 + w / 0x400) as u16, (0xDC00 + w % 0x400) as u16]
    }
}

/// The UTF-16 code units of a string, character after character.
pub open spec fn utf16_of(s: Seq<char>) -> Seq<u16>
    decreases s.len(),
{
    if s.len() == 0 {
        Seq::empty()
    } else {
        utf16_of(s.drop_last()) + utf16_of_char(s.last())
    }
}

/// Relies on `str::encode_utf16`, collected into a vector: the UTF-16 encoding
/// of the string, one unit per character below 0x10000 and a surrogate pair
/// for each character above.
#[verifier::external_body]
fn utf16_units(s: &str) -> (r: Vec<u16>)
    ensures
        r@ == utf16_of(s@),
{
    s.encode_utf16().collect()
}

/// The string as UTF-16 code units followed by a terminating zero.
pub fn encode_wide(string: &str) -> (r: Vec<u16>)
    ensures
        r@ == utf16_of(string@).push(0),
{
    let mut units = utf16_units(string);
    units.push(0);
    units
}

} // verus!
