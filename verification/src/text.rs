//! Decoding of the wide-character text that a desktop session hands out.
//!
//! A session writes text as UTF-16 code units and vouches for nothing: a
//! title may be cut in the middle of a surrogate pair. The decoding here is
//! lossy. It never fails; each code unit that is a surrogate without its
//! partner becomes U+FFFD.

use vstd::prelude::*;

verus! {

/// U+FFFD, which stands for what could not be decoded.
pub open spec fn replacement() -> char {
    '\u{FFFD}'
}

/// Whether `unit` is the first half of a surrogate pair.
pub open spec fn is_high_surrogate(unit: u16) -> bool {
    0xD800 <= unit <= 0xDBFF
}

/// Whether `unit` is the second half of a surrogate pair.
pub open spec fn is_low_surrogate(unit: u16) -> bool {
    0xDC00 <= unit <= 0xDFFF
}

/// Whether `scalar` is a Unicode scalar value: a code point that is no
/// surrogate.
pub open spec fn is_scalar_value(scalar: u32) -> bool {
    scalar <= 0xD7FF || 0xE000 <= scalar <= 0x10FFFF
}

/// The code point that the pair `high`, `low` stands for.
pub open spec fn pair_scalar(high: u16, low: u16) -> int {
    0x10000 + (high - 0xD800) * 0x400 + (low - 0xDC00)
}

/// How many code units the first character of `units` takes: two for a
/// surrogate pair, else one.
pub open spec fn first_width(units: Seq<u16>) -> int {
    if units.len() >= 2 && is_high_surrogate(units[0]) && is_low_surrogate(units[1]) {
        2
    } else {
        1
    }
}

/// The first character of `units`, which holds at least one code unit.
pub open spec fn first_char(units: Seq<u16>) -> char {
    if first_width(units) == 2 {
        pair_scalar(units[0], units[1]) as char
    } else if is_high_surrogate(units[0]) || is_low_surrogate(units[0]) {
        replacement()
    } else {
        units[0] as char
    }
}

/// The text that `units` stand for, read from the front.
pub open spec fn utf16_lossy(units: Seq<u16>) -> Seq<char>
    decreases units.len(),
{
    if units.len() == 0 {
        Seq::empty()
    } else {
        seq![first_char(units)] + utf16_lossy(units.skip(first_width(units)))
    }
}

/// Decoding loses no code unit and invents none: the text is never longer
/// than the code units it was read from, and no shorter than half of them.
pub proof fn utf16_lossy_length(units: Seq<u16>)
    ensures
        utf16_lossy(units).len() <= units.len() <= 2 * utf16_lossy(units).len(),
    decreases units.len(),
{
    if units.len() > 0 {
        utf16_lossy_length(units.skip(first_width(units)));
    }
}

/// Code units below the surrogates decode one for one, so text in the Basic
/// Latin range reads back as it was written.
pub proof fn utf16_lossy_plain(units: Seq<u16>)
    requires
        forall|i: int| 0 <= i < units.len() ==> units[i] < 0xD800,
    ensures
        utf16_lossy(units) == Seq::new(units.len(), |i: int| units[i] as char),
    decreases units.len(),
{
    if units.len() > 0 {
        let rest = units.skip(1);
        utf16_lossy_plain(rest);
        assert(utf16_lossy(units) =~= Seq::new(units.len(), |i: int| units[i] as char));
    }
}

/// `char::from_u32` gives the character of a Unicode scalar value, and
/// nothing for any other number.
pub assume_specification[ char::from_u32 ](i: u32) -> (c: Option<char>)
    ensures
        is_scalar_value(i) ==> c == Some(i as char),
        !is_scalar_value(i) ==> c is None,
;

/// `String::push` appends one character to the end of the text.
pub assume_specification[ String::push ](text: &mut String, ch: char)
    ensures
        final(text)@ == old(text)@.push(ch),
;

/// The character of a code point that is known to be a scalar value.
fn scalar_char(scalar: u32) -> (c: char)
    requires
        is_scalar_value(scalar),
    ensures
        c == scalar as char,
{
    match char::from_u32(scalar) {
        Some(c) => c,
        None => '\u{FFFD}',
    }
}

/// Decodes UTF-16 code units into text, lossily.
pub fn decode_utf16_lossy(units: &[u16]) -> (text: String)
    ensures
        text@ == utf16_lossy(units@),
{
    let mut text = String::new();
    let mut at: usize = 0;
    assert(units@.skip(0) =~= units@);
    assert(text@ + utf16_lossy(units@) =~= utf16_lossy(units@));
    while at < units.len()
        invariant
            at <= units.len(),
            text@ + utf16_lossy(units@.skip(at as int)) == utf16_lossy(units@),
        decreases units.len() - at,
    {
        let ghost rest = units@.skip(at as int);
        let ghost before = text@;
        let unit: u16 = units[at];
        let paired: bool = 0xD800 <= unit && unit <= 0xDBFF && at + 1 < units.len() && 0xDC00
            <= units[at + 1] && units[at + 1] <= 0xDFFF;
        if paired {
            let high: u32 = unit as u32;
            let low: u32 = units[at + 1] as u32;
            text.push(scalar_char(0x10000 + (high - 0xD800) * 0x400 + (low - 0xDC00)));
            at = at + 2;
        } else if 0xD800 <= unit && unit <= 0xDFFF {
            text.push('\u{FFFD}');
            at = at + 1;
        } else {
            text.push(scalar_char(unit as u32));
            at = at + 1;
        }
        proof {
            assert(rest.skip(first_width(rest)) =~= units@.skip(at as int));
            assert(text@ == before.push(first_char(rest)));
            assert(text@ + utf16_lossy(units@.skip(at as int)) =~= before + utf16_lossy(rest));
        }
    }
    assert(units@.skip(at as int) =~= Seq::<u16>::empty());
    assert(text@ + Seq::<char>::empty() =~= text@);
    text
}

} // verus!
