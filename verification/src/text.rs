//! Text for the platform, which takes it as UTF-16 with a closing zero.

use vstd::prelude::*;

verus! {

/// The one or two UTF-16 code units of a character: itself below U+10000,
/// a high and a low surrogate from there on.
pub open spec fn utf16_units(c: char) -> Seq<u16> {
    let v = c as u32;
    if v < 0x1_0000 {
        seq![v as u16]
    } else {
        seq![(0xD800 + (v - 0x1_0000) / 0x400) as u16, (0xDC00 + (v - 0x1_0000) % 0x400) as u16]
    }
}

/// The UTF-16 code units of a text, character by character.
pub open spec fn utf16_encode(s: Seq<char>) -> Seq<u16>
    decreases s.len(),
{
    if s.len() == 0 {
        Seq::empty()
    } else {
        utf16_encode(s.drop_last()) + utf16_units(s.last())
    }
}

/// The UTF-16 code units of `x`, closed by a zero.
pub fn utf_16_null_terminiated(x: &str) -> (units: Vec<u16>)
    ensures
        units@ == utf16_encode(x@).push(0u16),
{
    let mut units: Vec<u16> = Vec::new();
    for c in it: x.chars()
        invariant
            it.seq() == x@,
            units@ == utf16_encode(x@.take(it.index() as int)),
    {
        proof {
            let done = x@.take(it.index() as int);
            let next = x@.take(it.index() + 1);
            assert(next.drop_last() =~= done);
            assert(next.last() == c);
        }
        let v: u32 = c as u32;
        if v < 0x1_0000 {
            units.push(v as u16);
        } else {
            units.push((0xD800 + (v - 0x1_0000) / 0x400) as u16);
            units.push((0xDC00 + (v - 0x1_0000) % 0x400) as u16);
        }
        assert(units@ =~= utf16_encode(x@.take(it.index() + 1)));
    }
    assert(x@.take(x@.len() as int) =~= x@);
    units.push(0);
    units
}

/// The text that the platform is to show as the window's title: `title` in
/// UTF-16, closed by a zero.
pub fn webview_set_title(title: &str) -> (text: Vec<u16>)
    ensures
        text@ == utf16_encode(title@).push(0u16),
{
    utf_16_null_terminiated(title)
}

} // verus!
