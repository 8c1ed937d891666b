//! Window style bits, and the styles that the host gives its window.

use vstd::prelude::*;

verus! {

/// The window has a title bar (which includes a thin border).
pub const WS_CAPTION: u32 = 0x00C0_0000;

/// The window has a window menu on its title bar.
pub const WS_SYSMENU: u32 = 0x0008_0000;

/// The window has a sizing border.
pub const WS_THICKFRAME: u32 = 0x0004_0000;

/// Another name for the sizing border.
pub const WS_SIZEBOX: u32 = 0x0004_0000;

/// The window has a minimize button.
pub const WS_MINIMIZEBOX: u32 = 0x0002_0000;

/// The window has a maximize button.
pub const WS_MAXIMIZEBOX: u32 = 0x0001_0000;

/// An overlapped window with caption, window menu, sizing border and both
/// buttons: the five bits above, taken together.
pub const WS_OVERLAPPEDWINDOW: u32 = 0x00CF_0000;

/// The window has a double border, as a dialog has.
pub const WS_EX_DLGMODALFRAME: u32 = 0x0000_0001;

/// The window has a border with a raised edge.
pub const WS_EX_WINDOWEDGE: u32 = 0x0000_0100;

/// The window has a border with a sunken edge.
pub const WS_EX_CLIENTEDGE: u32 = 0x0000_0200;

/// The window has a three-dimensional border.
pub const WS_EX_STATICEDGE: u32 = 0x0002_0000;

/// The bits that frameless windows do without.
pub const FRAME_BITS: u32 = 0x00CB_0000;

/// The style bits that a fullscreen window does without.
pub const FULLSCREEN_STRIPPED: u32 = 0x00C4_0000;

/// The extended style bits that a fullscreen window does without.
pub const FULLSCREEN_STRIPPED_EX: u32 = 0x0002_0301;

/// Whether `style` carries every bit of `bits`.
pub open spec fn has_bits(style: u32, bits: u32) -> bool {
    style & bits == bits
}

/// Whether `style` carries no bit of `bits`.
pub open spec fn lacks_bits(style: u32, bits: u32) -> bool {
    style & bits == 0
}

/// The style of a new window: an overlapped window, without the sizing border
/// unless it is resizable, and without caption, window menu and buttons if it
/// is frameless.
pub open spec fn initial_style_spec(resizable: bool, frameless: bool) -> u32 {
    let sized = if resizable {
        WS_OVERLAPPEDWINDOW
    } else {
        WS_OVERLAPPEDWINDOW & !WS_SIZEBOX
    };
    if frameless {
        sized & !FRAME_BITS
    } else {
        sized
    }
}

#[verifier::when_used_as_spec(initial_style_spec)]
pub fn initial_style(resizable: bool, frameless: bool) -> (style: u32)
    ensures
        style == initial_style_spec(resizable, frameless),
{
    let mut style: u32 = WS_OVERLAPPEDWINDOW;
    if !resizable {
        style = style & !WS_SIZEBOX;
    }
    if frameless {
        style = style & !FRAME_BITS;
    }
    style
}

/// `style` without caption and sizing border.
pub open spec fn fullscreen_style_spec(style: u32) -> u32 {
    style & !FULLSCREEN_STRIPPED
}

#[verifier::when_used_as_spec(fullscreen_style_spec)]
pub fn fullscreen_style(style: u32) -> (stripped: u32)
    ensures
        stripped == fullscreen_style_spec(style),
{
    style & !FULLSCREEN_STRIPPED
}

/// `ex_style` without the four edge and frame bits.
pub open spec fn fullscreen_ex_style_spec(ex_style: u32) -> u32 {
    ex_style & !FULLSCREEN_STRIPPED_EX
}

#[verifier::when_used_as_spec(fullscreen_ex_style_spec)]
pub fn fullscreen_ex_style(ex_style: u32) -> (stripped: u32)
    ensures
        stripped == fullscreen_ex_style_spec(ex_style),
{
    ex_style & !FULLSCREEN_STRIPPED_EX
}

/// The named groups of bits are what their parts add up to.
pub proof fn lemma_bit_groups()
    ensures
        WS_OVERLAPPEDWINDOW == WS_CAPTION | WS_SYSMENU | WS_THICKFRAME | WS_MINIMIZEBOX
            | WS_MAXIMIZEBOX,
        FRAME_BITS == WS_SYSMENU | WS_CAPTION | WS_MINIMIZEBOX | WS_MAXIMIZEBOX,
        FULLSCREEN_STRIPPED == WS_CAPTION | WS_THICKFRAME,
        FULLSCREEN_STRIPPED_EX == WS_EX_DLGMODALFRAME | WS_EX_WINDOWEDGE | WS_EX_CLIENTEDGE
            | WS_EX_STATICEDGE,
{
    assert(0x00CF_0000u32 == 0x00C0_0000u32 | 0x0008_0000u32 | 0x0004_0000u32 | 0x0002_0000u32
        | 0x0001_0000u32) by (bit_vector);
    assert(0x00CB_0000u32 == 0x0008_0000u32 | 0x00C0_0000u32 | 0x0002_0000u32 | 0x0001_0000u32)
        by (bit_vector);
    assert(0x00C4_0000u32 == 0x00C0_0000u32 | 0x0004_0000u32) by (bit_vector);
    assert(0x0002_0301u32 == 0x0000_0001u32 | 0x0000_0100u32 | 0x0000_0200u32 | 0x0002_0000u32)
        by (bit_vector);
}

/// A new window has the sizing border exactly if it is resizable, and
/// caption, window menu and buttons exactly if it is not frameless.
pub proof fn lemma_initial_style_bits(resizable: bool, frameless: bool)
    ensures
        resizable ==> has_bits(initial_style_spec(resizable, frameless), WS_SIZEBOX),
        !resizable ==> lacks_bits(initial_style_spec(resizable, frameless), WS_SIZEBOX),
        frameless ==> lacks_bits(initial_style_spec(resizable, frameless), FRAME_BITS),
        !frameless ==> has_bits(initial_style_spec(resizable, frameless), FRAME_BITS),
{
    assert(0x00CF_0000u32 & 0x0004_0000u32 == 0x0004_0000u32) by (bit_vector);
    assert((0x00CF_0000u32 & !0x0004_0000u32) & 0x0004_0000u32 == 0) by (bit_vector);
    assert((0x00CF_0000u32 & !0x00CB_0000u32) & 0x0004_0000u32 == 0x0004_0000u32)
        by (bit_vector);
    assert(((0x00CF_0000u32 & !0x0004_0000u32) & !0x00CB_0000u32) & 0x0004_0000u32 == 0)
        by (bit_vector);
    assert((0x00CF_0000u32 & !0x00CB_0000u32) & 0x00CB_0000u32 == 0) by (bit_vector);
    assert(((0x00CF_0000u32 & !0x0004_0000u32) & !0x00CB_0000u32) & 0x00CB_0000u32 == 0)
        by (bit_vector);
    assert(0x00CF_0000u32 & 0x00CB_0000u32 == 0x00CB_0000u32) by (bit_vector);
    assert((0x00CF_0000u32 & !0x0004_0000u32) & 0x00CB_0000u32 == 0x00CB_0000u32)
        by (bit_vector);
}

/// Entering fullscreen clears the stripped bits and touches no other.
pub proof fn lemma_fullscreen_style_bits(style: u32, ex_style: u32)
    ensures
        lacks_bits(fullscreen_style_spec(style), FULLSCREEN_STRIPPED),
        fullscreen_style_spec(style) | (style & FULLSCREEN_STRIPPED) == style,
        lacks_bits(fullscreen_ex_style_spec(ex_style), FULLSCREEN_STRIPPED_EX),
        fullscreen_ex_style_spec(ex_style) | (ex_style & FULLSCREEN_STRIPPED_EX) == ex_style,
{
    assert((style & !0x00C4_0000u32) & 0x00C4_0000u32 == 0) by (bit_vector);
    assert((style & !0x00C4_0000u32) | (style & 0x00C4_0000u32) == style) by (bit_vector);
    assert((ex_style & !0x0002_0301u32) & 0x0002_0301u32 == 0) by (bit_vector);
    assert((ex_style & !0x0002_0301u32) | (ex_style & 0x0002_0301u32) == ex_style)
        by (bit_vector);
}

} // verus!
