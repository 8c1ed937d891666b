//! Rectangles in physical pixels, DPI scaling, and centred placement.

use vstd::prelude::*;

verus! {

/// The scale at which one logical pixel is one physical pixel.
pub const NOMINAL_DPI: i32 = 96;

/// A rectangle in screen coordinates, as the platform reports and takes it.
#[derive(Clone, Copy, Debug, PartialEq, Eq, Structural)]
pub struct Rect {
    pub left: i32,
    pub top: i32,
    pub right: i32,
    pub bottom: i32,
}

impl Rect {
    /// The horizontal extent. Coordinates are 32-bit and wrap, as the
    /// platform's own arithmetic on them does.
    pub open spec fn spec_width(self) -> i32 {
        self.right.wrapping_sub(self.left)
    }

    /// The vertical extent, wrapping like [`Rect::spec_width`].
    pub open spec fn spec_height(self) -> i32 {
        self.bottom.wrapping_sub(self.top)
    }

    /// The rectangle with the given top-left corner and extent.
    pub open spec fn spec_at(x: i32, y: i32, cx: i32, cy: i32) -> Rect {
        Rect { left: x, top: y, right: x.wrapping_add(cx), bottom: y.wrapping_add(cy) }
    }

    /// Whether both extents are non-negative and fit in 32 bits, so that no
    /// arithmetic on this rectangle wraps.
    pub open spec fn plain(self) -> bool {
        &&& self.left <= self.right
        &&& self.top <= self.bottom
        &&& self.right - self.left <= i32::MAX
        &&& self.bottom - self.top <= i32::MAX
    }

    /// The rectangle whose four coordinates are zero.
    pub fn zero() -> (r: Rect)
        ensures
            r == (Rect { left: 0, top: 0, right: 0, bottom: 0 }),
    {
        Rect { left: 0, top: 0, right: 0, bottom: 0 }
    }

    #[verifier::when_used_as_spec(spec_width)]
    pub fn width(self) -> (w: i32)
        ensures
            w == self.spec_width(),
            self.plain() ==> w == self.right - self.left,
    {
        self.right.wrapping_sub(self.left)
    }

    #[verifier::when_used_as_spec(spec_height)]
    pub fn height(self) -> (h: i32)
        ensures
            h == self.spec_height(),
            self.plain() ==> h == self.bottom - self.top,
    {
        self.bottom.wrapping_sub(self.top)
    }

    #[verifier::when_used_as_spec(spec_at)]
    pub fn at(x: i32, y: i32, cx: i32, cy: i32) -> (r: Rect)
        ensures
            r == Rect::spec_at(x, y, cx, cy),
    {
        Rect { left: x, top: y, right: x.wrapping_add(cx), bottom: y.wrapping_add(cy) }
    }

    /// Taking a rectangle apart into corner and extent and putting it together
    /// again gives the same rectangle, whatever its coordinates.
    pub proof fn lemma_at_own_extent(self)
        ensures
            Rect::spec_at(self.left, self.top, self.spec_width(), self.spec_height()) == self,
    {
    }
}

/// The absolute value.
pub open spec fn magnitude(v: int) -> int {
    if v < 0 {
        -v
    } else {
        v
    }
}

/// `p / d` for a positive `d`, rounded to the nearest integer with halves
/// away from zero.
pub open spec fn rounded_quotient(p: int, d: int) -> int {
    if p >= 0 {
        (p + d / 2) / d
    } else {
        -((d / 2 - p) / d)
    }
}

/// `number * numerator / denominator`, rounded to the nearest integer with
/// halves away from zero; `-1` where the denominator is zero or the rounded
/// quotient does not fit in 31 bits and a sign.
pub open spec fn mul_div_spec(number: int, numerator: int, denominator: int) -> int {
    if denominator == 0 {
        -1
    } else {
        let q = if denominator > 0 {
            rounded_quotient(number * numerator, denominator)
        } else {
            rounded_quotient(-(number * numerator), -denominator)
        };
        if -i32::MAX <= q <= i32::MAX {
            q
        } else {
            -1
        }
    }
}

fn magnitude_of(v: i32) -> (m: u64)
    ensures
        m == magnitude(v as int),
        m <= 0x8000_0000,
{
    if v < 0 {
        (-(v as i64)) as u64
    } else {
        v as u64
    }
}

/// Multiplies two 32-bit values and divides the 64-bit product by a third,
/// rounding to the nearest integer. This is the platform's scaling primitive;
/// it reports a zero denominator and an overflow both as `-1`.
pub fn mul_div(number: i32, numerator: i32, denominator: i32) -> (r: i32)
    ensures
        r == mul_div_spec(number as int, numerator as int, denominator as int),
{
    if denominator == 0 {
        return -1;
    }
    let a: u64 = magnitude_of(number);
    let b: u64 = magnitude_of(numerator);
    let d: u64 = magnitude_of(denominator);
    proof {
        lemma_product_of_magnitudes(number as int, numerator as int);
        assert(a * b <= 0x8000_0000 * 0x8000_0000) by (nonlinear_arith)
            requires
                a <= 0x8000_0000,
                b <= 0x8000_0000,
        ;
    }
    let q: u64 = (a * b + d / 2) / d;
    proof {
        let product = number as int * numerator as int;
        assert(a * b == magnitude(product));
        assert((d / 2) / d == 0) by (nonlinear_arith)
            requires
                d > 0,
        ;
        assert(q >= 0);
        if denominator > 0 {
            assert(magnitude(rounded_quotient(product, d as int)) == q);
        } else {
            assert(magnitude(rounded_quotient(-product, d as int)) == q);
        }
    }
    if q > 0x7fff_ffff {
        -1
    } else if (number < 0) != ((numerator < 0) != (denominator < 0)) {
        -(q as i32)
    } else {
        q as i32
    }
}

proof fn lemma_product_of_magnitudes(x: int, y: int)
    by (nonlinear_arith)
    ensures
        magnitude(x) * magnitude(y) == magnitude(x * y),
        x * y < 0 <==> (x < 0) != (y < 0) && x != 0 && y != 0,
        x * y == 0 <==> x == 0 || y == 0,
{
}

/// The DPI that a window is sized with: the reported one, or the nominal 96
/// where the query gave nothing usable.
pub open spec fn effective_dpi_spec(reported: u32) -> i32 {
    if reported == 0 || reported > i32::MAX {
        NOMINAL_DPI
    } else {
        reported as i32
    }
}

#[verifier::when_used_as_spec(effective_dpi_spec)]
pub fn effective_dpi(reported: u32) -> (dpi: i32)
    ensures
        dpi == effective_dpi_spec(reported),
        dpi > 0,
{
    if reported == 0 || reported > 0x7fff_ffff {
        NOMINAL_DPI
    } else {
        reported as i32
    }
}

/// The client rectangle, in physical pixels, of a window whose logical size is
/// `width` by `height` on a display of the given DPI.
pub open spec fn scaled_client_rect_spec(width: i32, height: i32, dpi: i32) -> Rect {
    Rect {
        left: 0,
        top: 0,
        right: mul_div_spec(width as int, dpi as int, NOMINAL_DPI as int) as i32,
        bottom: mul_div_spec(height as int, dpi as int, NOMINAL_DPI as int) as i32,
    }
}

#[verifier::when_used_as_spec(scaled_client_rect_spec)]
pub fn scaled_client_rect(width: i32, height: i32, dpi: i32) -> (r: Rect)
    ensures
        r == scaled_client_rect_spec(width, height, dpi),
{
    Rect { left: 0, top: 0, right: mul_div(width, dpi, NOMINAL_DPI), bottom: mul_div(height, dpi, NOMINAL_DPI) }
}

/// Half of `v`, rounded towards zero.
pub open spec fn half(v: i32) -> i32 {
    if v >= 0 {
        (v / 2) as i32
    } else {
        (-((-v) / 2)) as i32
    }
}

fn half_of(v: i32) -> (h: i32)
    ensures
        h == half(v),
{
    if v >= 0 {
        v / 2
    } else if v == i32::MIN {
        -0x4000_0000
    } else {
        -((-v) / 2)
    }
}

/// `outer`, moved so that its centre lies on the centre of `work_area`, the
/// desktop without the taskbar; the extent is kept.
pub open spec fn centered_spec(outer: Rect, work_area: Rect) -> Rect {
    let cx = outer.spec_width();
    let cy = outer.spec_height();
    Rect::spec_at(
        work_area.left.wrapping_add(half(work_area.spec_width())).wrapping_sub(half(cx)),
        work_area.top.wrapping_add(half(work_area.spec_height())).wrapping_sub(half(cy)),
        cx,
        cy,
    )
}

#[verifier::when_used_as_spec(centered_spec)]
pub fn centered(outer: Rect, work_area: Rect) -> (r: Rect)
    ensures
        r == centered_spec(outer, work_area),
{
    let cx: i32 = outer.width();
    let cy: i32 = outer.height();
    let left: i32 = work_area.left.wrapping_add(half_of(work_area.width())).wrapping_sub(
        half_of(cx),
    );
    let top: i32 = work_area.top.wrapping_add(half_of(work_area.height())).wrapping_sub(
        half_of(cy),
    );
    Rect::at(left, top, cx, cy)
}

/// Whether a window of the extent of `outer` can be put in the middle of
/// `work_area` without a coordinate leaving 32 bits. On a real screen it
/// always can.
pub open spec fn fits_centered(outer: Rect, work_area: Rect) -> bool {
    let x = work_area.left + (work_area.right - work_area.left) / 2 - (outer.right - outer.left)
        / 2;
    let y = work_area.top + (work_area.bottom - work_area.top) / 2 - (outer.bottom - outer.top)
        / 2;
    &&& outer.plain()
    &&& work_area.plain()
    &&& i32::MIN <= x
    &&& x + (outer.right - outer.left) <= i32::MAX
    &&& i32::MIN <= y
    &&& y + (outer.bottom - outer.top) <= i32::MAX
}

/// A window placed by [`centered`] sits where half of the work area lies to
/// either side of it: its corner is the work area's corner, plus half the
/// work area's extent, less half its own, and it keeps the extent it was
/// given. Its centre is the work area's, to the pixel that halving loses.
pub proof fn lemma_centered_is_centered(outer: Rect, work_area: Rect)
    requires
        fits_centered(outer, work_area),
    ensures
        ({
            let r = centered_spec(outer, work_area);
            &&& r.left == work_area.left + (work_area.right - work_area.left) / 2 - (outer.right
                - outer.left) / 2
            &&& r.top == work_area.top + (work_area.bottom - work_area.top) / 2 - (outer.bottom
                - outer.top) / 2
            &&& r.right - r.left == outer.right - outer.left
            &&& r.bottom - r.top == outer.bottom - outer.top
            &&& -1 <= (r.left + r.right) - (work_area.left + work_area.right) <= 1
            &&& -1 <= (r.top + r.bottom) - (work_area.top + work_area.bottom) <= 1
        }),
{
}

/// A logical size that is scaled to physical pixels and converted back
/// through the same DPI comes out within one pixel of where it started, and
/// exactly where the DPI is at least the nominal one.
pub proof fn lemma_scale_round_trip(logical: i32, dpi: i32)
    requires
        dpi >= 33,
        magnitude(logical as int) < i32::MAX,
        magnitude(logical as int) * dpi + 48 < 96 * 0x8000_0000,
    ensures
        ({
            let physical = mul_div_spec(logical as int, dpi as int, 96);
            let back = mul_div_spec(physical, 96, dpi as int);
            &&& -1 <= back - logical <= 1
            &&& dpi >= 96 ==> back == logical
        }),
{
    let w = magnitude(logical as int);
    let d = dpi as int;
    let s = (w * d + 48) / 96;
    let b = (s * 96 + d / 2) / d;
    assert(s * 96 <= w * d + 48 < s * 96 + 96);
    lemma_round_back(w, d, s, b);
    lemma_product_of_magnitudes(logical as int, d);
    assert(magnitude(mul_div_spec(logical as int, d, 96)) == s);
}

proof fn lemma_round_back(w: int, dpi: int, s: int, b: int)
    by (nonlinear_arith)
    requires
        0 <= w,
        33 <= dpi,
        s * 96 <= w * dpi + 48 < s * 96 + 96,
        b == (s * 96 + dpi / 2) / dpi,
    ensures
        w - 1 <= b <= w + 1,
        dpi >= 96 ==> b == w,
        0 <= s,
        s == 0 ==> b == 0 && w <= 1,
{
}

} // verus!
