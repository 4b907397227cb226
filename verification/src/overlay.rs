//! Integer geometry of what the overlay draws: boxes around players, the
//! aimbot's field-of-view circle, name labels, snaplines, and the GDI colour
//! of the theme.
use vstd::prelude::*;

verus! {

/// `x / 2` rounded toward zero, as integer division does in Rust.
pub open spec fn half(x: int) -> int {
    if x >= 0 {
        x / 2
    } else {
        -((-x) / 2)
    }
}

/// Halving rounds toward zero: the half of a non-negative value is the
/// largest whole number at most half of it, and halving a negative value
/// gives the negation of halving its magnitude.
pub proof fn lemma_half_rounds_toward_zero(x: int)
    ensures
        x >= 0 ==> 2 * half(x) <= x && x < 2 * half(x) + 2,
        x < 0 ==> half(x) == -half(-x),
{
}

/// A rectangle in window pixels.
#[derive(Clone, Copy, PartialEq, Eq, Debug)]
pub struct Rect {
    pub left: i32,
    pub top: i32,
    pub right: i32,
    pub bottom: i32,
}

/// A point in window pixels.
#[derive(Clone, Copy, PartialEq, Eq, Debug)]
pub struct Point {
    pub x: i32,
    pub y: i32,
}

/// Half of `x`, rounded toward zero.
pub fn halve(x: i32) -> (h: i32)
    ensures
        h == half(x as int),
{
    x / 2
}

/// Width and height of a window's client rectangle.
pub fn client_size(client: &Rect) -> (size: (i32, i32))
    requires
        i32::MIN <= client.right - client.left <= i32::MAX,
        i32::MIN <= client.bottom - client.top <= i32::MAX,
    ensures
        size.0 == client.right - client.left,
        size.1 == client.bottom - client.top,
{
    (client.right - client.left, client.bottom - client.top)
}

/// The box drawn around a player whose head is at (`head_x`, `head_y`) on
/// screen and who stands `height` pixels tall there: half as wide as tall,
/// centred on the head horizontally, with its top at the head.
pub fn esp_box(head_x: i32, head_y: i32, height: i32) -> (r: Rect)
    requires
        i32::MIN <= head_x - half(half(height as int)) <= i32::MAX,
        i32::MIN <= head_x - half(half(height as int)) + half(height as int) <= i32::MAX,
        i32::MIN <= head_y + height <= i32::MAX,
    ensures
        r.left == head_x - half(half(height as int)),
        r.right == r.left + half(height as int),
        r.top == head_y,
        r.bottom == head_y + height,
{
    let width = halve(height);
    let left = head_x - halve(width);
    let top = head_y;
    Rect { left, right: left + width, top, bottom: top + height }
}

/// The bounding rectangle of the field-of-view circle of radius `radius`
/// centred in a `width` by `height` window.
pub fn fov_circle_bounds(width: i32, height: i32, radius: i32) -> (r: Rect)
    requires
        i32::MIN <= half(width as int) - radius <= i32::MAX,
        i32::MIN <= half(width as int) + radius <= i32::MAX,
        i32::MIN <= half(height as int) - radius <= i32::MAX,
        i32::MIN <= half(height as int) + radius <= i32::MAX,
    ensures
        r.left == half(width as int) - radius,
        r.top == half(height as int) - radius,
        r.right == half(width as int) + radius,
        r.bottom == half(height as int) + radius,
{
    let cx = halve(width);
    let cy = halve(height);
    Rect { left: cx - radius, top: cy - radius, right: cx + radius, bottom: cy + radius }
}

/// Where a player's name is written: at the box's left edge, 15 pixels
/// above its top.
pub fn name_label_origin(b: &Rect) -> (p: Point)
    requires
        b.top - 15 >= i32::MIN,
    ensures
        p.x == b.left,
        p.y == b.top - 15,
{
    Point { x: b.left, y: b.top - 15 }
}

/// Where snaplines start: the middle of the bottom edge of a `width` by
/// `height` window.
pub fn snapline_origin(width: i32, height: i32) -> (p: Point)
    ensures
        p.x == half(width as int),
        p.y == height,
{
    Point { x: halve(width), y: height }
}

/// The GDI colour value of red, green and blue channels: `b << 16 | g << 8 | r`
/// on 32 bits.
pub open spec fn spec_colorref(r: u32, g: u32, b: u32) -> u32 {
    (b << 16u32) | (g << 8u32) | r
}

/// Packs red, green and blue channels into a GDI colour value.
pub fn colorref(r: u32, g: u32, b: u32) -> (c: u32)
    ensures
        c == spec_colorref(r, g, b),
{
    b << 16u32 | g << 8u32 | r
}

/// A colour packed from channels below 256 gives back each channel: red in
/// the low byte, green in the next, blue in the third, and nothing above.
pub proof fn lemma_colorref_channels(r: u32, g: u32, b: u32)
    requires
        r < 256,
        g < 256,
        b < 256,
    ensures
        spec_colorref(r, g, b) & 0xff == r,
        (spec_colorref(r, g, b) >> 8u32) & 0xff == g,
        (spec_colorref(r, g, b) >> 16u32) & 0xff == b,
        spec_colorref(r, g, b) >> 24u32 == 0,
{
    assert(spec_colorref(r, g, b) & 0xff == r) by (bit_vector)
        requires r < 256, g < 256, b < 256;
    assert((spec_colorref(r, g, b) >> 8u32) & 0xff == g) by (bit_vector)
        requires r < 256, g < 256, b < 256;
    assert((spec_colorref(r, g, b) >> 16u32) & 0xff == b) by (bit_vector)
        requires r < 256, g < 256, b < 256;
    assert(spec_colorref(r, g, b) >> 24u32 == 0) by (bit_vector)
        requires r < 256, g < 256, b < 256;
}

} // verus!
