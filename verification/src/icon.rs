//! The picture in the tray: an amber square with round corners, and a white bolt on it.
//!
//! Every pixel is the mean of sixteen samples, which smooths the edges. All lengths are in eighths
//! of a pixel, so that each sample has whole coordinates.
use vstd::prelude::*;

verus! {

/// Width and height of the icon, in pixels.
pub const ICON_SIZE: usize = 32;

/// Radius of the corners.
pub const CORNER_RADIUS: i16 = 56;

/// A point, in eighths of a pixel from the upper left corner.
#[derive(Clone, Copy, Debug, PartialEq, Eq, Structural)]
pub struct Point {
    pub x: i16,
    pub y: i16,
}

/// The corners of the bolt.
pub open spec fn bolt_points() -> Seq<Point> {
    seq![
        Point { x: 152, y: 16 },
        Point { x: 64, y: 144 },
        Point { x: 120, y: 144 },
        Point { x: 96, y: 240 },
        Point { x: 192, y: 104 },
        Point { x: 132, y: 104 },
    ]
}

/// The smaller of two numbers.
pub open spec fn smaller(a: int, b: int) -> int {
    if a < b {
        a
    } else {
        b
    }
}

/// The point lies in a square with round corners.
pub open spec fn in_rounded_square(p: Point, size: int, radius: int) -> bool {
    let x = smaller(p.x as int, size - p.x);
    let y = smaller(p.y as int, size - p.y);
    &&& 0 <= p.x <= size
    &&& 0 <= p.y <= size
    &&& x < radius && y < radius ==> (radius - x) * (radius - x) + (radius - y) * (radius - y)
        <= radius * radius
}

/// The edge between two corners crosses the ray from the point to the right.
pub open spec fn crosses(p: Point, a: Point, b: Point) -> bool {
    &&& (a.y > p.y) != (b.y > p.y)
    &&& if b.y > a.y {
        (p.x - a.x) * (b.y - a.y) < (b.x - a.x) * (p.y - a.y)
    } else {
        (p.x - a.x) * (b.y - a.y) > (b.x - a.x) * (p.y - a.y)
    }
}

/// The number of the first `n` edges of a polygon that cross the ray from the point to the right.
/// An edge leads to each corner from the one before it, and to the first from the last.
pub open spec fn crossings(p: Point, poly: Seq<Point>, n: nat) -> nat
    decreases n,
{
    if n == 0 {
        0
    } else {
        let before = if n == 1 {
            poly.last()
        } else {
            poly[n - 2]
        };
        crossings(p, poly, (n - 1) as nat) + if crosses(p, poly[n - 1], before) {
            1nat
        } else {
            0nat
        }
    }
}

/// The point lies in a polygon: the ray leaves it once more than it enters it.
pub open spec fn in_polygon(p: Point, poly: Seq<Point>) -> bool {
    crossings(p, poly, poly.len()) % 2 == 1
}

/// What a sample shows.
#[derive(Clone, Copy, Debug, PartialEq, Eq, Structural)]
pub enum Sample {
    Bolt,
    Square,
    Nothing,
}

/// What is to be seen at a point.
pub open spec fn sample_at(p: Point) -> Sample {
    if in_polygon(p, bolt_points()) {
        Sample::Bolt
    } else if in_rounded_square(p, 256, CORNER_RADIUS as int) {
        Sample::Square
    } else {
        Sample::Nothing
    }
}

/// The place of a sample of a pixel: four rows of four samples each.
pub open spec fn sample_point(x: nat, y: nat, k: nat) -> Point {
    Point { x: (8 * x + 2 * (k % 4) + 1) as i16, y: (8 * y + 2 * (k / 4) + 1) as i16 }
}

/// How many of the first `n` samples of a pixel show this.
pub open spec fn samples(x: nat, y: nat, what: Sample, n: nat) -> nat
    decreases n,
{
    if n == 0 {
        0
    } else {
        samples(x, y, what, (n - 1) as nat) + if sample_at(sample_point(x, y, (n - 1) as nat))
            == what {
            1nat
        } else {
            0nat
        }
    }
}

/// The amber of the square, by channel.
pub open spec fn amber(channel: nat) -> nat {
    if channel == 0 {
        245
    } else if channel == 1 {
        158
    } else {
        11
    }
}

/// A channel of a pixel: red, green, blue, or opacity.
pub open spec fn channel_at(x: nat, y: nat, channel: nat) -> u8 {
    let bolt = samples(x, y, Sample::Bolt, 16);
    let square = samples(x, y, Sample::Square, 16);
    if channel < 3 {
        ((255 * bolt + amber(channel) * square) / 16) as u8
    } else if bolt + square == 0 {
        0
    } else {
        255
    }
}

/// The icon, row by row, four channels for each pixel.
pub open spec fn icon_bytes() -> Seq<u8> {
    Seq::new(
        4096,
        |i: int| channel_at((i / 4 % 32) as nat, (i / 128) as nat, (i % 4) as nat),
    )
}

/// Tells whether a point lies in a square with round corners.
pub fn inside_rounded_square(p: Point, size: i16, radius: i16) -> (r: bool)
    ensures
        r == in_rounded_square(p, size as int, radius as int),
{
    if p.x < 0 || p.y < 0 || p.x > size || p.y > size {
        return false;
    }
    let px: i64 = p.x as i64;
    let py: i64 = p.y as i64;
    let far_x: i64 = size as i64 - px;
    let far_y: i64 = size as i64 - py;
    let x: i64 = if px < far_x {
        px
    } else {
        far_x
    };
    let y: i64 = if py < far_y {
        py
    } else {
        far_y
    };
    let radius: i64 = radius as i64;
    if x < radius && y < radius {
        let dx: i64 = radius - x;
        let dy: i64 = radius - y;
        assert(0 <= dx * dx <= 0x10000 * 0x10000 && 0 <= dy * dy <= 0x10000 * 0x10000 && 0 <= radius
            * radius <= 0x10000 * 0x10000) by (nonlinear_arith)
            requires
                0 <= dx <= 0x10000,
                0 <= dy <= 0x10000,
                0 <= radius <= 0x10000,
        ;
        dx * dx + dy * dy <= radius * radius
    } else {
        true
    }
}

/// Tells whether an edge crosses the ray from a point to the right.
fn edge_crosses(p: Point, a: Point, b: Point) -> (r: bool)
    ensures
        r == crosses(p, a, b),
{
    if (a.y > p.y) == (b.y > p.y) {
        return false;
    }
    let from_x: i64 = p.x as i64 - a.x as i64;
    let from_y: i64 = p.y as i64 - a.y as i64;
    let wide: i64 = b.x as i64 - a.x as i64;
    let high: i64 = b.y as i64 - a.y as i64;
    assert(-0x1_0000_0000 <= from_x * high <= 0x1_0000_0000 && -0x1_0000_0000 <= wide * from_y
        <= 0x1_0000_0000) by (nonlinear_arith)
        requires
            -0x10000 <= from_x <= 0x10000,
            -0x10000 <= from_y <= 0x10000,
            -0x10000 <= wide <= 0x10000,
            -0x10000 <= high <= 0x10000,
    ;
    if b.y > a.y {
        from_x * high < wide * from_y
    } else {
        from_x * high > wide * from_y
    }
}

/// Tells whether a point lies in a polygon.
pub fn inside_bolt(p: Point, poly: &[Point]) -> (r: bool)
    requires
        poly@.len() > 0,
    ensures
        r == in_polygon(p, poly@),
{
    let n: usize = poly.len();
    let mut inside: bool = false;
    let mut i: usize = 0;
    let mut j: usize = n - 1;
    while i < n
        invariant
            n == poly@.len(),
            i <= n,
            j < n,
            j == if i == 0 {
                n - 1
            } else {
                i - 1
            },
            inside == (crossings(p, poly@, i as nat) % 2 == 1),
        decreases n - i,
    {
        if edge_crosses(p, poly[i], poly[j]) {
            inside = !inside;
        }
        j = i;
        i = i + 1;
    }
    inside
}

/// The corners of the bolt.
fn bolt() -> (r: [Point; 6])
    ensures
        r@ == bolt_points(),
{
    let r: [Point; 6] = [
        Point { x: 152, y: 16 },
        Point { x: 64, y: 144 },
        Point { x: 120, y: 144 },
        Point { x: 96, y: 240 },
        Point { x: 192, y: 104 },
        Point { x: 132, y: 104 },
    ];
    assert(r@ =~= bolt_points());
    r
}

/// A pixel of the icon: red, green, blue and opacity.
pub fn icon_pixel(x: usize, y: usize) -> (r: [u8; 4])
    requires
        x < ICON_SIZE,
        y < ICON_SIZE,
    ensures
        forall|c: int| 0 <= c < 4 ==> #[trigger] r@[c] == channel_at(x as nat, y as nat, c as nat),
{
    let poly = bolt();
    let mut fg: u32 = 0;
    let mut bg: u32 = 0;
    let mut k: usize = 0;
    while k < 16
        invariant
            k <= 16,
            x < 32,
            y < 32,
            poly@ == bolt_points(),
            fg == samples(x as nat, y as nat, Sample::Bolt, k as nat),
            bg == samples(x as nat, y as nat, Sample::Square, k as nat),
            fg + bg <= k,
        decreases 16 - k,
    {
        let p = Point { x: (8 * x + 2 * (k % 4) + 1) as i16, y: (8 * y + 2 * (k / 4) + 1) as i16 };
        assert(p == sample_point(x as nat, y as nat, k as nat));
        if inside_bolt(p, &poly) {
            fg = fg + 1;
        } else if inside_rounded_square(p, 256, CORNER_RADIUS) {
            bg = bg + 1;
        }
        k = k + 1;
    }
    let red: u32 = (255 * fg + 245 * bg) / 16;
    let green: u32 = (255 * fg + 158 * bg) / 16;
    let blue: u32 = (255 * fg + 11 * bg) / 16;
    let alpha: u8 = if fg + bg == 0 {
        0
    } else {
        255
    };
    let r: [u8; 4] = [red as u8, green as u8, blue as u8, alpha];
    assert(r@[0] == channel_at(x as nat, y as nat, 0));
    assert(r@[1] == channel_at(x as nat, y as nat, 1));
    assert(r@[2] == channel_at(x as nat, y as nat, 2));
    assert(r@[3] == channel_at(x as nat, y as nat, 3));
    r
}

/// Draws the icon.
pub fn build_icon() -> (r: Vec<u8>)
    ensures
        r@ == icon_bytes(),
{
    let mut rgba: Vec<u8> = Vec::new();
    let mut y: usize = 0;
    while y < ICON_SIZE
        invariant
            y <= 32,
            rgba@ == icon_bytes().take(128 * y),
        decreases 32 - y,
    {
        let mut x: usize = 0;
        while x < ICON_SIZE
            invariant
                y < 32,
                x <= 32,
                rgba@ == icon_bytes().take(128 * y + 4 * x),
            decreases 32 - x,
        {
            let pixel = icon_pixel(x, y);
            let ghost before = rgba@;
            rgba.push(pixel[0]);
            rgba.push(pixel[1]);
            rgba.push(pixel[2]);
            rgba.push(pixel[3]);
            proof {
                let at = 128 * y + 4 * x;
                assert forall|c: int| 0 <= c < 4 implies #[trigger] icon_bytes()[at + c]
                    == pixel@[c] by {
                    assert((at + c) / 4 % 32 == x);
                    assert((at + c) / 128 == y);
                    assert((at + c) % 4 == c);
                }
                assert(icon_bytes()[at + 0] == pixel@[0]);
                assert(icon_bytes()[at + 1] == pixel@[1]);
                assert(icon_bytes()[at + 2] == pixel@[2]);
                assert(icon_bytes()[at + 3] == pixel@[3]);
                assert(rgba@ =~= icon_bytes().take(at + 4));
            }
            x = x + 1;
        }
        y = y + 1;
    }
    assert(icon_bytes().take(4096) =~= icon_bytes());
    rgba
}

/// A pixel that no sample hits is clear; every other is opaque.
pub proof fn law_pixels_are_clear_or_opaque(x: nat, y: nat)
    ensures
        channel_at(x, y, 3) == 0 || channel_at(x, y, 3) == 255,
        channel_at(x, y, 3) == 0 ==> forall|c: nat| c < 3 ==> #[trigger] channel_at(x, y, c) == 0,
{
    assert forall|c: nat| channel_at(x, y, 3) == 0 && c < 3 implies #[trigger] channel_at(x, y, c)
        == 0 by {
        let square = samples(x, y, Sample::Square, 16);
        assert(amber(c) * square == 0) by (nonlinear_arith)
            requires
                square == 0,
        ;
    }
}

} // verus!
