//! The update badge drawn on the tray icon: a filled circle painted into an RGBA image.
use vstd::prelude::*;

use crate::layout::fits_i32;

verus! {

/// Where pixel `(x, y)` of an image `w` pixels wide starts in its RGBA bytes.
pub open spec fn pixel_start(w: int, x: int, y: int) -> int {
    (y * w + x) * 4
}

/// Byte `c` (red, green, blue, alpha) of pixel `(x, y)`.
pub open spec fn byte_at(s: Seq<u8>, w: int, x: int, y: int, c: int) -> u8 {
    s[pixel_start(w, x, y) + c]
}

/// Whether the circle of radius `r` around `(cx, cy)` covers pixel `(x, y)`: the pixel lies in
/// the circle's bounding square and within the radius.
pub open spec fn in_circle(x: int, y: int, cx: int, cy: int, r: int) -> bool {
    cx - r <= x <= cx + r && cy - r <= y <= cy + r && (x - cx) * (x - cx) + (y - cy) * (y - cy)
        <= r * r
}

/// The arithmetic of `fill_circle` stays in range.
pub open spec fn circle_fits(width: u32, height: u32, cx: i32, cy: i32, r: i32) -> bool {
    &&& width as int * height as int * 4 <= u32::MAX
    &&& width <= i32::MAX
    &&& height <= i32::MAX
    &&& fits_i32(cx - r)
    &&& fits_i32(cx + r)
    &&& fits_i32(cy - r)
    &&& fits_i32(cy + r)
    &&& 2 * (r * r) <= i32::MAX
}

/// A pixel inside a `w` by `h` image has its four bytes inside the image's bytes.
pub proof fn lemma_pixel_in_image(w: int, h: int, x: int, y: int)
    requires
        0 <= x < w,
        0 <= y < h,
    ensures
        0 <= y * w + x < w * h,
        pixel_start(w, x, y) + 3 < w * h * 4,
        0 <= pixel_start(w, x, y),
{
    assert(0 <= y * w) by (nonlinear_arith)
        requires
            0 <= y,
            0 <= w,
    ;
    assert(y * w + x < w * h) by (nonlinear_arith)
        requires
            0 <= x < w,
            0 <= y < h,
    ;
}

proof fn lemma_pixels_apart(w: int, x1: int, y1: int, c1: int, x2: int, y2: int, c2: int)
    requires
        0 <= x1 < w,
        0 <= x2 < w,
        0 <= y1,
        0 <= y2,
        0 <= c1 < 4,
        0 <= c2 < 4,
        x1 != x2 || y1 != y2,
    ensures
        pixel_start(w, x1, y1) + c1 != pixel_start(w, x2, y2) + c2,
{
    if y1 == y2 {
    } else if y1 < y2 {
        assert(y1 * w + x1 < y2 * w + x2) by (nonlinear_arith)
            requires
                0 <= x1 < w,
                0 <= x2,
                y1 < y2,
        ;
    } else {
        assert(y2 * w + x2 < y1 * w + x1) by (nonlinear_arith)
            requires
                0 <= x2 < w,
                0 <= x1,
                y2 < y1,
        ;
    }
}

/// Paints one pixel whose bytes start at `start`.
fn put_pixel(rgba: &mut Vec<u8>, start: usize, color: [u8; 4])
    requires
        start + 4 <= old(rgba).len(),
    ensures
        final(rgba)@.len() == old(rgba)@.len(),
        forall|k: int|
            0 <= k < old(rgba)@.len() ==> #[trigger] final(rgba)@[k] == if start <= k < start + 4 {
                color@[k - start]
            } else {
                old(rgba)@[k]
            },
{
    rgba.set(start, color[0]);
    rgba.set(start + 1, color[1]);
    rgba.set(start + 2, color[2]);
    rgba.set(start + 3, color[3]);
}

/// Fills the circle of radius `radius` around `(center_x, center_y)` with `color` in an RGBA
/// image of `width` × `height` pixels; pixels outside the circle or the image stay as they were.
pub fn fill_circle(
    rgba: &mut Vec<u8>,
    width: u32,
    height: u32,
    center_x: i32,
    center_y: i32,
    radius: i32,
    color: [u8; 4],
)
    requires
        old(rgba)@.len() == width as int * height as int * 4,
        circle_fits(width, height, center_x, center_y, radius),
    ensures
        final(rgba)@.len() == old(rgba)@.len(),
        forall|x: int, y: int, c: int|
            0 <= x < width && 0 <= y < height && 0 <= c < 4 ==> #[trigger] byte_at(
                final(rgba)@,
                width as int,
                x,
                y,
                c,
            ) == if in_circle(x, y, center_x as int, center_y as int, radius as int) {
                color@[c]
            } else {
                byte_at(old(rgba)@, width as int, x, y, c)
            },
{
    let w = width as i32;
    let h = height as i32;
    let min_x = if center_x - radius > 0 {
        center_x - radius
    } else {
        0
    };
    let max_x = if center_x + radius < w - 1 {
        center_x + radius
    } else {
        w - 1
    };
    let min_y = if center_y - radius > 0 {
        center_y - radius
    } else {
        0
    };
    let max_y = if center_y + radius < h - 1 {
        center_y + radius
    } else {
        h - 1
    };
    proof {
        assert(0 <= radius * radius) by (nonlinear_arith);
    }
    let radius_squared = radius * radius;
    let ghost wi = width as int;
    let ghost initial = rgba@;
    let ghost cx = center_x as int;
    let ghost cy = center_y as int;
    let ghost r = radius as int;
    let mut y = min_y;
    while y <= max_y
        invariant
            rgba@.len() == initial.len(),
            initial.len() == wi * height as int * 4,
            wi == width as int,
            w as int == wi,
            h as int == height as int,
            cx == center_x as int,
            cy == center_y as int,
            r == radius as int,
            circle_fits(width, height, center_x, center_y, radius),
            radius_squared == r * r,
            min_x == if cx - r > 0 { cx - r } else { 0 },
            max_x == if cx + r < wi - 1 { cx + r } else { wi - 1 },
            min_y == if cy - r > 0 { cy - r } else { 0 },
            max_y == if cy + r < height - 1 { cy + r } else { height - 1 },
            min_y <= y,
            forall|x2: int, y2: int, c: int|
                0 <= x2 < wi && 0 <= y2 < height && 0 <= c < 4 ==> #[trigger] byte_at(
                    rgba@,
                    wi,
                    x2,
                    y2,
                    c,
                ) == if in_circle(x2, y2, cx, cy, r) && y2 < y {
                    color@[c]
                } else {
                    byte_at(initial, wi, x2, y2, c)
                },
        decreases max_y + 1 - y,
    {
        let mut x = min_x;
        while x <= max_x
            invariant
                rgba@.len() == initial.len(),
                initial.len() == wi * height as int * 4,
                wi == width as int,
                w as int == wi,
                h as int == height as int,
                cx == center_x as int,
                cy == center_y as int,
                r == radius as int,
                circle_fits(width, height, center_x, center_y, radius),
                radius_squared == r * r,
                min_x == if cx - r > 0 { cx - r } else { 0 },
                max_x == if cx + r < wi - 1 { cx + r } else { wi - 1 },
                min_y == if cy - r > 0 { cy - r } else { 0 },
                max_y == if cy + r < height - 1 { cy + r } else { height - 1 },
                min_y <= y <= max_y,
                min_x <= x,
                forall|x2: int, y2: int, c: int|
                    0 <= x2 < wi && 0 <= y2 < height && 0 <= c < 4 ==> #[trigger] byte_at(
                        rgba@,
                        wi,
                        x2,
                        y2,
                        c,
                    ) == if in_circle(x2, y2, cx, cy, r) && (y2 < y || (y2 == y && x2 < x)) {
                        color@[c]
                    } else {
                        byte_at(initial, wi, x2, y2, c)
                    },
            decreases max_x + 1 - x,
        {
            let dx = x - center_x;
            let dy = y - center_y;
            proof {
                assert(0 <= dx * dx <= r * r) by (nonlinear_arith)
                    requires
                        -r <= dx <= r,
                ;
                assert(0 <= dy * dy <= r * r) by (nonlinear_arith)
                    requires
                        -r <= dy <= r,
                ;
            }
            if dx * dx + dy * dy <= radius_squared {
                proof {
                    lemma_pixel_in_image(wi, height as int, x as int, y as int);
                }
                let start = ((y as u32 * width + x as u32) * 4) as usize;
                let ghost before = rgba@;
                put_pixel(rgba, start, color);
                proof {
                    assert forall|x2: int, y2: int, c: int|
                        0 <= x2 < wi && 0 <= y2 < height && 0 <= c < 4 implies #[trigger] byte_at(
                        rgba@,
                        wi,
                        x2,
                        y2,
                        c,
                    ) == if in_circle(x2, y2, cx, cy, r) && (y2 < y || (y2 == y && x2 < x + 1)) {
                        color@[c]
                    } else {
                        byte_at(initial, wi, x2, y2, c)
                    } by {
                        lemma_pixel_in_image(wi, height as int, x2, y2);
                        let k = pixel_start(wi, x2, y2) + c;
                        assert(rgba@[k] == if start <= k < start + 4 {
                            color@[k - start]
                        } else {
                            before[k]
                        });
                        if x2 == x && y2 == y {
                            assert(in_circle(x2, y2, cx, cy, r));
                        } else {
                            lemma_pixels_apart(wi, x2, y2, c, x as int, y as int, 0);
                            lemma_pixels_apart(wi, x2, y2, c, x as int, y as int, 1);
                            lemma_pixels_apart(wi, x2, y2, c, x as int, y as int, 2);
                            lemma_pixels_apart(wi, x2, y2, c, x as int, y as int, 3);
                            assert(byte_at(before, wi, x2, y2, c) == before[k]);
                        }
                    }
                }
            } else {
                proof {
                    assert forall|x2: int, y2: int, c: int|
                        0 <= x2 < wi && 0 <= y2 < height && 0 <= c < 4 implies #[trigger] byte_at(
                        rgba@,
                        wi,
                        x2,
                        y2,
                        c,
                    ) == if in_circle(x2, y2, cx, cy, r) && (y2 < y || (y2 == y && x2 < x + 1)) {
                        color@[c]
                    } else {
                        byte_at(initial, wi, x2, y2, c)
                    } by {
                        if x2 == x && y2 == y {
                            assert(!in_circle(x2, y2, cx, cy, r));
                        }
                    }
                }
            }
            x = x + 1;
        }
        proof {
            assert forall|x2: int, y2: int, c: int|
                0 <= x2 < wi && 0 <= y2 < height && 0 <= c < 4 implies #[trigger] byte_at(
                rgba@,
                wi,
                x2,
                y2,
                c,
            ) == if in_circle(x2, y2, cx, cy, r) && y2 < y + 1 {
                color@[c]
            } else {
                byte_at(initial, wi, x2, y2, c)
            } by {
                if y2 == y && x2 >= x {
                    assert(!in_circle(x2, y2, cx, cy, r));
                }
            }
        }
        y = y + 1;
    }
    proof {
        assert forall|x2: int, y2: int, c: int|
            0 <= x2 < wi && 0 <= y2 < height && 0 <= c < 4 implies #[trigger] byte_at(
            rgba@,
            wi,
            x2,
            y2,
            c,
        ) == if in_circle(x2, y2, cx, cy, r) {
            color@[c]
        } else {
            byte_at(initial, wi, x2, y2, c)
        } by {
            if in_circle(x2, y2, cx, cy, r) {
                assert(y2 < y);
            }
        }
    }
}

/// The dark ring of the update badge.
pub open spec fn ring_color() -> Seq<u8> {
    seq![24u8, 32u8, 40u8, 242u8]
}

/// The mint dot of the update badge.
pub open spec fn dot_color() -> Seq<u8> {
    seq![112u8, 235u8, 198u8, 255u8]
}

/// The badge's geometry for an image of the given size: its centre, the ring's radius and the
/// dot's radius. The ring is 13% of the shorter side (at least 2 pixels), the dot 72% of the
/// ring (at least 1), inset from the top-right corner by 4% of the shorter side (at least 1).
pub open spec fn badge_geometry(width: int, height: int) -> (int, int, int, int) {
    let size = if width < height {
        width
    } else {
        height
    };
    let outer = if size * 13 / 100 > 2 {
        size * 13 / 100
    } else {
        2
    };
    let inner = if outer * 72 / 100 > 1 {
        outer * 72 / 100
    } else {
        1
    };
    let inset = if size * 4 / 100 > 1 {
        size * 4 / 100
    } else {
        1
    };
    (width - outer - inset, outer + inset, outer, inner)
}

/// Draws the update badge into an RGBA image: a dark ring near the top-right corner with a mint
/// dot inside it; the image keeps its size.
pub fn icon_with_update_badge(rgba: Vec<u8>, width: u32, height: u32) -> (res: Vec<u8>)
    requires
        rgba@.len() == width as int * height as int * 4,
        width as int * height as int * 4 <= u32::MAX,
    ensures
        res@.len() == rgba@.len(),
        ({
            let (cx, cy, outer, inner) = badge_geometry(width as int, height as int);
            forall|x: int, y: int, c: int|
                0 <= x < width && 0 <= y < height && 0 <= c < 4 ==> #[trigger] byte_at(
                    res@,
                    width as int,
                    x,
                    y,
                    c,
                ) == if in_circle(x, y, cx, cy, inner) {
                    dot_color()[c]
                } else if in_circle(x, y, cx, cy, outer) {
                    ring_color()[c]
                } else {
                    byte_at(rgba@, width as int, x, y, c)
                }
        }),
{
    if width == 0 || height == 0 {
        return rgba;
    }
    let w = width as i64;
    let h = height as i64;
    proof {
        assert(w <= 1073741824 && h <= 1073741824) by (nonlinear_arith)
            requires
                w * h * 4 <= 4294967295,
                w >= 1,
                h >= 1,
        {
            assert(w * h >= w);
            assert(w * h >= h);
        }
        assert((w < h ==> w <= 32768) && (h <= w ==> h <= 32768)) by (nonlinear_arith)
            requires
                w * h <= 1073741824,
                w >= 0,
                h >= 0,
        ;
    }
    let size: i64 = if w < h {
        w
    } else {
        h
    };
    let outer: i64 = if size * 13 / 100 > 2 {
        size * 13 / 100
    } else {
        2
    };
    let inner: i64 = if outer * 72 / 100 > 1 {
        outer * 72 / 100
    } else {
        1
    };
    let inset: i64 = if size * 4 / 100 > 1 {
        size * 4 / 100
    } else {
        1
    };
    let cx = (w - outer - inset) as i32;
    let cy = (outer + inset) as i32;
    let outer = outer as i32;
    let inner = inner as i32;
    let mut out = rgba;
    let ghost initial = out@;
    proof {
        assert(2 * (outer * outer) <= i32::MAX) by (nonlinear_arith)
            requires
                2 <= outer <= 4300,
        ;
        assert(2 * (inner * inner) <= i32::MAX) by (nonlinear_arith)
            requires
                1 <= inner <= 4300,
        ;
    }
    fill_circle(&mut out, width, height, cx, cy, outer, [24, 32, 40, 242]);
    let ghost ringed = out@;
    fill_circle(&mut out, width, height, cx, cy, inner, [112, 235, 198, 255]);
    proof {
        assert([24u8, 32u8, 40u8, 242u8]@ =~= ring_color());
        assert([112u8, 235u8, 198u8, 255u8]@ =~= dot_color());
        let (gx, gy, go, gi) = badge_geometry(width as int, height as int);
        assert(gx == cx && gy == cy && go == outer && gi == inner);
        assert forall|x: int, y: int, c: int|
            0 <= x < width && 0 <= y < height && 0 <= c < 4 implies #[trigger] byte_at(
            out@,
            width as int,
            x,
            y,
            c,
        ) == if in_circle(x, y, gx, gy, gi) {
            dot_color()[c]
        } else if in_circle(x, y, gx, gy, go) {
            ring_color()[c]
        } else {
            byte_at(initial, width as int, x, y, c)
        } by {
            assert(byte_at(ringed, width as int, x, y, c) == if in_circle(x, y, gx, gy, go) {
                ring_color()[c]
            } else {
                byte_at(initial, width as int, x, y, c)
            });
        }
    }
    out
}

} // verus!
