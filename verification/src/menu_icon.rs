//! The menu-bar icon: the tray icon scaled down to a small square, each pixel the
//! alpha-weighted average of the source pixels it covers.
use vstd::prelude::*;

use crate::badge::{byte_at, lemma_pixel_in_image, pixel_start};

verus! {

/// Side of the menu-bar icon, in pixels.
pub const MENU_ICON_SIZE: u32 = 36;

/// First source row or column covered by output row or column `i`, for a source `n` long.
pub open spec fn span_start(i: int, n: int) -> int {
    i * n / 36
}

/// End (exclusive) of the source rows or columns covered by output row or column `i`: the
/// rounded-up proportional end, cut at the source's edge.
pub open spec fn span_end(i: int, n: int) -> int {
    let e = ((i + 1) * n + 35) / 36;
    if e < n {
        e
    } else {
        n
    }
}

/// Number of source rows or columns covered by output row or column `i`.
pub open spec fn span_len(i: int, n: int) -> int {
    if span_end(i, n) > span_start(i, n) {
        span_end(i, n) - span_start(i, n)
    } else {
        0
    }
}

/// What source pixel `(x, y)` adds to channel `c` of an average: its alpha for the alpha
/// channel, its colour times its alpha for a colour channel.
pub open spec fn sample(src: Seq<u8>, sw: int, x: int, y: int, c: int) -> int {
    if c == 3 {
        byte_at(src, sw, x, y, 3) as int
    } else {
        byte_at(src, sw, x, y, c) as int * byte_at(src, sw, x, y, 3) as int
    }
}

/// Sum of `sample` over the source pixels `x0 <= x < x1` of row `y`.
pub open spec fn row_total(src: Seq<u8>, sw: int, y: int, x0: int, x1: int, c: int) -> int
    decreases x1 - x0,
{
    if x1 <= x0 {
        0
    } else {
        row_total(src, sw, y, x0, x1 - 1, c) + sample(src, sw, x1 - 1, y, c)
    }
}

/// Sum of `sample` over the source pixels of columns `x0 <= x < x1` and rows `y0 <= y < y1`.
pub open spec fn box_total(src: Seq<u8>, sw: int, x0: int, x1: int, y0: int, y1: int, c: int) -> int
    decreases y1 - y0,
{
    if y1 <= y0 {
        0
    } else {
        box_total(src, sw, x0, x1, y0, y1 - 1, c) + row_total(src, sw, y1 - 1, x0, x1, c)
    }
}

/// Channel `c` of output pixel `(x, y)`: the alpha is the mean alpha of the covered source
/// pixels; a colour is the alpha-weighted mean colour, or zero when the covered pixels are all
/// transparent.
pub open spec fn icon_value(src: Seq<u8>, sw: int, sh: int, x: int, y: int, c: int) -> int {
    let x0 = span_start(x, sw);
    let x1 = span_end(x, sw);
    let y0 = span_start(y, sh);
    let y1 = span_end(y, sh);
    let alpha = box_total(src, sw, x0, x1, y0, y1, 3);
    let count = span_len(y, sh) * span_len(x, sw);
    if c == 3 {
        alpha / (if count > 0 {
            count
        } else {
            1
        })
    } else if alpha > 0 {
        box_total(src, sw, x0, x1, y0, y1, c) / alpha
    } else {
        0
    }
}

/// A source image of `sw` by `sh` pixels whose byte offsets fit in a `u32`, as the scaling
/// computes them.
pub open spec fn source_fits(src: Seq<u8>, sw: int, sh: int) -> bool {
    &&& src.len() == sw * sh * 4
    &&& sw * sh * 4 <= u32::MAX
    &&& 36 * sw <= u32::MAX
    &&& 36 * sh <= u32::MAX
}

proof fn lemma_count_step(sy: int, y0: int, sh: int, w: int, sw: int, dx: int)
    requires
        0 <= y0 <= sy < sh,
        0 <= w <= sw,
        0 <= dx < w,
    ensures
        (sy - y0) * w + dx + 1 <= sh * sw,
{
    assert((sy - y0) * w + dx + 1 <= (sy - y0 + 1) * w) by (nonlinear_arith)
        requires
            0 <= dx < w,
    ;
    assert((sy - y0 + 1) * w <= sh * sw) by (nonlinear_arith)
        requires
            0 <= sy - y0 + 1 <= sh,
            0 <= w <= sw,
    ;
}

proof fn lemma_next_row(sy: int, y0: int, w: int)
    ensures
        (sy - y0) * w + w == (sy + 1 - y0) * w,
{
    assert((sy - y0) * w + w == (sy + 1 - y0) * w) by (nonlinear_arith);
}

proof fn lemma_span_ordered(i: int, n: int)
    requires
        0 <= i < 36,
        0 <= n,
    ensures
        span_start(i, n) <= span_end(i, n),
{
    assert(i * n / 36 <= ((i + 1) * n + 35) / 36 && i * n / 36 <= n) by (nonlinear_arith)
        requires
            0 <= i < 36,
            0 <= n,
    ;
}

proof fn lemma_product_bound(p: int, a: int)
    requires
        0 <= p <= 255,
        0 <= a <= 255,
    ensures
        0 <= p * a <= 255 * a,
        p * a <= 65025,
{
    assert(0 <= p * a <= 255 * a) by (nonlinear_arith)
        requires
            0 <= p <= 255,
            0 <= a,
    ;
}

proof fn lemma_quotient_byte(total: int, n: int)
    requires
        n >= 1,
        0 <= total <= 255 * n,
    ensures
        0 <= total / n <= 255,
{
    assert(0 <= total / n <= 255) by (nonlinear_arith)
        requires
            n >= 1,
            0 <= total <= 255 * n,
    ;
}

/// The four channels of output pixel `(x, y)` (see `icon_value`).
fn icon_pixel(src: &Vec<u8>, sw: u32, sh: u32, x: u32, y: u32) -> (res: (u8, u8, u8, u8))
    requires
        source_fits(src@, sw as int, sh as int),
        x < 36,
        y < 36,
    ensures
        res.0 as int == icon_value(src@, sw as int, sh as int, x as int, y as int, 0),
        res.1 as int == icon_value(src@, sw as int, sh as int, x as int, y as int, 1),
        res.2 as int == icon_value(src@, sw as int, sh as int, x as int, y as int, 2),
        res.3 as int == icon_value(src@, sw as int, sh as int, x as int, y as int, 3),
{
    let ghost s = src@;
    let ghost swi = sw as int;
    let ghost shi = sh as int;
    let w64: u64 = sw as u64;
    let h64: u64 = sh as u64;
    assert(x * swi <= 36 * swi && (x + 1) * swi <= 36 * swi) by (nonlinear_arith)
        requires
            x < 36,
            swi >= 0,
    ;
    assert(y * shi <= 36 * shi && (y + 1) * shi <= 36 * shi) by (nonlinear_arith)
        requires
            y < 36,
            shi >= 0,
    ;
    let x0: u64 = (x as u64) * w64 / 36;
    let e_x: u64 = ((x as u64 + 1) * w64 + 35) / 36;
    let x1: u64 = if e_x < w64 {
        e_x
    } else {
        w64
    };
    let y0: u64 = (y as u64) * h64 / 36;
    let e_y: u64 = ((y as u64 + 1) * h64 + 35) / 36;
    let y1: u64 = if e_y < h64 {
        e_y
    } else {
        h64
    };
    assert(x0 == span_start(x as int, swi) && x1 == span_end(x as int, swi));
    assert(y0 == span_start(y as int, shi) && y1 == span_end(y as int, shi));
    let ghost w: int = span_len(x as int, swi);
    proof {
        lemma_span_ordered(x as int, swi);
        lemma_span_ordered(y as int, shi);
    }
    let mut alpha_sum: u64 = 0;
    let mut red_sum: u64 = 0;
    let mut green_sum: u64 = 0;
    let mut blue_sum: u64 = 0;
    let mut count: u64 = 0;
    let mut sy: u64 = y0;
    while sy < y1
        invariant
            s == src@,
            source_fits(s, swi, shi),
            swi == sw,
            shi == sh,
            w64 == sw,
            h64 == sh,
            x0 <= x1,
            y0 <= y1,
            x0 == span_start(x as int, swi),
            x1 == span_end(x as int, swi),
            y0 == span_start(y as int, shi),
            y1 == span_end(y as int, shi),
            w == span_len(x as int, swi),
            x1 <= swi,
            y1 <= shi,
            y0 <= sy,
            sy <= y1,
            alpha_sum == box_total(s, swi, x0 as int, x1 as int, y0 as int, sy as int, 3),
            red_sum == box_total(s, swi, x0 as int, x1 as int, y0 as int, sy as int, 0),
            green_sum == box_total(s, swi, x0 as int, x1 as int, y0 as int, sy as int, 1),
            blue_sum == box_total(s, swi, x0 as int, x1 as int, y0 as int, sy as int, 2),
            count == (sy - y0) * w,
            count <= swi * shi,
            alpha_sum <= 255 * count,
            red_sum <= 255 * alpha_sum,
            green_sum <= 255 * alpha_sum,
            blue_sum <= 255 * alpha_sum,
        decreases y1 - sy,
    {
        let mut sx: u64 = x0;
        while sx < x1
            invariant
                s == src@,
                source_fits(s, swi, shi),
                swi == sw,
                shi == sh,
                w64 == sw,
                x0 <= x1,
                x0 == span_start(x as int, swi),
                x1 == span_end(x as int, swi),
                w == span_len(x as int, swi),
                x1 <= swi,
                y0 <= sy < y1,
                y1 <= shi,
                x0 <= sx,
                sx <= x1,
                alpha_sum == box_total(s, swi, x0 as int, x1 as int, y0 as int, sy as int, 3)
                    + row_total(s, swi, sy as int, x0 as int, sx as int, 3),
                red_sum == box_total(s, swi, x0 as int, x1 as int, y0 as int, sy as int, 0)
                    + row_total(s, swi, sy as int, x0 as int, sx as int, 0),
                green_sum == box_total(s, swi, x0 as int, x1 as int, y0 as int, sy as int, 1)
                    + row_total(s, swi, sy as int, x0 as int, sx as int, 1),
                blue_sum == box_total(s, swi, x0 as int, x1 as int, y0 as int, sy as int, 2)
                    + row_total(s, swi, sy as int, x0 as int, sx as int, 2),
                count == (sy - y0) * w + (sx - x0),
                count <= swi * shi,
                alpha_sum <= 255 * count,
                red_sum <= 255 * alpha_sum,
                green_sum <= 255 * alpha_sum,
                blue_sum <= 255 * alpha_sum,
            decreases x1 - sx,
        {
            proof {
                lemma_pixel_in_image(swi, shi, sx as int, sy as int);
                lemma_count_step(sy as int, y0 as int, shi, w, swi, sx - x0);
            }
            let offset: usize = ((sy * w64 + sx) * 4) as usize;
            assert(offset == pixel_start(swi, sx as int, sy as int));
            let alpha: u64 = src[offset + 3] as u64;
            let red: u64 = src[offset] as u64;
            let green: u64 = src[offset + 1] as u64;
            let blue: u64 = src[offset + 2] as u64;
            proof {
                lemma_product_bound(red as int, alpha as int);
                lemma_product_bound(green as int, alpha as int);
                lemma_product_bound(blue as int, alpha as int);
                assert(swi * shi * 4 <= u32::MAX);
            }
            alpha_sum = alpha_sum + alpha;
            red_sum = red_sum + red * alpha;
            green_sum = green_sum + green * alpha;
            blue_sum = blue_sum + blue * alpha;
            count = count + 1;
            sx = sx + 1;
        }
        proof {
            lemma_next_row(sy as int, y0 as int, w);
        }
        sy = sy + 1;
    }
    let ghost rows: int = span_len(y as int, shi);
    assert(count == rows * w);
    let out_alpha: u64 = if count > 0 {
        alpha_sum / count
    } else {
        alpha_sum
    };
    proof {
        lemma_quotient_byte(alpha_sum as int, if count > 0 { count as int } else { 1 });
    }
    if alpha_sum > 0 {
        proof {
            lemma_quotient_byte(red_sum as int, alpha_sum as int);
            lemma_quotient_byte(green_sum as int, alpha_sum as int);
            lemma_quotient_byte(blue_sum as int, alpha_sum as int);
        }
        (
            (red_sum / alpha_sum) as u8,
            (green_sum / alpha_sum) as u8,
            (blue_sum / alpha_sum) as u8,
            out_alpha as u8,
        )
    } else {
        (0, 0, 0, out_alpha as u8)
    }
}

/// Where channel `c` of pixel `(x, y)` of the menu-bar icon lies in its RGBA bytes.
pub open spec fn icon_index(x: int, y: int, c: int) -> int {
    (y * 36 + x) * 4 + c
}

/// Scales the decoded tray icon (`sw` by `sh` pixels, RGBA bytes) down to the
/// `MENU_ICON_SIZE`-pixel square of the menu bar (see `icon_value`).
pub fn macos_tray_icon(source: &Vec<u8>, sw: u32, sh: u32) -> (res: Vec<u8>)
    requires
        source_fits(source@, sw as int, sh as int),
    ensures
        res@.len() == 36 * 36 * 4,
        forall|x: int, y: int, c: int|
            0 <= x < 36 && 0 <= y < 36 && 0 <= c < 4 ==> #[trigger] res@[icon_index(x, y, c)] as int
                == icon_value(source@, sw as int, sh as int, x, y, c),
{
    let mut rgba: Vec<u8> = Vec::new();
    let mut y: u32 = 0;
    while y < 36
        invariant
            0 <= y <= 36,
            source_fits(source@, sw as int, sh as int),
            rgba@.len() == y * 36 * 4,
            forall|x2: int, y2: int, c: int|
                0 <= x2 < 36 && 0 <= y2 < y && 0 <= c < 4 ==> #[trigger] rgba@[icon_index(x2, y2, c)]
                    as int == icon_value(source@, sw as int, sh as int, x2, y2, c),
        decreases 36 - y,
    {
        let mut x: u32 = 0;
        while x < 36
            invariant
                0 <= y < 36,
                0 <= x <= 36,
                source_fits(source@, sw as int, sh as int),
                rgba@.len() == (y * 36 + x) * 4,
                forall|x2: int, y2: int, c: int|
                    0 <= x2 < 36 && 0 <= y2 < 36 && (y2 < y || (y2 == y && x2 < x)) && 0 <= c < 4
                        ==> #[trigger] rgba@[icon_index(x2, y2, c)] as int == icon_value(
                        source@,
                        sw as int,
                        sh as int,
                        x2,
                        y2,
                        c,
                    ),
            decreases 36 - x,
        {
            let (r, g, b, a) = icon_pixel(source, sw, sh, x, y);
            let ghost before = rgba@;
            rgba.push(r);
            rgba.push(g);
            rgba.push(b);
            rgba.push(a);
            assert forall|x2: int, y2: int, c: int|
                0 <= x2 < 36 && 0 <= y2 < 36 && (y2 < y || (y2 == y && x2 < x + 1)) && 0 <= c < 4
                    implies #[trigger] rgba@[icon_index(x2, y2, c)] as int == icon_value(
                    source@,
                    sw as int,
                    sh as int,
                    x2,
                    y2,
                    c,
                ) by {
                if y2 == y && x2 == x {
                    assert(icon_index(x2, y2, c) == before.len() + c);
                } else {
                    assert(icon_index(x2, y2, c) < before.len());
                    assert(rgba@[icon_index(x2, y2, c)] == before[icon_index(x2, y2, c)]);
                }
            }
            x = x + 1;
        }
        y = y + 1;
    }
    rgba
}

} // verus!
