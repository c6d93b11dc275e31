//! The audio visualizer's bars, drawn into a 32-bit pixel buffer.
use vstd::prelude::*;
use crate::placement::div_trunc;
use vstd::arithmetic::div_mod::{lemma_fundamental_div_mod, lemma_fundamental_div_mod_converse};

verus! {

/// How the bars are laid out in the buffer: its visible size in pixels, its row stride in
/// bytes, the gap between bars, and whether bars are centred vertically or stand on a
/// baseline row.
#[derive(Clone, Copy, Debug, PartialEq, Eq, Structural)]
pub struct BarGeometry {
    pub width: i32,
    pub height: i32,
    pub stride: i32,
    pub spacing: i32,
    pub centered: bool,
    pub baseline: i32,
}

/// The pixel value for a colour: `0x00RRGGBB`.
pub open spec fn bar_color(r: u8, g: u8, b: u8) -> u32 {
    (r as int * 65536 + g as int * 256 + b as int) as u32
}

/// Each bar's width: the width left after the gaps, shared among `n` bars (rounded
/// toward zero).
pub open spec fn bar_width(g: BarGeometry, n: int) -> int {
    div_trunc(g.width - (n - 1) * g.spacing, n)
}

/// The first row of a bar of height `h`: centred in the buffer, or ending at the
/// baseline.
pub open spec fn bar_top(g: BarGeometry, h: int) -> int {
    if g.centered {
        div_trunc(g.height - h, 2)
    } else {
        g.baseline - h
    }
}

/// Bar `i` of `bars` (heights in pixels) covers pixel (`x`, `y`): bar `i` starts at
/// column `i * (bar width + gap)`.
pub open spec fn bar_covers(g: BarGeometry, bars: Seq<i32>, i: int, x: int, y: int) -> bool {
    let bw = bar_width(g, bars.len() as int);
    let x0 = i * (bw + g.spacing);
    let y0 = bar_top(g, bars[i] as int);
    y0 <= y < y0 + bars[i] && x0 <= x < x0 + bw
}

/// One of the first `k` bars covers pixel (`x`, `y`).
pub open spec fn covered_by_first(g: BarGeometry, bars: Seq<i32>, k: int, x: int, y: int) -> bool
    decreases k,
{
    if k <= 0 {
        false
    } else {
        covered_by_first(g, bars, k - 1, x, y) || bar_covers(g, bars, k - 1, x, y)
    }
}

/// Pixels per row.
pub open spec fn row_pixels(g: BarGeometry) -> int {
    g.stride as int / 4
}

/// Buffer entry `k` is the visible pixel (`k % row`, `k / row`).
pub open spec fn visible(g: BarGeometry, k: int) -> bool {
    g.width > 0 && g.height > 0 && 0 <= k % row_pixels(g) < g.width && 0 <= k / row_pixels(g)
        < g.height
}

/// The buffer after drawing: a visible pixel that some bar covers has the bar colour;
/// every other entry is as it was.
pub open spec fn drawn(g: BarGeometry, bars: Seq<i32>, color: u32, before: Seq<u32>, k: int) -> u32 {
    if visible(g, k) && covered_by_first(g, bars, bars.len() as int, k % row_pixels(g), k / row_pixels(g)) {
        color
    } else {
        before[k]
    }
}

/// The buffer holds `height` rows of at least `width` pixels each.
pub open spec fn buffer_fits(g: BarGeometry, len: int) -> bool {
    g.width > 0 && g.height > 0 ==> (row_pixels(g) >= g.width && g.height * row_pixels(g) <= len)
}

fn trunc_div(a: i128, b: i128) -> (q: i128)
    requires
        b > 0,
        -0x1_0000_0000_0000_0000_0000_0000 < a < 0x1_0000_0000_0000_0000_0000_0000,
    ensures
        q == div_trunc(a as int, b as int),
{
    if a >= 0 {
        a / b
    } else {
        -((-a) / b)
    }
}

proof fn lemma_cell(k: int, s: int, x: int, y: int)
    requires
        s > 0,
        0 <= x < s,
        k == y * s + x,
    ensures
        k % s == x,
        k / s == y,
{
    lemma_fundamental_div_mod_converse(k, s, y, x);
}

proof fn lemma_cell_unique(k: int, s: int, x: int, y: int)
    requires
        s > 0,
        0 <= k,
        k % s == x,
        k / s == y,
    ensures
        k == y * s + x,
{
    lemma_fundamental_div_mod(k, s);
    assert(s * (k / s) == y * s) by (nonlinear_arith)
        requires
            k / s == y,
    ;
}

proof fn lemma_row_bound(y: int, s: int, x: int, h: int, len: int)
    requires
        0 <= y < h,
        0 <= x < s,
        h * s <= len,
    ensures
        0 <= y * s + x < len,
{
    assert(y * s + x < h * s) by (nonlinear_arith)
        requires
            0 <= y < h,
            0 <= x < s,
    ;
    assert(0 <= y * s) by (nonlinear_arith)
        requires
            0 <= y,
            0 <= s,
    ;
}

/// Draws `bar_heights.len()` bars (heights in pixels, from the audio levels) in the
/// colour (`r`, `g`, `b`) into `pixels`: each visible pixel a bar covers takes the
/// colour (see `drawn`); nothing else changes. No bars, no drawing.
pub fn draw_visualizer_bars(
    pixels: &mut Vec<u32>,
    width: i32,
    height: i32,
    stride: i32,
    bar_heights: &Vec<i32>,
    bar_spacing: i32,
    color_r: u8,
    color_g: u8,
    color_b: u8,
    centered_bars: bool,
    bar_baseline: i32,
)
    requires
        bar_heights@.len() <= i32::MAX,
        buffer_fits(
            (BarGeometry { width, height, stride, spacing: bar_spacing, centered: centered_bars, baseline: bar_baseline }),
            old(pixels)@.len() as int,
        ),
    ensures
        final(pixels)@.len() == old(pixels)@.len(),
        forall|k: int|
            0 <= k < old(pixels)@.len() ==> #[trigger] final(pixels)@[k] == drawn(
                (BarGeometry { width, height, stride, spacing: bar_spacing, centered: centered_bars, baseline: bar_baseline }),
                bar_heights@,
                bar_color(color_r, color_g, color_b),
                old(pixels)@,
                k,
            ),
{
    let ghost geo = BarGeometry {
        width,
        height,
        stride,
        spacing: bar_spacing,
        centered: centered_bars,
        baseline: bar_baseline,
    };
    let ghost before = pixels@;
    let n = bar_heights.len();
    if n == 0 || width <= 0 || height <= 0 {
        proof {
            assert forall|k: int| 0 <= k < before.len() implies #[trigger] pixels@[k] == drawn(
                geo,
                bar_heights@,
                bar_color(color_r, color_g, color_b),
                before,
                k,
            ) by {
                if n == 0 {
                    assert(!covered_by_first(geo, bar_heights@, 0, k % row_pixels(geo), k / row_pixels(geo)));
                }
            }
        }
        return;
    }
    let color: u32 = ((color_r as u32) << 16) | ((color_g as u32) << 8) | (color_b as u32);
    assert(color == bar_color(color_r, color_g, color_b)) by (bit_vector)
        requires
            color == ((color_r as u32) << 16) | ((color_g as u32) << 8) | (color_b as u32),
    ;
    let s: usize = (stride / 4) as usize;
    assert(s as int == row_pixels(geo));
    let ni: i128 = n as i128;
    assert(-0x8000_0000 * 0x8000_0000 <= (ni - 1) * bar_spacing as i128 <= 0x8000_0000 * 0x8000_0000)
        by (nonlinear_arith)
        requires
            0 <= ni - 1 < 0x8000_0000,
            -0x8000_0000 <= bar_spacing < 0x8000_0000,
    ;
    let bw: i128 = trunc_div(width as i128 - (ni - 1) * bar_spacing as i128, ni);
    assert(bw == bar_width(geo, bar_heights@.len() as int));
    let mut i: usize = 0;
    while i < n
        invariant
            geo == (BarGeometry { width, height, stride, spacing: bar_spacing, centered: centered_bars, baseline: bar_baseline }),
            n == bar_heights@.len(),
            n <= i32::MAX,
            i <= n,
            width > 0,
            height > 0,
            s as int == row_pixels(geo),
            s >= width,
            height * s <= before.len(),
            ni == n,
            bw == bar_width(geo, n as int),
            color == bar_color(color_r, color_g, color_b),
            pixels@.len() == before.len(),
            forall|k: int|
                0 <= k < before.len() ==> #[trigger] pixels@[k] == if visible(geo, k) && covered_by_first(
                    geo,
                    bar_heights@,
                    i as int,
                    k % row_pixels(geo),
                    k / row_pixels(geo),
                ) {
                    color
                } else {
                    before[k]
                },
        decreases n - i,
    {
        let h: i128 = bar_heights[i] as i128;
        assert(-0x8000_0000_0000_0000 < bw < 0x8000_0000_0000_0000) by {
            assert(-0x8000_0000 * 0x8000_0000 <= (ni - 1) * bar_spacing as i128 <= 0x8000_0000
                * 0x8000_0000) by (nonlinear_arith)
                requires
                    0 <= ni - 1 < 0x8000_0000,
                    -0x8000_0000 <= bar_spacing < 0x8000_0000,
            ;
        }
        assert(-0x1_0000_0000_0000_0000_0000_0000 < i as i128 * (bw + bar_spacing as i128)
            < 0x1_0000_0000_0000_0000_0000_0000) by (nonlinear_arith)
            requires
                0 <= i < 0x8000_0000,
                -0x8000_0000_0000_0000 - 0x8000_0000 < bw + bar_spacing < 0x8000_0000_0000_0000 + 0x8000_0000,
        ;
        let x0: i128 = i as i128 * (bw + bar_spacing as i128);
        let y0: i128 = if centered_bars {
            trunc_div(height as i128 - h, 2)
        } else {
            bar_baseline as i128 - h
        };
        let y_lo: i128 = if y0 < 0 { 0 } else { y0 };
        let y_hi: i128 = if y0 + h < height as i128 { y0 + h } else { height as i128 };
        let x_lo: i128 = if x0 < 0 { 0 } else { x0 };
        let x_hi: i128 = if x0 + bw < width as i128 { x0 + bw } else { width as i128 };
        let ghost done = i as int;
        if y_lo < y_hi && x_lo < x_hi {
            let mut y: usize = y_lo as usize;
            while y < y_hi as usize
                invariant
                    geo == (BarGeometry { width, height, stride, spacing: bar_spacing, centered: centered_bars, baseline: bar_baseline }),
                    n == bar_heights@.len(),
                    done == i,
                    i < n,
                    width > 0,
                    height > 0,
                    s as int == row_pixels(geo),
                    s >= width,
                    height * s <= before.len(),
                    bw == bar_width(geo, n as int),
                    x0 == i * (bw + bar_spacing),
                    y0 == bar_top(geo, bar_heights@[done] as int),
                    h == bar_heights@[done],
                    y_lo == if y0 < 0 { 0 } else { y0 },
                    y_hi == if y0 + h < height { y0 + h } else { height as int },
                    x_lo == if x0 < 0 { 0 } else { x0 },
                    x_hi == if x0 + bw < width { x0 + bw } else { width as int },
                    0 <= y_lo < y_hi <= height,
                    0 <= x_lo < x_hi <= width,
                    y_lo <= y <= y_hi,
                    color == bar_color(color_r, color_g, color_b),
                    pixels@.len() == before.len(),
                    forall|k: int|
                        0 <= k < before.len() ==> #[trigger] pixels@[k] == if visible(geo, k) && (
                        covered_by_first(geo, bar_heights@, done, k % row_pixels(geo), k / row_pixels(geo))
                            || (bar_covers(geo, bar_heights@, done, k % row_pixels(geo), k / row_pixels(geo))
                            && k / row_pixels(geo) < y)) {
                            color
                        } else {
                            before[k]
                        },
                decreases y_hi - y,
            {
                let mut x: usize = x_lo as usize;
                while x < x_hi as usize
                    invariant
                        geo == (BarGeometry { width, height, stride, spacing: bar_spacing, centered: centered_bars, baseline: bar_baseline }),
                        n == bar_heights@.len(),
                        done == i,
                        i < n,
                        width > 0,
                        height > 0,
                        s as int == row_pixels(geo),
                        s >= width,
                        height * s <= before.len(),
                        bw == bar_width(geo, n as int),
                        x0 == i * (bw + bar_spacing),
                        y0 == bar_top(geo, bar_heights@[done] as int),
                        h == bar_heights@[done],
                        y_lo == if y0 < 0 { 0 } else { y0 },
                        y_hi == if y0 + h < height { y0 + h } else { height as int },
                        x_lo == if x0 < 0 { 0 } else { x0 },
                        x_hi == if x0 + bw < width { x0 + bw } else { width as int },
                        0 <= y_lo < y_hi <= height,
                        0 <= x_lo < x_hi <= width,
                        y_lo <= y < y_hi,
                        x_lo <= x <= x_hi,
                        color == bar_color(color_r, color_g, color_b),
                        pixels@.len() == before.len(),
                        forall|k: int|
                            0 <= k < before.len() ==> #[trigger] pixels@[k] == if visible(geo, k) && (
                            covered_by_first(geo, bar_heights@, done, k % row_pixels(geo), k / row_pixels(geo))
                                || (bar_covers(geo, bar_heights@, done, k % row_pixels(geo), k / row_pixels(geo))
                                && (k / row_pixels(geo) < y || (k / row_pixels(geo) == y && k % row_pixels(geo)
                                < x)))) {
                                color
                            } else {
                                before[k]
                            },
                    decreases x_hi - x,
                {
                    proof {
                        lemma_row_bound(y as int, s as int, x as int, height as int, before.len() as int);
                    }
                    let len = pixels.len();
                    assert((y as int) * (s as int) + (x as int) < len);
                    let row: usize = y * s;
                    let idx: usize = row + x;
                    let ghost prev = pixels@;
                    pixels.set(idx, color);
                    proof {
                        lemma_cell(idx as int, s as int, x as int, y as int);
                        assert forall|k: int| 0 <= k < before.len() implies #[trigger] pixels@[k] == if visible(geo, k) && (
                            covered_by_first(geo, bar_heights@, done, k % row_pixels(geo), k / row_pixels(geo))
                                || (bar_covers(geo, bar_heights@, done, k % row_pixels(geo), k / row_pixels(geo))
                                && (k / row_pixels(geo) < y || (k / row_pixels(geo) == y && k % row_pixels(geo)
                                < x + 1)))) {
                                color
                            } else {
                                before[k]
                            } by {
                            if k != idx {
                                if k / row_pixels(geo) == y && k % row_pixels(geo) == x {
                                    lemma_cell_unique(k, s as int, x as int, y as int);
                                }
                                assert(pixels@[k] == prev[k]);
                            } else {
                                assert(visible(geo, k));
                                assert(bar_covers(geo, bar_heights@, done, x as int, y as int));
                            }
                        }
                    }
                    x = x + 1;
                }
                proof {
                    assert forall|k: int| 0 <= k < before.len() implies #[trigger] pixels@[k] == if visible(geo, k) && (
                        covered_by_first(geo, bar_heights@, done, k % row_pixels(geo), k / row_pixels(geo))
                            || (bar_covers(geo, bar_heights@, done, k % row_pixels(geo), k / row_pixels(geo))
                            && k / row_pixels(geo) < y + 1)) {
                            color
                        } else {
                            before[k]
                        } by {
                        if visible(geo, k) && k / row_pixels(geo) == y && bar_covers(
                            geo,
                            bar_heights@,
                            done,
                            k % row_pixels(geo),
                            k / row_pixels(geo),
                        ) {
                            assert(k % row_pixels(geo) < x);
                        }
                    }
                }
                y = y + 1;
            }
            proof {
                assert forall|k: int| 0 <= k < before.len() implies #[trigger] pixels@[k] == if visible(geo, k)
                    && covered_by_first(geo, bar_heights@, done + 1, k % row_pixels(geo), k / row_pixels(geo)) {
                    color
                } else {
                    before[k]
                } by {
                    if visible(geo, k) && bar_covers(geo, bar_heights@, done, k % row_pixels(geo), k / row_pixels(geo)) {
                        assert(k / row_pixels(geo) < y);
                    }
                }
            }
        } else {
            proof {
                assert forall|k: int| 0 <= k < before.len() implies #[trigger] pixels@[k] == if visible(geo, k)
                    && covered_by_first(geo, bar_heights@, done + 1, k % row_pixels(geo), k / row_pixels(geo)) {
                    color
                } else {
                    before[k]
                } by {
                    if visible(geo, k) {
                        assert(!bar_covers(geo, bar_heights@, done, k % row_pixels(geo), k / row_pixels(geo)));
                    }
                }
            }
        }
        i = i + 1;
    }
}

} // verus!
