//! Double-buffered RGB565 framebuffer for the 320x240 panel.

use vstd::prelude::*;
use vstd::arithmetic::div_mod::{lemma_fundamental_div_mod, lemma_fundamental_div_mod_converse};
use embedded_graphics_core::pixelcolor::{IntoStorage, Rgb565};
use embedded_graphics_core::geometry::{Point, Size};
use embedded_graphics_core::primitives::Rectangle;

verus! {

pub const WIDTH: usize = 320;

pub const HEIGHT: usize = 240;

pub const PIXEL_COUNT: usize = 76800;

/// A 16-bit colour by its channels: red and blue of 5 bits, green of 6
/// bits (higher bits of a channel are dropped).
#[derive(Clone, Copy, PartialEq, Eq, Structural, Debug)]
pub struct Color565 {
    pub r: u8,
    pub g: u8,
    pub b: u8,
}

/// The raw R5G6B5 value of a colour: red in the top 5 bits, green in the
/// middle 6, blue in the low 5, each channel masked to its width.
pub open spec fn rgb565_raw(c: Color565) -> u16 {
    ((c.r % 32) as int * 2048 + (c.g % 64) as int * 32 + (c.b % 32) as int) as u16
}

/// `Rgb565::new(r, g, b).into_storage()` (embedded-graphics-core): the
/// constructor masks each channel to its width and the storage packs them
/// red high, green in the middle, blue low.
#[verifier::external_body]
fn rgb565_into_storage(color: Color565) -> (r: u16)
    ensures
        r == rgb565_raw(color),
{
    Rgb565::new(color.r, color.g, color.b).into_storage()
}

/// A rectangle whose bottom-right corner `Rectangle::bottom_right` can
/// compute without overflowing an `i32`.
pub open spec fn rect_in_range(r: (i32, i32, u32, u32)) -> bool {
    r.2 > 0 && r.3 > 0 ==> r.2 <= i32::MAX && r.3 <= i32::MAX && r.0 + r.2 <= i32::MAX && r.1
        + r.3 <= i32::MAX
}

/// `r` lies within `outer`.
pub open spec fn rect_within(r: (i32, i32, u32, u32), outer: (i32, i32, u32, u32)) -> bool {
    outer.0 <= r.0 && r.0 + r.2 <= outer.0 + outer.2 && outer.1 <= r.1 && r.1 + r.3 <= outer.1
        + outer.3
}

/// A rectangle of zero width or height: it holds no pixel.
pub open spec fn rect_empty(r: (i32, i32, u32, u32)) -> bool {
    r.2 == 0 || r.3 == 0
}

/// Pixel `(x, y)` lies in `r`.
pub open spec fn rect_contains(r: (i32, i32, u32, u32), x: int, y: int) -> bool {
    !rect_empty(r) && r.0 <= x < r.0 + r.2 && r.1 <= y < r.1 + r.3
}

/// The zero-sized rectangle at the origin.
pub open spec fn rect_zero() -> (i32, i32, u32, u32) {
    (0, 0, 0, 0)
}

/// The intersection of two rectangles, each given as top-left x, top-left
/// y, width and height: the pixels that both hold, or the zero-sized
/// rectangle at the origin when they share none. An empty rectangle whose
/// corner lies in the other (non-empty) one is its own intersection.
pub open spec fn rectangle_intersection(
    a: (i32, i32, u32, u32),
    b: (i32, i32, u32, u32),
) -> (i32, i32, u32, u32) {
    if !rect_empty(a) && !rect_empty(b) {
        let left = if a.0 >= b.0 { a.0 as int } else { b.0 as int };
        let top = if a.1 >= b.1 { a.1 as int } else { b.1 as int };
        let right = if a.0 + a.2 <= b.0 + b.2 { a.0 + a.2 } else { b.0 + b.2 };
        let bottom = if a.1 + a.3 <= b.1 + b.3 { a.1 + a.3 } else { b.1 + b.3 };
        if left < right && top < bottom {
            (left as i32, top as i32, (right - left) as u32, (bottom - top) as u32)
        } else {
            rect_zero()
        }
    } else if !rect_empty(b) {
        if rect_contains(b, a.0 as int, a.1 as int) { a } else { rect_zero() }
    } else if !rect_empty(a) {
        if rect_contains(a, b.0 as int, b.1 as int) { b } else { rect_zero() }
    } else {
        rect_zero()
    }
}

/// `Rectangle::intersection` of `a` and `b` (embedded-graphics-core): the
/// pixels that both rectangles hold, as `rectangle_intersection` states
/// it; the rectangles' bottom-right corners must fit in an `i32`.
#[verifier::external_body]
fn intersect(a: (i32, i32, u32, u32), b: (i32, i32, u32, u32)) -> (r: (i32, i32, u32, u32))
    requires
        rect_in_range(a),
        rect_in_range(b),
    ensures
        r == rectangle_intersection(a, b),
{
    let ra = Rectangle::new(Point::new(a.0, a.1), Size::new(a.2, a.3));
    let rb = Rectangle::new(Point::new(b.0, b.1), Size::new(b.2, b.3));
    let r = ra.intersection(&rb);
    (r.top_left.x, r.top_left.y, r.size.width, r.size.height)
}

/// Row of pixel index `i`.
pub open spec fn row_of(i: int) -> int {
    i / WIDTH as int
}

/// Column of pixel index `i`.
pub open spec fn col_of(i: int) -> int {
    i % WIDTH as int
}

/// `old` with every pixel in columns `x0..x1` of rows `y0..y1` set to
/// `color`.
pub open spec fn fill_box(old: Seq<u16>, x0: int, y0: int, x1: int, y1: int, color: u16) -> Seq<
    u16,
> {
    Seq::new(
        old.len(),
        |i: int|
            if y0 <= row_of(i) < y1 && x0 <= col_of(i) < x1 {
                color
            } else {
                old[i]
            },
    )
}

pub open spec fn min(a: int, b: int) -> int {
    if a < b {
        a
    } else {
        b
    }
}

proof fn lemma_index_of(row: int, col: int)
    requires
        0 <= row,
        0 <= col < WIDTH,
    ensures
        row_of(row * WIDTH + col) == row,
        col_of(row * WIDTH + col) == col,
{
    lemma_fundamental_div_mod_converse(row * WIDTH + col, WIDTH as int, row, col);
}

proof fn lemma_row_col(i: int)
    requires
        0 <= i,
    ensures
        i == row_of(i) * WIDTH + col_of(i),
        0 <= col_of(i) < WIDTH,
        0 <= row_of(i),
{
    lemma_fundamental_div_mod(i, WIDTH as int);
}

/// The whole panel as a rectangle.
pub open spec fn screen_rect() -> (i32, i32, u32, u32) {
    (0, 0, WIDTH as u32, HEIGHT as u32)
}

/// Pixel `i` lies in rectangle `c`.
pub open spec fn in_rect(i: int, c: (i32, i32, u32, u32)) -> bool {
    c.1 <= row_of(i) < c.1 + c.3 && c.0 <= col_of(i) < c.0 + c.2
}

/// Position of pixel `i` among the points of rectangle `c`, counted row
/// after row from its top left corner.
pub open spec fn area_index(i: int, c: (i32, i32, u32, u32)) -> int {
    (row_of(i) - c.1) * c.2 + (col_of(i) - c.0)
}

/// `old` after a contiguous fill of `area` with `colors`: colour `k` belongs
/// to the `k`-th point of `area`, row after row, and only the points in its
/// drawable part `c` are drawn; points past the end of `colors` keep their
/// pixel.
pub open spec fn contiguous_fill(
    old: Seq<u16>,
    area: (i32, i32, u32, u32),
    c: (i32, i32, u32, u32),
    colors: Seq<u16>,
) -> Seq<u16> {
    Seq::new(
        old.len(),
        |i: int|
            if in_rect(i, c) && area_index(i, area) < colors.len() {
                colors[area_index(i, area)]
            } else {
                old[i]
            },
    )
}

proof fn lemma_area_index(i: int, c: (i32, i32, u32, u32))
    requires
        in_rect(i, c),
    ensures
        area_index(i, c) >= 0,
{
    assert((row_of(i) - c.1) * c.2 >= 0) by (nonlinear_arith)
        requires
            row_of(i) - c.1 >= 0,
    ;
}

proof fn lemma_next_div_mod(k: int, w: int)
    requires
        w > 0,
        k >= 0,
    ensures
        (k + 1) / w == if k % w + 1 == w {
            k / w + 1
        } else {
            k / w
        },
        (k + 1) % w == if k % w + 1 == w {
            0
        } else {
            k % w + 1
        },
{
    lemma_fundamental_div_mod(k, w);
    let q = k / w;
    let r = k % w;
    if r + 1 == w {
        assert(k + 1 == (q + 1) * w + 0) by (nonlinear_arith)
            requires
                k == w * q + r,
                r + 1 == w,
        ;
        lemma_fundamental_div_mod_converse(k + 1, w, q + 1, 0);
    } else {
        assert(k + 1 == q * w + (r + 1)) by (nonlinear_arith)
            requires
                k == w * q + r,
        ;
        lemma_fundamental_div_mod_converse(k + 1, w, q, r + 1);
    }
}

pub struct Framebuffer {
    buf: Vec<u16>,
    back: Vec<u16>,
}

impl Framebuffer {
    /// The front buffer, row after row.
    pub closed spec fn pixels(&self) -> Seq<u16> {
        self.buf@
    }

    /// The back buffer, row after row.
    pub closed spec fn back_pixels(&self) -> Seq<u16> {
        self.back@
    }

    /// Both buffers hold one value per pixel of the panel.
    pub open spec fn wf(&self) -> bool {
        self.pixels().len() == PIXEL_COUNT && self.back_pixels().len() == PIXEL_COUNT
    }

    /// Both buffers, all black.
    pub fn new() -> (r: Self)
        ensures
            r.wf(),
            r.pixels() == Seq::new(PIXEL_COUNT as nat, |i: int| 0u16),
            r.back_pixels() == Seq::new(PIXEL_COUNT as nat, |i: int| 0u16),
    {
        let buf = vec![0u16; PIXEL_COUNT];
        let back = vec![0u16; PIXEL_COUNT];
        Self { buf, back }
    }

    /// Swapping the buffers twice gives both buffers back as they were.
    pub proof fn lemma_swap_twice(before: Framebuffer, middle: Framebuffer, after: Framebuffer)
        requires
            middle.pixels() == before.back_pixels(),
            middle.back_pixels() == before.pixels(),
            after.pixels() == middle.back_pixels(),
            after.back_pixels() == middle.pixels(),
        ensures
            after.pixels() == before.pixels(),
            after.back_pixels() == before.back_pixels(),
    {
    }

    /// Off-screen drawing: a pixel written through the back buffer leaves
    /// the panel's buffer as it was, and shows on it after the next swap.
    pub proof fn lemma_back_write_shows_after_swap(
        before: Framebuffer,
        drawn: Framebuffer,
        swapped: Framebuffer,
        i: int,
        c: u16,
    )
        requires
            before.wf(),
            0 <= i < PIXEL_COUNT,
            drawn.back_pixels() == before.back_pixels().update(i, c),
            drawn.pixels() == before.pixels(),
            swapped.pixels() == drawn.back_pixels(),
            swapped.back_pixels() == drawn.pixels(),
        ensures
            swapped.pixels()[i] == c,
            swapped.pixels().len() == PIXEL_COUNT,
            swapped.back_pixels() == before.pixels(),
    {
    }

    // SWAP FRONT & BACK BUFFERS
    pub fn swap(&mut self)
        ensures
            final(self).pixels() == old(self).back_pixels(),
            final(self).back_pixels() == old(self).pixels(),
    {
        core::mem::swap(&mut self.buf, &mut self.back);
    }

    // GET MUTABLE REF TO THE BACK BUFFER FOR OFF-SCREEN DRAWING
    pub fn back_buffer_mut(&mut self) -> (r: &mut [u16])
        ensures
            r@ == old(self).back_pixels(),
            final(self).back_pixels() == final(r)@,
            final(self).pixels() == old(self).pixels(),
    {
        self.back.as_mut_slice()
    }

    pub fn buffer_mut(&mut self) -> (r: &mut [u16])
        ensures
            r@ == old(self).pixels(),
            final(self).pixels() == final(r)@,
            final(self).back_pixels() == old(self).back_pixels(),
    {
        self.buf.as_mut_slice()
    }

    pub fn buffer(&self) -> (r: &[u16])
        ensures
            r@ == self.pixels(),
    {
        self.buf.as_slice()
    }

    /// Overwrites every pixel of the front buffer with `raw`.
    fn fill_front(&mut self, raw: u16)
        ensures
            final(self).pixels() == Seq::new(old(self).pixels().len(), |i: int| raw),
            final(self).back_pixels() == old(self).back_pixels(),
    {
        let mut i: usize = 0;
        while i < self.buf.len()
            invariant
                i <= self.buf@.len(),
                self.buf@.len() == old(self).pixels().len(),
                self.back@ == old(self).back_pixels(),
                forall|j: int| 0 <= j < i ==> self.buf@[j] == raw,
                forall|j: int| i <= j < self.buf@.len() ==> self.buf@[j] == old(self).pixels()[j],
            decreases self.buf@.len() - i,
        {
            self.buf.set(i, raw);
            i = i + 1;
        }
        assert(self.buf@ =~= Seq::new(old(self).pixels().len(), |i: int| raw));
    }

    /// Fills the front buffer with one colour.
    pub fn clear_color(&mut self, color: Color565)
        ensures
            final(self).pixels() == Seq::new(old(self).pixels().len(), |i: int| rgb565_raw(color)),
            final(self).back_pixels() == old(self).back_pixels(),
    {
        let raw: u16 = rgb565_into_storage(color);
        self.fill_front(raw);
    }

    /// Sets one pixel of the front buffer; coordinates off the panel are
    /// ignored.
    pub fn set_pixel(&mut self, x: usize, y: usize, color: u16)
        requires
            old(self).wf(),
        ensures
            final(self).wf(),
            final(self).pixels() == if x < WIDTH && y < HEIGHT {
                old(self).pixels().update(y * WIDTH + x, color)
            } else {
                old(self).pixels()
            },
            final(self).back_pixels() == old(self).back_pixels(),
    {
        if x < WIDTH && y < HEIGHT {
            self.buf.set(y * WIDTH + x, color);
        }
    }

    /// Fills columns `x..x+w` of rows `y..y+h` of the front buffer, clipped
    /// to the panel.
    pub fn fill_rect(&mut self, x: usize, y: usize, w: usize, h: usize, color: u16)
        requires
            old(self).wf(),
            x + w <= usize::MAX,
            y + h <= usize::MAX,
            x > WIDTH ==> min(y + h, HEIGHT as int) <= y,
        ensures
            final(self).wf(),
            final(self).pixels() == fill_box(
                old(self).pixels(),
                x as int,
                y as int,
                min(x + w, WIDTH as int),
                min(y + h, HEIGHT as int),
                color,
            ),
            final(self).back_pixels() == old(self).back_pixels(),
    {
        let x_end = if x + w < WIDTH {
            x + w
        } else {
            WIDTH
        };
        let y_end = if y + h < HEIGHT {
            y + h
        } else {
            HEIGHT
        };
        let ghost old_px = self.buf@;
        let mut row = y;
        while row < y_end
            invariant
                self.wf(),
                y <= row,
                row <= y_end || row == y,
                y_end <= HEIGHT,
                x_end <= WIDTH,
                y < y_end ==> x <= x_end,
                old_px == old(self).pixels(),
                self.back@ == old(self).back_pixels(),
                self.buf@ == fill_box(old_px, x as int, y as int, x_end as int, row as int, color),
            decreases y_end - row,
        {
            let mut col = x;
            while col < x_end
                invariant
                    self.wf(),
                    y <= row < y_end,
                    y_end <= HEIGHT,
                    x <= col <= x_end,
                    x_end <= WIDTH,
                    self.back@ == old(self).back_pixels(),
                    self.buf@ == Seq::new(
                        old_px.len(),
                        |i: int|
                            if (y <= row_of(i) < row && x <= col_of(i) < x_end) || (row_of(i)
                                == row && x <= col_of(i) < col) {
                                color
                            } else {
                                old_px[i]
                            },
                    ),
                decreases x_end - col,
            {
                let ghost prev = self.buf@;
                proof {
                    lemma_index_of(row as int, col as int);
                }
                self.buf.set(row * WIDTH + col, color);
                proof {
                    assert forall|i: int| 0 <= i < old_px.len() implies self.buf@[i] == (if (y
                        <= row_of(i) < row && x <= col_of(i) < x_end) || (row_of(i) == row && x
                        <= col_of(i) < col + 1) {
                        color
                    } else {
                        old_px[i]
                    }) by {
                        lemma_row_col(i);
                        if i != row * WIDTH + col {
                            assert(self.buf@[i] == prev[i]);
                        }
                    }
                }
                col = col + 1;
            }
            proof {
                assert forall|i: int| 0 <= i < old_px.len() implies self.buf@[i] == fill_box(
                    old_px,
                    x as int,
                    y as int,
                    x_end as int,
                    row + 1,
                    color,
                )[i] by {
                    lemma_row_col(i);
                }
            }
            row = row + 1;
        }
        proof {
            assert(self.buf@ =~= fill_box(old_px, x as int, y as int, x_end as int, y_end as int, color));
        }
    }

    /// Sets the pixel at signed coordinates, ignoring points off the panel
    /// (the per-pixel step of drawing through `DrawTarget::draw_iter`).
    pub fn draw_pixel(&mut self, x: i32, y: i32, color: u16)
        requires
            old(self).wf(),
        ensures
            final(self).wf(),
            final(self).pixels() == if 0 <= x < WIDTH && 0 <= y < HEIGHT {
                old(self).pixels().update(y * WIDTH + x, color)
            } else {
                old(self).pixels()
            },
            final(self).back_pixels() == old(self).back_pixels(),
    {
        if x >= 0 && x < WIDTH as i32 && y >= 0 && y < HEIGHT as i32 {
            self.buf.set(y as usize * WIDTH + x as usize, color);
        }
    }

    /// Fills `area` (top-left x, y, width, height), clipped to the panel,
    /// with one colour (`DrawTarget::fill_solid`).
    pub fn fill_solid(&mut self, area: (i32, i32, u32, u32), color: u16)
        requires
            old(self).wf(),
            rect_in_range(area),
        ensures
            final(self).wf(),
            ({
                let c = rectangle_intersection(area, screen_rect());
                final(self).pixels() == if c.2 == 0 || c.3 == 0 {
                    old(self).pixels()
                } else {
                    fill_box(old(self).pixels(), c.0 as int, c.1 as int, c.0 + c.2, c.1 + c.3, color)
                }
            }),
            final(self).back_pixels() == old(self).back_pixels(),
    {
        let c = intersect(area, (0, 0, WIDTH as u32, HEIGHT as u32));
        if c.2 == 0 || c.3 == 0 {
            return ;
        }
        self.fill_rect(c.0 as usize, c.1 as usize, c.2 as usize, c.3 as usize, color);
    }

    /// Writes a stream of colours into `area` (`DrawTarget::fill_contiguous`):
    /// colour `k` belongs to the `k`-th point of `area`, row after row, and
    /// is drawn when that point lies on the panel; the colours of points off
    /// the panel are skipped.
    pub fn fill_contiguous(&mut self, area: (i32, i32, u32, u32), colors: &[u16])
        requires
            old(self).wf(),
            rect_in_range(area),
        ensures
            final(self).wf(),
            final(self).pixels() == contiguous_fill(
                old(self).pixels(),
                area,
                rectangle_intersection(area, screen_rect()),
                colors@,
            ),
            final(self).back_pixels() == old(self).back_pixels(),
    {
        let c = intersect(area, (0, 0, WIDTH as u32, HEIGHT as u32));
        if c.2 == 0 || c.3 == 0 {
            proof {
                assert(self.buf@ =~= contiguous_fill(self.buf@, area, c, colors@));
            }
            return ;
        }
        let x = c.0 as usize;
        let y = c.1 as usize;
        let w = c.2 as usize;
        let h = c.3 as usize;
        assert(w * h <= WIDTH * HEIGHT) by (nonlinear_arith)
            requires
                w <= WIDTH,
                h <= HEIGHT,
        ;
        let n = w * h;
        let ghost old_px = self.buf@;
        let mut row = y;
        let mut col: usize = 0;
        let mut j: usize = 0;
        proof {
            lemma_fundamental_div_mod_converse(0, w as int, 0, 0);
            assert(self.buf@ =~= Seq::new(
                old_px.len(),
                |i: int|
                    if in_rect(i, c) && area_index(i, c) < 0 && area_index(i, area) < colors@.len() {
                        colors@[area_index(i, area)]
                    } else {
                        old_px[i]
                    },
            ));
        }
        while j < n
            invariant
                self.wf(),
                old_px == old(self).pixels(),
                self.back@ == old(self).back_pixels(),
                c == rectangle_intersection(area, screen_rect()),
                c.2 > 0 && c.3 > 0,
                rect_within(c, screen_rect()),
                rect_within(c, area),
                rect_in_range(area),
                x == c.0,
                y == c.1,
                w == c.2,
                h == c.3,
                n == w * h,
                j <= n,
                col == j as int % w as int,
                row == y + j as int / w as int,
                self.buf@ == Seq::new(
                    old_px.len(),
                    |i: int|
                        if in_rect(i, c) && area_index(i, c) < j && area_index(i, area) < colors@.len() {
                            colors@[area_index(i, area)]
                        } else {
                            old_px[i]
                        },
                ),
            decreases n - j,
        {
            let ghost prev = self.buf@;
            proof {
                lemma_fundamental_div_mod(j as int, w as int);
                let q = j as int / w as int;
                assert(q < h) by (nonlinear_arith)
                    requires
                        j == w * q + j as int % w as int,
                        j < w * h,
                        j as int % w as int >= 0,
                        w >= 1,
                ;
                assert(q >= 0) by (nonlinear_arith)
                    requires
                        j == w * q + j as int % w as int,
                        (j as int % w as int) < (w as int),
                        j >= 0,
                        w >= 1,
                ;
                lemma_index_of(row as int, x + col);
            }
            let dr: u64 = (row as i64 - area.1 as i64) as u64;
            let dc: u64 = ((x + col) as i64 - area.0 as i64) as u64;
            assert(dr * area.2 <= (area.3 - 1) * area.2) by (nonlinear_arith)
                requires
                    dr <= area.3 - 1,
            ;
            assert((area.3 - 1) * area.2 <= 0x7fff_ffff * 0x7fff_ffff) by (nonlinear_arith)
                requires
                    area.3 <= 0x7fff_ffff,
                    area.2 <= 0x7fff_ffff,
                    area.3 >= 1,
            ;
            let kk: u64 = dr * (area.2 as u64) + dc;
            let t: usize = row * WIDTH + x + col;
            proof {
                assert(area_index(t as int, area) == kk);
                assert(area_index(t as int, c) == j) by {
                    assert(area_index(t as int, c) == (j as int / w as int) * w + j as int % w as int);
                    assert((j as int / w as int) * w == w * (j as int / w as int)) by (nonlinear_arith);
                }
            }
            if kk < colors.len() as u64 {
                self.buf.set(t, colors[kk as usize]);
            }
            proof {
                assert forall|i: int| 0 <= i < old_px.len() implies self.buf@[i] == (if in_rect(i, c)
                    && area_index(i, c) < j + 1 && area_index(i, area) < colors@.len() {
                    colors@[area_index(i, area)]
                } else {
                    old_px[i]
                }) by {
                    lemma_row_col(i);
                    if in_rect(i, c) {
                        let ai = area_index(i, c);
                        lemma_area_index(i, c);
                        if ai == j {
                            lemma_fundamental_div_mod_converse(
                                j as int,
                                w as int,
                                row_of(i) - y,
                                col_of(i) - x,
                            );
                            assert(row_of(i) == row && col_of(i) == x + col);
                            assert(i == t);
                        } else {
                            assert(i != t);
                            assert(self.buf@[i] == prev[i]);
                        }
                    } else {
                        assert(i != t);
                    }
                }
                assert(self.buf@ =~= Seq::new(
                    old_px.len(),
                    |i: int|
                        if in_rect(i, c) && area_index(i, c) < j + 1 && area_index(i, area) < colors@.len() {
                            colors@[area_index(i, area)]
                        } else {
                            old_px[i]
                        },
                ));
            }
            col = col + 1;
            if col >= w {
                col = 0;
                row = row + 1;
            }
            proof {
                lemma_next_div_mod(j as int, w as int);
            }
            j = j + 1;
        }
        proof {
            assert forall|i: int| 0 <= i < old_px.len() && in_rect(i, c) implies area_index(i, c) < n by {
                lemma_row_col(i);
                let r = row_of(i) - y;
                let q = col_of(i) - x;
                assert(r * w + q < w * h) by (nonlinear_arith)
                    requires
                        0 <= r < h,
                        0 <= q < w,
                ;
            }
            assert(self.buf@ =~= contiguous_fill(old_px, area, c, colors@));
        }
    }

    /// The pixels that `flush_region` sends to the display: the requested
    /// region is clipped to the panel (`x`, `y` capped at the panel's size,
    /// width and height capped at what is left of it); `None` when nothing
    /// is left, else the clipped region and its pixels, row after row.
    pub fn flush_region_data(&self, x: usize, y: usize, width: usize, height: usize) -> (r:
        Option<((usize, usize, usize, usize), Vec<u16>)>)
        requires
            self.wf(),
        ensures
            ({
                let cx = min(x as int, WIDTH as int);
                let cy = min(y as int, HEIGHT as int);
                let cw = min(width as int, WIDTH - cx);
                let ch = min(height as int, HEIGHT - cy);
                if cw == 0 || ch == 0 {
                    r is None
                } else {
                    r matches Some((region, data)) && region == (cx as usize, cy as usize, cw as usize, ch as usize)
                        && data@.len() == cw * ch && forall|k: int|
                        0 <= k < cw * ch ==> #[trigger] data@[k] == self.pixels()[(cy + k / cw)
                            * WIDTH + cx + k % cw]
                }
            }),
    {
        let x = if x < WIDTH {
            x
        } else {
            WIDTH
        };
        let y = if y < HEIGHT {
            y
        } else {
            HEIGHT
        };
        let width = if width < WIDTH - x {
            width
        } else {
            WIDTH - x
        };
        let height = if height < HEIGHT - y {
            height
        } else {
            HEIGHT - y
        };
        if width == 0 || height == 0 {
            return None;
        }
        let mut data: Vec<u16> = Vec::new();
        let mut row = y;
        while row < y + height
            invariant
                self.wf(),
                x + width <= WIDTH,
                y + height <= HEIGHT,
                width > 0,
                y <= row <= y + height,
                data@.len() == (row - y) * width,
                forall|k: int|
                    0 <= k < data@.len() ==> #[trigger] data@[k] == self.pixels()[(y + k / width as int)
                        * WIDTH + x + k % width as int],
            decreases y + height - row,
        {
            let mut c = x;
            while c < x + width
                invariant
                    self.wf(),
                    x + width <= WIDTH,
                    y + height <= HEIGHT,
                    width > 0,
                    y <= row < y + height,
                    x <= c <= x + width,
                    data@.len() == (row - y) * width + (c - x),
                    forall|k: int|
                        0 <= k < data@.len() ==> #[trigger] data@[k] == self.pixels()[(y + k
                            / width as int) * WIDTH + x + k % width as int],
                decreases x + width - c,
            {
                proof {
                    lemma_fundamental_div_mod_converse(
                        data@.len() as int,
                        width as int,
                        row - y,
                        c - x,
                    );
                    lemma_index_of(row as int, c as int);
                    assert(row * WIDTH + c < PIXEL_COUNT) by (nonlinear_arith)
                        requires
                            row < HEIGHT,
                            c < WIDTH,
                    ;
                }
                data.push(self.buf[row * WIDTH + c]);
                c = c + 1;
            }
            proof {
                assert((row - y) * width + width == (row + 1 - y) * width) by (nonlinear_arith);
            }
            row = row + 1;
        }
        proof {
            assert(data@.len() == height * width) by (nonlinear_arith)
                requires
                    data@.len() == (row - y) * width,
                    row == y + height,
            ;
            assert(height * width == width * height) by (nonlinear_arith);
            assert(data@.len() == width * height);
        }
        Some(((x, y, width, height), data))
    }
}

} // verus!
