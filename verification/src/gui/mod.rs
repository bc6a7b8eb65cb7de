//! User-interface logic: the app launcher and the Wi-Fi signal page, and
//! the pixel-block copies they compose their frames with.

use vstd::prelude::*;

pub mod apps;
pub mod rssi;

verus! {

/// `dest` after copying `rows` whole rows of width `w` from `src`,
/// starting at row `src_row` of `src`, to rows `dest_row..` of `dest`.
pub open spec fn rows_copied(dest: Seq<u16>, dest_row: int, src: Seq<u16>, src_row: int, rows: int, w: int) -> Seq<u16> {
    Seq::new(
        dest.len(),
        |i: int|
            if dest_row * w <= i < (dest_row + rows) * w {
                src[i - dest_row * w + src_row * w]
            } else {
                dest[i]
            },
    )
}

/// Copies `rows` rows of width `w` from `src` (from row `src_row` on) to
/// `dest` (from row `dest_row` on).
pub fn copy_row_block(dest: &mut [u16], dest_row: usize, src: &[u16], src_row: usize, rows: usize, w: usize)
    requires
        (dest_row + rows) * w <= old(dest)@.len(),
        (src_row + rows) * w <= src@.len(),
    ensures
        final(dest)@ == rows_copied(old(dest)@, dest_row as int, src@, src_row as int, rows as int, w as int),
{
    let ghost d0 = dest@;
    let dl = dest.len();
    let sl = src.len();
    proof {
        assert((dest_row + rows) * w == dest_row * w + rows * w) by (nonlinear_arith);
        assert((src_row + rows) * w == src_row * w + rows * w) by (nonlinear_arith);
        assert(rows * w >= 0) by (nonlinear_arith);
        assert(dest_row * w >= 0) by (nonlinear_arith);
        assert(src_row * w >= 0) by (nonlinear_arith);
    }
    let start = dest_row * w;
    let n = rows * w;
    let from = src_row * w;
    let mut k: usize = 0;
    while k < n
        invariant
            start == dest_row * w,
            from == src_row * w,
            n == rows * w,
            start + n <= d0.len(),
            d0.len() == dl,
            src@.len() == sl,
            from + n <= src@.len(),
            dest@.len() == d0.len(),
            k <= n,
            forall|i: int| 0 <= i < dest@.len() ==> #[trigger] dest@[i] == if start <= i < start + k {
                src@[i - start + from]
            } else {
                d0[i]
            },
        decreases n - k,
    {
        dest[start + k] = src[from + k];
        k = k + 1;
    }
    proof {
        assert((dest_row + rows) * w == dest_row * w + rows * w) by (nonlinear_arith);
        assert(dest@ =~= rows_copied(d0, dest_row as int, src@, src_row as int, rows as int, w as int));
    }
}

/// Paints every pixel of `buf` with `raw` (a draw target's `clear`).
pub fn fill_buffer(buf: &mut [u16], raw: u16)
    ensures
        final(buf)@ == Seq::new(old(buf)@.len(), |i: int| raw),
{
    let n = buf.len();
    let mut i: usize = 0;
    while i < n
        invariant
            n == buf@.len(),
            i <= n,
            forall|j: int| 0 <= j < i ==> #[trigger] buf@[j] == raw,
        decreases n - i,
    {
        buf[i] = raw;
        i = i + 1;
    }
    assert(buf@ =~= Seq::new(old(buf)@.len(), |i: int| raw));
}

/// Sets the pixel at (`x`, `y`) of a `width` x `height` buffer, row after
/// row; points off the buffer are ignored.
pub fn put_pixel(buf: &mut [u16], width: usize, height: usize, x: i32, y: i32, raw: u16)
    requires
        width * height <= old(buf)@.len(),
    ensures
        final(buf)@ == if 0 <= x < width && 0 <= y < height {
            old(buf)@.update(y * width + x, raw)
        } else {
            old(buf)@
        },
{
    let _len = buf.len();
    if x >= 0 && (x as usize) < width && y >= 0 && (y as usize) < height {
        proof {
            assert((y as usize) * width + (x as usize) < width * height) by (nonlinear_arith)
                requires
                    (x as usize) < width,
                    (y as usize) < height,
            ;
        }
        buf[(y as usize) * width + (x as usize)] = raw;
    }
}

/// The colour that an icon of `img_w` x `img_h` pixels, each scaled up to a
/// `scale` x `scale` block with its top left corner at (`x`, `y`), puts on
/// the panel pixel at (`row`, `col`): the colour of the icon pixel over it,
/// or `tint` in its place where one is given; nothing where the icon pixel
/// is transparent, outside the icon, or in a block that starts above the
/// panel's top edge.
pub open spec fn icon_pixel(
    pixels: Seq<Option<u16>>,
    img_w: int,
    img_h: int,
    scale: int,
    x: int,
    y: int,
    tint: Option<u16>,
    row: int,
    col: int,
) -> Option<u16> {
    let u = col - x;
    let v = row - y;
    if 0 <= u < img_w * scale && 0 <= v < img_h * scale && y + (v / scale) * scale >= 0 {
        match pixels[(v / scale) * img_w + u / scale] {
            Some(c) => Some(
                match tint {
                    Some(t) => t,
                    None => c,
                },
            ),
            None => None,
        }
    } else {
        None
    }
}

/// A `w` x `h` panel (row after row in `old`) with the scaled icon drawn
/// over it.
pub open spec fn blit_result(
    old: Seq<u16>,
    pixels: Seq<Option<u16>>,
    img_w: int,
    img_h: int,
    scale: int,
    x: int,
    y: int,
    tint: Option<u16>,
    w: int,
    h: int,
) -> Seq<u16> {
    Seq::new(
        old.len(),
        |i: int|
            if w > 0 && 0 <= i < w * h {
                match icon_pixel(pixels, img_w, img_h, scale, x, y, tint, i / w, i % w) {
                    Some(c) => c,
                    None => old[i],
                }
            } else {
                old[i]
            },
    )
}

proof fn lemma_quotient_below(v: int, s: int, n: int)
    requires
        s > 0,
        0 <= v < n * s,
    ensures
        0 <= v / s < n,
{
    vstd::arithmetic::div_mod::lemma_fundamental_div_mod(v, s);
    assert(0 <= v / s < n) by (nonlinear_arith)
        requires
            s > 0,
            0 <= v < n * s,
            v == s * (v / s) + v % s,
            0 <= v % s < s,
    ;
}

/// Draws an icon scaled up by `scale` with its top left corner at
/// (`x`, `y`) onto a `screen_w` x `screen_h` panel: every opaque icon pixel
/// becomes a `scale` x `scale` block of its colour (or of `tint`), clipped
/// to the panel; blocks that start above the panel's top edge are left out.
pub fn blit_scaled_icon(
    dest: &mut [u16],
    screen_w: usize,
    screen_h: usize,
    pixels: &[Option<u16>],
    img_w: i32,
    img_h: i32,
    scale: i32,
    x: i32,
    y: i32,
    tint: Option<u16>,
)
    requires
        screen_w * screen_h <= old(dest)@.len(),
        screen_w <= i32::MAX,
        screen_h <= i32::MAX,
        img_w >= 0,
        img_h >= 0,
        scale >= 1,
        img_w * img_h <= pixels@.len(),
        img_w * scale <= i32::MAX,
        img_h * scale <= i32::MAX,
    ensures
        final(dest)@ == blit_result(
            old(dest)@,
            pixels@,
            img_w as int,
            img_h as int,
            scale as int,
            x as int,
            y as int,
            tint,
            screen_w as int,
            screen_h as int,
        ),
{
    let ghost d0 = dest@;
    let ghost target = blit_result(
        d0,
        pixels@,
        img_w as int,
        img_h as int,
        scale as int,
        x as int,
        y as int,
        tint,
        screen_w as int,
        screen_h as int,
    );
    let _len = dest.len();
    if screen_w == 0 {
        proof {
            assert(dest@ =~= target);
        }
        return ;
    }
    let n = screen_w * screen_h;
    let iw = img_w as i64;
    let ih = img_h as i64;
    let sc = scale as i64;
    let mut i: usize = 0;
    while i < n
        invariant
            n == screen_w * screen_h,
            n <= d0.len(),
            screen_w > 0,
            screen_w <= i32::MAX,
            screen_h <= i32::MAX,
            dest@.len() == d0.len(),
            d0.len() == _len,
            iw == img_w,
            ih == img_h,
            sc == scale,
            img_w >= 0,
            img_h >= 0,
            scale >= 1,
            img_w * img_h <= pixels@.len(),
            img_w * scale <= i32::MAX,
            img_h * scale <= i32::MAX,
            i <= n,
            target == blit_result(
                d0,
                pixels@,
                img_w as int,
                img_h as int,
                scale as int,
                x as int,
                y as int,
                tint,
                screen_w as int,
                screen_h as int,
            ),
            forall|j: int| 0 <= j < i ==> #[trigger] dest@[j] == target[j],
            forall|j: int| i <= j < dest@.len() ==> #[trigger] dest@[j] == d0[j],
        decreases n - i,
    {
        let row = i / screen_w;
        let col = i % screen_w;
        proof {
            assert(row < screen_h) by (nonlinear_arith)
                requires
                    row == i / screen_w,
                    i < screen_w * screen_h,
                    screen_w > 0,
            ;
        }
        let u: i64 = col as i64 - x as i64;
        let v: i64 = row as i64 - y as i64;
        let ghost want = icon_pixel(
            pixels@,
            img_w as int,
            img_h as int,
            scale as int,
            x as int,
            y as int,
            tint,
            row as int,
            col as int,
        );
        if 0 <= u && u < iw * sc && 0 <= v && v < ih * sc {
            let sy = v / sc;
            let sx = u / sc;
            proof {
                lemma_quotient_below(v as int, sc as int, ih as int);
                lemma_quotient_below(u as int, sc as int, iw as int);
                assert(0 <= sy * iw <= (ih - 1) * iw) by (nonlinear_arith)
                    requires
                        0 <= sy < ih,
                        0 <= iw,
                ;
                assert((ih - 1) * iw + iw == iw * ih) by (nonlinear_arith);
                assert(iw * ih <= 0x7fff_ffff * 0x7fff_ffff) by (nonlinear_arith)
                    requires
                        0 <= iw <= 0x7fff_ffff,
                        0 <= ih <= 0x7fff_ffff,
                ;
                assert(sy * iw + sx < iw * ih);
                assert(iw * ih == img_w * img_h);
                assert(sy * sc <= v) by (nonlinear_arith)
                    requires
                        sy == v / sc,
                        sc > 0,
                        v >= 0,
                ;
            }
            if (y as i64) + sy * sc >= 0 {
                let idx = (sy * iw + sx) as usize;
                match pixels[idx] {
                    Some(c) => {
                        let value = match tint {
                            Some(t) => t,
                            None => c,
                        };
                        dest[i] = value;
                    },
                    None => {},
                }
            }
        }
        proof {
            assert(dest@[i as int] == target[i as int]);
        }
        i = i + 1;
    }
    proof {
        assert forall|j: int| 0 <= j < dest@.len() implies #[trigger] dest@[j] == target[j] by {
            if j >= n {
                assert(!(screen_w > 0 && 0 <= j < screen_w * screen_h));
            }
        }
        assert(dest@ =~= target);
    }
}

} // verus!
