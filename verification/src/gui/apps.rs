//! GUI/APPS: the big app launcher, one app icon per page; swiping up and
//! down scrolls between applications.

use vstd::prelude::*;
use crate::gt911::SwipeDirection;
use super::copy_row_block;
use crate::state::{LCD_HEIGHT, LCD_WIDTH};
use crate::time::trunc_div;

verus! {

pub const PAGE_HEIGHT: i32 = 240;

// LAUNCHER STATE
pub struct Launcher {
    pub scroll_offset: i32,
    pub target_scroll: i32,
}

// SWIPE UP === NEXT APP, SWIPE DOWN === PREVIOUS APP.
/// Moves the scroll target one page up or down among `total` apps,
/// within the first and the last page; sideways swipes change nothing.
pub fn handle_swipe(launcher: &mut Launcher, dir: SwipeDirection, total: usize)
    requires
        total == 0 || (total - 1) * PAGE_HEIGHT <= i32::MAX,
        total > 0 && dir == SwipeDirection::Up ==> old(launcher).target_scroll <= i32::MAX - PAGE_HEIGHT,
        total > 0 && dir == SwipeDirection::Down ==> old(launcher).target_scroll >= i32::MIN + PAGE_HEIGHT,
    ensures
        final(launcher).scroll_offset == old(launcher).scroll_offset,
        final(launcher).target_scroll == if total == 0 {
            old(launcher).target_scroll as int
        } else {
            match dir {
                SwipeDirection::Up => crate::framebuffer::min(
                    old(launcher).target_scroll + PAGE_HEIGHT,
                    (total - 1) * PAGE_HEIGHT,
                ),
                SwipeDirection::Down => if old(launcher).target_scroll - PAGE_HEIGHT > 0 {
                    old(launcher).target_scroll - PAGE_HEIGHT
                } else {
                    0
                },
                _ => old(launcher).target_scroll as int,
            }
        },
{
    if total == 0 {
        return ;
    }
    let max_scroll = (total - 1) as i32 * PAGE_HEIGHT;
    match dir {
        SwipeDirection::Up => {
            let t = launcher.target_scroll + PAGE_HEIGHT;
            launcher.target_scroll = if t < max_scroll {
                t
            } else {
                max_scroll
            };
        },
        SwipeDirection::Down => {
            let t = launcher.target_scroll - PAGE_HEIGHT;
            launcher.target_scroll = if t > 0 {
                t
            } else {
                0
            };
        },
        _ => {},
    }
}

/// The app that a double tap launches: the page currently shown (scroll
/// offset divided by the page height, rounded toward zero), kept within
/// `0..total`; `None` when there are no apps.
pub fn handle_double_tap(launcher: &Launcher, total: usize) -> (r: Option<usize>)
    requires
        total <= i32::MAX,
    ensures
        total == 0 ==> r is None,
        total > 0 ==> r == Some(clamp_page(crate::time::trunc_div(launcher.scroll_offset as int, PAGE_HEIGHT as int), total as int) as usize),
{
    if total == 0 {
        return None;
    }
    let page = launcher.scroll_offset / PAGE_HEIGHT;
    let last = (total - 1) as i32;
    let idx = if page < 0 {
        0
    } else if page > last {
        last
    } else {
        page
    };
    Some(idx as usize)
}

pub open spec fn clamp_page(page: int, total: int) -> int {
    if page < 0 {
        0
    } else if page > total - 1 {
        total - 1
    } else {
        page
    }
}

/// Two reusable full-screen page buffers and the app index that each
/// currently holds (-1 when none); `evict_slot` is the buffer that the
/// next missing page is rendered into.
pub struct PageBufferCache {
    pub buffer0: Vec<u16>,
    pub buffer1: Vec<u16>,
    pub indices: [i32; 2],
    pub evict_slot: usize,
}

impl PageBufferCache {
    /// Both buffers hold `pixels` values and the eviction slot is 0 or 1.
    pub open spec fn wf(&self, pixels: nat) -> bool {
        self.buffer0@.len() == pixels && self.buffer1@.len() == pixels && self.evict_slot < 2
    }

    pub fn new(screen_pixels: usize) -> (r: Self)
        ensures
            r.wf(screen_pixels as nat),
            r.indices@ == seq![-1i32, -1i32],
            r.evict_slot == 0,
    {
        PageBufferCache {
            buffer0: vec![0u16; screen_pixels],
            buffer1: vec![0u16; screen_pixels],
            indices: [-1, -1],
            evict_slot: 0,
        }
    }

    /// Finds the buffer that holds page `idx` of `total`: `None` for a
    /// page that does not exist, `(slot, false)` when a buffer already
    /// holds it, else `(slot, true)` for the eviction slot, which is now
    /// assigned to `idx` and must be rendered; the next eviction then takes
    /// the other slot.
    pub fn ensure_page(&mut self, idx: i32, total: usize) -> (r: Option<(usize, bool)>)
        requires
            old(self).wf(old(self).buffer0@.len()),
        ensures
            final(self).wf(old(self).buffer0@.len()),
            final(self).buffer0 == old(self).buffer0,
            final(self).buffer1 == old(self).buffer1,
            (idx < 0 || idx >= total) ==> r is None && *final(self) == *old(self),
            (0 <= idx < total && old(self).indices[0] == idx) ==> r == Some((0usize, false)) && *final(self) == *old(self),
            (0 <= idx < total && old(self).indices[0] != idx && old(self).indices[1] == idx) ==> r == Some((1usize, false)) && *final(self) == *old(self),
            (0 <= idx < total && old(self).indices[0] != idx && old(self).indices[1] != idx) ==> r == Some((old(self).evict_slot, true))
                && final(self).indices@ == old(self).indices@.update(old(self).evict_slot as int, idx)
                && final(self).evict_slot == (old(self).evict_slot + 1) % 2,
    {
        if idx < 0 || idx as usize >= total {
            return None;
        }
        if self.indices[0] == idx {
            return Some((0, false));
        }
        if self.indices[1] == idx {
            return Some((1, false));
        }
        let slot = self.evict_slot;
        self.indices[slot] = idx;
        self.evict_slot = (slot + 1) % 2;
        Some((slot, true))
    }
}

/// `dest` after `copy_rows`: whole rows from `src_y_start` on are copied
/// to rows `dest_y_offset` on, as many as `height` allows before either
/// side passes row `screen_h`.
pub open spec fn copy_rows_result(dest: Seq<u16>, src: Seq<u16>, src_y_start: int, height: int, dest_y_offset: int, screen_w: int, screen_h: int) -> Seq<u16> {
    let rows = crate::framebuffer::min(
        height,
        crate::framebuffer::min(screen_h - src_y_start, screen_h - dest_y_offset),
    );
    if rows <= 0 {
        dest
    } else {
        super::rows_copied(dest, dest_y_offset, src, src_y_start, rows, screen_w)
    }
}

// ROW COPY HELPER
pub fn copy_rows(
    dest: &mut [u16],
    src: &[u16],
    src_y_start: usize,
    height: usize,
    dest_y_offset: usize,
    screen_w: usize,
    screen_h: usize,
)
    requires
        screen_w * screen_h <= old(dest)@.len(),
        screen_w * screen_h <= src@.len(),
    ensures
        final(dest)@ == copy_rows_result(old(dest)@, src@, src_y_start as int, height as int, dest_y_offset as int, screen_w as int, screen_h as int),
{
    if src_y_start >= screen_h || dest_y_offset >= screen_h {
        return ;
    }
    let a = screen_h - src_y_start;
    let b = screen_h - dest_y_offset;
    let m = if a < b {
        a
    } else {
        b
    };
    let rows = if height < m {
        height
    } else {
        m
    };
    if rows == 0 {
        return ;
    }
    proof {
        assert((dest_y_offset + rows) * screen_w <= screen_h * screen_w) by (nonlinear_arith)
            requires
                dest_y_offset + rows <= screen_h,
        ;
        assert((src_y_start + rows) * screen_w <= screen_h * screen_w) by (nonlinear_arith)
            requires
                src_y_start + rows <= screen_h,
        ;
        assert(screen_h * screen_w == screen_w * screen_h) by (nonlinear_arith);
    }
    copy_row_block(dest, dest_y_offset, src, src_y_start, rows, screen_w);
}

/// Every cached buffer holds the rendered page of the app index it is
/// marked with.
pub open spec fn cache_coherent(cache: &PageBufferCache, pages: Seq<Seq<u16>>) -> bool {
    &&& cache.indices[0] >= 0 ==> cache.indices[0] < pages.len() && cache.buffer0@ == pages[cache.indices[0] as int]
    &&& cache.indices[1] >= 0 ==> cache.indices[1] < pages.len() && cache.buffer1@ == pages[cache.indices[1] as int]
}

/// The rendered pages, as sequences of pixels.
pub open spec fn page_views(pages: Seq<Vec<u16>>) -> Seq<Seq<u16>> {
    pages.map_values(|v: Vec<u16>| v@)
}

/// Every rendered page fills the panel.
pub open spec fn pages_fill_panel(pages: Seq<Vec<u16>>) -> bool {
    forall|k: int| 0 <= k < pages.len() ==> (#[trigger] pages[k])@.len() == LCD_WIDTH * LCD_HEIGHT
}

fn copy_all(dst: &mut [u16], src: &[u16])
    requires
        old(dst)@.len() == src@.len(),
    ensures
        final(dst)@ == src@,
{
    let n = src.len();
    let mut i: usize = 0;
    while i < n
        invariant
            n == src@.len(),
            dst@.len() == n,
            i <= n,
            forall|j: int| 0 <= j < i ==> #[trigger] dst@[j] == src@[j],
        decreases n - i,
    {
        dst[i] = src[i];
        i = i + 1;
    }
    assert(dst@ =~= src@);
}

impl PageBufferCache {
    /// Gets the buffer that shows page `idx`, rendering the page into the
    /// eviction slot (a copy of `pages[idx]`) when no buffer holds it yet.
    /// `None` for a page that does not exist; the slot and the bookkeeping
    /// are those of `ensure_page`.
    pub fn fetch_page(&mut self, idx: i32, pages: &[Vec<u16>]) -> (r: Option<usize>)
        requires
            old(self).wf((LCD_WIDTH * LCD_HEIGHT) as nat),
            pages_fill_panel(pages@),
            cache_coherent(old(self), page_views(pages@)),
        ensures
            final(self).wf((LCD_WIDTH * LCD_HEIGHT) as nat),
            cache_coherent(final(self), page_views(pages@)),
            (idx < 0 || idx >= pages@.len()) ==> r is None && *final(self) == *old(self),
            0 <= idx < pages@.len() ==> (r matches Some(slot) && slot < 2 && (if slot == 0 {
                final(self).buffer0@
            } else {
                final(self).buffer1@
            }) == pages@[idx as int]@),
            0 <= idx < pages@.len() ==> final(self).indices@ == (if old(self).indices[0] == idx
                || old(self).indices[1] == idx {
                old(self).indices@
            } else {
                old(self).indices@.update(old(self).evict_slot as int, idx)
            }),
    {
        let total = pages.len();
        match self.ensure_page(idx, total) {
            None => None,
            Some((slot, fresh)) => {
                if fresh {
                    let page = &pages[idx as usize];
                    if slot == 0 {
                        copy_all(self.buffer0.as_mut_slice(), page.as_slice());
                    } else {
                        copy_all(self.buffer1.as_mut_slice(), page.as_slice());
                    }
                }
                Some(slot)
            },
        }
    }
}

/// The launcher frame at `scroll_offset`, given the rendered pages: black,
/// then the current page from row `progress` on at the top, and, while
/// scrolling, the next page's first `progress` rows below it. An offset
/// above the first page shows no page.
pub open spec fn composed_frame(old_len: nat, pages: Seq<Seq<u16>>, scroll_offset: int) -> Seq<u16> {
    let w = LCD_WIDTH as int;
    let h = LCD_HEIGHT as int;
    let blank = Seq::new(old_len, |i: int| 0u16);
    let current = scroll_offset / h;
    let progress = scroll_offset % h;
    if pages.len() == 0 || scroll_offset < 0 {
        blank
    } else {
        let a = if current < pages.len() {
            copy_rows_result(blank, pages[current], progress, h - progress, 0, w, h)
        } else {
            blank
        };
        if progress > 0 && current + 1 < pages.len() {
            copy_rows_result(a, pages[current + 1], 0, progress, h - progress, w, h)
        } else {
            a
        }
    }
}

// FRAME COMPOSITION (SCROLLING VIEW)
/// Composes the launcher frame into `buf` from the page cache, rendering
/// missing pages from `pages`; the result is exactly `composed_frame`, so
/// the cache never changes what is shown.
pub fn compose(buf: &mut [u16], scroll_offset: i32, cache: &mut PageBufferCache, pages: &[Vec<u16>])
    requires
        scroll_offset >= 0 || scroll_offset <= -(LCD_HEIGHT as int),
        LCD_WIDTH * LCD_HEIGHT <= old(buf)@.len(),
        old(cache).wf((LCD_WIDTH * LCD_HEIGHT) as nat),
        pages_fill_panel(pages@),
        cache_coherent(old(cache), page_views(pages@)),
    ensures
        final(buf)@ == composed_frame(old(buf)@.len(), page_views(pages@), scroll_offset as int),
        final(cache).wf((LCD_WIDTH * LCD_HEIGHT) as nat),
        cache_coherent(final(cache), page_views(pages@)),
{
    let ghost views = page_views(pages@);
    let total = pages.len();
    super::fill_buffer(buf, 0);
    if total == 0 {
        return ;
    }
    let screen_w = LCD_WIDTH as usize;
    let screen_h = LCD_HEIGHT as usize;
    let page_h = screen_h as i32;
    let current_page = scroll_offset / page_h;
    let progress = scroll_offset % page_h;
    let ghost blank = buf@;
    match cache.fetch_page(current_page, pages) {
        Some(slot) => {
            if slot == 0 {
                copy_rows(buf, cache.buffer0.as_slice(), progress as usize, screen_h - progress as usize, 0, screen_w, screen_h);
            } else {
                copy_rows(buf, cache.buffer1.as_slice(), progress as usize, screen_h - progress as usize, 0, screen_w, screen_h);
            }
        },
        None => {},
    }
    if progress > 0 {
        let next_page = current_page + 1;
        match cache.fetch_page(next_page, pages) {
            Some(slot) => {
                if slot == 0 {
                    copy_rows(buf, cache.buffer0.as_slice(), 0, progress as usize, screen_h - progress as usize, screen_w, screen_h);
                } else {
                    copy_rows(buf, cache.buffer1.as_slice(), 0, progress as usize, screen_h - progress as usize, screen_w, screen_h);
                }
            },
            None => {},
        }
    }
    proof {
        assert(views.len() == pages@.len());
    }
}

/// The largest whole factor, at least 1, by which an icon `icon_h` pixels
/// tall (at least 1 counted) fits in `target_h` rows.
pub open spec fn icon_scale(target_h: int, icon_h: int) -> int {
    let q = trunc_div(target_h, if icon_h > 1 { icon_h } else { 1 });
    if q > 1 { q } else { 1 }
}

/// Placement of an app page's icon: scaled by the largest whole factor (at
/// least 1) that keeps it no taller than `target_h`, and centred on the
/// panel. Returns the factor and the top left corner.
pub fn page_icon_placement(screen_w: i32, screen_h: i32, icon_w: i32, icon_h: i32, target_h: i32) -> (r: (i32, i32, i32))
    requires
        ({
            let scale = icon_scale(target_h as int, icon_h as int);
            &&& i32::MIN <= icon_w * scale <= i32::MAX
            &&& i32::MIN <= icon_h * scale <= i32::MAX
            &&& i32::MIN <= screen_w - icon_w * scale <= i32::MAX
            &&& i32::MIN <= screen_h - icon_h * scale <= i32::MAX
        }),
    ensures
        ({
            let scale = icon_scale(target_h as int, icon_h as int);
            &&& r.0 == scale
            &&& r.1 == trunc_div(screen_w - icon_w * scale, 2)
            &&& r.2 == trunc_div(screen_h - icon_h * scale, 2)
        }),
{
    let d = if icon_h > 1 {
        icon_h
    } else {
        1
    };
    let q = target_h / d;
    let scale = if q > 1 {
        q
    } else {
        1
    };
    let scaled_w = icon_w * scale;
    let scaled_h = icon_h * scale;
    ((scale), (screen_w - scaled_w) / 2, (screen_h - scaled_h) / 2)
}

} // verus!
