//! GUI/OPTIONS/RSSI: the Wi-Fi signal strength page. A scan splits the
//! view open and shows the scanned networks in the gap.

use vstd::prelude::*;
use crate::framebuffer::{Framebuffer, min};
use crate::gt911::SwipeDirection;
use crate::state::{LCD_HEIGHT, LCD_WIDTH};
use super::{rows_copied, copy_row_block};

verus! {

pub const SCAN_LIST_LINE_HEIGHT: i32 = 80;
pub const SCAN_LIST_MARGIN: i32 = 20;
pub const SCAN_LIST_BUFFER_HEIGHT: usize = 1000;
/// Pixels that the split and the list move per frame.
pub const ANIM_SPEED: i32 = 8;
/// Pixels that one swipe scrolls the list by.
pub const SCROLL_STEP: i32 = 70;
pub const TEAL_BRIGHT: u16 = 0x07FF;
pub const TEAL_DARK: u16 = 0x020F;
pub const GLOW_HALF_THICKNESS: i32 = 2;

/// How far the split opens: half the panel's height.
pub open spec fn split_open_offset() -> int {
    LCD_HEIGHT as int / 2
}

pub open spec fn clamp(v: int, lo: int, hi: int) -> int {
    if v < lo {
        lo
    } else if v > hi {
        hi
    } else {
        v
    }
}

/// One animation step: `current` moves toward `target` by at most `speed`.
pub open spec fn step_toward(current: int, target: int, speed: int) -> int {
    current + clamp(target - current, -speed, speed)
}

/// `n` animation steps in a row.
pub open spec fn steps_toward(current: int, target: int, speed: int, n: nat) -> int
    decreases n,
{
    if n == 0 {
        current
    } else {
        steps_toward(step_toward(current, target, speed), target, speed, (n - 1) as nat)
    }
}

fn approach(current: i32, target: i32, speed: i32) -> (r: i32)
    requires
        speed >= 0,
        i32::MIN <= target - current <= i32::MAX,
    ensures
        r == step_toward(current as int, target as int, speed as int),
{
    let diff = target - current;
    if diff != 0 {
        let step = if diff < -speed {
            -speed
        } else if diff > speed {
            speed
        } else {
            diff
        };
        current + step
    } else {
        current
    }
}

/// A step never overshoots: the distance to the target shrinks by at most
/// `speed`, keeps its sign, and is gone once it was at most `speed`.
pub proof fn lemma_step_toward_no_overshoot(current: int, target: int, speed: int)
    requires
        speed >= 0,
    ensures
        ({
            let next = step_toward(current, target, speed);
            &&& current <= target ==> current <= next <= target
            &&& target <= current ==> target <= next <= current
            &&& (target - current <= speed && current - target <= speed) ==> next == target
            &&& (target - current > speed) ==> next == current + speed
            &&& (current - target > speed) ==> next == current - speed
        }),
{
}

/// Repeated steps reach the target: after `n` frames at `speed > 0` the
/// animation has arrived whenever `n * speed` covers the distance.
pub proof fn lemma_steps_reach_target(current: int, target: int, speed: int, n: nat)
    requires
        speed > 0,
        n * speed >= target - current,
        n * speed >= current - target,
    ensures
        steps_toward(current, target, speed, n) == target,
    decreases n,
{
    if n > 0 {
        let next = step_toward(current, target, speed);
        assert((n - 1) * speed == n * speed - speed) by (nonlinear_arith);
        lemma_steps_reach_target(next, target, speed, (n - 1) as nat);
    } else {
        assert(n * speed == 0) by (nonlinear_arith)
            requires
                n == 0,
        ;
    }
}

// SPLIT ANIMATION STATE
pub struct RssiSplit {
    pub target_offset: i32,
    pub current_offset: i32,
}

impl RssiSplit {
    /// Both offsets lie between closed (0) and fully open.
    pub open spec fn wf(&self) -> bool {
        0 <= self.target_offset <= split_open_offset() && 0 <= self.current_offset
            <= split_open_offset()
    }

    /// The split starts closed.
    pub fn new() -> (r: Self)
        ensures
            r.target_offset == 0,
            r.current_offset == 0,
            r.wf(),
    {
        RssiSplit { target_offset: 0, current_offset: 0 }
    }
}

/// Starts opening the split: its target becomes half the panel's height.
pub fn open_split(split: &mut RssiSplit)
    ensures
        final(split).target_offset == split_open_offset(),
        final(split).current_offset == old(split).current_offset,
        old(split).wf() ==> final(split).wf(),
{
    split.target_offset = LCD_HEIGHT as i32 / 2;
}

/// Starts closing the split.
pub fn close_split(split: &mut RssiSplit)
    ensures
        final(split).target_offset == 0,
        final(split).current_offset == old(split).current_offset,
        old(split).wf() ==> final(split).wf(),
{
    split.target_offset = 0;
}

/// Moves the split one frame toward its target, by at most `anim_speed`.
pub fn animate_split(split: &mut RssiSplit, anim_speed: i32)
    requires
        anim_speed >= 0,
        i32::MIN <= old(split).target_offset - old(split).current_offset <= i32::MAX,
    ensures
        final(split).target_offset == old(split).target_offset,
        final(split).current_offset == step_toward(
            old(split).current_offset as int,
            old(split).target_offset as int,
            anim_speed as int,
        ),
        old(split).wf() ==> final(split).wf(),
{
    split.current_offset = approach(split.current_offset, split.target_offset, anim_speed);
}

/// The split counts as open while it is not fully closed.
pub fn is_split_open(split: &RssiSplit) -> (r: bool)
    ensures
        r == (split.current_offset > 0),
{
    split.current_offset > 0
}

// SCROLLING STATE
pub struct RssiScroll {
    pub offset: i32,
    pub target: i32,
    pub max_scroll: i32,
}

impl RssiScroll {
    /// The list starts at its top, with nothing to scroll.
    pub fn new() -> (r: Self)
        ensures
            r.offset == 0 && r.target == 0 && r.max_scroll == 0,
    {
        RssiScroll { offset: 0, target: 0, max_scroll: 0 }
    }
}

/// Moves the list one frame toward its scroll target, by at most `speed`.
pub fn animate_scroll(scroll: &mut RssiScroll, speed: i32)
    requires
        speed >= 0,
        i32::MIN <= old(scroll).target - old(scroll).offset <= i32::MAX,
    ensures
        final(scroll).target == old(scroll).target,
        final(scroll).max_scroll == old(scroll).max_scroll,
        final(scroll).offset == step_toward(
            old(scroll).offset as int,
            old(scroll).target as int,
            speed as int,
        ),
{
    scroll.offset = approach(scroll.offset, scroll.target, speed);
}

// SWIPE HANDLING (SCROLL THE LIST WHEN SPLIT IS OPEN)
/// While the split is open, a swipe up moves the scroll target one step
/// down the list (up to `max_scroll`) and a swipe down one step back (down
/// to 0); otherwise nothing changes.
pub fn handle_swipe(split: &RssiSplit, scroll: &mut RssiScroll, dir: SwipeDirection)
    requires
        split.current_offset > 0 && dir == SwipeDirection::Up ==> old(scroll).target <= i32::MAX - SCROLL_STEP,
        split.current_offset > 0 && dir == SwipeDirection::Down ==> i32::MIN + SCROLL_STEP <= old(scroll).target,
    ensures
        final(scroll).offset == old(scroll).offset,
        final(scroll).max_scroll == old(scroll).max_scroll,
        final(scroll).target == if split.current_offset <= 0 {
            old(scroll).target as int
        } else {
            match dir {
                SwipeDirection::Up => min(
                    old(scroll).target + SCROLL_STEP,
                    old(scroll).max_scroll as int,
                ),
                SwipeDirection::Down => if old(scroll).target - SCROLL_STEP > 0 {
                    old(scroll).target - SCROLL_STEP
                } else {
                    0
                },
                _ => old(scroll).target as int,
            }
        },
{
    if !is_split_open(split) {
        return ;
    }
    let step = SCROLL_STEP;
    match dir {
        SwipeDirection::Up => {
            let t = scroll.target + step;
            scroll.target = if t < scroll.max_scroll {
                t
            } else {
                scroll.max_scroll
            };
        },
        SwipeDirection::Down => {
            let t = scroll.target - step;
            scroll.target = if t > 0 {
                t
            } else {
                0
            };
        },
        _ => {},
    }
}

// CACHED SCAN RESULTS
/// The rendered scan list and whether it must be rendered again.
pub struct ScanListCache {
    pub dirty: bool,
    pub list: Option<Vec<u16>>,
}

impl ScanListCache {
    /// Nothing is rendered yet, so the cache starts dirty.
    pub fn new() -> (r: Self)
        ensures
            r.dirty,
            r.list is None,
    {
        ScanListCache { dirty: true, list: None }
    }
}

// AFTER A NEW SCAN, WE MARK THE LIST DIRTY SO IT WILL BE RE-RENDERED.
pub fn invalidate_scan_list(cache: &mut ScanListCache)
    ensures
        final(cache).dirty,
        final(cache).list == old(cache).list,
{
    cache.dirty = true;
}

/// Clears the dirty flag and tells whether it was set.
pub fn take_dirty(cache: &mut ScanListCache) -> (r: bool)
    ensures
        r == old(cache).dirty,
        !final(cache).dirty,
        final(cache).list == old(cache).list,
{
    let was = cache.dirty;
    cache.dirty = false;
    was
}

/// How many list lines fit in a buffer `total_height` rows tall.
pub open spec fn scan_lines_fitting(total_height: int) -> int {
    if total_height >= SCAN_LIST_MARGIN {
        (total_height - SCAN_LIST_MARGIN) / SCAN_LIST_LINE_HEIGHT as int
    } else {
        0
    }
}

/// Clears the first `total_height` rows of `buf` and lays out the scan
/// list: one line per network, from the margin down, while a whole line
/// still fits. Returns the top of each line that is drawn and the height
/// of the content.
pub fn prepare_scan_list(buf: &mut [u16], screen_w: usize, total_height: usize, count: usize) -> (r: (
    Vec<i32>,
    i32,
))
    requires
        screen_w * total_height <= old(buf)@.len(),
        total_height <= i32::MAX,
    ensures
        final(buf)@.len() == old(buf)@.len(),
        forall|i: int| 0 <= i < screen_w * total_height ==> #[trigger] final(buf)@[i] == 0,
        forall|i: int|
            screen_w * total_height <= i < old(buf)@.len() ==> #[trigger] final(buf)@[i]
                == old(buf)@[i],
        r.0@.len() == min(count as int, scan_lines_fitting(total_height as int)),
        forall|k: int|
            0 <= k < r.0@.len() ==> #[trigger] r.0@[k] == SCAN_LIST_MARGIN + k
                * SCAN_LIST_LINE_HEIGHT,
        r.1 == SCAN_LIST_MARGIN + r.0@.len() * SCAN_LIST_LINE_HEIGHT,
{
    let _len = buf.len();
    let n = screen_w * total_height;
    let mut i: usize = 0;
    while i < n
        invariant
            n == screen_w * total_height,
            n <= buf@.len(),
            buf@.len() == old(buf)@.len(),
            i <= n,
            forall|j: int| 0 <= j < i ==> #[trigger] buf@[j] == 0,
            forall|j: int| i <= j < buf@.len() ==> #[trigger] buf@[j] == old(buf)@[j],
        decreases n - i,
    {
        buf[i] = 0;
        i = i + 1;
    }
    let total = total_height as i64;
    let mut tops: Vec<i32> = Vec::new();
    let mut y: i32 = SCAN_LIST_MARGIN;
    let mut k: usize = 0;
    while k < count && (y as i64) + (SCAN_LIST_LINE_HEIGHT as i64) <= total
        invariant
            total == total_height,
            total_height <= i32::MAX,
            k <= count,
            tops@.len() == k,
            y == SCAN_LIST_MARGIN + k * SCAN_LIST_LINE_HEIGHT,
            y <= total + SCAN_LIST_LINE_HEIGHT,
            k <= scan_lines_fitting(total_height as int),
            forall|j: int| 0 <= j < k ==> #[trigger] tops@[j] == SCAN_LIST_MARGIN + j * SCAN_LIST_LINE_HEIGHT,
        decreases count - k,
    {
        tops.push(y);
        y = y + SCAN_LIST_LINE_HEIGHT;
        k = k + 1;
    }
    (tops, y)
}

/// Called once a new list was rendered: the list can scroll as far as its
/// content overhangs the gap, and both the scroll target and the offset
/// are brought back within `0..=max_scroll`.
pub fn refresh_scroll(scroll: &mut RssiScroll, content_height: i32, gap_height: usize)
    requires
        gap_height <= i32::MAX,
        i32::MIN <= content_height - gap_height,
    ensures
        final(scroll).max_scroll == if content_height - gap_height > 0 {
            content_height - gap_height
        } else {
            0
        },
        final(scroll).target == clamp(old(scroll).target as int, 0, final(scroll).max_scroll as int),
        final(scroll).offset == clamp(old(scroll).offset as int, 0, final(scroll).max_scroll as int),
{
    let d = content_height - gap_height as i32;
    let max_scroll = if d > 0 {
        d
    } else {
        0
    };
    scroll.max_scroll = max_scroll;
    scroll.target = if scroll.target < 0 {
        0
    } else if scroll.target > max_scroll {
        max_scroll
    } else {
        scroll.target
    };
    scroll.offset = if scroll.offset < 0 {
        0
    } else if scroll.offset > max_scroll {
        max_scroll
    } else {
        scroll.offset
    };
}

/// What the page shows in one frame.
pub enum RssiView {
    /// The full gauge and the scan button.
    Closed,
    /// A smaller gauge above a gap of `gap_height` rows, from `gap_top`
    /// to `gap_bottom`, that shows the scan list.
    Split { gap_top: i32, gap_bottom: i32, gap_height: usize },
}

/// Advances the split and the list by one frame (at `ANIM_SPEED`) and
/// decides the view: closed while the split is, else a gap of twice the
/// split offset centred on the panel's middle row.
pub fn frame_view(split: &mut RssiSplit, scroll: &mut RssiScroll) -> (r: RssiView)
    requires
        old(split).wf(),
        i32::MIN <= old(scroll).target - old(scroll).offset <= i32::MAX,
    ensures
        final(split).wf(),
        final(split).target_offset == old(split).target_offset,
        final(split).current_offset == step_toward(
            old(split).current_offset as int,
            old(split).target_offset as int,
            ANIM_SPEED as int,
        ),
        final(scroll).target == old(scroll).target,
        final(scroll).max_scroll == old(scroll).max_scroll,
        final(scroll).offset == step_toward(
            old(scroll).offset as int,
            old(scroll).target as int,
            ANIM_SPEED as int,
        ),
        ({
            let o = final(split).current_offset as int;
            let mid = LCD_HEIGHT as int / 2;
            if o == 0 {
                r is Closed
            } else {
                r == RssiView::Split {
                    gap_top: (mid - o) as i32,
                    gap_bottom: (mid + o) as i32,
                    gap_height: (2 * o) as usize,
                }
            }
        }),
{
    animate_split(split, ANIM_SPEED);
    animate_scroll(scroll, ANIM_SPEED);
    let offset = split.current_offset;
    if offset == 0 {
        return RssiView::Closed;
    }
    let h = LCD_HEIGHT as i32;
    let split_line_y = h / 2;
    let gap_top = split_line_y - offset;
    let gap_bottom = split_line_y + offset;
    let d = gap_bottom - gap_top;
    let gap_height = if d > 0 {
        d as usize
    } else {
        0
    };
    RssiView::Split { gap_top, gap_bottom, gap_height }
}

/// How many list rows `compose_scan_gap` copies.
pub open spec fn gap_rows(list_len: int, scroll_offset: int, gap_top: int, gap_height: int, screen_w: int, screen_h: int) -> int {
    let start = if scroll_offset > 0 { scroll_offset } else { 0 };
    let list_rows = if screen_w > 0 { list_len / screen_w } else { 0 };
    let r = min(gap_height, min(screen_h - gap_top, list_rows - start));
    if r > 0 { r } else { 0 }
}

/// Copies the visible part of the rendered list into the gap: list row
/// `max(scroll_offset, 0) + k` goes to panel row `gap_top + k`, for the
/// `gap_height` rows of the gap that lie on the panel and have a list row
/// to show.
pub fn compose_scan_gap(
    dest: &mut [u16],
    list: &[u16],
    scroll_offset: i32,
    gap_top: i32,
    gap_height: usize,
    screen_w: usize,
    screen_h: usize,
)
    requires
        screen_w * screen_h <= old(dest)@.len(),
        gap_top >= 0,
    ensures
        ({
            let rows = gap_rows(list@.len() as int, scroll_offset as int, gap_top as int, gap_height as int, screen_w as int, screen_h as int);
            let start = if scroll_offset > 0 { scroll_offset as int } else { 0 };
            final(dest)@ == if rows > 0 {
                rows_copied(old(dest)@, gap_top as int, list@, start, rows, screen_w as int)
            } else {
                old(dest)@
            }
        }),
{
    let start: usize = if scroll_offset > 0 {
        scroll_offset as usize
    } else {
        0
    };
    let top = gap_top as usize;
    if screen_w == 0 || top >= screen_h {
        return ;
    }
    let list_rows = list.len() / screen_w;
    if start >= list_rows {
        return ;
    }
    let a = screen_h - top;
    let b = list_rows - start;
    let m = if a < b {
        a
    } else {
        b
    };
    let rows = if gap_height < m {
        gap_height
    } else {
        m
    };
    if rows == 0 {
        return ;
    }
    proof {
        assert((top + rows) * screen_w <= screen_h * screen_w) by (nonlinear_arith)
            requires
                top + rows <= screen_h,
        ;
        assert(screen_h * screen_w == screen_w * screen_h) by (nonlinear_arith);
        assert((start + rows) * screen_w <= list_rows * screen_w) by (nonlinear_arith)
            requires
                start + rows <= list_rows,
        ;
        assert(list_rows * screen_w <= list@.len()) by (nonlinear_arith)
            requires
                list_rows == list@.len() / (screen_w as nat),
                screen_w > 0,
        ;
    }
    copy_row_block(dest, top, list, start, rows, screen_w);
}

/// Whether `d` is within the glow's half thickness.
pub open spec fn in_glow(d: int) -> bool {
    -GLOW_HALF_THICKNESS <= d <= GLOW_HALF_THICKNESS
}

/// The colour that the glow lines leave on panel row `r`, counting only the
/// lines at offsets below `upto` from the gap's edges: the line drawn last
/// wins, the one at offset 0 is bright and the others are dark.
pub open spec fn glow_color_upto(r: int, top: int, bottom: int, upto: int) -> Option<u16> {
    let a = r - top;
    let b = r - bottom;
    let va = in_glow(a) && a < upto;
    let vb = in_glow(b) && b < upto;
    if !va && !vb {
        None
    } else {
        let level = if va && vb {
            if a > b {
                a
            } else {
                b
            }
        } else if va {
            a
        } else {
            b
        };
        Some(
            if level == 0 {
                TEAL_BRIGHT
            } else {
                TEAL_DARK
            },
        )
    }
}

/// The panel after the glow lines at offsets below `upto` are drawn.
pub open spec fn glow_result(old: Seq<u16>, top: int, bottom: int, w: int, h: int, upto: int) -> Seq<u16> {
    Seq::new(
        old.len(),
        |i: int|
            if w > 0 && 0 <= i < w * h {
                match glow_color_upto(i / w, top, bottom, upto) {
                    Some(c) => c,
                    None => old[i],
                }
            } else {
                old[i]
            },
    )
}

/// Index `i` lies on row `row` of a panel `w` pixels wide exactly when it
/// is within that row's span.
pub proof fn lemma_row_span(i: int, w: int, row: int)
    requires
        w > 0,
        i >= 0,
        row >= 0,
    ensures
        (i / w == row) <==> (row * w <= i < row * w + w),
{
    vstd::arithmetic::div_mod::lemma_fundamental_div_mod(i, w);
    let q = i / w;
    let r = i % w;
    assert(i == w * q + r);
    assert(0 <= r < w);
    if row * w <= i < row * w + w {
        assert(q == row) by (nonlinear_arith)
            requires
                i == w * q + r,
                0 <= r < w,
                row * w <= i < row * w + w,
                w > 0,
        ;
    }
    if q == row {
        assert(row * w <= i < row * w + w) by (nonlinear_arith)
            requires
                i == w * q + r,
                0 <= r < w,
                q == row,
        ;
    }
}

/// Paints row `row` (of width `w`) with `color`.
fn fill_row(dest: &mut [u16], row: usize, w: usize, color: u16)
    requires
        row * w + w <= old(dest)@.len(),
    ensures
        final(dest)@ == Seq::new(
            old(dest)@.len(),
            |i: int|
                if row * w <= i < row * w + w {
                    color
                } else {
                    old(dest)@[i]
                },
        ),
{
    let _len = dest.len();
    let start = row * w;
    let mut x: usize = 0;
    while x < w
        invariant
            start == row * w,
            start + w <= dest@.len(),
            dest@.len() == old(dest)@.len(),
            dest@.len() == _len,
            x <= w,
            forall|i: int|
                0 <= i < dest@.len() ==> #[trigger] dest@[i] == if start <= i < start + x {
                    color
                } else {
                    old(dest)@[i]
                },
        decreases w - x,
    {
        dest[start + x] = color;
        x = x + 1;
    }
    assert(dest@ =~= Seq::new(
        old(dest)@.len(),
        |i: int|
            if row * w <= i < row * w + w {
                color
            } else {
                old(dest)@[i]
            },
    ));
}

// DRAW TEAL GLOW LINES
/// Draws the glow lines at the gap's edges: for each offset from
/// `-GLOW_HALF_THICKNESS` to `GLOW_HALF_THICKNESS` the rows at that offset
/// from `gap_top` and from `gap_bottom` (those on the panel) are painted,
/// bright at offset 0 and dark elsewhere.
pub fn draw_split_glow(fb: &mut Framebuffer, gap_top: i32, gap_bottom: i32, screen_w: usize, screen_h: usize)
    requires
        screen_w * screen_h <= old(fb).pixels().len(),
        i32::MIN + GLOW_HALF_THICKNESS <= gap_top <= i32::MAX - GLOW_HALF_THICKNESS,
        i32::MIN + GLOW_HALF_THICKNESS <= gap_bottom <= i32::MAX - GLOW_HALF_THICKNESS,
    ensures
        final(fb).pixels() == glow_result(
            old(fb).pixels(),
            gap_top as int,
            gap_bottom as int,
            screen_w as int,
            screen_h as int,
            GLOW_HALF_THICKNESS + 1,
        ),
        final(fb).back_pixels() == old(fb).back_pixels(),
{
    let dest = fb.buffer_mut();
    let ghost d0 = dest@;
    let _len = dest.len();
    let ghost top = gap_top as int;
    let ghost bottom = gap_bottom as int;
    let ghost w = screen_w as int;
    let ghost h = screen_h as int;
    let mut k: i32 = -GLOW_HALF_THICKNESS;
    proof {
        assert(dest@ =~= glow_result(d0, top, bottom, w, h, k as int));
    }
    while k <= GLOW_HALF_THICKNESS
        invariant
            -GLOW_HALF_THICKNESS <= k <= GLOW_HALF_THICKNESS + 1,
            d0.len() == _len,
            screen_w * screen_h <= d0.len(),
            dest@ == glow_result(d0, top, bottom, w, h, k as int),
            top == gap_top,
            bottom == gap_bottom,
            w == screen_w,
            h == screen_h,
            i32::MIN + GLOW_HALF_THICKNESS <= gap_top <= i32::MAX - GLOW_HALF_THICKNESS,
            i32::MIN + GLOW_HALF_THICKNESS <= gap_bottom <= i32::MAX - GLOW_HALF_THICKNESS,
        decreases GLOW_HALF_THICKNESS + 1 - k,
    {
        let color = if k == 0 {
            TEAL_BRIGHT
        } else {
            TEAL_DARK
        };
        let y1 = gap_top + k;
        let y2 = gap_bottom + k;
        let ghost before = dest@;
        if y1 >= 0 && (y1 as usize) < screen_h {
            proof {
                assert((y1 as usize) * screen_w + screen_w <= screen_h * screen_w) by (nonlinear_arith)
                    requires
                        (y1 as usize) < screen_h,
                ;
                assert(screen_h * screen_w == screen_w * screen_h) by (nonlinear_arith);
            }
            fill_row(dest, y1 as usize, screen_w, color);
        }
        let ghost middle = dest@;
        if y2 >= 0 && (y2 as usize) < screen_h {
            proof {
                assert((y2 as usize) * screen_w + screen_w <= screen_h * screen_w) by (nonlinear_arith)
                    requires
                        (y2 as usize) < screen_h,
                ;
                assert(screen_h * screen_w == screen_w * screen_h) by (nonlinear_arith);
            }
            fill_row(dest, y2 as usize, screen_w, color);
        }
        proof {
            let next = glow_result(d0, top, bottom, w, h, k + 1);
            assert forall|i: int| 0 <= i < dest@.len() implies #[trigger] dest@[i] == next[i] by {
                if w > 0 && 0 <= i < w * h {
                    let r = i / w;
                    assert(0 <= r) by (nonlinear_arith)
                        requires
                            w > 0,
                            i >= 0,
                            r == i / w,
                    ;
                    if y1 >= 0 {
                        lemma_row_span(i, w, y1 as int);
                    }
                    if y2 >= 0 {
                        lemma_row_span(i, w, y2 as int);
                    }
                    assert(r < h) by (nonlinear_arith)
                        requires
                            w > 0,
                            0 <= i < w * h,
                            r == i / w,
                    ;
                } else {
                    if y1 >= 0 && (y1 as usize) < screen_h {
                        assert(!(y1 * w <= i < y1 * w + w)) by (nonlinear_arith)
                            requires
                                !(w > 0 && 0 <= i < w * h),
                                0 <= i,
                                0 <= y1 < h,
                        ;
                    }
                    if y2 >= 0 && (y2 as usize) < screen_h {
                        assert(!(y2 * w <= i < y2 * w + w)) by (nonlinear_arith)
                            requires
                                !(w > 0 && 0 <= i < w * h),
                                0 <= i,
                                0 <= y2 < h,
                        ;
                    }
                }
            }
            assert(dest@ =~= next);
        }
        k = k + 1;
    }
}

/// Signal strength in percent: the RSSI clamped to -90..=-30 dBm and
/// mapped linearly onto 0..=100 (rounded down).
pub open spec fn rssi_percent_of(rssi: int) -> int {
    (clamp(rssi, -90, -30) + 90) * 100 / 60
}

pub fn rssi_percent(rssi: i32) -> (r: u8)
    ensures
        r == rssi_percent_of(rssi as int),
        r <= 100,
{
    let c = if rssi < -90 {
        -90
    } else if rssi > -30 {
        -30
    } else {
        rssi
    };
    ((c + 90) * 100 / 60) as u8
}

// FORMATTING
/// The RSSI as shown under the gauge, such as `-67 dBm`.
pub fn format_rssi(rssi: i32) -> (r: String)
    ensures
        r@ == crate::url::ascii_chars(crate::text::decimal(rssi as int) + seq![0x20u8, 0x64u8, 0x42u8, 0x6du8]),
{
    let mut bytes: Vec<u8> = Vec::new();
    crate::text::push_decimal(&mut bytes, rssi);
    bytes.push(0x20);
    bytes.push(0x64);
    bytes.push(0x42);
    bytes.push(0x6d);
    proof {
        let d = crate::text::decimal(rssi as int);
        if rssi < 0 {
            crate::text::lemma_decimal_digits_ascii((-rssi) as nat);
            assert forall|i: int| 0 <= i < d.len() implies d[i] < 128 by {
                if i > 0 {
                    assert(d[i] == crate::text::decimal_digits((-rssi) as nat)[i - 1]);
                }
            }
        } else {
            crate::text::lemma_decimal_digits_ascii(rssi as nat);
        }
        assert(bytes@ =~= d + seq![0x20u8, 0x64u8, 0x42u8, 0x6du8]);
    }
    crate::text::ascii_string(bytes)
}

/// Where the signal gauge's ring is drawn: its diameter, its centre and the
/// top left corner of its bounding square.
pub struct GaugeLayout {
    pub diameter: u32,
    pub center_x: i32,
    pub center_y: i32,
    pub top_left_x: i32,
    pub top_left_y: i32,
}

/// The full-screen gauge: a ring seven tenths of the panel's smaller side
/// across, centred on the panel.
pub fn gauge_layout() -> (r: GaugeLayout)
    ensures
        r.diameter == min(LCD_WIDTH as int, LCD_HEIGHT as int) * 7 / 10,
        r.center_x == LCD_WIDTH / 2,
        r.center_y == LCD_HEIGHT / 2,
        r.top_left_x == r.center_x - r.diameter / 2,
        r.top_left_y == r.center_y - r.diameter / 2,
{
    let w = LCD_WIDTH as i32;
    let h = LCD_HEIGHT as i32;
    let min_dim = (if w < h {
        w
    } else {
        h
    }) as u32;
    let diameter = min_dim * 7 / 10;
    let center_x = w / 2;
    let center_y = h / 2;
    GaugeLayout {
        diameter,
        center_x,
        center_y,
        top_left_x: center_x - diameter as i32 / 2,
        top_left_y: center_y - diameter as i32 / 2,
    }
}

/// The gauge squeezed into rows `y_min..y_max`: none when the region is
/// empty, else a ring seven tenths of the smaller of the panel's smaller
/// side and seven tenths of the region's height across, centred in the
/// region.
pub fn gauge_layout_in_region(y_min: i32, y_max: i32) -> (r: Option<GaugeLayout>)
    requires
        i32::MIN <= y_max - y_min <= i32::MAX,
        (y_max - y_min) * 7 <= u32::MAX,
    ensures
        y_max - y_min <= 0 ==> r is None,
        y_max - y_min > 0 ==> (r matches Some(g) && {
            let region = y_max - y_min;
            &&& g.diameter == min(min(LCD_WIDTH as int, LCD_HEIGHT as int), region * 7 / 10) * 7 / 10
            &&& g.center_x == LCD_WIDTH / 2
            &&& g.center_y == y_min + region / 2
            &&& g.top_left_x == g.center_x - g.diameter / 2
            &&& g.top_left_y == g.center_y - g.diameter / 2
        }),
{
    let region_height = y_max - y_min;
    if region_height <= 0 {
        return None;
    }
    let w = LCD_WIDTH as i32;
    let h = LCD_HEIGHT as i32;
    let min_dim = (if w < h {
        w
    } else {
        h
    }) as u32;
    let max_diameter = (region_height as u32 * 7) / 10;
    let diameter = (if min_dim < max_diameter {
        min_dim
    } else {
        max_diameter
    }) * 7 / 10;
    let center_x = w / 2;
    let center_y = y_min + region_height / 2;
    Some(
        GaugeLayout {
            diameter,
            center_x,
            center_y,
            top_left_x: center_x - diameter as i32 / 2,
            top_left_y: center_y - diameter as i32 / 2,
        },
    )
}

/// Placement of the Wi-Fi icon inside the gauge: scaled by the largest
/// whole factor (at least 1) that keeps it no taller than `max_icon_h`,
/// centred on the gauge and raised by 15 rows. Returns the factor and the
/// top left corner.
pub fn gauge_icon_placement(center_x: i32, center_y: i32, img_w: i32, img_h: i32, max_icon_h: i32) -> (r: (i32, i32, i32))
    requires
        ({
            let scale = super::apps::icon_scale(max_icon_h as int, img_h as int);
            &&& i32::MIN <= img_w * scale <= i32::MAX
            &&& i32::MIN <= img_h * scale <= i32::MAX
            &&& i32::MIN <= center_x - crate::time::trunc_div(img_w * scale, 2) <= i32::MAX
            &&& i32::MIN <= center_y - crate::time::trunc_div(img_h * scale, 2) - 15
            &&& center_y - crate::time::trunc_div(img_h * scale, 2) <= i32::MAX
        }),
    ensures
        ({
            let scale = super::apps::icon_scale(max_icon_h as int, img_h as int);
            &&& r.0 == scale
            &&& r.1 == center_x - crate::time::trunc_div(img_w * scale, 2)
            &&& r.2 == center_y - crate::time::trunc_div(img_h * scale, 2) - 15
        }),
{
    let d = if img_h > 1 {
        img_h
    } else {
        1
    };
    let q = max_icon_h / d;
    let scale = if q > 1 {
        q
    } else {
        1
    };
    let scaled_w = img_w * scale;
    let scaled_h = img_h * scale;
    (scale, center_x - scaled_w / 2, center_y - scaled_h / 2 - 15)
}


/// Colour of the gauge's arc for a signal of `percent` (at most 100
/// counted): red fades out and green in, from pure red at 0 % to pure
/// green at 100 %.
pub fn gradient_red_green(percent: u8) -> (r: crate::framebuffer::Color565)
    ensures
        ({
            let p: int = if percent < 100 { percent as int } else { 100 };
            &&& r.r == (100 - p) * 31 / 100
            &&& r.g == p * 63 / 100
            &&& r.b == 0
        }),
{
    let p: u32 = if percent < 100 { percent as u32 } else { 100 };
    crate::framebuffer::Color565 { r: ((100 - p) * 31 / 100) as u8, g: (p * 63 / 100) as u8, b: 0 }
}

} // verus!
