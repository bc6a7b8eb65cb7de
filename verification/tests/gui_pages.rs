use esp32_s3_box3::framebuffer::Framebuffer;
use esp32_s3_box3::gt911::SwipeDirection;
use esp32_s3_box3::gui::apps::{
    compose, copy_rows, handle_double_tap, handle_swipe, page_icon_placement, Launcher,
    PageBufferCache,
};
use esp32_s3_box3::gui::blit_scaled_icon;
use esp32_s3_box3::gui::rssi::{
    animate_scroll, animate_split, close_split, compose_scan_gap, draw_split_glow, format_rssi,
    frame_view, gauge_icon_placement, gauge_layout, gauge_layout_in_region, gradient_red_green, invalidate_scan_list,
    is_split_open, open_split, prepare_scan_list, refresh_scroll, rssi_percent, take_dirty,
    RssiScroll, RssiSplit, RssiView, ScanListCache, TEAL_BRIGHT, TEAL_DARK,
};
use esp32_s3_box3::gui::rssi::handle_swipe as rssi_swipe;

const W: usize = 320;
const H: usize = 240;

#[test]
fn split_opens_in_fifteen_frames_without_overshoot() {
    let mut split = RssiSplit::new();
    assert!(!is_split_open(&split));
    open_split(&mut split);
    assert_eq!(split.target_offset, 120);
    let mut frames = 0;
    while split.current_offset != split.target_offset {
        animate_split(&mut split, 8);
        frames += 1;
        assert!(split.current_offset <= 120);
    }
    assert_eq!(frames, 15);
    assert!(is_split_open(&split));
    close_split(&mut split);
    animate_split(&mut split, 50);
    assert_eq!(split.current_offset, 70);
    animate_split(&mut split, 100);
    assert_eq!(split.current_offset, 0);
    assert!(!is_split_open(&split));
}

#[test]
fn scroll_animation_steps_toward_target() {
    let mut s = RssiScroll::new();
    s.target = 20;
    animate_scroll(&mut s, 8);
    assert_eq!(s.offset, 8);
    animate_scroll(&mut s, 8);
    animate_scroll(&mut s, 8);
    assert_eq!(s.offset, 20);
    animate_scroll(&mut s, 8);
    assert_eq!(s.offset, 20);
    s.target = -5;
    animate_scroll(&mut s, 100);
    assert_eq!(s.offset, -5);
}

#[test]
fn rssi_swipes_only_scroll_while_split_is_open() {
    let split = RssiSplit::new();
    let mut s = RssiScroll::new();
    s.max_scroll = 100;
    rssi_swipe(&split, &mut s, SwipeDirection::Up);
    assert_eq!(s.target, 0);
    let mut open = RssiSplit::new();
    open_split(&mut open);
    animate_split(&mut open, 8);
    rssi_swipe(&open, &mut s, SwipeDirection::Up);
    assert_eq!(s.target, 70);
    rssi_swipe(&open, &mut s, SwipeDirection::Up);
    assert_eq!(s.target, 100);
    rssi_swipe(&open, &mut s, SwipeDirection::Left);
    assert_eq!(s.target, 100);
    rssi_swipe(&open, &mut s, SwipeDirection::Down);
    assert_eq!(s.target, 30);
    rssi_swipe(&open, &mut s, SwipeDirection::Down);
    assert_eq!(s.target, 0);
}

#[test]
fn scan_list_dirty_flag() {
    let mut cache = ScanListCache::new();
    assert!(take_dirty(&mut cache));
    assert!(!take_dirty(&mut cache));
    invalidate_scan_list(&mut cache);
    assert!(cache.dirty);
    assert!(take_dirty(&mut cache));
}

#[test]
fn scan_list_layout_stops_when_lines_no_longer_fit() {
    let mut buf = vec![9u16; W * 1000 + 5];
    let (tops, height) = prepare_scan_list(&mut buf, W, 1000, 20);
    assert_eq!(tops.len(), 12);
    assert_eq!(tops[0], 20);
    assert_eq!(tops[11], 900);
    assert_eq!(height, 980);
    assert!(buf[..W * 1000].iter().all(|&p| p == 0));
    assert!(buf[W * 1000..].iter().all(|&p| p == 9));
    let mut small = vec![1u16; 100];
    let (tops, height) = prepare_scan_list(&mut small, 1, 99, 3);
    assert!(tops.is_empty());
    assert_eq!(height, 20);
    let mut few = vec![0u16; 1000];
    let (tops, height) = prepare_scan_list(&mut few, 1, 1000, 2);
    assert_eq!(tops, vec![20, 100]);
    assert_eq!(height, 180);
}

#[test]
fn refresh_scroll_clamps_into_new_range() {
    let mut s = RssiScroll { offset: 500, target: -3, max_scroll: 0 };
    refresh_scroll(&mut s, 980, 240);
    assert_eq!(s.max_scroll, 740);
    assert_eq!(s.offset, 500);
    assert_eq!(s.target, 0);
    refresh_scroll(&mut s, 100, 240);
    assert_eq!(s.max_scroll, 0);
    assert_eq!(s.offset, 0);
}

#[test]
fn frame_view_closed_then_split() {
    let mut split = RssiSplit::new();
    let mut scroll = RssiScroll::new();
    assert!(matches!(frame_view(&mut split, &mut scroll), RssiView::Closed));
    open_split(&mut split);
    match frame_view(&mut split, &mut scroll) {
        RssiView::Split { gap_top, gap_bottom, gap_height } => {
            assert_eq!((gap_top, gap_bottom, gap_height), (112, 128, 16));
        }
        RssiView::Closed => panic!("the split is opening"),
    }
}

#[test]
fn scan_gap_copies_scrolled_rows() {
    let w = 4;
    let h = 6;
    let list: Vec<u16> = (0..(w * 10) as u16).collect();
    let mut dest = vec![0xffffu16; w * h];
    compose_scan_gap(&mut dest, &list, 3, 2, 3, w, h);
    assert!(dest[..8].iter().all(|&p| p == 0xffff));
    assert_eq!(&dest[8..20], &list[12..24]);
    assert!(dest[20..].iter().all(|&p| p == 0xffff));
    let mut clipped = vec![0u16; w * h];
    compose_scan_gap(&mut clipped, &list, 8, 1, 5, w, h);
    assert_eq!(&clipped[4..12], &list[32..40]);
    assert!(clipped[12..].iter().all(|&p| p == 0));
}

#[test]
fn glow_lines_mark_both_edges() {
    let mut fb = Framebuffer::new();
    draw_split_glow(&mut fb, 100, 140, W, H);
    let px = fb.buffer();
    let row = |r: usize| px[r * W];
    assert_eq!(row(97), 0);
    assert_eq!(row(98), TEAL_DARK);
    assert_eq!(row(99), TEAL_DARK);
    assert_eq!(row(100), TEAL_BRIGHT);
    assert_eq!(row(101), TEAL_DARK);
    assert_eq!(row(102), TEAL_DARK);
    assert_eq!(row(103), 0);
    assert_eq!(row(140), TEAL_BRIGHT);
    assert_eq!(px[140 * W + 319], TEAL_BRIGHT);
    assert_eq!(row(142), TEAL_DARK);
}

#[test]
fn glow_overlap_last_line_wins() {
    let mut fb = Framebuffer::new();
    draw_split_glow(&mut fb, 119, 121, W, H);
    let px = fb.buffer();
    assert_eq!(px[119 * W], TEAL_BRIGHT);
    assert_eq!(px[120 * W], TEAL_DARK);
    assert_eq!(px[121 * W], TEAL_DARK);
    assert_eq!(px[123 * W], TEAL_DARK);
    assert_eq!(px[124 * W], 0);
    let mut edge = Framebuffer::new();
    draw_split_glow(&mut edge, 0, 239, W, H);
    assert_eq!(edge.buffer()[0], TEAL_BRIGHT);
    assert_eq!(edge.buffer()[239 * W], TEAL_BRIGHT);
}

#[test]
fn rssi_percent_scale() {
    assert_eq!(rssi_percent(-100), 0);
    assert_eq!(rssi_percent(-90), 0);
    assert_eq!(rssi_percent(-60), 50);
    assert_eq!(rssi_percent(-67), 38);
    assert_eq!(rssi_percent(-30), 100);
    assert_eq!(rssi_percent(0), 100);
}

#[test]
fn rssi_text() {
    assert_eq!(format_rssi(-67), "-67 dBm");
    assert_eq!(format_rssi(0), "0 dBm");
    assert_eq!(format_rssi(i32::MIN), "-2147483648 dBm");
    assert_eq!(format_rssi(12), "12 dBm");
}

#[test]
fn gauge_geometry() {
    let g = gauge_layout();
    assert_eq!((g.diameter, g.center_x, g.center_y, g.top_left_x, g.top_left_y), (168, 160, 120, 76, 36));
    assert!(gauge_layout_in_region(0, 0).is_none());
    assert!(gauge_layout_in_region(10, 5).is_none());
    let r = gauge_layout_in_region(0, 112).unwrap();
    assert_eq!((r.diameter, r.center_x, r.center_y, r.top_left_x, r.top_left_y), (54, 160, 56, 133, 29));
    let big = gauge_layout_in_region(0, 400).unwrap();
    assert_eq!(big.diameter, 168);
    assert_eq!(gauge_icon_placement(160, 120, 24, 20, 92), (4, 112, 65));
    assert_eq!(gauge_icon_placement(160, 120, 24, 0, 0), (1, 148, 105));
}

#[test]
fn blit_scales_and_clips() {
    let w = 5;
    let h = 4;
    let mut dest = vec![0u16; w * h];
    let pixels = [Some(1u16), None, Some(3), Some(4)];
    blit_scaled_icon(&mut dest, w, h, &pixels, 2, 2, 2, 3, 1, None);
    assert_eq!(
        dest,
        vec![
            0, 0, 0, 0, 0, //
            0, 0, 0, 1, 1, //
            0, 0, 0, 1, 1, //
            0, 0, 0, 3, 3,
        ]
    );
}

#[test]
fn blit_tints_and_skips_blocks_above_the_top() {
    let w = 4;
    let h = 3;
    let mut dest = vec![9u16; w * h];
    let pixels = [Some(1u16), Some(2), Some(5), Some(6)];
    blit_scaled_icon(&mut dest, w, h, &pixels, 2, 2, 2, -1, -1, Some(0xf800));
    assert_eq!(
        dest,
        vec![
            9, 9, 9, 9, //
            0xf800, 0xf800, 0xf800, 9, //
            0xf800, 0xf800, 0xf800, 9,
        ]
    );
}

#[test]
fn page_icon_is_centred() {
    assert_eq!(page_icon_placement(320, 240, 48, 48, 216), (4, 64, 24));
    assert_eq!(page_icon_placement(320, 240, 400, 300, 216), (1, -40, -30));
    assert_eq!(page_icon_placement(320, 240, 10, 0, 216), (216, -920, 120));
}

#[test]
fn launcher_swipes_between_pages() {
    let mut l = Launcher { scroll_offset: 0, target_scroll: 0 };
    handle_swipe(&mut l, SwipeDirection::Down, 4);
    assert_eq!(l.target_scroll, 0);
    handle_swipe(&mut l, SwipeDirection::Up, 4);
    assert_eq!(l.target_scroll, 240);
    for _ in 0..5 {
        handle_swipe(&mut l, SwipeDirection::Up, 4);
    }
    assert_eq!(l.target_scroll, 720);
    handle_swipe(&mut l, SwipeDirection::Right, 4);
    assert_eq!(l.target_scroll, 720);
    handle_swipe(&mut l, SwipeDirection::Down, 4);
    assert_eq!(l.target_scroll, 480);
    handle_swipe(&mut l, SwipeDirection::Up, 0);
    assert_eq!(l.target_scroll, 480);
}

#[test]
fn launcher_double_tap_picks_visible_page() {
    let l = Launcher { scroll_offset: 500, target_scroll: 480 };
    assert_eq!(handle_double_tap(&l, 4), Some(2));
    assert_eq!(handle_double_tap(&l, 2), Some(1));
    assert_eq!(handle_double_tap(&l, 0), None);
    let neg = Launcher { scroll_offset: -300, target_scroll: 0 };
    assert_eq!(handle_double_tap(&neg, 4), Some(0));
}

#[test]
fn page_cache_evicts_alternately() {
    let mut c = PageBufferCache::new(8);
    assert_eq!(c.ensure_page(-1, 3), None);
    assert_eq!(c.ensure_page(3, 3), None);
    assert_eq!(c.ensure_page(0, 3), Some((0, true)));
    assert_eq!(c.ensure_page(0, 3), Some((0, false)));
    assert_eq!(c.ensure_page(1, 3), Some((1, true)));
    assert_eq!(c.ensure_page(2, 3), Some((0, true)));
    assert_eq!(c.indices, [2, 1]);
    assert_eq!(c.ensure_page(1, 3), Some((1, false)));
}

fn page(value: u16) -> Vec<u16> {
    (0..(W * H)).map(|i| value * 1000 + (i / W) as u16).collect()
}

#[test]
fn compose_shows_current_page_then_next() {
    let pages = vec![page(1), page(2), page(3)];
    let mut cache = PageBufferCache::new(W * H);
    let mut buf = vec![7u16; W * H];
    compose(&mut buf, 0, &mut cache, &pages);
    assert_eq!(buf, pages[0]);
    compose(&mut buf, 240 + 100, &mut cache, &pages);
    assert_eq!(buf[0], 2100);
    assert_eq!(buf[139 * W], 2239);
    assert_eq!(buf[140 * W], 3000);
    assert_eq!(buf[239 * W + 5], 3099);
    compose(&mut buf, 480 + 10, &mut cache, &pages);
    assert_eq!(buf[0], 3010);
    assert_eq!(buf[230 * W], 0);
    compose(&mut buf, 240, &mut cache, &pages);
    assert_eq!(buf, pages[1]);
}

#[test]
fn compose_above_the_first_page_is_black() {
    let pages = vec![page(1), page(2)];
    let mut cache = PageBufferCache::new(W * H);
    let mut buf = vec![7u16; W * H];
    compose(&mut buf, -240, &mut cache, &pages);
    assert!(buf.iter().all(|&p| p == 0));
    let mut buf2 = vec![7u16; W * H];
    compose(&mut buf2, -1000, &mut cache, &pages);
    assert!(buf2.iter().all(|&p| p == 0));
}

#[test]
fn compose_without_pages_is_black() {
    let mut cache = PageBufferCache::new(W * H);
    let mut buf = vec![7u16; W * H + 3];
    compose(&mut buf, 100, &mut cache, &[]);
    assert!(buf.iter().all(|&p| p == 0));
}

#[test]
fn copy_rows_clips_at_the_bottom() {
    let w = 2;
    let h = 3;
    let src: Vec<u16> = (0..6).collect();
    let mut dest = vec![9u16; 6];
    copy_rows(&mut dest, &src, 1, 5, 0, w, h);
    assert_eq!(dest, vec![2, 3, 4, 5, 9, 9]);
    let mut d2 = vec![9u16; 6];
    copy_rows(&mut d2, &src, 0, 2, 2, w, h);
    assert_eq!(d2, vec![9, 9, 9, 9, 0, 1]);
}

#[test]
fn put_pixel_ignores_points_off_the_buffer() {
    let mut buf = vec![0u16; 6];
    esp32_s3_box3::gui::put_pixel(&mut buf, 3, 2, 2, 1, 9);
    esp32_s3_box3::gui::put_pixel(&mut buf, 3, 2, 3, 0, 8);
    esp32_s3_box3::gui::put_pixel(&mut buf, 3, 2, -1, 0, 8);
    esp32_s3_box3::gui::put_pixel(&mut buf, 3, 2, 0, 2, 8);
    assert_eq!(buf, vec![0, 0, 0, 0, 0, 9]);
}

#[test]
fn fill_buffer_paints_everything() {
    let mut buf = vec![1u16, 2, 3];
    esp32_s3_box3::gui::fill_buffer(&mut buf, 0x07FF);
    assert_eq!(buf, vec![0x07FF; 3]);
    let mut empty: Vec<u16> = Vec::new();
    esp32_s3_box3::gui::fill_buffer(&mut empty, 5);
    assert!(empty.is_empty());
}

#[test]
fn gauge_colour_runs_from_red_to_green() {
    let red = gradient_red_green(0);
    assert_eq!((red.r, red.g, red.b), (31, 0, 0));
    let green = gradient_red_green(100);
    assert_eq!((green.r, green.g, green.b), (0, 63, 0));
    let half = gradient_red_green(50);
    assert_eq!((half.r, half.g, half.b), (15, 31, 0));
    let over = gradient_red_green(200);
    assert_eq!((over.r, over.g, over.b), (0, 63, 0));
}
