use embedded_graphics_core::pixelcolor::{IntoStorage, Rgb565, RgbColor};
use esp32_s3_box3::es7210::{
    find_coeff, CodecConfig, Error as CodecError, Es7210, I2sBits, I2sFormat, MicBias, MicGain,
};
use esp32_s3_box3::framebuffer::{Color565, Framebuffer, HEIGHT, PIXEL_COUNT, WIDTH};
use esp32_s3_box3::gt911::{
    check_product_id, decode_point, decode_points, register_bytes, touch_point_count, write_command,
    DriverAction, DriverState, Error as TouchError, Gt911Blocking, Point, TouchOutcome, TouchQuery,
    GT911_I2C_ADDR_BA,
};
use esp32_s3_box3::media::{handle_action, playlist, volume_down, volume_up, PlaybackState, Player};
use esp32_s3_box3::state::{DisplayCommand, MediaCommand};

#[test]
fn framebuffer_starts_black_and_swaps() {
    let mut fb = Framebuffer::new();
    assert_eq!(fb.buffer().len(), PIXEL_COUNT);
    assert!(fb.buffer().iter().all(|&p| p == 0));
    fb.back_buffer_mut()[5] = 0x1234;
    fb.swap();
    assert_eq!(fb.buffer()[5], 0x1234);
    assert_eq!(fb.back_buffer_mut()[5], 0);
    fb.swap();
    assert_eq!(fb.buffer()[5], 0);
}

#[test]
fn framebuffer_set_pixel_ignores_points_off_the_panel() {
    let mut fb = Framebuffer::new();
    fb.set_pixel(3, 2, 7);
    assert_eq!(fb.buffer()[2 * WIDTH + 3], 7);
    fb.set_pixel(WIDTH, 0, 9);
    fb.set_pixel(0, HEIGHT, 9);
    assert_eq!(fb.buffer().iter().filter(|&&p| p != 0).count(), 1);
    fb.draw_pixel(-1, 5, 3);
    fb.draw_pixel(319, 239, 4);
    assert_eq!(fb.buffer()[PIXEL_COUNT - 1], 4);
    assert_eq!(fb.buffer().iter().filter(|&&p| p != 0).count(), 2);
}

#[test]
fn framebuffer_fill_rect_is_clipped() {
    let mut fb = Framebuffer::new();
    fb.fill_rect(310, 230, 20, 20, 5);
    let filled = fb.buffer().iter().filter(|&&p| p == 5).count();
    assert_eq!(filled, 100);
    assert_eq!(fb.buffer()[230 * WIDTH + 310], 5);
    assert_eq!(fb.buffer()[229 * WIDTH + 310], 0);
    fb.fill_solid((-5, -5, 10, 10), 6);
    assert_eq!(fb.buffer().iter().filter(|&&p| p == 6).count(), 25);
}

#[test]
fn framebuffer_fill_solid_keeps_to_the_overlap() {
    let mut fb = Framebuffer::new();
    fb.fill_solid((300, 200, 100, 100), 3);
    assert_eq!(fb.buffer().iter().filter(|&&p| p == 3).count(), 20 * 40);
    assert_eq!(fb.buffer()[200 * WIDTH + 300], 3);
    assert_eq!(fb.buffer()[199 * WIDTH + 300], 0);
    fb.fill_solid((400, 10, 5, 5), 4);
    fb.fill_solid((10, 10, 0, 5), 4);
    fb.fill_solid((-10, -10, 10, 10), 4);
    assert_eq!(fb.buffer().iter().filter(|&&p| p == 4).count(), 0);
}

#[test]
fn framebuffer_fill_contiguous_pairs_colours_with_the_area_points() {
    let mut fb = Framebuffer::new();
    fb.fill_contiguous((1, 1, 2, 2), &[1, 2, 3, 4, 5]);
    assert_eq!(fb.buffer()[WIDTH + 1], 1);
    assert_eq!(fb.buffer()[WIDTH + 2], 2);
    assert_eq!(fb.buffer()[2 * WIDTH + 1], 3);
    assert_eq!(fb.buffer()[2 * WIDTH + 2], 4);
    assert_eq!(fb.buffer().iter().filter(|&&p| p != 0).count(), 4);

    // A 3x2 area whose left column is off the panel: colours 1 and 4 are
    // skipped, the others land on their own points.
    let mut fb = Framebuffer::new();
    fb.fill_contiguous((-1, 0, 3, 2), &[1, 2, 3, 4, 5, 6]);
    assert_eq!(&fb.buffer()[0..3], &[2, 3, 0]);
    assert_eq!(&fb.buffer()[WIDTH..WIDTH + 3], &[5, 6, 0]);
    assert_eq!(fb.buffer().iter().filter(|&&p| p != 0).count(), 4);

    // Too few colours leave the rest of the area as it was.
    let mut fb = Framebuffer::new();
    fb.fill_contiguous((318, 238, 4, 4), &[7, 8, 9]);
    assert_eq!(fb.buffer()[238 * WIDTH + 318], 7);
    assert_eq!(fb.buffer()[238 * WIDTH + 319], 8);
    assert_eq!(fb.buffer().iter().filter(|&&p| p != 0).count(), 2);
}

#[test]
fn framebuffer_flush_region_is_clipped() {
    let mut fb = Framebuffer::new();
    fb.set_pixel(318, 239, 8);
    let (region, data) = fb.flush_region_data(318, 238, 10, 10).unwrap();
    assert_eq!(region, (318, 238, 2, 2));
    assert_eq!(data, vec![0, 0, 8, 0]);
    assert!(fb.flush_region_data(320, 0, 10, 10).is_none());
    assert!(fb.flush_region_data(0, 0, 0, 10).is_none());
}

fn board_config() -> CodecConfig {
    CodecConfig {
        sample_rate_hz: 16000,
        mclk_ratio: 256,
        i2s_format: I2sFormat::I2S,
        bit_width: I2sBits::Bits16,
        mic_bias: MicBias::V2_87,
        mic_gain: MicGain::Gain30dB,
        tdm_enable: false,
    }
}

#[test]
fn es7210_board_configuration_is_supported() {
    let codec = Es7210::new(0x40);
    assert_eq!(codec.addr(), 0x40);
    let (writes, result) = codec.config_codec::<()>(&board_config());
    assert!(result.is_ok());
    assert_eq!(writes.len(), 30);
    assert_eq!(writes[0], (0x00, 0xFF));
    assert_eq!(writes[1], (0x00, 0x32));
    assert!(writes.contains(&(0x41, MicBias::V2_87.value())));
    assert!(writes.contains(&(0x43, MicGain::Gain30dB.value() | 0x10)));
    assert_eq!(&writes[21..25], &[(0x07, 0x20), (0x02, 0xC1), (0x04, 0x01), (0x05, 0x00)]);
    assert_eq!(&writes[28..30], &[(0x00, 0x71), (0x00, 0x41)]);
}

#[test]
fn es7210_unsupported_rate_stops_before_clocks() {
    let mut cfg = board_config();
    cfg.sample_rate_hz = 15000;
    let (writes, result) = Es7210::new(0x40).config_codec::<()>(&cfg);
    assert!(matches!(result, Err(CodecError::NotSupported)));
    assert_eq!(writes.len(), 21);
    assert!(find_coeff(4_096_000, 16_000).is_some());
    assert!(find_coeff(4_096_000, 15_000).is_none());
}

#[test]
fn es7210_gain_range() {
    let codec = Es7210::new(0x40);
    let w = codec.gain_set::<()>(20).unwrap();
    assert_eq!(w, vec![(0x1B, 231), (0x1C, 231), (0x1D, 231), (0x1E, 231)]);
    assert_eq!(codec.gain_set::<()>(-95).unwrap()[0], (0x1B, 1));
    assert_eq!(codec.gain_set::<()>(32).unwrap()[3], (0x1E, 255));
    assert!(matches!(codec.gain_set::<()>(33), Err(CodecError::InvalidConfig)));
    assert!(matches!(codec.gain_set::<()>(-96), Err(CodecError::InvalidConfig)));
    assert_eq!(codec.enable(), vec![(0x00, 0x71), (0x00, 0x41)]);
    assert_eq!(codec.disable(), vec![(0x00, 0x00)]);
}

#[test]
fn gt911_registers_and_points() {
    assert_eq!(Gt911Blocking::<()>::default().i2c_addr(), GT911_I2C_ADDR_BA);
    assert_eq!(Gt911Blocking::<()>::new(0x14).i2c_addr(), 0x14);
    assert_eq!(register_bytes(0x814E), [0x81, 0x4E]);
    assert_eq!(write_command(0x8040, 2), [0x80, 0x40, 2]);
    let p = decode_point(&[3, 0x10, 0x01, 0x20, 0x00, 5, 0, 0]);
    assert_eq!(p, Point { track_id: 3, x: 0x110, y: 0x20, area: 5 });
    let two = decode_points(&[1, 1, 0, 2, 0, 3, 0, 0, 2, 4, 0, 5, 0, 6, 0, 0], 2);
    assert_eq!(two[1], Point { track_id: 2, x: 4, y: 5, area: 6 });
}

#[test]
fn gt911_status_and_product_id() {
    assert!(matches!(touch_point_count::<()>(0x82), Ok(2)));
    assert!(matches!(touch_point_count::<()>(0x02), Err(TouchError::NotReady)));
    assert!(check_product_id::<()>(b"911\0").is_ok());
    assert!(check_product_id::<()>(b"912\0").is_err());
}

#[test]
fn media_player_walks_the_playlist() {
    let list = playlist();
    assert_eq!(list.len(), 3);
    assert_eq!(list[2].title, "Song Three");
    let mut p = Player::new();
    assert_eq!(p.get_status_text(), "Stopped");
    p.prev();
    assert_eq!(p.current_track_index, 2);
    p.next();
    assert_eq!(p.current_track_index, 0);
    assert!(p.play().is_ok());
    p.pause();
    assert_eq!(p.state, PlaybackState::Paused);
    p.pause();
    assert_eq!(p.state, PlaybackState::Playing);
    p.stop();
    p.pause();
    assert_eq!(p.state, PlaybackState::Stopped);
}

#[test]
fn media_actions_and_volume() {
    let mut p = Player::new();
    let mut vol = 97u8;
    assert_eq!(handle_action(&mut p, &mut vol, "volume_up"), "Volume up");
    assert_eq!(vol, 100);
    assert_eq!(handle_action(&mut p, &mut vol, "play"), "Playing");
    assert_eq!(handle_action(&mut p, &mut vol, "next"), "Next track");
    assert_eq!(p.current_track_index, 1);
    assert_eq!(handle_action(&mut p, &mut vol, "status"), "Playing");
    assert_eq!(handle_action(&mut p, &mut vol, "dance"), "Unknown action");
    assert_eq!(volume_up(98), 100);
    assert_eq!(volume_up(10), 15);
    assert_eq!(volume_down(3), 0);
    assert_eq!(volume_down(10), 5);
}

#[test]
fn media_command_codes() {
    for code in 0u8..=7 {
        let cmd = MediaCommand::from(code);
        let expected = match code {
            1 => MediaCommand::Prev,
            2 => MediaCommand::PlayPause,
            3 => MediaCommand::Next,
            4 => MediaCommand::Heart,
            5 => MediaCommand::Clear,
            _ => MediaCommand::NoCommand,
        };
        assert_eq!(cmd, expected);
        if code <= 5 {
            assert_eq!(cmd.code(), code);
        }
    }
    assert_ne!(DisplayCommand::Start, DisplayCommand::Stop);
}

#[test]
fn framebuffer_clear_color_uses_raw_value() {
    let mut fb = Framebuffer::new();
    fb.clear_color(Color565 { r: 31, g: 0, b: 0 });
    assert!(fb.buffer().iter().all(|&p| p == 0xF800));
    assert_eq!(Rgb565::RED.into_storage(), 0xF800);
    fb.clear_color(Color565 { r: 0, g: 63, b: 0 });
    assert!(fb.buffer().iter().all(|&p| p == 0x07E0));
    fb.clear_color(Color565 { r: 0x21, g: 0x41, b: 0xFF });
    assert!(fb.buffer().iter().all(|&p| p == Rgb565::new(0x21, 0x41, 0xFF).into_storage()));
    assert!(fb.buffer().iter().all(|&p| p == (1 << 11) | (1 << 5) | 31));
}

/// Runs a driver run against a simulated controller that answers reads
/// from `answers`, and returns the transfers made and the outcome.
fn run_touch(driver: &Gt911Blocking<()>, start: DriverState, answers: &[Vec<u8>]) -> (Vec<(u8, Vec<u8>, usize)>, TouchOutcome) {
    let mut state = start;
    let mut read: Vec<u8> = Vec::new();
    let mut ops = Vec::new();
    let mut next_answer = 0;
    loop {
        let (next, action) = driver.step(state, &read);
        match action {
            DriverAction::Finish(o) => return (ops, o),
            DriverAction::Transfer(op) => {
                read = if op.read_len > 0 {
                    next_answer += 1;
                    answers[next_answer - 1].clone()
                } else {
                    Vec::new()
                };
                ops.push((op.addr, op.bytes.clone(), op.read_len));
            }
        }
        state = next;
    }
}

#[test]
fn gt911_driver_addresses_every_transfer_to_its_address() {
    let driver = Gt911Blocking::<()>::new(0x14);
    let (ops, outcome) = run_touch(&driver, DriverState::Init, &[vec![0x39, 0x31, 0x31, 0x00]]);
    assert!(matches!(outcome, TouchOutcome::Ready));
    assert_eq!(ops, vec![(0x14, vec![0x80, 0x40, 0x00], 0), (0x14, vec![0x81, 0x40], 4), (0x14, vec![0x81, 0x4E, 0x00], 0)]);

    let (ops, outcome) = run_touch(&driver, DriverState::Init, &[vec![0x39, 0x31, 0x32, 0x00]]);
    assert!(matches!(outcome, TouchOutcome::UnexpectedProductId));
    assert_eq!(ops.len(), 2);

    let record = vec![3, 0x10, 0x01, 0x20, 0x00, 0x05, 0x00, 0];
    let (ops, outcome) = run_touch(&driver, DriverState::Query(TouchQuery::Single), &[vec![0x82], record.clone()]);
    assert_eq!(ops, vec![(0x14, vec![0x81, 0x4E], 1), (0x14, vec![0x81, 0x4F], 8), (0x14, vec![0x81, 0x4E, 0x00], 0)]);
    match outcome {
        TouchOutcome::Touch(Some(p)) => assert_eq!(p, Point { track_id: 3, x: 0x110, y: 0x20, area: 5 }),
        other => panic!("unexpected outcome {:?}", other),
    }

    let mut two = record.clone();
    two.extend_from_slice(&[4, 1, 0, 2, 0, 3, 0, 0]);
    let (ops, outcome) = run_touch(&driver, DriverState::Query(TouchQuery::Multi), &[vec![0x82], two]);
    assert_eq!(ops[1], (0x14, vec![0x81, 0x4F], 16));
    match outcome {
        TouchOutcome::Touches(v) => assert_eq!(v.len(), 2),
        other => panic!("unexpected outcome {:?}", other),
    }

    let (ops, outcome) = run_touch(&driver, DriverState::Query(TouchQuery::Single), &[vec![0x02]]);
    assert!(matches!(outcome, TouchOutcome::NotReady));
    assert_eq!(ops.len(), 1);

    let (ops, outcome) = run_touch(&driver, DriverState::Query(TouchQuery::Multi), &[vec![0x80]]);
    assert!(matches!(outcome, TouchOutcome::Touches(ref v) if v.is_empty()));
    assert_eq!(ops.len(), 2);
    assert!(ops.iter().all(|op| op.0 == 0x14));
}

#[test]
fn es7210_calls_repeat_their_writes_on_any_driver() {
    let a = Es7210::new(0x40);
    let b = Es7210::new(0x41);
    let (first, r1) = a.config_codec::<()>(&board_config());
    let (again, r2) = a.config_codec::<()>(&board_config());
    let (other, r3) = b.config_codec::<()>(&board_config());
    assert_eq!(first, again);
    assert_eq!(first, other);
    assert!(r1.is_ok() && r2.is_ok() && r3.is_ok());
    assert_eq!(a.disable(), vec![(0x00, 0x00)]);
    assert_eq!(a.disable(), b.disable());
    assert_eq!(a.enable(), vec![(0x00, 0x71), (0x00, 0x41)]);
}
