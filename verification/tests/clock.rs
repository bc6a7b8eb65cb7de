use esp32_s3_box3::time::{ntp_time_from_response, up_one_min, DateTime};

fn ntp_packet(secs: [u8; 4]) -> [u8; 48] {
    let mut p = [0u8; 48];
    p[40..44].copy_from_slice(&secs);
    p
}

fn fields(dt: &DateTime) -> (u8, u8, u8, u8, u8, u8, u8) {
    (dt.year, dt.month, dt.day, dt.hours, dt.minutes, dt.seconds, dt.weekday)
}

#[test]
fn new_keeps_fields_and_zero_weekday() {
    let dt = DateTime::new(25, 12, 31, 23, 59, 58);
    assert_eq!(fields(&dt), (25, 12, 31, 23, 59, 58, 0));
}

#[test]
fn up_one_min_simple() {
    let mut dt = DateTime::new(25, 5, 4, 10, 20, 33);
    up_one_min(&mut dt);
    assert_eq!(fields(&dt), (25, 5, 4, 10, 21, 0, 0));
}

#[test]
fn up_one_min_rolls_into_next_hour() {
    let mut dt = DateTime::new(25, 5, 4, 10, 59, 12);
    up_one_min(&mut dt);
    assert_eq!(fields(&dt), (25, 5, 4, 11, 0, 0, 0));
}

#[test]
fn up_one_min_rolls_over_midnight_without_changing_date() {
    let mut dt = DateTime::new(25, 5, 4, 23, 59, 0);
    up_one_min(&mut dt);
    assert_eq!(fields(&dt), (25, 5, 4, 0, 0, 0, 0));
}

#[test]
fn ntp_short_answer_is_rejected() {
    let p = ntp_packet([235, 31, 4, 0]);
    assert!(ntp_time_from_response(&p, 47).is_none());
    assert!(ntp_time_from_response(&p, 0).is_none());
}

#[test]
fn ntp_winter_time_is_utc_plus_one() {
    let p = ntp_packet([235, 31, 4, 0]);
    let dt = ntp_time_from_response(&p, 48).unwrap();
    assert_eq!(fields(&dt), (25, 1, 1, 1, 0, 0, 0));
}

#[test]
fn ntp_summer_time_is_utc_plus_two() {
    let p = ntp_packet([236, 32, 200, 117]);
    let dt = ntp_time_from_response(&p, 48).unwrap();
    assert_eq!(fields(&dt), (25, 7, 15, 14, 30, 45, 0));
}

#[test]
fn ntp_summer_time_starts_at_two_utc_on_last_march_sunday() {
    let before = ntp_time_from_response(&ntp_packet([235, 147, 22, 16]), 48).unwrap();
    assert_eq!(fields(&before), (25, 3, 30, 2, 0, 0, 0));
    let after = ntp_time_from_response(&ntp_packet([235, 147, 36, 32]), 48).unwrap();
    assert_eq!(fields(&after), (25, 3, 30, 4, 0, 0, 0));
}

#[test]
fn ntp_late_october_sunday_before_three_utc_is_summer() {
    let dt = ntp_time_from_response(&ntp_packet([236, 167, 255, 32]), 48).unwrap();
    assert_eq!(fields(&dt), (25, 10, 26, 4, 0, 0, 0));
}

#[test]
fn ntp_new_year_rolls_the_date() {
    let dt = ntp_time_from_response(&ntp_packet([235, 30, 252, 248]), 48).unwrap();
    assert_eq!(fields(&dt), (25, 1, 1, 0, 30, 0, 0));
}

#[test]
fn ntp_leap_day() {
    let dt = ntp_time_from_response(&ntp_packet([233, 138, 71, 98]), 48).unwrap();
    assert_eq!(fields(&dt), (24, 2, 29, 0, 59, 30, 0));
}

#[test]
fn ntp_request_is_a_client_packet() {
    let r = esp32_s3_box3::time::ntp_request();
    assert_eq!(r[0], 0x1B);
    assert!(r[1..].iter().all(|&b| b == 0));
}

#[test]
fn an_hour_and_a_day_of_minute_ticks() {
    for (h, m) in [(0u8, 0u8), (10, 20), (23, 59), (23, 0), (12, 59)] {
        let start = DateTime::new(25, 5, 4, h, m, 0);
        let mut dt = start;
        for i in 1..=1440u32 {
            up_one_min(&mut dt);
            assert!(dt.minutes < 60 && dt.hours < 24 && dt.seconds == 0);
            if i == 60 {
                assert_eq!((dt.hours, dt.minutes), ((h + 1) % 24, m));
            }
        }
        assert_eq!(fields(&dt), fields(&start));
    }
}
