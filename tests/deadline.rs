use listenbrainz_mpv::deadline::{deadline_from, scrobble_threshold, shift_by_pause, DeadlineScheduler};

#[test]
fn threshold_is_half_of_a_200_second_track() {
    assert_eq!(scrobble_threshold(200_000, 1000), 100_000);
}

#[test]
fn threshold_of_a_short_track_is_one_second_less() {
    assert_eq!(scrobble_threshold(30_000, 1000), 29_000);
    assert_eq!(scrobble_threshold(40_000, 1000), 39_000);
}

#[test]
fn threshold_just_above_the_short_limit_is_half() {
    assert_eq!(scrobble_threshold(41_000, 1000), 20_500);
}

#[test]
fn threshold_is_capped_at_four_minutes() {
    assert_eq!(scrobble_threshold(600_000, 1000), 240_000);
    assert_eq!(scrobble_threshold(480_000, 1000), 240_000);
}

#[test]
fn threshold_scales_with_speed() {
    assert_eq!(scrobble_threshold(600_000, 2000), 120_000);
    assert_eq!(scrobble_threshold(200_000, 500), 200_000);
}

#[test]
fn threshold_of_a_sub_second_track_is_zero() {
    assert_eq!(scrobble_threshold(500, 1000), 0);
}

#[test]
fn deadline_subtracts_position_and_clamps() {
    assert_eq!(deadline_from(1_000, 200_000, 1000, 30_000), 71_000);
    assert_eq!(deadline_from(1_000, 200_000, 1000, 150_000), 1_000);
    assert_eq!(deadline_from(u64::MAX - 5, 200_000, 1000, 0), u64::MAX);
}

#[test]
fn pause_shifts_deadline_by_paused_time() {
    assert_eq!(shift_by_pause(100_000, 40_000, 55_000), 115_000);
    assert_eq!(shift_by_pause(100_000, 40_000, 40_000), 100_000);
}

#[test]
fn scheduler_keeps_one_timer() {
    let mut s = DeadlineScheduler::new();
    assert_eq!(s.armed_at(), None);
    s.cancel();
    assert_eq!(s.armed_at(), None);
    s.arm(10);
    s.arm(20);
    assert_eq!(s.armed_at(), Some(20));
    s.reschedule(30);
    assert_eq!(s.armed_at(), Some(30));
    s.cancel();
    assert_eq!(s.armed_at(), None);
}
