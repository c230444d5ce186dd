use statusbar::clock::TimeFields;
use statusbar::status::{null_terminated, toggle_mode, Status};

fn fields(stamp: i64) -> TimeFields {
    TimeFields { stamp, month: 8, day: 10, hour: 12, minute: 0 }
}

#[test]
fn fresh_status_is_empty() {
    let s = Status::new();
    assert_eq!(s.time, "");
    assert_eq!(s.cpu, "");
    assert_eq!(s.mem, "");
    assert_eq!(s.vol, "");
    assert!(!s.dirty);
}

#[test]
fn forced_tick_composes_normal_line() {
    let mut s = Status::new();
    s.apply_tick(fields(1234567), true, 7, 512, None);
    assert!(s.dirty);
    assert_eq!(s.compose(false), "[ 7%|512KB] 08/10 12:00");
}

#[test]
fn forced_tick_composes_extended_line() {
    let mut s = Status::new();
    s.apply_tick(fields(1234567), true, 7, 512, Some(String::from("E")));
    assert!(s.dirty);
    assert_eq!(s.compose(true), "[ 7%|512KB] (E) 08/10 12:00");
}

#[test]
fn time_updates_only_on_minute_boundary() {
    let mut s = Status::new();
    s.apply_tick(fields(120), true, 7, 512, None);
    let before = s.time.clone();
    // 121 is off the minute boundary: the time field must keep its value.
    s.apply_tick(TimeFields { stamp: 121, month: 9, day: 11, hour: 13, minute: 1 }, false, 7, 512, None);
    assert_eq!(s.time, before);
    // 180 is a minute boundary: the time field is rewritten.
    s.apply_tick(TimeFields { stamp: 180, month: 9, day: 11, hour: 13, minute: 3 }, false, 7, 512, None);
    assert_eq!(s.time, "09/11 13:03");
}

#[test]
fn system_updates_only_on_three_second_boundary() {
    let mut s = Status::new();
    s.apply_tick(fields(120), true, 7, 512, None);
    // 121 and 122 are off the boundary: CPU and memory keep their values.
    s.apply_tick(fields(121), false, 50, 999999, None);
    assert_eq!(s.cpu, " 7%");
    assert_eq!(s.mem, "512KB");
    s.apply_tick(fields(122), false, 50, 999999, None);
    assert_eq!(s.cpu, " 7%");
    assert_eq!(s.mem, "512KB");
    // 123 is a multiple of three: both are rewritten.
    s.apply_tick(fields(123), false, 50, 999999, None);
    assert_eq!(s.cpu, "50%");
    assert_eq!(s.mem, "976MB");
}

#[test]
fn off_boundary_tick_changes_nothing_and_keeps_flag_clear() {
    let mut s = Status::new();
    s.apply_tick(fields(120), true, 7, 512, None);
    s.mark_published();
    s.apply_tick(fields(122), false, 50, 999999, None);
    assert!(!s.dirty);
    assert_eq!(s.compose(false), "[ 7%|512KB] 08/10 12:00");
}

#[test]
fn volume_field_follows_handed_in_text() {
    let mut s = Status::new();
    s.apply_tick(fields(122), false, 0, 0, Some(String::from("40%")));
    assert!(s.dirty);
    assert_eq!(s.vol, "40%");
    s.mark_published();
    s.apply_tick(fields(122), false, 0, 0, None);
    assert_eq!(s.vol, "40%");
    assert!(!s.dirty);
}

#[test]
fn publish_clears_dirty_and_keeps_fields() {
    let mut s = Status::new();
    s.apply_tick(fields(60), true, 7, 512, None);
    assert!(s.dirty);
    s.mark_published();
    assert!(!s.dirty);
    assert_eq!(s.cpu, " 7%");
}

#[test]
fn toggling_twice_restores_the_composed_format() {
    let mut s = Status::new();
    s.apply_tick(fields(0), true, 7, 512, Some(String::from("E")));
    let extended = false;
    let line = s.compose(extended);
    let once = toggle_mode(extended);
    assert_ne!(s.compose(once), line);
    let twice = toggle_mode(once);
    assert_eq!(s.compose(twice), line);
}

#[test]
fn terminated_line_gets_one_trailing_nul() {
    assert_eq!(null_terminated("hello"), "hello\0");
    assert_eq!(null_terminated(""), "\0");
}
