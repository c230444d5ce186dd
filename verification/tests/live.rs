use statusbar::clock::now_fields;
use statusbar::status::Status;
use statusbar::sysmon::{new_system, sample_system};

#[test]
fn sampled_clock_parts_lie_in_their_ranges() {
    let t = now_fields();
    assert!((1..=12).contains(&t.month));
    assert!((1..=31).contains(&t.day));
    assert!(t.hour <= 23);
    assert!(t.minute <= 59);
}

#[test]
fn sampled_memory_is_nonzero() {
    let mut sys = new_system();
    let (_pct, kb) = sample_system(&mut sys);
    // A running system always has some used memory.
    assert!(kb > 0);
}

#[test]
fn forced_refresh_fills_every_field_with_its_shape() {
    let mut sys = new_system();
    let mut s = Status::new();
    s.refresh(&mut sys, None, true);
    assert!(s.dirty);
    // MM/DD hh:mm
    let time: Vec<char> = s.time.chars().collect();
    assert_eq!(time.len(), 11);
    assert_eq!(time[2], '/');
    assert_eq!(time[5], ' ');
    assert_eq!(time[8], ':');
    for i in [0, 1, 3, 4, 6, 7, 9, 10] {
        assert!(time[i].is_ascii_digit());
    }
    assert!(s.cpu.ends_with('%'));
    assert!(s.cpu.len() >= 3);
    assert!(s.mem.ends_with("KB") || s.mem.ends_with("MB") || s.mem.ends_with("GB"));
    assert_eq!(s.vol, "");
}

#[test]
fn unforced_tick_keeps_the_volume_field() {
    let mut sys = new_system();
    let mut s = Status::new();
    s.refresh(&mut sys, Some(String::from("E")), true);
    assert_eq!(s.vol, "E");
    s.refresh(&mut sys, None, false);
    assert_eq!(s.vol, "E");
}
