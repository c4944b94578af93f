use gpu_particles::time::{FPSData, Time};

const SEC: u64 = 1_000_000_000;

#[test]
fn empty_interval_is_refused() {
    assert!(Time::new(0, 5).is_none());
}

#[test]
fn fps_report_counts_frames_of_the_window() {
    let start = 1_000;
    let mut t = Time::new(SEC, start).unwrap();
    let n = 60u64;
    for i in 1..=n {
        // spaced evenly over slightly more than one second
        t.render_tick(start + i * (SEC + 600) / n);
    }
    assert_eq!(t.render_ticks(), 60);
    let report = t.get_fps(start + SEC + 600).unwrap();
    assert_eq!(report, FPSData { frames: 60, interval_ns: SEC });
    assert_eq!(report.render_fps_milli(), 60_000);
    assert_eq!(t.frame_since_last_fps_check, 0);
    assert_eq!(t.last_fps_check, start + SEC + 600);
    assert!(t.get_fps(start + SEC + 700).is_none());
}

#[test]
fn no_report_before_interval_passes() {
    let mut t = Time::new(SEC, 0).unwrap();
    t.render_tick(10);
    assert!(t.get_fps(SEC).is_none());
    assert_eq!(t.frame_since_last_fps_check, 1);
    assert_eq!(t.get_fps(SEC + 1).map(|d| d.frames), Some(1));
}

#[test]
fn fps_in_thousandths_rounds_down() {
    let d = FPSData { frames: 10, interval_ns: 3 * SEC };
    assert_eq!(d.render_fps_milli(), 3_333);
    let e = FPSData { frames: 1, interval_ns: SEC / 2 };
    assert_eq!(e.render_fps_milli(), 2_000);
}

#[test]
fn elapsed_since_start_saturates() {
    let t = Time::new(SEC, 500).unwrap();
    assert_eq!(t.get_elapsed(1_500), 1_000);
    assert_eq!(t.get_elapsed(100), 0);
}

#[test]
fn render_tick_records_frame() {
    let mut t = Time::new(SEC, 0).unwrap();
    t.render_tick(42);
    t.render_tick(84);
    assert_eq!(t.last_frame, 84);
    assert_eq!(t.render_ticks(), 2);
    assert_eq!(t.frame_since_last_fps_check, 2);
}

#[test]
fn frame_count_stops_at_its_limit() {
    let mut t = Time::new(SEC, 0).unwrap();
    t.frame_since_last_fps_check = u32::MAX;
    t.render_tick(1);
    assert_eq!(t.frame_since_last_fps_check, u32::MAX);
}
