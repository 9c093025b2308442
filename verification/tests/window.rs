use live_wgsl::window::{format_utc_to_string, status_line, window_event, FrameSignal};

#[test]
fn tick_and_redraw_request_draw_a_frame() {
    for signal in [FrameSignal::Tick, FrameSignal::RedrawRequested] {
        let reaction = window_event(signal);
        assert!(reaction.redraw);
        assert!(!reaction.exit);
        assert_eq!(reaction.resize, None);
    }
}

#[test]
fn close_request_leaves_the_loop_without_drawing() {
    let reaction = window_event(FrameSignal::CloseRequested);
    assert!(reaction.exit);
    assert!(!reaction.redraw);
    assert_eq!(reaction.resize, None);
}

#[test]
fn resize_is_passed_on_and_followed_by_a_frame() {
    let reaction = window_event(FrameSignal::Resized(1024, 768));
    assert_eq!(reaction.resize, Some((1024, 768)));
    assert!(reaction.redraw);
    assert!(!reaction.exit);
    let reaction = window_event(FrameSignal::Resized(0, 0));
    assert_eq!(reaction.resize, Some((0, 0)));
    assert!(reaction.redraw);
}

#[test]
fn other_signals_are_ignored() {
    let reaction = window_event(FrameSignal::Other);
    assert!(!reaction.exit);
    assert!(!reaction.redraw);
    assert_eq!(reaction.resize, None);
}

#[test]
fn clock_fields_take_two_digits() {
    assert_eq!(format_utc_to_string(0, 0, 0), "00:00:00");
    assert_eq!(format_utc_to_string(9, 5, 3), "09:05:03");
    assert_eq!(format_utc_to_string(23, 59, 59), "23:59:59");
    assert_eq!(format_utc_to_string(12, 0, 60), "12:00:60");
}

#[test]
fn clock_fields_agree_with_std_formatting() {
    for (hour, minute, second) in [(1, 2, 3), (10, 20, 30), (7, 100, 4_000_000_000u32), (u32::MAX, 0, 99)] {
        assert_eq!(
            format_utc_to_string(hour, minute, second),
            format!("{:02}:{:02}:{:02}", hour, minute, second)
        );
    }
}

#[test]
fn status_line_without_update() {
    assert_eq!(status_line(None, 42), "\rRender time:   42μs");
    assert_eq!(status_line(None, 0), "\rRender time:    0μs");
    assert_eq!(status_line(None, 99_999), "\rRender time:99999μs");
    assert_eq!(status_line(None, 123_456), "\rRender time:123456μs");
}

#[test]
fn status_line_with_update() {
    assert_eq!(status_line(Some("12:34:56"), 1500), "\r(updated: 12:34:56) Render time: 1500μs");
    assert_eq!(status_line(Some(""), 7), "\r(updated: ) Render time:    7μs");
}

#[test]
fn status_line_agrees_with_std_formatting() {
    for micros in [0u128, 9, 10, 99, 100, 12_345, 1_000_000, u64::MAX as u128, u128::MAX] {
        assert_eq!(status_line(None, micros), format!("\rRender time:{:>5}μs", micros));
        assert_eq!(
            status_line(Some("01:02:03"), micros),
            format!("\r(updated: {}) Render time:{:>5}μs", "01:02:03", micros)
        );
    }
}
