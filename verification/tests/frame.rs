use std::sync::Arc;

use alacritty_background::duration::Duration;
use alacritty_background::frame::{Frame, FrameBuffer};

fn micros(micros: u128) -> Duration {
    Duration { nanos: micros * 1000 }
}

fn frame(pts: i64) -> Arc<Frame> {
    Arc::new(Frame::from_buffer(&[1, 2, 3], 3, pts))
}

/// A buffer of a stream that counts in milliseconds and lasts for a second.
fn buffer(stamps: &[i64]) -> FrameBuffer {
    let mut buffer = FrameBuffer::new(micros(1000), micros(1_000_000));
    for pts in stamps {
        assert!(buffer.put(frame(*pts)));
    }
    buffer
}

/// Takes at a time and tells the timestamp of the frame.
fn take(buffer: &mut FrameBuffer, time: Duration) -> (Option<i64>, bool) {
    let (frame, wrapped) = buffer.take(time);
    (frame.map(|frame| frame.pts), wrapped)
}

/// Counts how many frames still fit.
fn room(buffer: &mut FrameBuffer) -> usize {
    let mut count = 0;
    while buffer.put(frame(0)) {
        count += 1;
    }
    count
}

#[test]
fn micros_round_down() {
    assert_eq!(Duration { nanos: 999 }.as_micros(), 0);
    assert_eq!(Duration { nanos: 11_111 }.as_micros(), 11);
    assert_eq!(Duration::zero().as_micros(), 0);
}

#[test]
fn time_before_the_start_is_none() {
    let early = Duration { nanos: 3 };
    let late = Duration { nanos: 10 };
    assert_eq!(late.saturating_sub(early).nanos, 7);
    assert_eq!(early.saturating_sub(late).nanos, 0);
}

#[test]
fn from_buffer_copies_only_the_image() {
    let frame = Frame::from_buffer(&[7, 8, 9, 10], 3, 42);
    assert_eq!(frame.data, vec![7, 8, 9]);
    assert_eq!(frame.pts, 42);
}

#[test]
fn buffer_holds_thirty_one_frames() {
    let mut buffer = buffer(&[]);
    assert_eq!(room(&mut buffer), 31);
    assert!(!buffer.put(frame(0)));
    assert!(!buffer.put(frame(0)));
}

#[test]
fn time_base_is_kept() {
    let mut buffer = buffer(&[0, 5]);
    take(&mut buffer, micros(5000));
    assert_eq!(buffer.time_base(), micros(1000));
}

#[test]
fn take_from_empty_buffer() {
    let mut buffer = buffer(&[]);
    assert_eq!(take(&mut buffer, micros(0)), (None, false));
}

#[test]
fn take_at_zero_gives_the_front() {
    let mut buffer = buffer(&[70, 80]);
    assert_eq!(take(&mut buffer, Duration::zero()), (Some(70), false));
    assert_eq!(room(&mut buffer), 29);
}

#[test]
fn take_skips_frames_whose_time_has_passed() {
    let mut buffer = buffer(&[0, 40, 80, 120]);
    assert_eq!(take(&mut buffer, micros(41_000)), (Some(80), false));
    assert_eq!(room(&mut buffer), 29);
}

#[test]
fn take_at_the_exact_tick() {
    let mut buffer = buffer(&[0, 40, 80]);
    assert_eq!(take(&mut buffer, micros(40_999)), (Some(40), false));
    assert_eq!(take(&mut buffer, micros(41_000)), (Some(80), false));
}

#[test]
fn ticks_go_by_whole_microseconds() {
    // a tick of 11.1 microseconds counts as 11
    let mut buffer = FrameBuffer::new(Duration { nanos: 11_111 }, micros(1_000_000));
    assert!(buffer.put(frame(9)));
    assert!(buffer.put(frame(10)));
    assert_eq!(take(&mut buffer, micros(109)), (Some(9), false));
    assert_eq!(take(&mut buffer, micros(110)), (Some(10), false));
}

#[test]
fn taken_frame_stays_in_front() {
    let mut buffer = buffer(&[0, 40, 80]);
    assert_eq!(take(&mut buffer, micros(40_000)), (Some(40), false));
    assert_eq!(take(&mut buffer, micros(40_000)), (Some(40), false));
    assert_eq!(take(&mut buffer, micros(0)), (Some(40), false));
}

#[test]
fn take_ahead_of_the_buffer_drops_nothing() {
    let mut buffer = buffer(&[0, 40]);
    assert_eq!(take(&mut buffer, micros(50_000)), (None, false));
    assert_eq!(take(&mut buffer, micros(0)), (Some(0), false));
    assert_eq!(room(&mut buffer), 29);
}

#[test]
fn earlier_take_makes_no_difference() {
    let mut with = buffer(&[0, 40, 80, 120]);
    let mut without = buffer(&[0, 40, 80, 120]);
    take(&mut with, micros(40_000));
    assert_eq!(take(&mut with, micros(100_000)), (Some(120), false));
    assert_eq!(take(&mut without, micros(100_000)), (Some(120), false));
    assert_eq!(room(&mut with), room(&mut without));
}

#[test]
fn earlier_take_keeps_what_it_left() {
    let mut with = buffer(&[0, 40]);
    let mut without = buffer(&[0, 40]);
    take(&mut with, micros(30_000));
    assert_eq!(take(&mut with, micros(50_000)), (None, false));
    assert_eq!(take(&mut without, micros(50_000)), (None, false));
    assert_eq!((room(&mut with), room(&mut without)), (30, 29));
}

#[test]
fn earlier_take_leaves_a_new_start_to_be_told() {
    let mut with = buffer(&[800, 900, 0]);
    let mut without = buffer(&[800, 900, 0]);
    assert_eq!(take(&mut with, micros(850_000)), (Some(900), false));
    assert_eq!(take(&mut with, micros(950_000)), (Some(0), true));
    assert_eq!(take(&mut without, micros(950_000)), (Some(0), true));
}

#[test]
fn take_stops_where_playback_starts_over() {
    let mut buffer = buffer(&[900, 940, 0, 40]);
    assert_eq!(take(&mut buffer, micros(960_000)), (Some(0), true));
    assert_eq!(take(&mut buffer, micros(0)), (Some(0), false));
}

#[test]
fn take_passes_a_new_start_in_front() {
    let mut buffer = buffer(&[900, 0, 40]);
    assert_eq!(take(&mut buffer, micros(950_000)), (Some(0), true));
    assert_eq!(take(&mut buffer, micros(950_000)), (None, false));
}

#[test]
fn equal_timestamps_are_no_new_start() {
    let mut buffer = buffer(&[10, 10, 20]);
    assert_eq!(take(&mut buffer, micros(15_000)), (Some(20), false));
}

#[test]
fn take_after_the_end_wraps_around() {
    let mut buffer = buffer(&[0, 2000]);
    assert_eq!(take(&mut buffer, micros(1_000_000)), (Some(2000), false));
    let over = Duration { nanos: 1_000_000_001 };
    assert_eq!(take(&mut buffer, over), (Some(2000), true));
    assert_eq!(take(&mut buffer, micros(3_000_000)), (None, true));
}

#[test]
fn negative_timestamp_is_due_at_once() {
    let mut buffer = buffer(&[i64::MIN, 40]);
    assert_eq!(take(&mut buffer, micros(40_000)), (Some(i64::MIN), false));
    assert_eq!(room(&mut buffer), 29);
}

#[test]
fn later_frames_do_not_disturb_a_take() {
    let mut some = buffer(&[0, 40]);
    let mut more = buffer(&[0, 40, 80]);
    assert_eq!(take(&mut some, micros(30_000)), take(&mut more, micros(30_000)));
}

#[test]
fn full_buffer_has_room_after_a_take() {
    let mut buffer = buffer(&[]);
    for pts in 0..31 {
        assert!(buffer.put(frame(pts)));
    }
    assert!(!buffer.put(frame(31)));
    assert_eq!(take(&mut buffer, micros(1000)), (Some(1), false));
    assert!(buffer.put(frame(31)));
    assert!(!buffer.put(frame(32)));
}

#[test]
fn frames_come_out_in_the_order_they_went_in() {
    let mut buffer = buffer(&[0, 1, 2]);
    let mut seen = vec![];
    for time in 0..5 {
        if let (Some(pts), _) = take(&mut buffer, micros(time * 1000)) {
            seen.push(pts);
        }
        assert!(buffer.put(frame(time as i64 + 3)));
    }
    assert_eq!(seen, vec![0, 1, 2, 3, 4]);
}
