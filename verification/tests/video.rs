use std::sync::Arc;

use alacritty_background::decoder::Decoder;
use alacritty_background::duration::Duration;
use alacritty_background::error::Error;
use alacritty_background::frame::{Frame, FrameBuffer};
use alacritty_background::gl::GlCommand;
use alacritty_background::video::{BackgroundVideo, DecodeAction, RETRY_MILLIS};

fn micros(micros: u128) -> Duration {
    Duration { nanos: micros * 1000 }
}

fn frame(pts: i64) -> Arc<Frame> {
    Arc::new(Frame { data: vec![0, 1, 2], pts })
}

fn decoder(duration: i64) -> Decoder {
    Decoder { width: 8, height: 6, buffer_size: 144, duration, video_stream_index: 0 }
}

/// A video, or a still image, that counts in milliseconds and lasts for a
/// second, and the buffer with these frames.
fn playback(image: bool, stamps: &[i64]) -> (BackgroundVideo, FrameBuffer) {
    let duration = if image { 0 } else { 1_000_000 };
    let mut playback =
        BackgroundVideo::new(&decoder(duration), micros(1000), micros(1_000_000));
    for pts in stamps {
        assert!(playback.buffer.put(frame(*pts)));
    }
    (playback.video, playback.buffer)
}

/// Updates and tells the timestamp of the frame that is shown.
fn update(video: &mut BackgroundVideo, buffer: &mut FrameBuffer, now: Duration) -> Option<i64> {
    let commands = video.update_frame(3, buffer, now);
    if commands.is_empty() {
        return None;
    }
    match &commands[2] {
        GlCommand::UploadFrame { frame, .. } => Some(frame.pts),
        _ => panic!("no upload"),
    }
}

#[test]
fn playback_of_a_video() {
    let playback = BackgroundVideo::new(&decoder(1), micros(40), micros(90));
    assert_eq!(
        playback.video,
        BackgroundVideo { instant: None, is_image: false, width: 8, height: 6 }
    );
    assert!(playback.refresh);
    assert_eq!(playback.buffer.time_base(), micros(40));
}

#[test]
fn playback_of_an_image() {
    let playback = BackgroundVideo::new(&decoder(0), micros(40), micros(0));
    assert!(playback.video.is_image);
    assert!(!playback.refresh);
}

#[test]
fn update_uploads_the_frame() {
    let (mut video, mut buffer) = playback(false, &[0]);
    let commands = video.update_frame(3, &mut buffer, micros(7));
    assert_eq!(
        commands,
        vec![
            GlCommand::UnpackRowLength { pixels: 8 },
            GlCommand::BindTexture { texture: 3 },
            GlCommand::UploadFrame { width: 8, height: 6, frame: frame(0) },
            GlCommand::BindTexture { texture: 0 },
            GlCommand::UnpackRowLength { pixels: 0 },
        ]
    );
}

#[test]
fn clock_waits_for_the_first_frame() {
    let (mut video, mut buffer) = playback(false, &[]);
    assert_eq!(update(&mut video, &mut buffer, micros(100)), None);
    assert_eq!(video.instant, None);
    assert!(buffer.put(frame(500)));
    assert_eq!(update(&mut video, &mut buffer, micros(200)), Some(500));
    assert_eq!(video.instant, Some(micros(200)));
}

#[test]
fn video_keeps_pace_with_the_clock() {
    let (mut video, mut buffer) = playback(false, &[0, 40, 80]);
    assert_eq!(update(&mut video, &mut buffer, micros(1_000_000)), Some(0));
    assert_eq!(update(&mut video, &mut buffer, micros(1_040_000)), Some(40));
    assert_eq!(update(&mut video, &mut buffer, micros(1_079_000)), Some(80));
    assert_eq!(update(&mut video, &mut buffer, micros(1_090_000)), None);
    assert_eq!(video.instant, Some(micros(1_000_000)));
}

#[test]
fn clock_that_runs_back_counts_as_no_time() {
    let (mut video, mut buffer) = playback(false, &[0, 40]);
    assert_eq!(update(&mut video, &mut buffer, micros(1_000_000)), Some(0));
    assert_eq!(update(&mut video, &mut buffer, micros(900_000)), Some(0));
}

#[test]
fn video_starts_over_after_its_time() {
    let (mut video, mut buffer) = playback(false, &[0, 960]);
    assert_eq!(update(&mut video, &mut buffer, micros(0)), Some(0));
    assert_eq!(update(&mut video, &mut buffer, micros(1_000_001)), None);
    assert_eq!(video.instant, None);
    assert_eq!(update(&mut video, &mut buffer, micros(1_020_000)), Some(0));
    assert_eq!(video.instant, Some(micros(1_020_000)));
}

#[test]
fn video_starts_over_with_its_frames() {
    let (mut video, mut buffer) = playback(false, &[900, 940, 0, 40]);
    assert_eq!(update(&mut video, &mut buffer, micros(0)), Some(900));
    assert_eq!(update(&mut video, &mut buffer, micros(950_000)), Some(0));
    assert_eq!(video.instant, None);
    assert_eq!(update(&mut video, &mut buffer, micros(960_000)), Some(0));
    assert_eq!(update(&mut video, &mut buffer, micros(1_000_000)), Some(40));
}

#[test]
fn start_is_shown_again_after_puts() {
    let (mut video, mut buffer) = playback(false, &[900, 0]);
    assert_eq!(update(&mut video, &mut buffer, micros(0)), Some(900));
    assert_eq!(update(&mut video, &mut buffer, micros(950_000)), Some(0));
    assert!(buffer.put(frame(40)));
    assert!(buffer.put(frame(80)));
    assert_eq!(update(&mut video, &mut buffer, micros(990_000)), Some(0));
    assert_eq!(video.instant, Some(micros(990_000)));
}

#[test]
fn only_a_shown_image_is_settled() {
    let image = BackgroundVideo { instant: None, is_image: true, width: 1, height: 1 };
    assert!(!image.is_settled());
    assert!(BackgroundVideo { instant: Some(micros(0)), ..image }.is_settled());
    let video = BackgroundVideo { instant: Some(micros(0)), is_image: false, ..image };
    assert!(!video.is_settled());
}

#[test]
fn image_is_shown_once() {
    let (mut video, mut buffer) = playback(true, &[]);
    assert_eq!(update(&mut video, &mut buffer, micros(1)), None);
    assert!(buffer.put(frame(0)));
    assert_eq!(update(&mut video, &mut buffer, micros(2)), Some(0));
    assert!(video.is_settled());
    let shown = video;
    assert_eq!(update(&mut video, &mut buffer, micros(3)), None);
    assert_eq!(update(&mut video, &mut buffer, micros(9_000_000)), None);
    assert_eq!(video, shown);
    assert_eq!(video.instant, Some(micros(2)));
}

#[test]
fn thread_offers_what_it_read() {
    let action = DecodeAction::frame_read(&decoder(1), Ok(frame(3)));
    assert_eq!(action, DecodeAction::Offer { frame: frame(3) });
}

#[test]
fn thread_of_a_video_goes_on() {
    let (_, mut buffer) = playback(false, &[]);
    let failed = DecodeAction::frame_read(&decoder(1), Err(Error::WrappedAround));
    assert_eq!(failed, DecodeAction::ReadFrame);
    let offered = DecodeAction::offer(&decoder(1), frame(3), &mut buffer);
    assert_eq!(offered, DecodeAction::ReadFrame);
    assert_eq!(buffer.take(micros(0)).0, Some(frame(3)));
}

#[test]
fn thread_of_an_image_ends_after_one_read() {
    let (_, mut buffer) = playback(true, &[]);
    let failed = DecodeAction::frame_read(&decoder(0), Err(Error::DecodePacket));
    assert_eq!(failed, DecodeAction::Exit);
    let offered = DecodeAction::offer(&decoder(0), frame(3), &mut buffer);
    assert_eq!(offered, DecodeAction::Exit);
}

#[test]
fn thread_goes_by_the_duration_as_it_is_known() {
    let (_, mut buffer) = playback(false, &[]);
    let action = DecodeAction::offer(&decoder(1), frame(0), &mut buffer);
    assert_eq!(action, DecodeAction::ReadFrame);
    let action = DecodeAction::offer(&decoder(0), frame(1), &mut buffer);
    assert_eq!(action, DecodeAction::Exit);
    assert_eq!(buffer.take(micros(0)).0, Some(frame(0)));
    assert_eq!(buffer.take(micros(1000)).0, Some(frame(1)));
}

#[test]
fn thread_waits_for_room() {
    let (_, mut buffer) = playback(false, &[]);
    for pts in 0..31 {
        assert!(buffer.put(frame(pts)));
    }
    let refused = DecodeAction::offer(&decoder(1), frame(31), &mut buffer);
    assert_eq!(refused, DecodeAction::Wait { frame: frame(31), millis: 500 });
    assert_eq!(RETRY_MILLIS, 500);
    assert_eq!(DecodeAction::waited(frame(31)), DecodeAction::Offer { frame: frame(31) });
    buffer.take(micros(5000));
    let accepted = DecodeAction::offer(&decoder(1), frame(31), &mut buffer);
    assert_eq!(accepted, DecodeAction::ReadFrame);
}

#[test]
fn no_frame_is_lost_between_thread_and_renderer() {
    let (_, mut buffer) = playback(false, &[]);
    let decoder = decoder(1);
    let mut action = DecodeAction::ReadFrame;
    let mut next = 0;
    let mut seen: Vec<i64> = vec![];
    let mut time = 0;
    while next < 100 || action != DecodeAction::ReadFrame {
        action = match action {
            DecodeAction::ReadFrame => {
                next += 1;
                DecodeAction::frame_read(&decoder, Ok(frame(next - 1)))
            },
            DecodeAction::Offer { frame } => DecodeAction::offer(&decoder, frame, &mut buffer),
            DecodeAction::Wait { frame, .. } => {
                let (taken, _) = buffer.take(micros(time * 1000));
                seen.push(taken.unwrap().pts);
                time += 1;
                DecodeAction::waited(frame)
            },
            DecodeAction::Exit => panic!("a video does not end"),
        };
    }
    while let (Some(taken), _) = buffer.take(micros(time * 1000)) {
        seen.push(taken.pts);
        time += 1;
    }
    assert_eq!(seen, (0..100).collect::<Vec<i64>>());
}
