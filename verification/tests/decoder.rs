use alacritty_background::decoder::{
    find_video_stream, select_threading, Decoder, DecoderCall, MediaType, OpenAction, OpenEvent,
    ReadAction, ReadEvent, ReadStep, StatusCodes, ThreadType, Threading,
};
use alacritty_background::error::Error;

const CODES: StatusCodes = StatusCodes { again: -11, eof: -541478725 };

/// The start of stream 1.
const REWIND: DecoderCall = DecoderCall::SeekFrame { stream: 1, timestamp: 0, flags: 0 };

fn probed(streams: Vec<MediaType>) -> OpenEvent {
    OpenEvent::StreamsProbed { status: 0, streams, duration: 5_000_000 }
}

fn fails(event: OpenEvent, error: Error) {
    assert_eq!(Decoder::new().open(event), OpenAction::Fail { error });
}

fn playing(stream: usize) -> Decoder {
    Decoder {
        width: 4,
        height: 2,
        buffer_size: 24,
        duration: 5_000_000,
        video_stream_index: stream,
    }
}

fn step(event: ReadEvent) -> ReadStep {
    playing(1).read_frame(CODES, event)
}

#[test]
fn first_video_stream_is_found() {
    let streams = vec![MediaType::Other, MediaType::Video, MediaType::Video];
    assert_eq!(find_video_stream(&streams), Some(1));
    assert_eq!(find_video_stream(&vec![MediaType::Video]), Some(0));
    assert_eq!(find_video_stream(&vec![MediaType::Other]), None);
    assert_eq!(find_video_stream(&vec![]), None);
}

#[test]
fn threads_by_frame_come_first() {
    let by_frame = Threading { thread_count: 0, thread_type: Some(ThreadType::Frame) };
    let by_slice = Threading { thread_count: 0, thread_type: Some(ThreadType::Slice) };
    let single = Threading { thread_count: 1, thread_type: None };
    assert_eq!(select_threading(0x1000), by_frame);
    assert_eq!(select_threading(0x3000), by_frame);
    assert_eq!(select_threading(0x2000), by_slice);
    assert_eq!(select_threading(-1), by_frame);
    assert_eq!(select_threading(0x4fff), single);
    assert_eq!(select_threading(0), single);
}

#[test]
fn file_is_opened_in_eight_steps() {
    let mut decoder = Decoder::new();
    assert_eq!(decoder.open(OpenEvent::InputOpened { status: 0 }), OpenAction::ProbeStreams);
    assert_eq!(
        decoder.open(probed(vec![MediaType::Other, MediaType::Video])),
        OpenAction::FindCodec { stream: 1 }
    );
    assert_eq!(
        decoder.open(OpenEvent::CodecSearched { found: true }),
        OpenAction::FillContext { stream: 1 }
    );
    assert_eq!(
        decoder.open(OpenEvent::ContextFilled { status: 0, capabilities: 0x2000 }),
        OpenAction::OpenCodec { threading: select_threading(0x2000) }
    );
    assert_eq!(
        decoder.open(OpenEvent::CodecOpened { status: 0, width: 1920, height: 1080 }),
        OpenAction::AllocateFrame
    );
    assert_eq!(
        decoder.open(OpenEvent::FrameAllocated { allocated: true }),
        OpenAction::AllocateImage { width: 1920, height: 1080, align: 1 }
    );
    assert_eq!(
        decoder.open(OpenEvent::ImageAllocated { status: 6_220_800 }),
        OpenAction::AllocatePacket
    );
    assert_eq!(
        decoder.open(OpenEvent::PacketAllocated { allocated: true }),
        OpenAction::CreateScaler { width: 1920, height: 1080 }
    );
    assert_eq!(
        decoder,
        Decoder {
            width: 1920,
            height: 1080,
            buffer_size: 6_220_800,
            duration: 5_000_000,
            video_stream_index: 1,
        }
    );
    assert!(!decoder.is_image());
}

#[test]
fn statuses_that_are_no_failure() {
    let mut decoder = Decoder::new();
    let probed =
        OpenEvent::StreamsProbed { status: 3, streams: vec![MediaType::Video], duration: 1 };
    assert_eq!(decoder.open(probed), OpenAction::FindCodec { stream: 0 });
    let opened = OpenEvent::CodecOpened { status: 1, width: 1, height: 1 };
    assert_eq!(decoder.open(opened), OpenAction::AllocateFrame);
    let allocated = OpenEvent::ImageAllocated { status: 0 };
    assert_eq!(decoder.open(allocated), OpenAction::AllocatePacket);
}

#[test]
fn each_failed_step_has_its_error() {
    fails(OpenEvent::InputOpened { status: -2 }, Error::OpenInput);
    fails(OpenEvent::InputOpened { status: 1 }, Error::OpenInput);
    let unprobed =
        OpenEvent::StreamsProbed { status: -1, streams: vec![MediaType::Video], duration: 0 };
    fails(unprobed, Error::StreamInfo);
    fails(probed(vec![MediaType::Other]), Error::NoVideoStream);
    fails(OpenEvent::CodecSearched { found: false }, Error::UnsupportedCodec);
    fails(OpenEvent::ContextFilled { status: -1, capabilities: 0x1000 }, Error::CodecContext);
    fails(OpenEvent::ContextFilled { status: 1, capabilities: 0x1000 }, Error::CodecContext);
    fails(OpenEvent::CodecOpened { status: -1, width: 1, height: 1 }, Error::OpenCodec);
    fails(OpenEvent::FrameAllocated { allocated: false }, Error::AllocateFrame);
    fails(OpenEvent::ImageAllocated { status: -12 }, Error::AllocateFrameBuffer);
    fails(OpenEvent::PacketAllocated { allocated: false }, Error::AllocatePacket);
}

#[test]
fn errors_have_messages() {
    assert_eq!(Error::OpenInput.message(), "failed to avformat open");
    assert_eq!(Error::StreamInfo.message(), "failed to find stream info");
    assert_eq!(Error::NoVideoStream.message(), "failed to find video stream");
    assert_eq!(Error::UnsupportedCodec.message(), "unsupported codec");
    assert_eq!(Error::CodecContext.message(), "failed to fill codec context");
    assert_eq!(Error::OpenCodec.message(), "failed to open codec");
    assert_eq!(Error::AllocateFrame.message(), "failed to allocate frame");
    assert_eq!(Error::AllocateFrameBuffer.message(), "failed to allocate frame buffer");
    assert_eq!(Error::AllocatePacket.message(), "failed to allocate packet");
    assert_eq!(Error::SendPacket.message(), "failed to send packet for decoding");
    assert_eq!(Error::DecodePacket.message(), "failed to decode packet");
    assert_eq!(Error::WrappedAround.message(), "wrapped around");
}

#[test]
fn what_does_not_last_is_an_image() {
    let mut decoder = playing(0);
    decoder.duration = 1;
    assert!(!decoder.is_image());
    decoder.duration = 0;
    assert!(decoder.is_image());
    decoder.duration = i64::MIN;
    assert!(decoder.is_image());
}

#[test]
fn frame_is_read_from_the_video_stream() {
    assert_eq!(step(ReadEvent::Started).action, ReadAction::ReadPacket);
    let own = step(ReadEvent::PacketRead { status: 0, stream_index: 1 });
    assert_eq!(own, ReadStep { calls: vec![], action: ReadAction::SendPacket });
    let sent = step(ReadEvent::PacketSent { status: 0 });
    assert_eq!(sent, ReadStep { calls: vec![], action: ReadAction::ReceiveFrame });
    let received = step(ReadEvent::FrameReceived { status: 0, pts: 512, height: 2 });
    assert_eq!(received.action, ReadAction::Finish { pts: 512 });
    assert_eq!(
        received.calls,
        vec![
            DecoderCall::ScaleFrame { first_row: 0, rows: 2 },
            DecoderCall::UnrefFrame,
            DecoderCall::UnrefPacket,
        ]
    );
}

#[test]
fn packets_of_other_streams_are_skipped() {
    let skip =
        ReadStep { calls: vec![DecoderCall::UnrefPacket], action: ReadAction::ReadPacket };
    assert_eq!(step(ReadEvent::PacketRead { status: 0, stream_index: 0 }), skip);
    assert_eq!(step(ReadEvent::PacketRead { status: 0, stream_index: 2 }), skip);
    assert_eq!(step(ReadEvent::PacketRead { status: 0, stream_index: -1 }), skip);
}

#[test]
fn decoder_that_needs_more_gets_the_next_packet() {
    let again = step(ReadEvent::FrameReceived { status: CODES.again, pts: 0, height: 2 });
    assert_eq!(
        again,
        ReadStep { calls: vec![DecoderCall::UnrefPacket], action: ReadAction::ReadPacket }
    );
}

#[test]
fn decoder_at_its_end_is_rewound() {
    let eof = step(ReadEvent::FrameReceived { status: CODES.eof, pts: 0, height: 2 });
    assert_eq!(
        eof,
        ReadStep {
            calls: vec![REWIND, DecoderCall::FlushCodec],
            action: ReadAction::ReadPacket,
        }
    );
}

#[test]
fn end_of_file_wraps_around() {
    let end = step(ReadEvent::PacketRead { status: CODES.eof, stream_index: 1 });
    assert_eq!(
        end,
        ReadStep {
            calls: vec![
                DecoderCall::UnrefPacket,
                REWIND,
                DecoderCall::FlushCodec
            ],
            action: ReadAction::Fail { error: Error::WrappedAround },
        }
    );
}

#[test]
fn decoder_failures_are_told_apart() {
    let refused = step(ReadEvent::PacketSent { status: -22 });
    assert_eq!(
        refused,
        ReadStep { calls: vec![], action: ReadAction::Fail { error: Error::SendPacket } }
    );
    let broken = step(ReadEvent::FrameReceived { status: -22, pts: 7, height: 2 });
    assert_eq!(
        broken,
        ReadStep { calls: vec![], action: ReadAction::Fail { error: Error::DecodePacket } }
    );
}
