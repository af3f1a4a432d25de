//! What holds of a decoder over all the steps of opening a file, and over all
//! the steps of reading a frame.

use vstd::prelude::*;

use crate::decoder::{
    threading_for, video_from, Decoder, DecoderCall, MediaType, OpenAction, OpenEvent, ReadAction,
    ReadEvent, StatusCodes, ThreadType,
};
use crate::error::Error;

verus! {

/// Whether `event` is the outcome of the step `action`.
pub open spec fn open_answers(action: OpenAction, event: OpenEvent) -> bool {
    match event {
        OpenEvent::InputOpened { .. } => action is OpenInput,
        OpenEvent::StreamsProbed { .. } => action is ProbeStreams,
        OpenEvent::CodecSearched { .. } => action is FindCodec,
        OpenEvent::ContextFilled { .. } => action is FillContext,
        OpenEvent::CodecOpened { .. } => action is OpenCodec,
        OpenEvent::FrameAllocated { .. } => action is AllocateFrame,
        OpenEvent::ImageAllocated { .. } => action is AllocateImage,
        OpenEvent::PacketAllocated { .. } => action is AllocatePacket,
    }
}

/// The decoder after a series of events, and the step that follows them.
pub open spec fn open_run(decoder: Decoder, events: Seq<OpenEvent>) -> (Decoder, OpenAction)
    decreases events.len(),
{
    if events.len() == 0 {
        (decoder, OpenAction::OpenInput)
    } else {
        let before = open_run(decoder, events.drop_last()).0;
        (before.opened(events.last()), before.open_action(events.last()))
    }
}

/// Whether a series of events comes about by doing what each one is answered
/// with.
pub open spec fn open_follows(decoder: Decoder, events: Seq<OpenEvent>) -> bool
    decreases events.len(),
{
    events.len() > 0 ==> {
        &&& open_follows(decoder, events.drop_last())
        &&& open_answers(open_run(decoder, events.drop_last()).1, events.last())
    }
}

/// The place of a step among the eight that open a file.
pub open spec fn open_order(event: OpenEvent) -> int {
    match event {
        OpenEvent::InputOpened { .. } => 0,
        OpenEvent::StreamsProbed { .. } => 1,
        OpenEvent::CodecSearched { .. } => 2,
        OpenEvent::ContextFilled { .. } => 3,
        OpenEvent::CodecOpened { .. } => 4,
        OpenEvent::FrameAllocated { .. } => 5,
        OpenEvent::ImageAllocated { .. } => 6,
        OpenEvent::PacketAllocated { .. } => 7,
    }
}

/// Whether a file has a video stream.
pub open spec fn has_video(streams: Seq<MediaType>) -> bool {
    exists|i: int| 0 <= i < streams.len() && streams[i] == MediaType::Video
}

/// What went wrong in a step, if anything did.
pub open spec fn open_failure(event: OpenEvent) -> Option<Error> {
    match event {
        OpenEvent::InputOpened { status } => if status != 0 {
            Some(Error::OpenInput)
        } else {
            None
        },
        OpenEvent::StreamsProbed { status, streams, .. } => if status < 0 {
            Some(Error::StreamInfo)
        } else if !has_video(streams@) {
            Some(Error::NoVideoStream)
        } else {
            None
        },
        OpenEvent::CodecSearched { found } => if !found {
            Some(Error::UnsupportedCodec)
        } else {
            None
        },
        OpenEvent::ContextFilled { status, .. } => if status != 0 {
            Some(Error::CodecContext)
        } else {
            None
        },
        OpenEvent::CodecOpened { status, .. } => if status < 0 {
            Some(Error::OpenCodec)
        } else {
            None
        },
        OpenEvent::FrameAllocated { allocated } => if !allocated {
            Some(Error::AllocateFrame)
        } else {
            None
        },
        OpenEvent::ImageAllocated { status } => if status < 0 {
            Some(Error::AllocateFrameBuffer)
        } else {
            None
        },
        OpenEvent::PacketAllocated { allocated } => if !allocated {
            Some(Error::AllocatePacket)
        } else {
            None
        },
    }
}

/// The stream that is chosen is the first video stream, and one is chosen as
/// soon as the file has one.
pub proof fn law_first_video_stream(streams: Seq<MediaType>)
    ensures
        0 <= video_from(streams, 0) <= streams.len(),
        video_from(streams, 0) < streams.len() <==> has_video(streams),
        video_from(streams, 0) < streams.len() ==> streams[video_from(streams, 0)]
            == MediaType::Video,
        forall|j: int|
            0 <= j < video_from(streams, 0) ==> #[trigger] streams[j] != MediaType::Video,
{
    lemma_video_from(streams, 0);
}

proof fn lemma_video_from(streams: Seq<MediaType>, i: int)
    requires
        0 <= i <= streams.len(),
    ensures
        i <= video_from(streams, i) <= streams.len(),
        video_from(streams, i) < streams.len() ==> streams[video_from(streams, i)]
            == MediaType::Video,
        forall|j: int|
            i <= j < video_from(streams, i) ==> #[trigger] streams[j] != MediaType::Video,
    decreases streams.len() - i,
{
    if i < streams.len() && streams[i] != MediaType::Video {
        lemma_video_from(streams, i + 1);
    }
}

/// A single step: what it is answered with depends on whether it failed.
proof fn lemma_open_step(decoder: Decoder, event: OpenEvent)
    ensures
        open_failure(event) matches Some(error) ==> decoder.open_action(event) == (
        OpenAction::Fail { error }),
        open_failure(event) is None ==> !(decoder.open_action(event) is Fail),
        open_failure(event) is None && open_order(event) == 7 ==> decoder.open_action(
            event,
        ) is CreateScaler,
{
    match event {
        OpenEvent::StreamsProbed { streams, .. } => {
            law_first_video_stream(streams@);
        },
        _ => {},
    }
}

/// A file is opened by eight steps, in their order. The first one that fails is
/// the last one that is done, and the error is its own; the file is open once
/// the eighth has succeeded.
pub proof fn law_open_in_order(decoder: Decoder, events: Seq<OpenEvent>)
    requires
        open_follows(decoder, events),
    ensures
        events.len() <= 8,
        forall|k: int| 0 <= k < events.len() ==> open_order(#[trigger] events[k]) == k,
        forall|k: int| 0 <= k < events.len() - 1 ==> open_failure(#[trigger] events[k]) is None,
        events.len() > 0 ==> (open_failure(events.last()) matches Some(error) ==> open_run(
            decoder,
            events,
        ).1 == (OpenAction::Fail { error })),
        events.len() > 0 && open_failure(events.last()) is None ==> !(open_run(
            decoder,
            events,
        ).1 is Fail),
        events.len() == 8 && open_failure(events.last()) is None <==> open_run(
            decoder,
            events,
        ).1 is CreateScaler,
    decreases events.len(),
{
    if events.len() > 0 {
        let before = events.drop_last();
        law_open_in_order(decoder, before);
        lemma_open_step(open_run(decoder, before).0, events.last());
        assert forall|k: int| 0 <= k < before.len() implies open_order(#[trigger] events[k]) == k
            && open_failure(events[k]) is None by {
            assert(before[k] == events[k]);
            if k < before.len() - 1 {
                assert(open_failure(before[k]) is None);
            }
        }
        if before.len() > 0 {
            assert(before.last() == before[before.len() - 1]);
        }
    }
}

/// Eight steps in their order, none of which fails, are what it takes to open a
/// file.
pub proof fn law_open_succeeds(decoder: Decoder, events: Seq<OpenEvent>)
    requires
        events.len() == 8,
        forall|k: int| 0 <= k < 8 ==> open_order(#[trigger] events[k]) == k,
        forall|k: int| 0 <= k < 8 ==> open_failure(#[trigger] events[k]) is None,
    ensures
        open_follows(decoder, events),
        open_run(decoder, events).1 is CreateScaler,
{
    lemma_open_prefix(decoder, events);
    law_open_in_order(decoder, events);
}

proof fn lemma_open_prefix(decoder: Decoder, events: Seq<OpenEvent>)
    requires
        events.len() <= 8,
        forall|k: int| 0 <= k < events.len() ==> open_order(#[trigger] events[k]) == k,
        forall|k: int| 0 <= k < events.len() ==> open_failure(#[trigger] events[k]) is None,
    ensures
        open_follows(decoder, events),
    decreases events.len(),
{
    if events.len() > 0 {
        let before = events.drop_last();
        assert forall|k: int| 0 <= k < before.len() implies open_order(#[trigger] before[k]) == k
            && open_failure(before[k]) is None by {
            assert(before[k] == events[k]);
        }
        lemma_open_prefix(decoder, before);
        assert(open_order(events.last()) == events.len() - 1);
        if before.len() > 0 {
            assert(open_order(before.last()) == before.len() - 1);
            assert(open_failure(before.last()) is None);
            lemma_open_step(open_run(decoder, before.drop_last()).0, before.last());
        }
    }
}

/// What is known of a file that is open: the stream that is decoded is its
/// first video stream, and the size of the frames, that of the pixel buffer and
/// the length of the file are what the decoding library said they were. The
/// conversion is set up for frames of that size.
pub proof fn law_open_result(decoder: Decoder, events: Seq<OpenEvent>)
    requires
        open_follows(decoder, events),
        open_run(decoder, events).1 is CreateScaler,
    ensures
        ({
            let opened = open_run(decoder, events).0;
            &&& events[1] matches OpenEvent::StreamsProbed { streams, duration, .. }
            &&& opened.duration == duration
            &&& opened.video_stream_index == video_from(streams@, 0)
            &&& opened.video_stream_index < streams@.len()
            &&& streams@[opened.video_stream_index as int] == MediaType::Video
            &&& forall|j: int|
                0 <= j < opened.video_stream_index ==> #[trigger] streams@[j] != MediaType::Video
            &&& events[4] matches OpenEvent::CodecOpened { width, height, .. }
            &&& opened.width == width
            &&& opened.height == height
            &&& events[6] matches OpenEvent::ImageAllocated { status }
            &&& opened.buffer_size == status
            &&& opened.buffer_size >= 0
            &&& open_run(decoder, events).1 == (OpenAction::CreateScaler { width, height })
        }),
{
    law_open_in_order(decoder, events);
    assert(open_order(events[1]) == 1);
    assert(open_order(events[4]) == 4);
    assert(open_order(events[6]) == 6);
    assert(open_failure(events[1]) is None);
    assert(open_failure(events[6]) is None);
    match events[1] {
        OpenEvent::StreamsProbed { streams, .. } => {
            law_first_video_stream(streams@);
        },
        _ => {},
    }
    lemma_open_state(decoder, events);
    lemma_open_state(decoder, events.drop_last());
    assert(events.drop_last()[4] == events[4]);
}

/// What the decoder has learned after some of the steps.
proof fn lemma_open_state(decoder: Decoder, events: Seq<OpenEvent>)
    requires
        open_follows(decoder, events),
    ensures
        ({
            let opened = open_run(decoder, events).0;
            &&& events.len() > 1 && open_failure(events[1]) is None ==> (
            events[1] matches OpenEvent::StreamsProbed { streams, duration, .. } ==> {
                &&& opened.duration == duration
                &&& opened.video_stream_index == video_from(streams@, 0)
                &&& streams@[opened.video_stream_index as int] == MediaType::Video
            })
            &&& events.len() > 4 && open_failure(events[4]) is None ==> (
            events[4] matches OpenEvent::CodecOpened { width, height, .. } ==> opened.width == width
                && opened.height == height)
            &&& events.len() > 6 ==> (events[6] matches OpenEvent::ImageAllocated { status }
                ==> opened.buffer_size == status)
        }),
    decreases events.len(),
{
    if events.len() > 0 {
        let before = events.drop_last();
        lemma_open_state(decoder, before);
        law_open_in_order(decoder, events);
        assert(open_order(events.last()) == events.len() - 1);
        if before.len() > 1 {
            assert(before[1] == events[1]);
        }
        if before.len() > 4 {
            assert(before[4] == events[4]);
        }
        if before.len() > 6 {
            assert(before[6] == events[6]);
        }
        match events.last() {
            OpenEvent::StreamsProbed { streams, .. } => {
                law_first_video_stream(streams@);
                assert(streams@.len() == streams.len());
            },
            _ => {},
        }
    }
}

/// Whether `event` is the outcome of the step `action`.
pub open spec fn read_answers(action: ReadAction, event: ReadEvent) -> bool {
    match event {
        ReadEvent::Started => false,
        ReadEvent::PacketRead { .. } => action is ReadPacket,
        ReadEvent::PacketSent { .. } => action is SendPacket,
        ReadEvent::FrameReceived { .. } => action is ReceiveFrame,
    }
}

/// Whether a series of events comes about by doing what each one is answered
/// with, from the first one on.
pub open spec fn read_follows(
    decoder: Decoder,
    codes: StatusCodes,
    events: Seq<ReadEvent>,
) -> bool {
    &&& events.len() > 0
    &&& events[0] == ReadEvent::Started
    &&& forall|k: int|
        0 < k < events.len() ==> read_answers(
            decoder.read_action(codes, events[k - 1]),
            #[trigger] events[k],
        )
}

/// Whether a packet of the decoder's own stream was read.
pub open spec fn own_packet(decoder: Decoder, event: ReadEvent) -> bool {
    event matches ReadEvent::PacketRead { status, stream_index } && status >= 0 && stream_index
        == decoder.video_stream_index
}

/// The decoder gets a packet only if it is one of the video stream, and it is
/// asked for a frame only after it has taken one.
pub proof fn law_only_video_is_decoded(
    decoder: Decoder,
    codes: StatusCodes,
    events: Seq<ReadEvent>,
    k: int,
)
    requires
        read_follows(decoder, codes, events),
        0 <= k < events.len(),
    ensures
        events[k] is PacketSent ==> k >= 2 && own_packet(decoder, events[k - 1]),
        events[k] is FrameReceived ==> k >= 3 && (events[k - 1] matches ReadEvent::PacketSent {
            status,
        } && status >= 0) && own_packet(decoder, events[k - 2]),
{
    if k > 0 {
        assert(read_answers(decoder.read_action(codes, events[k - 1]), events[k]));
    }
    if k > 1 {
        assert(read_answers(decoder.read_action(codes, events[k - 2]), events[k - 1]));
    }
    if k > 2 {
        assert(read_answers(decoder.read_action(codes, events[k - 3]), events[k - 2]));
    }
}

/// How reading a frame ends. A frame comes with the timestamp that the decoder
/// gave it, from a packet of the video stream; all its rows are converted before
/// it is released, and the packet is released after it. Reading wraps around
/// exactly when the file has no further packet, and the video stream is rewound
/// to its start then. Any other failure is one of the decoder: to take a packet
/// of the video stream, or to make a frame of it.
pub proof fn law_read_outcome(decoder: Decoder, codes: StatusCodes, events: Seq<ReadEvent>)
    requires
        read_follows(decoder, codes, events),
    ensures
        decoder.read_action(codes, events.last()) matches ReadAction::Finish { pts } ==> {
            &&& events.len() >= 4
            &&& events.last() matches ReadEvent::FrameReceived { status, pts: stamp, height }
            &&& status >= 0
            &&& stamp == pts
            &&& own_packet(decoder, events[events.len() - 3])
            &&& decoder.read_calls(codes, events.last()) == seq![
                DecoderCall::ScaleFrame { first_row: 0, rows: height },
                DecoderCall::UnrefFrame,
                DecoderCall::UnrefPacket,
            ]
        },
        decoder.read_action(codes, events.last()) == (ReadAction::Fail {
            error: Error::WrappedAround,
        }) <==> (events.last() matches ReadEvent::PacketRead { status, .. } && status < 0),
        decoder.read_action(codes, events.last()) == (ReadAction::Fail {
            error: Error::WrappedAround,
        }) ==> decoder.read_calls(codes, events.last()) == seq![
            DecoderCall::UnrefPacket,
            DecoderCall::SeekFrame {
                stream: decoder.video_stream_index,
                timestamp: 0,
                flags: 0,
            },
            DecoderCall::FlushCodec,
        ],
        decoder.read_action(codes, events.last()) matches ReadAction::Fail { error } ==> {
            ||| error == Error::WrappedAround
            ||| error == Error::SendPacket && (events.last() matches ReadEvent::PacketSent {
                status,
            } && status < 0) && events.len() >= 3 && own_packet(decoder, events[events.len() - 2])
            ||| error == Error::DecodePacket && (events.last() matches ReadEvent::FrameReceived {
                status,
                ..
            } && status < 0) && events.len() >= 4 && own_packet(decoder, events[events.len() - 3])
        },
{
    law_only_video_is_decoded(decoder, codes, events, events.len() - 1);
}

/// Before a further packet is read, the one before it is released or, where the
/// decoder has no more frames, the file is rewound.
pub proof fn law_packet_is_released(
    decoder: Decoder,
    codes: StatusCodes,
    events: Seq<ReadEvent>,
    k: int,
)
    requires
        read_follows(decoder, codes, events),
        0 < k < events.len() - 1,
        events[k + 1] is PacketRead,
    ensures
        decoder.read_calls(codes, events[k]) == seq![DecoderCall::UnrefPacket] || (
        events[k] matches ReadEvent::FrameReceived { status, .. } && status == codes.eof
            && decoder.read_calls(codes, events[k]) == seq![
            DecoderCall::SeekFrame {
                stream: decoder.video_stream_index,
                timestamp: 0,
                flags: 0,
            },
            DecoderCall::FlushCodec,
        ]),
{
    assert(read_answers(decoder.read_action(codes, events[k]), events[k + 1]));
    assert(read_answers(decoder.read_action(codes, events[k - 1]), events[k]));
}

/// A decoder uses threads by frame if its codec has bit 12 of the capabilities,
/// by slice if it has only bit 13, and a single thread if it has neither. Its
/// other capabilities make no difference.
pub proof fn law_threading(capabilities: i32)
    ensures
        (capabilities >> 12) & 1 == 1 ==> threading_for(capabilities).thread_type == Some(
            ThreadType::Frame,
        ),
        (capabilities >> 12) & 1 != 1 && (capabilities >> 13) & 1 == 1 ==> threading_for(
            capabilities,
        ).thread_type == Some(ThreadType::Slice),
        (capabilities >> 12) & 1 != 1 && (capabilities >> 13) & 1 != 1 ==> threading_for(
            capabilities,
        ).thread_type is None,
        threading_for(capabilities).thread_count == (if threading_for(
            capabilities,
        ).thread_type is None {
            1int
        } else {
            0
        }),
{
    assert((capabilities & 4096 != 0) == ((capabilities >> 12) & 1 == 1)) by (bit_vector);
    assert((capabilities & 8192 != 0) == ((capabilities >> 13) & 1 == 1)) by (bit_vector);
}

/// A file is a still image exactly when it does not last.
pub proof fn law_still_does_not_last(decoder: Decoder)
    ensures
        decoder.still() <==> decoder.duration <= 0,
{
}

/// A file that opens is probed; with any status but zero it did not open.
pub proof fn law_open_probes(decoder: Decoder, status: i32)
    ensures
        ({
            let event = OpenEvent::InputOpened { status };
            &&& status == 0 ==> decoder.open_action(event) is ProbeStreams
            &&& status != 0 ==> decoder.open_action(event) == (OpenAction::Fail {
                error: Error::OpenInput,
            })
            &&& decoder.opened(event) == decoder
        }),
{
}

/// Once the streams are probed, a decoder is looked up for the first video stream
/// `s`, and that stream and the length of the file are kept.
pub proof fn law_open_chooses_stream(
    decoder: Decoder,
    status: i32,
    streams: Vec<MediaType>,
    duration: i64,
    s: int,
)
    requires
        status >= 0,
        0 <= s < streams@.len(),
        streams@[s] == MediaType::Video,
        forall|j: int| 0 <= j < s ==> #[trigger] streams@[j] == MediaType::Other,
    ensures
        ({
            let event = OpenEvent::StreamsProbed { status, streams, duration };
            &&& decoder.open_action(event) is FindCodec
            &&& decoder.open_action(event)->FindCodec_stream == s
            &&& decoder.opened(event).video_stream_index == s
            &&& decoder.opened(event).duration == duration
            &&& decoder.opened(event).width == decoder.width
            &&& decoder.opened(event).height == decoder.height
            &&& decoder.opened(event).buffer_size == decoder.buffer_size
        }),
{
    let first = video_from(streams@, 0);
    law_first_video_stream(streams@);
    assert(streams@.len() == streams.len());
    if first < s {
        assert(streams@[first] == MediaType::Other);
    } else if first > s {
        assert(streams@[s] != MediaType::Video);
    }
}

/// Streams that cannot be probed, and streams without a video among them, are
/// failures.
pub proof fn law_open_needs_video(
    decoder: Decoder,
    status: i32,
    streams: Vec<MediaType>,
    duration: i64,
)
    requires
        status < 0 || forall|j: int|
            0 <= j < streams@.len() ==> #[trigger] streams@[j] == MediaType::Other,
    ensures
        ({
            let event = OpenEvent::StreamsProbed { status, streams, duration };
            &&& status < 0 ==> decoder.open_action(event) == (OpenAction::Fail {
                error: Error::StreamInfo,
            }) && decoder.opened(event) == decoder
            &&& status >= 0 ==> decoder.open_action(event) == (OpenAction::Fail {
                error: Error::NoVideoStream,
            }) && decoder.opened(event) == (Decoder { duration, ..decoder })
        }),
{
    law_first_video_stream(streams@);
}

/// The other steps of opening: which replies of the decoding library are
/// failures, with the error of each, and what follows a success. Frames, pixel
/// buffer and conversion are all of the size that the decoder has when it starts,
/// and the context is filled for the stream that was chosen.
pub proof fn law_open_sets_up(decoder: Decoder, event: OpenEvent)
    ensures
        event matches OpenEvent::CodecSearched { found } ==> {
            &&& found ==> decoder.open_action(event) == (OpenAction::FillContext {
                stream: decoder.video_stream_index,
            })
            &&& !found ==> decoder.open_action(event) == (OpenAction::Fail {
                error: Error::UnsupportedCodec,
            })
            &&& decoder.opened(event) == decoder
        },
        event matches OpenEvent::ContextFilled { status, capabilities } ==> {
            &&& status == 0 ==> decoder.open_action(event) == (OpenAction::OpenCodec {
                threading: threading_for(capabilities),
            })
            &&& status != 0 ==> decoder.open_action(event) == (OpenAction::Fail {
                error: Error::CodecContext,
            })
            &&& decoder.opened(event) == decoder
        },
        event matches OpenEvent::CodecOpened { status, width, height } ==> {
            &&& status >= 0 ==> decoder.open_action(event) is AllocateFrame
            &&& status >= 0 ==> decoder.opened(event) == (Decoder { width, height, ..decoder })
            &&& status < 0 ==> decoder.open_action(event) == (OpenAction::Fail {
                error: Error::OpenCodec,
            })
            &&& status < 0 ==> decoder.opened(event) == decoder
        },
        event matches OpenEvent::FrameAllocated { allocated } ==> {
            &&& allocated ==> decoder.open_action(event) == (OpenAction::AllocateImage {
                width: decoder.width,
                height: decoder.height,
                align: 1,
            })
            &&& !allocated ==> decoder.open_action(event) == (OpenAction::Fail {
                error: Error::AllocateFrame,
            })
            &&& decoder.opened(event) == decoder
        },
        event matches OpenEvent::ImageAllocated { status } ==> {
            &&& status >= 0 ==> decoder.open_action(event) is AllocatePacket
            &&& decoder.opened(event) == (Decoder { buffer_size: status, ..decoder })
            &&& status < 0 ==> decoder.open_action(event) == (OpenAction::Fail {
                error: Error::AllocateFrameBuffer,
            })
        },
        event matches OpenEvent::PacketAllocated { allocated } ==> {
            &&& allocated ==> decoder.open_action(event) == (OpenAction::CreateScaler {
                width: decoder.width,
                height: decoder.height,
            })
            &&& !allocated ==> decoder.open_action(event) == (OpenAction::Fail {
                error: Error::AllocatePacket,
            })
            &&& decoder.opened(event) == decoder
        },
{
}

/// In every run, one stream is meant throughout: the decoder is looked up for
/// it, the context is filled with its parameters, and packets of it are decoded
/// in the end. It is the first video stream of those that were probed.
pub proof fn law_open_means_one_stream(decoder: Decoder, events: Seq<OpenEvent>, s: int)
    requires
        open_follows(decoder, events),
        events.len() >= 2,
        events[1] matches OpenEvent::StreamsProbed { status, streams, .. } && status >= 0 && 0 <= s
            < streams@.len() && streams@[s] == MediaType::Video && forall|j: int|
            0 <= j < s ==> #[trigger] streams@[j] == MediaType::Other,
    ensures
        open_run(decoder, events).0.video_stream_index == s,
        events.len() == 2 ==> open_run(decoder, events).1 is FindCodec && open_run(
            decoder,
            events,
        ).1->FindCodec_stream == s,
        events.len() == 3 && (events[2] matches OpenEvent::CodecSearched { found } && found)
            ==> open_run(decoder, events).1 is FillContext && open_run(
            decoder,
            events,
        ).1->FillContext_stream == s,
        forall|codes: StatusCodes, status: i32, stream_index: i32|
            status >= 0 ==> ((#[trigger] open_run(decoder, events).0.read_action(
                codes,
                ReadEvent::PacketRead { status, stream_index },
            )) is SendPacket <==> stream_index == s),
    decreases events.len(),
{
    let before = events.drop_last();
    let mid = open_run(decoder, before).0;
    law_open_in_order(decoder, events);
    assert(open_order(events[events.len() - 1]) == events.len() - 1);
    if events.len() > 2 {
        assert(before[1] == events[1]);
        law_open_means_one_stream(decoder, before, s);
        law_open_sets_up(mid, events.last());
    } else {
        match events[1] {
            OpenEvent::StreamsProbed { status, streams, duration } => {
                law_open_chooses_stream(mid, status, streams, duration, s);
            },
            _ => {},
        }
    }
}

/// A frame that the decoder gives is returned, whatever its timestamp: with any
/// status that is no failure and says neither that there is no frame yet nor that
/// there are no more, reading finishes with that timestamp, and all rows of the
/// frame are converted before it is released.
pub proof fn law_frame_is_returned(
    decoder: Decoder,
    codes: StatusCodes,
    status: i32,
    pts: i64,
    height: i32,
)
    requires
        status >= 0,
        status != codes.again,
        status != codes.eof,
    ensures
        ({
            let event = ReadEvent::FrameReceived { status, pts, height };
            let calls = decoder.read_calls(codes, event);
            &&& decoder.read_action(codes, event) == (ReadAction::Finish { pts })
            &&& calls.len() == 3
            &&& calls[0] == (DecoderCall::ScaleFrame { first_row: 0, rows: height })
            &&& calls[1] is UnrefFrame
            &&& calls[2] is UnrefPacket
        }),
{
}

/// Without a frame reading goes on with the next packet. Where the decoder needs
/// more, this packet is released first; where it has no more frames, the video
/// stream is rewound to its start and the decoder is emptied. Any other failure
/// is returned, with nothing done before.
pub proof fn law_no_frame_yet(
    decoder: Decoder,
    codes: StatusCodes,
    status: i32,
    pts: i64,
    height: i32,
)
    ensures
        ({
            let event = ReadEvent::FrameReceived { status, pts, height };
            let action = decoder.read_action(codes, event);
            let calls = decoder.read_calls(codes, event);
            &&& status == codes.again ==> action is ReadPacket && calls.len() == 1
                && calls[0] is UnrefPacket
            &&& status == codes.eof && status != codes.again ==> action is ReadPacket
                && calls.len() == 2 && calls[0] == (DecoderCall::SeekFrame {
                stream: decoder.video_stream_index,
                timestamp: 0,
                flags: 0,
            }) && calls[1] is FlushCodec
            &&& status < 0 && status != codes.again && status != codes.eof ==> action == (
            ReadAction::Fail { error: Error::DecodePacket }) && calls.len() == 0
        }),
{
}

/// A packet that was read goes to the decoder exactly when it is one of the video
/// stream; another one is released and the next is read. Where there is no
/// packet, reading wraps around: the video stream is rewound to its start and the
/// decoder is emptied.
pub proof fn law_packet_goes_to_decoder(
    decoder: Decoder,
    codes: StatusCodes,
    status: i32,
    stream_index: i32,
)
    ensures
        ({
            let event = ReadEvent::PacketRead { status, stream_index };
            let action = decoder.read_action(codes, event);
            let calls = decoder.read_calls(codes, event);
            &&& status >= 0 && stream_index == decoder.video_stream_index
                ==> action is SendPacket && calls.len() == 0
            &&& status >= 0 && stream_index != decoder.video_stream_index
                ==> action is ReadPacket && calls.len() == 1 && calls[0] is UnrefPacket
            &&& status < 0 ==> action == (ReadAction::Fail { error: Error::WrappedAround })
                && calls.len() == 3 && calls[0] is UnrefPacket && calls[1] == (
            DecoderCall::SeekFrame {
                stream: decoder.video_stream_index,
                timestamp: 0,
                flags: 0,
            }) && calls[2] is FlushCodec
        }),
{
}

/// Reading starts with a packet, and a packet that the decoder has taken is
/// followed by the question for a frame. One that it refuses is a failure. None
/// of this calls for anything else.
pub proof fn law_taken_packet_is_decoded(decoder: Decoder, codes: StatusCodes, status: i32)
    ensures
        decoder.read_action(codes, ReadEvent::Started) is ReadPacket,
        decoder.read_calls(codes, ReadEvent::Started).len() == 0,
        status >= 0 ==> decoder.read_action(
            codes,
            ReadEvent::PacketSent { status },
        ) is ReceiveFrame,
        status < 0 ==> decoder.read_action(codes, ReadEvent::PacketSent { status }) == (
        ReadAction::Fail { error: Error::SendPacket }),
        decoder.read_calls(codes, ReadEvent::PacketSent { status }).len() == 0,
{
}

} // verus!
