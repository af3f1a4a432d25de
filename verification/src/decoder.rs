//! The decoder: how a file is opened for decoding, and how the next frame is
//! read from it.
//!
//! The calls into the decoding library are made elsewhere. What is decided here
//! is which call comes next, given what the last one returned.

use vstd::prelude::*;

use crate::error::Error;

verus! {

/// The capability of a codec to decode several frames at a time.
pub const CODEC_CAP_FRAME_THREADS: i32 = 4096;

/// The capability of a codec to decode several slices of a frame at a time.
pub const CODEC_CAP_SLICE_THREADS: i32 = 8192;

/// What a stream of a file carries.
#[derive(Clone, Copy, Debug, PartialEq, Eq, Structural)]
pub enum MediaType {
    Video,
    Other,
}

/// What the threads of a decoder share out among them.
#[derive(Clone, Copy, Debug, PartialEq, Eq, Structural)]
pub enum ThreadType {
    Frame,
    Slice,
}

/// How a decoder uses threads. A count of zero leaves the number to the
/// decoder, and no type leaves that as it is.
#[derive(Clone, Copy, Debug, PartialEq, Eq, Structural)]
pub struct Threading {
    pub thread_count: i32,
    pub thread_type: Option<ThreadType>,
}

/// The threading for a codec with these capabilities: by frame where it can, by
/// slice where it can do only that, and else a single thread.
pub open spec fn threading_for(capabilities: i32) -> Threading {
    if capabilities & CODEC_CAP_FRAME_THREADS != 0 {
        Threading { thread_count: 0, thread_type: Some(ThreadType::Frame) }
    } else if capabilities & CODEC_CAP_SLICE_THREADS != 0 {
        Threading { thread_count: 0, thread_type: Some(ThreadType::Slice) }
    } else {
        Threading { thread_count: 1, thread_type: None }
    }
}

/// The threading for a codec with these capabilities.
pub fn select_threading(capabilities: i32) -> (threading: Threading)
    ensures
        threading == threading_for(capabilities),
{
    if capabilities & CODEC_CAP_FRAME_THREADS != 0 {
        Threading { thread_count: 0, thread_type: Some(ThreadType::Frame) }
    } else if capabilities & CODEC_CAP_SLICE_THREADS != 0 {
        Threading { thread_count: 0, thread_type: Some(ThreadType::Slice) }
    } else {
        // don't use multithreading
        Threading { thread_count: 1, thread_type: None }
    }
}

/// The first video stream, from `i` on; the number of streams if there is none.
pub open spec fn video_from(streams: Seq<MediaType>, i: int) -> int
    decreases streams.len() - i,
{
    if i >= streams.len() {
        streams.len() as int
    } else if streams[i] == MediaType::Video {
        i
    } else {
        video_from(streams, i + 1)
    }
}

/// The position of the first video stream.
pub fn find_video_stream(streams: &Vec<MediaType>) -> (found: Option<usize>)
    ensures
        found == (if video_from(streams@, 0) < streams@.len() {
            Some(video_from(streams@, 0) as usize)
        } else {
            None
        }),
        found matches Some(i) ==> i < streams@.len() && streams@[i as int] == MediaType::Video && (
        forall|j: int| 0 <= j < i ==> #[trigger] streams@[j] != MediaType::Video),
        found is None ==> forall|j: int|
            0 <= j < streams@.len() ==> #[trigger] streams@[j] != MediaType::Video,
{
    let mut i: usize = 0;
    while i < streams.len()
        invariant
            i <= streams@.len(),
            forall|j: int| 0 <= j < i ==> #[trigger] streams@[j] != MediaType::Video,
            video_from(streams@, 0) == video_from(streams@, i as int),
        decreases streams@.len() - i,
    {
        if streams[i] == MediaType::Video {
            return Some(i);
        }
        i += 1;
    }
    None
}

/// A step in opening a file is done. Each variant holds what the decoding
/// library returned for it.
#[derive(Debug, PartialEq, Eq)]
pub enum OpenEvent {
    /// The file is opened.
    InputOpened { status: i32 },
    /// The streams are probed: what each carries, and how long the file lasts.
    StreamsProbed { status: i32, streams: Vec<MediaType>, duration: i64 },
    /// A decoder is looked up.
    CodecSearched { found: bool },
    /// A context for the decoder is made and given the stream's parameters.
    ContextFilled { status: i32, capabilities: i32 },
    /// The decoder is started, and knows the size of its frames.
    CodecOpened { status: i32, width: i32, height: i32 },
    /// A frame to decode into is allocated.
    FrameAllocated { allocated: bool },
    /// A pixel buffer for the converted frame is allocated. The status is its
    /// size.
    ImageAllocated { status: i32 },
    /// A packet to read into is allocated.
    PacketAllocated { allocated: bool },
}

/// The next step in opening a file.
#[derive(Clone, Copy, Debug, PartialEq, Eq, Structural)]
pub enum OpenAction {
    /// Open the file.
    OpenInput,
    /// Probe the file's streams.
    ProbeStreams,
    /// Look up a decoder for the stream.
    FindCodec { stream: usize },
    /// Make a context for the decoder and give it the stream's parameters.
    FillContext { stream: usize },
    /// Start the decoder.
    OpenCodec { threading: Threading },
    /// Allocate a frame to decode into.
    AllocateFrame,
    /// Allocate a pixel buffer for the converted frame, with rows at multiples of
    /// `align` bytes.
    AllocateImage { width: i32, height: i32, align: i32 },
    /// Allocate a packet to read into.
    AllocatePacket,
    /// Set up the conversion of frames. The file is open then.
    CreateScaler { width: i32, height: i32 },
    /// Give up.
    Fail { error: Error },
}

/// A call into the decoding library whose result does not matter.
#[derive(Clone, Copy, Debug, PartialEq, Eq, Structural)]
pub enum DecoderCall {
    /// Convert `rows` rows of the decoded frame, from `first_row` on, into the
    /// pixel buffer.
    ScaleFrame { first_row: i32, rows: i32 },
    /// Release the decoded frame.
    UnrefFrame,
    /// Release the packet.
    UnrefPacket,
    /// Go to the place of `timestamp` in a stream of the file.
    SeekFrame { stream: usize, timestamp: i64, flags: i32 },
    /// Make the decoder forget the packets that it got.
    FlushCodec,
}

/// A step in reading a frame is done. Each variant holds what the decoding
/// library returned for it.
#[derive(Clone, Copy, Debug, PartialEq, Eq, Structural)]
pub enum ReadEvent {
    /// Nothing is done yet.
    Started,
    /// A packet is read from the file.
    PacketRead { status: i32, stream_index: i32 },
    /// The packet is sent to the decoder.
    PacketSent { status: i32 },
    /// The decoder is asked for a frame. Frames have `height` rows by then.
    FrameReceived { status: i32, pts: i64, height: i32 },
}

/// The next step in reading a frame.
#[derive(Clone, Copy, Debug, PartialEq, Eq, Structural)]
pub enum ReadAction {
    /// Read a packet from the file.
    ReadPacket,
    /// Send the packet to the decoder.
    SendPacket,
    /// Ask the decoder for a frame.
    ReceiveFrame,
    /// Return: the frame in the pixel buffer has the timestamp `pts`.
    Finish { pts: i64 },
    /// Return: there is no frame.
    Fail { error: Error },
}

/// What to do in answer to a [`ReadEvent`]: some calls, in order, and then the
/// next step.
#[derive(Debug, PartialEq, Eq)]
pub struct ReadStep {
    pub calls: Vec<DecoderCall>,
    pub action: ReadAction,
}

/// The statuses by which the decoder says that there is no frame yet, or that
/// there are no more.
#[derive(Clone, Copy, Debug, PartialEq, Eq, Structural)]
pub struct StatusCodes {
    pub again: i32,
    pub eof: i32,
}

/// A file that is opened, or being opened, for decoding.
#[derive(Clone, Copy, Debug, PartialEq, Eq, Structural)]
pub struct Decoder {
    /// The size of a frame, in pixels.
    pub width: i32,
    pub height: i32,
    /// The size of a converted frame, in bytes.
    pub buffer_size: i32,
    /// How long the file lasts, as the decoding library has it.
    pub duration: i64,
    /// The stream that is decoded.
    pub video_stream_index: usize,
}

impl Decoder {
    /// A decoder whose file is still to be opened: with
    /// [`OpenAction::OpenInput`] as the first step.
    pub fn new() -> (decoder: Decoder)
        ensures
            decoder == (Decoder {
                width: 0,
                height: 0,
                buffer_size: 0,
                duration: 0,
                video_stream_index: 0,
            }),
    {
        Decoder { width: 0, height: 0, buffer_size: 0, duration: 0, video_stream_index: 0 }
    }

    /// What the decoder knows of its file after `event`.
    pub open spec fn opened(self, event: OpenEvent) -> Decoder {
        match event {
            OpenEvent::StreamsProbed { status, streams, duration } => if status < 0 {
                self
            } else if video_from(streams@, 0) < streams@.len() {
                Decoder { duration, video_stream_index: video_from(streams@, 0) as usize, ..self }
            } else {
                Decoder { duration, ..self }
            },
            OpenEvent::CodecOpened { status, width, height } => if status < 0 {
                self
            } else {
                Decoder { width, height, ..self }
            },
            OpenEvent::ImageAllocated { status } => Decoder { buffer_size: status, ..self },
            _ => self,
        }
    }

    /// The step that follows `event`.
    pub open spec fn open_action(self, event: OpenEvent) -> OpenAction {
        match event {
            OpenEvent::InputOpened { status } => if status != 0 {
                OpenAction::Fail { error: Error::OpenInput }
            } else {
                OpenAction::ProbeStreams
            },
            OpenEvent::StreamsProbed { status, streams, .. } => if status < 0 {
                OpenAction::Fail { error: Error::StreamInfo }
            } else if video_from(streams@, 0) < streams@.len() {
                OpenAction::FindCodec { stream: video_from(streams@, 0) as usize }
            } else {
                OpenAction::Fail { error: Error::NoVideoStream }
            },
            OpenEvent::CodecSearched { found } => if !found {
                OpenAction::Fail { error: Error::UnsupportedCodec }
            } else {
                OpenAction::FillContext { stream: self.video_stream_index }
            },
            OpenEvent::ContextFilled { status, capabilities } => if status != 0 {
                OpenAction::Fail { error: Error::CodecContext }
            } else {
                OpenAction::OpenCodec { threading: threading_for(capabilities) }
            },
            OpenEvent::CodecOpened { status, .. } => if status < 0 {
                OpenAction::Fail { error: Error::OpenCodec }
            } else {
                OpenAction::AllocateFrame
            },
            OpenEvent::FrameAllocated { allocated } => if !allocated {
                OpenAction::Fail { error: Error::AllocateFrame }
            } else {
                OpenAction::AllocateImage { width: self.width, height: self.height, align: 1 }
            },
            OpenEvent::ImageAllocated { status } => if status < 0 {
                OpenAction::Fail { error: Error::AllocateFrameBuffer }
            } else {
                OpenAction::AllocatePacket
            },
            OpenEvent::PacketAllocated { allocated } => if !allocated {
                OpenAction::Fail { error: Error::AllocatePacket }
            } else {
                OpenAction::CreateScaler { width: self.width, height: self.height }
            },
        }
    }

    /// Takes note of a step in opening the file and says which one is next.
    pub fn open(&mut self, event: OpenEvent) -> (action: OpenAction)
        ensures
            *final(self) == old(self).opened(event),
            action == old(self).open_action(event),
    {
        match event {
            OpenEvent::InputOpened { status } => {
                if status != 0 {
                    return OpenAction::Fail { error: Error::OpenInput };
                }
                OpenAction::ProbeStreams
            },
            OpenEvent::StreamsProbed { status, streams, duration } => {
                if status < 0 {
                    return OpenAction::Fail { error: Error::StreamInfo };
                }
                self.duration = duration;
                match find_video_stream(&streams) {
                    Some(stream) => {
                        self.video_stream_index = stream;
                        OpenAction::FindCodec { stream }
                    },
                    None => OpenAction::Fail { error: Error::NoVideoStream },
                }
            },
            OpenEvent::CodecSearched { found } => {
                if !found {
                    return OpenAction::Fail { error: Error::UnsupportedCodec };
                }
                OpenAction::FillContext { stream: self.video_stream_index }
            },
            OpenEvent::ContextFilled { status, capabilities } => {
                if status != 0 {
                    return OpenAction::Fail { error: Error::CodecContext };
                }
                OpenAction::OpenCodec { threading: select_threading(capabilities) }
            },
            OpenEvent::CodecOpened { status, width, height } => {
                if status < 0 {
                    return OpenAction::Fail { error: Error::OpenCodec };
                }
                self.height = height;
                self.width = width;
                OpenAction::AllocateFrame
            },
            OpenEvent::FrameAllocated { allocated } => {
                if !allocated {
                    return OpenAction::Fail { error: Error::AllocateFrame };
                }
                OpenAction::AllocateImage { width: self.width, height: self.height, align: 1 }
            },
            OpenEvent::ImageAllocated { status } => {
                self.buffer_size = status;
                if self.buffer_size < 0 {
                    return OpenAction::Fail { error: Error::AllocateFrameBuffer };
                }
                OpenAction::AllocatePacket
            },
            OpenEvent::PacketAllocated { allocated } => {
                if !allocated {
                    return OpenAction::Fail { error: Error::AllocatePacket };
                }
                OpenAction::CreateScaler { width: self.width, height: self.height }
            },
        }
    }

    /// Whether the file is a still image: it does not last.
    pub open spec fn still(self) -> bool {
        self.duration <= 0
    }

    /// Whether the file is a still image.
    pub fn is_image(&self) -> (image: bool)
        ensures
            image == self.still(),
            image == (self.duration <= 0),
    {
        self.duration <= 0
    }

    /// The calls that follow `event`, before the next step.
    pub open spec fn read_calls(self, codes: StatusCodes, event: ReadEvent) -> Seq<DecoderCall> {
        match event {
            ReadEvent::Started => seq![],
            ReadEvent::PacketRead { status, stream_index } => if status < 0 {
                seq![
                    DecoderCall::UnrefPacket,
                    DecoderCall::SeekFrame {
                        stream: self.video_stream_index,
                        timestamp: 0,
                        flags: 0,
                    },
                    DecoderCall::FlushCodec,
                ]
            } else if stream_index == self.video_stream_index {
                seq![]
            } else {
                seq![DecoderCall::UnrefPacket]
            },
            ReadEvent::PacketSent { .. } => seq![],
            ReadEvent::FrameReceived { status, height, .. } => if status == codes.again {
                seq![DecoderCall::UnrefPacket]
            } else if status == codes.eof {
                seq![
                    DecoderCall::SeekFrame {
                        stream: self.video_stream_index,
                        timestamp: 0,
                        flags: 0,
                    },
                    DecoderCall::FlushCodec,
                ]
            } else if status < 0 {
                seq![]
            } else {
                seq![
                    DecoderCall::ScaleFrame { first_row: 0, rows: height },
                    DecoderCall::UnrefFrame,
                    DecoderCall::UnrefPacket,
                ]
            },
        }
    }

    /// The step that follows `event`.
    pub open spec fn read_action(self, codes: StatusCodes, event: ReadEvent) -> ReadAction {
        match event {
            ReadEvent::Started => ReadAction::ReadPacket,
            ReadEvent::PacketRead { status, stream_index } => if status < 0 {
                ReadAction::Fail { error: Error::WrappedAround }
            } else if stream_index == self.video_stream_index {
                ReadAction::SendPacket
            } else {
                ReadAction::ReadPacket
            },
            ReadEvent::PacketSent { status } => if status < 0 {
                ReadAction::Fail { error: Error::SendPacket }
            } else {
                ReadAction::ReceiveFrame
            },
            ReadEvent::FrameReceived { status, pts, .. } => if status == codes.again || status
                == codes.eof {
                ReadAction::ReadPacket
            } else if status < 0 {
                ReadAction::Fail { error: Error::DecodePacket }
            } else {
                ReadAction::Finish { pts }
            },
        }
    }

    /// Says what to do after a step in reading the next frame, starting with
    /// [`ReadEvent::Started`].
    ///
    /// Packets of other streams are skipped, and so are those that do not yet
    /// complete a frame. At the end of the file it is rewound, and no frame is
    /// returned.
    pub fn read_frame(&self, codes: StatusCodes, event: ReadEvent) -> (step: ReadStep)
        ensures
            step.calls@ == self.read_calls(codes, event),
            step.action == self.read_action(codes, event),
    {
        match event {
            ReadEvent::Started => ReadStep { calls: vec![], action: ReadAction::ReadPacket },
            ReadEvent::PacketRead { status, stream_index } => {
                if status < 0 {
                    ReadStep {
                        calls: vec![
                            DecoderCall::UnrefPacket,
                            DecoderCall::SeekFrame {
                                stream: self.video_stream_index,
                                timestamp: 0,
                                flags: 0,
                            },
                            DecoderCall::FlushCodec,
                        ],
                        action: ReadAction::Fail { error: Error::WrappedAround },
                    }
                } else if stream_index >= 0 && stream_index as usize == self.video_stream_index {
                    ReadStep { calls: vec![], action: ReadAction::SendPacket }
                } else {
                    ReadStep {
                        calls: vec![DecoderCall::UnrefPacket],
                        action: ReadAction::ReadPacket,
                    }
                }
            },
            ReadEvent::PacketSent { status } => {
                if status < 0 {
                    ReadStep {
                        calls: vec![],
                        action: ReadAction::Fail { error: Error::SendPacket },
                    }
                } else {
                    ReadStep { calls: vec![], action: ReadAction::ReceiveFrame }
                }
            },
            ReadEvent::FrameReceived { status, pts, height } => {
                if status == codes.again {
                    ReadStep {
                        calls: vec![DecoderCall::UnrefPacket],
                        action: ReadAction::ReadPacket,
                    }
                } else if status == codes.eof {
                    ReadStep {
                        calls: vec![
                            DecoderCall::SeekFrame {
                                stream: self.video_stream_index,
                                timestamp: 0,
                                flags: 0,
                            },
                            DecoderCall::FlushCodec,
                        ],
                        action: ReadAction::ReadPacket,
                    }
                } else if status < 0 {
                    ReadStep {
                        calls: vec![],
                        action: ReadAction::Fail { error: Error::DecodePacket },
                    }
                } else {
                    ReadStep {
                        calls: vec![
                            DecoderCall::ScaleFrame { first_row: 0, rows: height },
                            DecoderCall::UnrefFrame,
                            DecoderCall::UnrefPacket,
                        ],
                        action: ReadAction::Finish { pts },
                    }
                }
            },
        }
    }
}

} // verus!
