//! What can go wrong with a background.

use vstd::prelude::*;

verus! {

/// Why a background could not be opened, or a frame of it not be read.
#[derive(Clone, Copy, Debug, PartialEq, Eq, Structural)]
pub enum Error {
    /// The file cannot be opened, or is in no known format.
    OpenInput,
    /// The file's streams cannot be probed.
    StreamInfo,
    /// The file has no video stream.
    NoVideoStream,
    /// There is no decoder for the video stream.
    UnsupportedCodec,
    /// The decoder does not take the stream's parameters.
    CodecContext,
    /// The decoder does not start.
    OpenCodec,
    /// No frame could be allocated to decode into.
    AllocateFrame,
    /// No pixel buffer could be allocated for the converted frame.
    AllocateFrameBuffer,
    /// No packet could be allocated to read into.
    AllocatePacket,
    /// The decoder does not take a packet.
    SendPacket,
    /// The decoder does not make a frame of a packet.
    DecodePacket,
    /// The file is read to its end, and was rewound.
    WrappedAround,
}

impl Error {
    /// What users and logs are told.
    pub open spec fn text(self) -> Seq<char> {
        match self {
            Error::OpenInput => "failed to avformat open"@,
            Error::StreamInfo => "failed to find stream info"@,
            Error::NoVideoStream => "failed to find video stream"@,
            Error::UnsupportedCodec => "unsupported codec"@,
            Error::CodecContext => "failed to fill codec context"@,
            Error::OpenCodec => "failed to open codec"@,
            Error::AllocateFrame => "failed to allocate frame"@,
            Error::AllocateFrameBuffer => "failed to allocate frame buffer"@,
            Error::AllocatePacket => "failed to allocate packet"@,
            Error::SendPacket => "failed to send packet for decoding"@,
            Error::DecodePacket => "failed to decode packet"@,
            Error::WrappedAround => "wrapped around"@,
        }
    }

    /// What users and logs are told.
    pub fn message(&self) -> (message: &'static str)
        ensures
            message@ == self.text(),
    {
        match self {
            Error::OpenInput => "failed to avformat open",
            Error::StreamInfo => "failed to find stream info",
            Error::NoVideoStream => "failed to find video stream",
            Error::UnsupportedCodec => "unsupported codec",
            Error::CodecContext => "failed to fill codec context",
            Error::OpenCodec => "failed to open codec",
            Error::AllocateFrame => "failed to allocate frame",
            Error::AllocateFrameBuffer => "failed to allocate frame buffer",
            Error::AllocatePacket => "failed to allocate packet",
            Error::SendPacket => "failed to send packet for decoding",
            Error::DecodePacket => "failed to decode packet",
            Error::WrappedAround => "wrapped around",
        }
    }
}

} // verus!
