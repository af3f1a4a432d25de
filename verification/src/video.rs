//! Playback: which frame is shown when, and how frames get from the decoder to
//! the buffer.

use vstd::prelude::*;
use std::sync::Arc;

use crate::decoder::Decoder;
use crate::duration::Duration;
use crate::error::Error;
use crate::frame::{Frame, FrameBuffer, Queue};
use crate::gl::{upload, GlCommand};

verus! {

/// How long the decoding thread waits before it offers a frame again that the
/// buffer did not take.
pub const RETRY_MILLIS: u64 = 500;

/// What the decoding thread does next.
#[derive(Debug, PartialEq, Eq)]
pub enum DecodeAction {
    /// Read the next frame.
    ReadFrame,
    /// Offer a frame to the buffer.
    Offer { frame: Arc<Frame> },
    /// Wait, and then offer the frame again.
    Wait { frame: Arc<Frame>, millis: u64 },
    /// Come to an end.
    Exit,
}

impl DecodeAction {
    /// What follows once a frame is dealt with: a still image has only one.
    pub open spec fn done(decoder: Decoder) -> DecodeAction {
        if decoder.still() {
            DecodeAction::Exit
        } else {
            DecodeAction::ReadFrame
        }
    }

    /// What follows an attempt to read a frame.
    pub open spec fn read(decoder: Decoder, read: Result<Arc<Frame>, Error>) -> DecodeAction {
        match read {
            Ok(frame) => DecodeAction::Offer { frame },
            Err(_) => DecodeAction::done(decoder),
        }
    }

    /// What follows an offer of a frame.
    pub open spec fn offered(decoder: Decoder, frame: Arc<Frame>, accepted: bool) -> DecodeAction {
        if accepted {
            DecodeAction::done(decoder)
        } else {
            DecodeAction::Wait { frame, millis: RETRY_MILLIS }
        }
    }

    /// What follows an attempt to read a frame.
    pub fn frame_read(decoder: &Decoder, read: Result<Arc<Frame>, Error>) -> (action: DecodeAction)
        ensures
            action == DecodeAction::read(*decoder, read),
    {
        match read {
            Ok(frame) => DecodeAction::Offer { frame },
            Err(_) => {
                // read only frame and exit
                if decoder.is_image() {
                    DecodeAction::Exit
                } else {
                    DecodeAction::ReadFrame
                }
            },
        }
    }

    /// What follows a wait: the frame is offered again.
    pub fn waited(frame: Arc<Frame>) -> (action: DecodeAction)
        ensures
            action == (DecodeAction::Offer { frame }),
    {
        DecodeAction::Offer { frame }
    }

    /// Offers a frame to the buffer.
    pub fn offer(decoder: &Decoder, frame: Arc<Frame>, buffer: &mut FrameBuffer) -> (action:
        DecodeAction)
        ensures
            action == DecodeAction::offered(*decoder, frame, old(buffer)@.accepts()),
            final(buffer)@ == old(buffer)@.put(frame),
            old(buffer)@.wf() ==> final(buffer)@.wf(),
    {
        if !buffer.put(frame.clone()) {
            return DecodeAction::Wait { frame, millis: RETRY_MILLIS };
        }
        // read only frame and exit
        if decoder.is_image() {
            DecodeAction::Exit
        } else {
            DecodeAction::ReadFrame
        }
    }
}

/// A background that plays, or a still image.
#[derive(Clone, Copy, Debug, PartialEq, Eq, Structural)]
pub struct BackgroundVideo {
    /// When playback started, by the caller's clock; nothing before that.
    pub instant: Option<Duration>,
    pub is_image: bool,
    /// The size of a frame, in pixels.
    pub width: i32,
    pub height: i32,
}

/// What is needed to play a file that is open.
pub struct Playback {
    pub video: BackgroundVideo,
    /// The buffer that the decoding thread and the renderer share.
    pub buffer: FrameBuffer,
    /// Whether the window has to be redrawn for each frame of the video.
    pub refresh: bool,
}

impl BackgroundVideo {
    /// Gets ready to play a file that is open, in ticks of `time_base` for
    /// `duration`.
    pub fn new(decoder: &Decoder, time_base: Duration, duration: Duration) -> (playback: Playback)
        ensures
            playback.video == (BackgroundVideo {
                instant: None,
                is_image: decoder.still(),
                width: decoder.width,
                height: decoder.height,
            }),
            playback.buffer@ == (Queue { frames: Seq::empty(), time_base, duration }),
            playback.video.is_image == (decoder.duration <= 0),
            playback.refresh == !decoder.still(),
            playback.refresh == (decoder.duration > 0),
    {
        let is_image = decoder.is_image();
        Playback {
            video: BackgroundVideo {
                instant: None,
                is_image,
                width: decoder.width,
                height: decoder.height,
            },
            buffer: FrameBuffer::new(time_base, duration),
            refresh: !is_image,
        }
    }

    /// Whether there is nothing more to show: a still image that was shown.
    pub open spec fn settled(self) -> bool {
        self.is_image && self.instant is Some
    }

    /// Whether there is nothing more to show: a still image that was shown.
    pub fn is_settled(&self) -> (settled: bool)
        ensures
            settled == self.settled(),
            settled == (self.is_image && self.instant is Some),
    {
        self.is_image && self.instant.is_some()
    }

    /// How long playback has gone on at `now`.
    pub open spec fn elapsed(self, now: Duration) -> Duration {
        match self.instant {
            Some(start) => now.since(start),
            None => Duration { nanos: 0 },
        }
    }

    /// The frame to show at `now`, unless the one that is shown is to stay.
    pub open spec fn shown(self, queue: Queue, now: Duration) -> Option<Arc<Frame>> {
        if self.settled() {
            None
        } else {
            queue.taken(self.elapsed(now))
        }
    }

    /// The clock after an update at `now`: it starts with the first frame that
    /// is shown, and stops when playback starts over.
    pub open spec fn updated(self, queue: Queue, now: Duration) -> BackgroundVideo {
        if self.settled() {
            self
        } else if self.instant is None {
            if self.shown(queue, now) is Some {
                BackgroundVideo { instant: Some(now), ..self }
            } else {
                self
            }
        } else if queue.wrapped(self.elapsed(now)) {
            BackgroundVideo { instant: None, ..self }
        } else {
            self
        }
    }

    /// The queue after an update at `now`.
    pub open spec fn drained(self, queue: Queue, now: Duration) -> Queue {
        if self.settled() {
            queue
        } else {
            queue.take(self.elapsed(now))
        }
    }

    /// The commands that an update at `now` gives.
    pub open spec fn update_commands(self, texture: u32, queue: Queue, now: Duration) -> Seq<
        GlCommand,
    > {
        match self.shown(queue, now) {
            Some(frame) => upload(texture, self.width, self.height, frame),
            None => seq![],
        }
    }

    /// Puts the frame to show at `now` into the texture. A tick of the stream
    /// lasts at least a microsecond, unless there is nothing more to show.
    pub fn update_frame(&mut self, texture: u32, buffer: &mut FrameBuffer, now: Duration) -> (
    commands: Vec<GlCommand>)
        requires
            old(self).settled() || old(buffer)@.time_base.micros() > 0,
        ensures
            *final(self) == old(self).updated(old(buffer)@, now),
            final(buffer)@ == old(self).drained(old(buffer)@, now),
            commands@ == old(self).update_commands(texture, old(buffer)@, now),
            old(buffer)@.wf() ==> final(buffer)@.wf(),
    {
        if self.is_settled() {
            return vec![];
        }
        let frame = match self.instant {
            None => {
                let (frame, _) = buffer.take(Duration::zero());
                match frame {
                    Some(frame) => {
                        self.instant = Some(now);
                        frame
                    },
                    None => {
                        return vec![];
                    },
                }
            },
            Some(start) => {
                let (frame, wrapped) = buffer.take(now.saturating_sub(start));
                if wrapped {
                    self.instant = None;
                }
                match frame {
                    Some(frame) => frame,
                    None => {
                        return vec![];
                    },
                }
            },
        };
        vec![
            GlCommand::UnpackRowLength { pixels: self.width },
            GlCommand::BindTexture { texture },
            GlCommand::UploadFrame { width: self.width, height: self.height, frame },
            GlCommand::BindTexture { texture: 0 },
            GlCommand::UnpackRowLength { pixels: 0 },
        ]
    }
}

} // verus!
