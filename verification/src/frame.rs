//! Decoded frames, and the queue that carries them from the decoding thread to
//! the renderer.

use vstd::prelude::*;
use std::collections::VecDeque;
use std::sync::Arc;

use crate::duration::Duration;

verus! {

/// A decoded frame: its pixels, and its presentation timestamp in ticks of the
/// stream's time base.
#[derive(Debug, PartialEq, Eq)]
pub struct Frame {
    pub data: Vec<u8>,
    pub pts: i64,
}

impl Frame {
    /// Copies the first `len` bytes of a decoder's output into a frame.
    pub fn from_buffer(buf: &[u8], len: usize, pts: i64) -> (frame: Frame)
        requires
            len <= buf@.len(),
        ensures
            frame.data@ == buf@.take(len as int),
            frame.pts == pts,
    {
        let data = vstd::slice::slice_to_vec(vstd::slice::slice_subrange(buf, 0, len));
        Frame { data, pts }
    }
}

/// The queue takes another frame as long as it holds no more than this many.
pub const PUT_LIMIT: usize = 30;

/// Whether a frame with timestamp `pts` is due once playback has reached tick
/// `target`. A negative timestamp carries no position, so it is due at once.
pub open spec fn is_due(pts: i64, target: nat) -> bool {
    pts < 0 || pts >= target
}

/// Whether playback starts over at frame `i`: its timestamp lies before that of
/// the frame in front of it.
pub open spec fn wraps_at(frames: Seq<Arc<Frame>>, i: int) -> bool {
    0 < i < frames.len() && frames[i].pts < frames[i - 1].pts
}

/// Whether the search for the frame to show ends at frame `i`.
pub open spec fn stops_at(frames: Seq<Arc<Frame>>, target: nat, i: int) -> bool {
    wraps_at(frames, i) || is_due(frames[i].pts, target)
}

/// The first frame, from `i` on, at which the search ends; the length of the
/// queue if there is none.
pub open spec fn stop_from(frames: Seq<Arc<Frame>>, target: nat, i: int) -> int
    decreases frames.len() - i,
{
    if i >= frames.len() {
        frames.len() as int
    } else if stops_at(frames, target, i) {
        i
    } else {
        stop_from(frames, target, i + 1)
    }
}

/// What a [`FrameBuffer`] holds.
#[verifier::ext_equal]
pub struct Queue {
    pub frames: Seq<Arc<Frame>>,
    pub time_base: Duration,
    pub duration: Duration,
}

impl Queue {
    /// The queue never holds more than one frame over the limit of `put`.
    pub open spec fn wf(self) -> bool {
        self.frames.len() <= PUT_LIMIT + 1
    }

    /// Whether `put` takes another frame.
    pub open spec fn accepts(self) -> bool {
        self.frames.len() <= PUT_LIMIT
    }

    /// The queue after a `put` of `frame`.
    pub open spec fn put(self, frame: Arc<Frame>) -> Queue {
        if self.accepts() {
            Queue { frames: self.frames.push(frame), ..self }
        } else {
            self
        }
    }

    /// The tick that playback has reached at `time`.
    pub open spec fn target(self, time: Duration) -> nat {
        time.micros() / self.time_base.micros()
    }

    /// The position of the frame to show at `time`; the length of the queue if
    /// that frame has not arrived.
    pub open spec fn stop(self, time: Duration) -> int {
        stop_from(self.frames, self.target(time), 0)
    }

    /// The frame to show at `time`.
    pub open spec fn taken(self, time: Duration) -> Option<Arc<Frame>> {
        if self.stop(time) < self.frames.len() {
            Some(self.frames[self.stop(time)])
        } else {
            None
        }
    }

    /// Whether a `take` at `time` tells its caller that playback starts over.
    pub open spec fn wrapped(self, time: Duration) -> bool {
        time.nanos > self.duration.nanos || wraps_at(self.frames, self.stop(time))
    }

    /// The queue after a `take` at `time`.
    pub open spec fn take(self, time: Duration) -> Queue {
        if self.stop(time) < self.frames.len() {
            Queue { frames: self.frames.skip(self.stop(time)), ..self }
        } else {
            self
        }
    }
}

/// Frames that were decoded ahead of time, in the order in which they are shown.
pub struct FrameBuffer {
    frames: VecDeque<Arc<Frame>>,
    time_base: Duration,
    duration: Duration,
}

impl View for FrameBuffer {
    type V = Queue;

    closed spec fn view(&self) -> Queue {
        Queue { frames: self.frames@, time_base: self.time_base, duration: self.duration }
    }
}

impl FrameBuffer {
    /// An empty buffer for a stream that counts in ticks of `time_base` and
    /// lasts for `duration`.
    pub fn new(time_base: Duration, duration: Duration) -> (buffer: FrameBuffer)
        ensures
            buffer@ == (Queue { frames: Seq::empty(), time_base, duration }),
            buffer@.wf(),
    {
        FrameBuffer { frames: VecDeque::with_capacity(60), time_base, duration }
    }

    /// The length of a tick of the stream.
    pub fn time_base(&self) -> (time_base: Duration)
        ensures
            time_base == self@.time_base,
    {
        self.time_base
    }

    /// Appends a frame and returns `true`, or returns `false` if the buffer is
    /// full.
    pub fn put(&mut self, frame: Arc<Frame>) -> (accepted: bool)
        ensures
            accepted == old(self)@.accepts(),
            accepted == (old(self)@.frames.len() < 31),
            final(self)@ == old(self)@.put(frame),
            final(self)@.frames == (if accepted {
                old(self)@.frames.push(frame)
            } else {
                old(self)@.frames
            }),
            final(self)@.time_base == old(self)@.time_base,
            final(self)@.duration == old(self)@.duration,
            old(self)@.wf() ==> final(self)@.wf(),
    {
        if self.frames.len() > PUT_LIMIT {
            return false;
        }
        self.frames.push_back(frame);
        true
    }

    /// Finds the frame to show at `time` and drops those in front of it. A tick
    /// of the stream lasts at least a microsecond.
    ///
    /// returns: (frame, wrapped_around)
    pub fn take(&mut self, time: Duration) -> (ret: (Option<Arc<Frame>>, bool))
        requires
            old(self)@.time_base.micros() > 0,
        ensures
            ret.0 == old(self)@.taken(time),
            ret.1 == old(self)@.wrapped(time),
            final(self)@ == old(self)@.take(time),
            old(self)@.wf() ==> final(self)@.wf(),
    {
        let pts: u128 = time.as_micros() / self.time_base.as_micros();
        let mut i: usize = 0;
        let mut prev_pts: i64 = i64::MIN;
        let mut wrapped_around = time.nanos > self.duration.nanos;
        let len: usize = self.frames.len();
        let ghost frames = self.frames@;
        while i < len
            invariant_except_break
                wrapped_around == (time.nanos > self.duration.nanos),
                prev_pts == (if i == 0 { i64::MIN } else { frames[i - 1].pts }),
                old(self)@.stop(time) == stop_from(frames, pts as nat, i as int),
            invariant
                i <= len,
                len == frames.len(),
                frames == self.frames@,
                *self == *old(self),
                pts == old(self)@.target(time),
            ensures
                i == old(self)@.stop(time),
                wrapped_around == old(self)@.wrapped(time),
            decreases len - i,
        {
            let frame_pts: i64 = self.frames[i].pts;
            if prev_pts > frame_pts {
                // we have wrapped around
                wrapped_around = true;
                break;
            }
            if frame_pts < 0 || frame_pts as u128 >= pts {
                break;
            }
            i += 1;
            prev_pts = frame_pts;
        }

        if i >= len {
            (None, wrapped_around)
        } else {
            let ret = Some(self.frames[i].clone());
            let ghost start = i;
            while i > 0
                invariant
                    i <= start < frames.len(),
                    self.frames@ == frames.skip(start - i),
                    self.time_base == old(self).time_base,
                    self.duration == old(self).duration,
                decreases i,
            {
                self.frames.pop_front();
                i -= 1;
            }
            (ret, wrapped_around)
        }
    }
}

} // verus!
