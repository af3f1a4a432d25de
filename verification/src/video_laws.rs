//! What holds of playback over any number of frames.

use vstd::prelude::*;
use std::sync::Arc;

use crate::decoder::Decoder;
use crate::duration::Duration;
use crate::error::Error;
use crate::frame::{is_due, wraps_at, Frame, Queue};
use crate::frame_laws::{
    accepted, law_fifo, law_take_at_start, law_take_by_timestamp, law_taken_is_next,
    law_taken_stays_in_front, run, QueueOp,
};
use crate::gl::GlCommand;
use crate::video::{BackgroundVideo, DecodeAction};

verus! {

/// The video after a series of updates. For each of them there is what the
/// buffer held, and when it took place.
pub open spec fn play(video: BackgroundVideo, updates: Seq<(Queue, Duration)>) -> BackgroundVideo
    decreases updates.len(),
{
    if updates.len() == 0 {
        video
    } else {
        let before = play(video, updates.drop_last());
        before.updated(updates.last().0, updates.last().1)
    }
}

/// How many of a series of updates showed a frame.
pub open spec fn shows(video: BackgroundVideo, updates: Seq<(Queue, Duration)>) -> nat
    decreases updates.len(),
{
    if updates.len() == 0 {
        0
    } else {
        let before = play(video, updates.drop_last());
        let earlier = shows(video, updates.drop_last());
        if before.shown(updates.last().0, updates.last().1) is Some {
            earlier + 1
        } else {
            earlier
        }
    }
}

/// Whether a buffer has a frame to show, and ticks of at least a microsecond.
pub open spec fn has_frame(queue: Queue) -> bool {
    queue.frames.len() > 0 && queue.time_base.micros() > 0
}

/// Playback starts, and starts over, with the frame in front of the buffer, and
/// the clock starts with it. As long as there is none, the clock stands still.
pub proof fn law_starts_with_front(video: BackgroundVideo, queue: Queue, now: Duration)
    requires
        video.instant is None,
        queue.time_base.micros() > 0,
    ensures
        video.shown(queue, now) == (if queue.frames.len() > 0 {
            Some(queue.frames[0])
        } else {
            None
        }),
        video.drained(queue, now) == queue,
        video.updated(queue, now) == (BackgroundVideo {
            instant: if queue.frames.len() > 0 {
                Some(now)
            } else {
                None
            },
            ..video
        }),
{
    law_take_at_start(queue, Duration { nanos: 0 });
}

/// A still image is shown once. Updates do nothing until there is a frame in a
/// buffer with ticks of at least a microsecond. That update shows the frame in
/// front, and starts the clock. No update after that does anything, so the clock
/// keeps its start.
pub proof fn law_image_is_shown_once(video: BackgroundVideo, updates: Seq<(Queue, Duration)>)
    requires
        video.is_image,
        video.instant is None,
    ensures
        play(video, updates).is_image,
        shows(video, updates) == (if play(video, updates).settled() {
            1nat
        } else {
            0
        }),
        !play(video, updates).settled() ==> play(video, updates) == video,
        forall|k: int|
            0 <= k < updates.len() && has_frame(#[trigger] updates[k].0) ==> play(
                video,
                updates,
            ).settled(),
        forall|k: int|
            0 <= k < updates.len() && has_frame(#[trigger] updates[k].0) && !play(
                video,
                updates.take(k),
            ).settled() ==> {
                &&& play(video, updates.take(k)).shown(updates[k].0, updates[k].1) == Some(
                    updates[k].0.frames[0],
                )
                &&& play(video, updates).instant == Some(updates[k].1)
            },
        forall|k: int|
            0 <= k <= updates.len() && (#[trigger] play(video, updates.take(k))).settled() ==> play(
                video,
                updates,
            ) == play(video, updates.take(k)),
    decreases updates.len(),
{
    assert(updates.take(updates.len() as int) =~= updates);
    if updates.len() > 0 {
        let before = updates.drop_last();
        let mid = play(video, before);
        law_image_is_shown_once(video, before);
        assert(updates.take(before.len() as int) =~= before);
        if !mid.settled() && has_frame(updates.last().0) {
            law_starts_with_front(mid, updates.last().0, updates.last().1);
        }
        assert forall|k: int| 0 <= k <= before.len() implies #[trigger] updates.take(k)
            == before.take(k) by {
            assert(updates.take(k) =~= before.take(k));
        }
        assert forall|k: int| 0 <= k < updates.len() && has_frame(#[trigger] updates[k].0) implies {
            &&& play(video, updates).settled()
            &&& !play(video, updates.take(k)).settled() ==> {
                &&& play(video, updates.take(k)).shown(updates[k].0, updates[k].1) == Some(
                    updates[k].0.frames[0],
                )
                &&& play(video, updates).instant == Some(updates[k].1)
            }
        } by {
            assert(updates.take(k) =~= before.take(k));
            if k < before.len() {
                assert(before[k] == updates[k]);
                assert(has_frame(before[k].0));
            }
        }
        assert forall|k: int|
            0 <= k <= updates.len() && (#[trigger] play(
                video,
                updates.take(k),
            )).settled() implies play(video, updates) == play(video, updates.take(k)) by {
            if k <= before.len() {
                assert(updates.take(k) =~= before.take(k));
            }
        }
    } else {
        assert(forall|k: int| 0 <= k <= 0 ==> #[trigger] updates.take(k) =~= updates);
    }
}

/// While a video plays, the frame that is shown is one whose time has not
/// passed, or the one at which playback starts over. Frames whose time has not
/// passed are never dropped.
pub proof fn law_keeps_pace(video: BackgroundVideo, queue: Queue, now: Duration)
    requires
        !video.is_image,
    ensures
        video.shown(queue, now) matches Some(frame) ==> is_due(
            frame.pts,
            queue.target(video.elapsed(now)),
        ) || wraps_at(queue.frames, queue.stop(video.elapsed(now))),
        forall|j: int|
            0 <= j < queue.frames.len() - video.drained(queue, now).frames.len() ==> 0 <= (
            #[trigger] queue.frames[j]).pts < queue.target(video.elapsed(now)),
{
    law_taken_is_next(queue, video.elapsed(now));
}

/// A video starts over: when its time is over, or when a frame comes whose
/// timestamp lies before that of the frame in front of it. Its clock stops then,
/// and the next update that finds a frame shows the one in front of the buffer
/// and starts the clock again.
pub proof fn law_starts_over(
    video: BackgroundVideo,
    queue: Queue,
    now: Duration,
    later_queue: Queue,
    later: Duration,
)
    requires
        !video.is_image,
        video.instant is Some,
        queue.wrapped(video.elapsed(now)),
        has_frame(later_queue),
    ensures
        video.updated(queue, now).instant is None,
        video.updated(queue, now).shown(later_queue, later) == Some(later_queue.frames[0]),
        video.updated(queue, now).updated(later_queue, later).instant == Some(later),
{
    law_starts_with_front(video.updated(queue, now), later_queue, later);
}

/// The frame that a video shows as it starts over is shown again by the next
/// update, whatever was put into the buffer in between.
pub proof fn law_start_is_shown_again(
    video: BackgroundVideo,
    queue: Queue,
    now: Duration,
    puts: Seq<QueueOp>,
    later: Duration,
)
    requires
        !video.is_image,
        video.instant is Some,
        queue.time_base.micros() > 0,
        queue.wrapped(video.elapsed(now)),
        video.shown(queue, now) is Some,
        forall|k: int| 0 <= k < puts.len() ==> #[trigger] puts[k] is Put,
    ensures
        video.updated(queue, now).shown(run(video.drained(queue, now), puts), later)
            == video.shown(queue, now),
        video.updated(queue, now).updated(
            run(video.drained(queue, now), puts),
            later,
        ).instant == Some(later),
{
    law_taken_stays_in_front(queue, video.elapsed(now));
    lemma_puts_keep_front(video.drained(queue, now), puts);
    law_starts_over(video, queue, now, run(video.drained(queue, now), puts), later);
}

/// Puts keep the frame in front and the ticks.
proof fn lemma_puts_keep_front(queue: Queue, puts: Seq<QueueOp>)
    requires
        queue.frames.len() > 0,
        forall|k: int| 0 <= k < puts.len() ==> #[trigger] puts[k] is Put,
    ensures
        run(queue, puts).frames.len() > 0,
        run(queue, puts).frames[0] == queue.frames[0],
        run(queue, puts).time_base == queue.time_base,
    decreases puts.len(),
{
    if puts.len() > 0 {
        assert forall|k: int| 0 <= k < puts.len() - 1 implies #[trigger]
        puts.drop_last()[k] is Put by {
            assert(puts[k] is Put);
        }
        lemma_puts_keep_front(queue, puts.drop_last());
        assert(puts[puts.len() - 1] is Put);
    }
}

/// A step of the decoding thread, or of the renderer.
pub enum PipelineEvent {
    /// The thread has tried to read a frame.
    Read { read: Result<Arc<Frame>, Error> },
    /// The thread has offered its frame to the buffer.
    Offer,
    /// The thread has waited.
    Wait,
    /// The renderer has taken a frame out of the buffer.
    Take { time: Duration },
}

/// The decoding thread and the buffer.
pub struct Pipeline {
    /// What the thread does next.
    pub action: DecodeAction,
    /// What the buffer holds.
    pub queue: Queue,
    /// How many times the thread has tried to read a frame.
    pub reads: nat,
    /// The frames that it has read.
    pub produced: Seq<Arc<Frame>>,
    /// What was called on the buffer.
    pub ops: Seq<QueueOp>,
}

impl Pipeline {
    /// The pipeline before anything has happened.
    pub open spec fn start(queue: Queue) -> Pipeline {
        Pipeline {
            action: DecodeAction::ReadFrame,
            queue,
            reads: 0,
            produced: seq![],
            ops: seq![],
        }
    }

    /// The frame that the thread holds, if it holds one.
    pub open spec fn in_hand(self) -> Seq<Arc<Frame>> {
        match self.action {
            DecodeAction::Offer { frame } => seq![frame],
            DecodeAction::Wait { frame, .. } => seq![frame],
            _ => seq![],
        }
    }

    /// Whether `event` can come next, as the thread does what it is told.
    pub open spec fn enables(self, event: PipelineEvent) -> bool {
        match event {
            PipelineEvent::Read { .. } => self.action is ReadFrame,
            PipelineEvent::Offer => self.action is Offer,
            PipelineEvent::Wait => self.action is Wait,
            PipelineEvent::Take { .. } => true,
        }
    }

    /// The pipeline after one step.
    pub open spec fn step(self, decoder: Decoder, event: PipelineEvent) -> Pipeline {
        match event {
            PipelineEvent::Read { read } => Pipeline {
                action: DecodeAction::read(decoder, read),
                reads: self.reads + 1,
                produced: match read {
                    Ok(frame) => self.produced.push(frame),
                    Err(_) => self.produced,
                },
                ..self
            },
            PipelineEvent::Offer => {
                let frame = self.in_hand()[0];
                Pipeline {
                    action: DecodeAction::offered(decoder, frame, self.queue.accepts()),
                    queue: self.queue.put(frame),
                    ops: self.ops.push(QueueOp::Put { frame }),
                    ..self
                }
            },
            PipelineEvent::Wait => Pipeline {
                action: DecodeAction::Offer { frame: self.in_hand()[0] },
                ..self
            },
            PipelineEvent::Take { time } => Pipeline {
                queue: self.queue.take(time),
                ops: self.ops.push(QueueOp::Take { time }),
                ..self
            },
        }
    }

    /// The pipeline after a series of steps. With each one there is what the
    /// decoder knew of its file as it was taken.
    pub open spec fn after(self, events: Seq<(Decoder, PipelineEvent)>) -> Pipeline
        decreases events.len(),
    {
        if events.len() == 0 {
            self
        } else {
            self.after(events.drop_last()).step(events.last().0, events.last().1)
        }
    }

    /// Whether a series of steps can take place.
    pub open spec fn allows(self, events: Seq<(Decoder, PipelineEvent)>) -> bool
        decreases events.len(),
    {
        events.len() > 0 ==> {
            &&& self.allows(events.drop_last())
            &&& self.after(events.drop_last()).enables(events.last().1)
        }
    }
}

proof fn lemma_pipeline(queue: Queue, events: Seq<(Decoder, PipelineEvent)>)
    requires
        Pipeline::start(queue).allows(events),
    ensures
        ({
            let end = Pipeline::start(queue).after(events);
            &&& end.produced == accepted(queue, end.ops) + end.in_hand()
            &&& end.queue == run(queue, end.ops)
        }),
    decreases events.len(),
{
    let start = Pipeline::start(queue);
    if events.len() > 0 {
        let before = start.after(events.drop_last());
        let end = start.after(events);
        lemma_pipeline(queue, events.drop_last());
        match events.last().1 {
            PipelineEvent::Read { .. } | PipelineEvent::Wait => {
                assert(end.produced =~= accepted(queue, end.ops) + end.in_hand());
            },
            _ => {
                assert(end.ops.drop_last() =~= before.ops);
                assert(end.produced =~= accepted(queue, end.ops) + end.in_hand());
            },
        }
    }
}

/// No frame is lost, repeated or moved on its way from the decoder to the
/// renderer: whatever the thread and the renderer do, in whatever order, and
/// whatever the decoder learns of its file meanwhile, the frames that were read
/// are those that left the buffer, those in the buffer and the one that the
/// thread still offers, in this order.
pub proof fn law_no_frame_is_lost(
    queue: Queue,
    events: Seq<(Decoder, PipelineEvent)>,
) -> (left: int)
    requires
        queue.frames.len() == 0,
        Pipeline::start(queue).allows(events),
    ensures
        ({
            let end = Pipeline::start(queue).after(events);
            &&& 0 <= left <= end.produced.len()
            &&& end.produced == end.produced.take(left) + end.queue.frames + end.in_hand()
        }),
{
    let end = Pipeline::start(queue).after(events);
    lemma_pipeline(queue, events);
    let left = law_fifo(queue, end.ops);
    let given = accepted(queue, end.ops);
    assert(queue.frames + given =~= given);
    assert(end.produced.take(left) =~= given.take(left));
    assert(given =~= given.take(left) + given.skip(left));
    left
}

/// Whether a step brings the thread to its end: a frame was not read, or the
/// buffer took it, and the file is a still image.
pub open spec fn ends(before: Pipeline, decoder: Decoder, event: PipelineEvent) -> bool {
    decoder.still() && match event {
        PipelineEvent::Read { read } => read is Err,
        PipelineEvent::Offer => before.queue.accepts(),
        _ => false,
    }
}

/// Whether the step at `k` of a series brings the thread to its end.
pub open spec fn ends_at(queue: Queue, events: Seq<(Decoder, PipelineEvent)>, k: int) -> bool {
    ends(Pipeline::start(queue).after(events.take(k)), events[k].0, events[k].1)
}

/// The thread comes to an end exactly when the file is a still image as it is
/// done with a frame, whether it was read or not, and does nothing after that.
pub proof fn law_thread_ends(queue: Queue, events: Seq<(Decoder, PipelineEvent)>)
    requires
        Pipeline::start(queue).allows(events),
    ensures
        Pipeline::start(queue).after(events).action is Exit <==> exists|k: int|
            0 <= k < events.len() && #[trigger] ends_at(queue, events, k),
        Pipeline::start(queue).after(events).action is Exit ==> forall|event: PipelineEvent|
            Pipeline::start(queue).after(events).enables(event) ==> event is Take,
    decreases events.len(),
{
    if events.len() > 0 {
        let before = events.drop_last();
        let last = events.len() - 1;
        law_thread_ends(queue, before);
        assert(ends_at(queue, events, last) == ends(
            Pipeline::start(queue).after(before),
            events.last().0,
            events.last().1,
        )) by {
            assert(events.take(last) =~= before);
        }
        assert forall|k: int| 0 <= k < last implies #[trigger] ends_at(queue, events, k)
            == ends_at(queue, before, k) by {
            assert(before.take(k) =~= events.take(k));
        }
        assert forall|k: int| 0 <= k < last implies #[trigger] ends_at(queue, before, k)
            == ends_at(queue, events, k) by {
            assert(before.take(k) =~= events.take(k));
        }
        lemma_thread_step(
            Pipeline::start(queue).after(before),
            events.last().0,
            events.last().1,
        );
    }
}

/// A step leaves the thread at its end if it was there, or if it brings it there.
proof fn lemma_thread_step(before: Pipeline, decoder: Decoder, event: PipelineEvent)
    requires
        before.enables(event),
    ensures
        before.step(decoder, event).action is Exit <==> before.action is Exit || ends(
            before,
            decoder,
            event,
        ),
{
}

/// The file is read once for a still image, whether or not that gives a frame,
/// and the thread comes to an end once the frame is in the buffer. The thread of
/// a video never comes to an end.
pub proof fn law_image_is_read_once(queue: Queue, events: Seq<(Decoder, PipelineEvent)>)
    requires
        Pipeline::start(queue).allows(events),
    ensures
        ({
            let end = Pipeline::start(queue).after(events);
            &&& (forall|k: int| 0 <= k < events.len() ==> (#[trigger] events[k]).0.still()) ==> {
                &&& end.reads <= 1
                &&& end.reads == 0 <==> end.action is ReadFrame
                &&& end.reads > 0 && end.in_hand().len() == 0 ==> end.action is Exit
            }
            &&& (forall|k: int| 0 <= k < events.len() ==> !(#[trigger] events[k]).0.still())
                ==> !(end.action is Exit)
        }),
    decreases events.len(),
{
    if events.len() > 0 {
        let before = events.drop_last();
        law_image_is_read_once(queue, before);
        assert(forall|k: int| 0 <= k < before.len() ==> before[k] == #[trigger] events[k]);
        assert(events.last() == events[events.len() - 1]);
    }
}

/// A video that plays is shown at the time that has passed since its start, no
/// more and no less: an update takes the frame for that time out of the buffer.
/// It stops the clock exactly when that take tells of a new start.
pub proof fn law_plays_at_elapsed_time(
    video: BackgroundVideo,
    queue: Queue,
    now: Duration,
    start: Duration,
    passed: Duration,
)
    requires
        !video.is_image,
        video.instant == Some(start),
        start.nanos + passed.nanos == now.nanos || start.nanos > now.nanos && passed.nanos == 0,
    ensures
        video.shown(queue, now) == queue.taken(passed),
        video.drained(queue, now) == queue.take(passed),
        video.updated(queue, now).instant == (if queue.wrapped(passed) {
            None
        } else {
            Some(start)
        }),
        video.updated(queue, now).is_image == video.is_image,
        video.updated(queue, now).width == video.width,
        video.updated(queue, now).height == video.height,
{
}

/// Two videos that have played for the same time show the same frame, whenever
/// they started.
pub proof fn law_start_does_not_matter(
    one: BackgroundVideo,
    other: BackgroundVideo,
    queue: Queue,
    one_now: Duration,
    other_now: Duration,
)
    requires
        !one.is_image,
        !other.is_image,
        one.instant is Some,
        other.instant is Some,
        one.instant->0.nanos <= one_now.nanos,
        other.instant->0.nanos <= other_now.nanos,
        one_now.nanos - one.instant->0.nanos == other_now.nanos - other.instant->0.nanos,
    ensures
        one.shown(queue, one_now) == other.shown(queue, other_now),
        one.drained(queue, one_now) == other.drained(queue, other_now),
        one.updated(queue, one_now).instant is None <==> other.updated(
            queue,
            other_now,
        ).instant is None,
{
}

/// Of a video that plays, the frames of the buffer in front of position `k` are
/// dropped, and the one at `k` is shown. The dropped ones are in order, and the
/// timestamp of each lies before the tick that the time since the start has
/// reached; that of the one at `k` is negative, or at or after that tick, or
/// below the one in front of it. The clock stops in the last case, and when the
/// time since the start is longer than the video.
pub proof fn law_plays_by_timestamp(
    video: BackgroundVideo,
    queue: Queue,
    now: Duration,
    start: Duration,
) -> (k: int)
    requires
        !video.is_image,
        video.instant == Some(start),
        start.nanos <= now.nanos,
        queue.time_base.nanos >= 1000,
    ensures
        ({
            let tick = ((now.nanos - start.nanos) / 1000) / (queue.time_base.nanos as int / 1000);
            let frames = queue.frames;
            let starts_over = 0 < k < frames.len() && frames[k].pts < frames[k - 1].pts;
            &&& 0 <= k <= frames.len()
            &&& forall|j: int| 0 <= j < k ==> 0 <= (#[trigger] frames[j]).pts < tick
            &&& forall|i: int, j: int|
                0 <= i <= j < k ==> (#[trigger] frames[i]).pts <= (#[trigger] frames[j]).pts
            &&& k < frames.len() ==> frames[k].pts < 0 || frames[k].pts >= tick || starts_over
            &&& video.shown(queue, now) == (if k < frames.len() {
                Some(frames[k])
            } else {
                None
            })
            &&& video.drained(queue, now).frames == (if k < frames.len() {
                frames.skip(k)
            } else {
                frames
            })
            &&& video.updated(queue, now).instant is None <==> now.nanos - start.nanos
                > queue.duration.nanos || starts_over
        }),
{
    let passed = Duration { nanos: (now.nanos - start.nanos) as u128 };
    law_plays_at_elapsed_time(video, queue, now, start, passed);
    law_take_by_timestamp(queue, passed)
}

/// Before playback has started, a video or an image shows the frame in front of
/// the buffer, whatever its timestamp, and drops none. The clock starts at the
/// time of that update; without a frame nothing happens.
pub proof fn law_first_frame_starts_clock(video: BackgroundVideo, queue: Queue, now: Duration)
    requires
        video.instant is None,
        queue.time_base.nanos >= 1000,
    ensures
        queue.frames.len() > 0 ==> {
            &&& video.shown(queue, now) == Some(queue.frames[0])
            &&& video.updated(queue, now).instant == Some(now)
        },
        queue.frames.len() == 0 ==> {
            &&& video.shown(queue, now) is None
            &&& video.updated(queue, now).instant is None
        },
        video.drained(queue, now) == queue,
        video.updated(queue, now).is_image == video.is_image,
        video.updated(queue, now).width == video.width,
        video.updated(queue, now).height == video.height,
{
    law_starts_with_front(video, queue, now);
}

/// Once an image is shown, an update shows nothing and changes nothing.
pub proof fn law_shown_image_stays(
    video: BackgroundVideo,
    texture: u32,
    queue: Queue,
    now: Duration,
)
    requires
        video.is_image,
        video.instant is Some,
    ensures
        video.shown(queue, now) is None,
        video.updated(queue, now) == video,
        video.drained(queue, now) == queue,
        video.update_commands(texture, queue, now).len() == 0,
{
}

/// An update that shows a frame uploads that frame, in the size of the video, to
/// the texture that it is given, with rows as wide as the video, and then puts
/// things back. An update that shows none gives no command.
pub proof fn law_shown_frame_is_uploaded(
    video: BackgroundVideo,
    texture: u32,
    queue: Queue,
    now: Duration,
)
    ensures
        ({
            let commands = video.update_commands(texture, queue, now);
            &&& video.shown(queue, now) matches Some(frame) ==> {
                &&& commands.len() == 5
                &&& commands[0] == (GlCommand::UnpackRowLength { pixels: video.width })
                &&& commands[1] == (GlCommand::BindTexture { texture })
                &&& commands[2] == (GlCommand::UploadFrame {
                    width: video.width,
                    height: video.height,
                    frame,
                })
                &&& commands[3] == (GlCommand::BindTexture { texture: 0 })
                &&& commands[4] == (GlCommand::UnpackRowLength { pixels: 0 })
            }
            &&& video.shown(queue, now) is None ==> commands.len() == 0
        }),
{
}

/// Every frame that is read is offered to the buffer, whatever it is.
pub proof fn law_read_frame_is_offered(decoder: Decoder, frame: Arc<Frame>)
    ensures
        DecodeAction::read(decoder, Ok(frame)) == (DecodeAction::Offer { frame }),
{
}

/// A frame that the buffer does not take is kept, and offered again after half a
/// second.
pub proof fn law_refused_frame_is_kept(decoder: Decoder, frame: Arc<Frame>)
    ensures
        DecodeAction::offered(decoder, frame, false) == (DecodeAction::Wait { frame, millis: 500 }),
{
}

/// After a frame that the buffer took, and after a failure of any kind, the thread
/// reads on if the file lasts, and comes to an end if it does not.
pub proof fn law_thread_reads_on(decoder: Decoder, frame: Arc<Frame>, error: Error)
    ensures
        decoder.duration > 0 ==> {
            &&& DecodeAction::offered(decoder, frame, true) is ReadFrame
            &&& DecodeAction::read(decoder, Err(error)) is ReadFrame
        },
        decoder.duration <= 0 ==> {
            &&& DecodeAction::offered(decoder, frame, true) is Exit
            &&& DecodeAction::read(decoder, Err(error)) is Exit
        },
{
}

} // verus!
