//! What holds of the frame buffer over any number of calls.

use vstd::prelude::*;
use std::sync::Arc;

use crate::duration::Duration;
use crate::frame::{is_due, stop_from, stops_at, wraps_at, Frame, Queue};

verus! {

/// A call of one of the frame buffer's methods.
pub enum QueueOp {
    Put { frame: Arc<Frame> },
    Take { time: Duration },
}

/// The queue after one call.
pub open spec fn apply(queue: Queue, op: QueueOp) -> Queue {
    match op {
        QueueOp::Put { frame } => queue.put(frame),
        QueueOp::Take { time } => queue.take(time),
    }
}

/// The queue after a series of calls.
pub open spec fn run(queue: Queue, ops: Seq<QueueOp>) -> Queue
    decreases ops.len(),
{
    if ops.len() == 0 {
        queue
    } else {
        apply(run(queue, ops.drop_last()), ops.last())
    }
}

/// The frames that the puts among a series of calls added, in order.
pub open spec fn accepted(queue: Queue, ops: Seq<QueueOp>) -> Seq<Arc<Frame>>
    decreases ops.len(),
{
    if ops.len() == 0 {
        Seq::empty()
    } else {
        let before = accepted(queue, ops.drop_last());
        match ops.last() {
            QueueOp::Put { frame } => if run(queue, ops.drop_last()).accepts() {
                before.push(frame)
            } else {
                before
            },
            QueueOp::Take { .. } => before,
        }
    }
}

/// The search ends at the first frame that starts over or is due, if there is
/// one.
pub proof fn lemma_stop(frames: Seq<Arc<Frame>>, target: nat, i: int)
    requires
        0 <= i <= frames.len(),
    ensures
        i <= stop_from(frames, target, i) <= frames.len(),
        forall|j: int|
            i <= j < stop_from(frames, target, i) ==> !#[trigger] stops_at(frames, target, j),
        stop_from(frames, target, i) < frames.len() ==> stops_at(
            frames,
            target,
            stop_from(frames, target, i),
        ),
    decreases frames.len() - i,
{
    if i < frames.len() && !stops_at(frames, target, i) {
        lemma_stop(frames, target, i + 1);
    }
}

/// A search that has a first end ends there.
proof fn lemma_stop_is(frames: Seq<Arc<Frame>>, target: nat, i: int, k: int)
    requires
        0 <= i <= k <= frames.len(),
        forall|j: int| i <= j < k ==> !#[trigger] stops_at(frames, target, j),
        k < frames.len() ==> stops_at(frames, target, k),
    ensures
        stop_from(frames, target, i) == k,
    decreases k - i,
{
    if i < k {
        lemma_stop_is(frames, target, i + 1, k);
    }
}

/// Of one call: the buffer stays within its bound, keeps its settings, and
/// what it holds is the end of what it held with what the call added.
proof fn lemma_apply(queue: Queue, op: QueueOp) -> (dropped: int)
    ensures
        queue.wf() ==> apply(queue, op).wf(),
        apply(queue, op).time_base == queue.time_base,
        apply(queue, op).duration == queue.duration,
        0 <= dropped <= queue.frames.len(),
        apply(queue, op).frames == (match op {
            QueueOp::Put { frame } => if queue.accepts() {
                queue.frames.push(frame)
            } else {
                queue.frames
            },
            QueueOp::Take { .. } => queue.frames.skip(dropped),
        }),
{
    match op {
        QueueOp::Put { .. } => 0,
        QueueOp::Take { time } => {
            lemma_stop(queue.frames, queue.target(time), 0);
            if queue.stop(time) < queue.frames.len() {
                queue.stop(time)
            } else {
                assert(queue.frames.skip(0) =~= queue.frames);
                0
            }
        },
    }
}

/// No series of calls makes a buffer outgrow its bound, or changes its
/// settings.
pub proof fn law_bounded(queue: Queue, ops: Seq<QueueOp>)
    requires
        queue.wf(),
    ensures
        run(queue, ops).wf(),
        run(queue, ops).time_base == queue.time_base,
        run(queue, ops).duration == queue.duration,
    decreases ops.len(),
{
    if ops.len() > 0 {
        law_bounded(queue, ops.drop_last());
        lemma_apply(run(queue, ops.drop_last()), ops.last());
    }
}

/// First in, first out: after any series of calls a buffer holds the last of
/// the frames that it was given, in the order in which it got them, and only
/// frames from the front have left.
pub proof fn law_fifo(queue: Queue, ops: Seq<QueueOp>) -> (dropped: int)
    ensures
        0 <= dropped <= queue.frames.len() + accepted(queue, ops).len(),
        run(queue, ops).frames == (queue.frames + accepted(queue, ops)).skip(dropped),
    decreases ops.len(),
{
    if ops.len() == 0 {
        assert((queue.frames + accepted(queue, ops)).skip(0) =~= queue.frames);
        0
    } else {
        let before = law_fifo(queue, ops.drop_last());
        let mid = run(queue, ops.drop_last());
        let held = queue.frames + accepted(queue, ops.drop_last());
        let step = lemma_apply(mid, ops.last());
        match ops.last() {
            QueueOp::Put { frame } => {
                if mid.accepts() {
                    assert(queue.frames + accepted(queue, ops) =~= held.push(frame));
                    assert(held.push(frame).skip(before) =~= held.skip(before).push(frame));
                }
                before
            },
            QueueOp::Take { .. } => {
                assert(held.skip(before).skip(step) =~= held.skip(before + step));
                before + step
            },
        }
    }
}

/// The frame that a take hands out stays, at the front of the buffer.
pub proof fn law_taken_stays_in_front(queue: Queue, time: Duration)
    requires
        queue.taken(time) is Some,
    ensures
        queue.take(time).frames.len() > 0,
        queue.take(time).frames[0] == queue.taken(time)->0,
{
    lemma_stop(queue.frames, queue.target(time), 0);
}

/// A take hands out a frame that is due, or the one at which playback starts
/// over, and drops only frames whose time has passed. With nothing to hand out
/// it drops nothing.
pub proof fn law_taken_is_next(queue: Queue, time: Duration)
    ensures
        queue.taken(time) matches Some(frame) ==> is_due(frame.pts, queue.target(time)) || wraps_at(
            queue.frames,
            queue.stop(time),
        ),
        0 <= queue.stop(time) <= queue.frames.len(),
        forall|j: int|
            0 <= j < queue.stop(time) ==> 0 <= (#[trigger] queue.frames[j]).pts < queue.target(
                time,
            ),
        queue.taken(time) is None ==> queue.take(time) == queue,
{
    lemma_stop(queue.frames, queue.target(time), 0);
    assert forall|j: int| 0 <= j < queue.stop(time) implies 0 <= (
    #[trigger] queue.frames[j]).pts < queue.target(time) by {
        assert(!stops_at(queue.frames, queue.target(time), j));
    }
}

/// Dropping the frames in front of the first one that a search for `first`
/// ends at moves the end of a search for `second` by their number.
proof fn lemma_stop_after_skip(frames: Seq<Arc<Frame>>, first: nat, second: nat)
    requires
        first <= second,
        stop_from(frames, first, 0) < frames.len(),
        wraps_at(frames, stop_from(frames, first, 0)) ==> is_due(
            frames[stop_from(frames, first, 0)].pts,
            second,
        ),
    ensures
        0 <= stop_from(frames, first, 0) <= stop_from(frames, second, 0) <= frames.len(),
        stop_from(frames.skip(stop_from(frames, first, 0)), second, 0) == stop_from(
            frames,
            second,
            0,
        ) - stop_from(frames, first, 0),
{
    let k = stop_from(frames, first, 0);
    let end = stop_from(frames, second, 0);
    let rest = frames.skip(k);
    lemma_stop(frames, first, 0);
    lemma_stop(frames, second, 0);
    if end < k {
        assert(!stops_at(frames, first, end));
    }
    assert forall|j: int| 0 <= j < end - k implies !#[trigger] stops_at(rest, second, j) by {
        assert(!stops_at(frames, second, j + k));
    }
    lemma_stop_is(rest, second, 0, end - k);
}

/// A second take at the same time hands out the same frame and drops nothing,
/// as long as the frame is due. It tells of a new start only if the video's
/// time is over.
pub proof fn law_take_again(queue: Queue, time: Duration)
    requires
        queue.taken(time) matches Some(frame) ==> is_due(frame.pts, queue.target(time)),
    ensures
        queue.take(time).taken(time) == queue.taken(time),
        queue.take(time).take(time) == queue.take(time),
        queue.take(time).wrapped(time) == (time.nanos > queue.duration.nanos),
{
    let k = queue.stop(time);
    lemma_stop(queue.frames, queue.target(time), 0);
    if k < queue.frames.len() {
        lemma_stop_after_skip(queue.frames, queue.target(time), queue.target(time));
        assert(queue.frames.skip(k).skip(0) =~= queue.frames.skip(k));
    }
}

/// A take at an earlier time makes no difference to a later one: the later one
/// hands out the same frame, or none, with the earlier take and without it.
/// Where it hands one out it leaves the same frames behind; where it does not,
/// those that the earlier take left. This does not hold where the earlier take
/// stops because playback starts over, at a frame that is still not due at the
/// later time. The later take tells of a new start as it would without the
/// earlier one, unless the earlier one has just stopped there.
pub proof fn law_later_take(queue: Queue, earlier: Duration, later: Duration)
    requires
        queue.time_base.micros() > 0,
        earlier.nanos <= later.nanos,
        wraps_at(queue.frames, queue.stop(earlier)) ==> is_due(
            queue.frames[queue.stop(earlier)].pts,
            queue.target(later),
        ),
    ensures
        queue.take(earlier).taken(later) == queue.taken(later),
        queue.taken(later) is Some ==> queue.take(earlier).take(later) == queue.take(later),
        queue.taken(later) is None ==> queue.take(earlier).take(later) == queue.take(earlier),
        !wraps_at(queue.frames, queue.stop(earlier)) || later.nanos > queue.duration.nanos
            ==> queue.take(earlier).wrapped(later) == queue.wrapped(later),
{
    let k = queue.stop(earlier);
    let end = queue.stop(later);
    vstd::arithmetic::div_mod::lemma_div_is_ordered(
        earlier.micros() as int,
        later.micros() as int,
        queue.time_base.micros() as int,
    );
    lemma_stop(queue.frames, queue.target(earlier), 0);
    if k < queue.frames.len() {
        lemma_stop_after_skip(queue.frames, queue.target(earlier), queue.target(later));
        if end < queue.frames.len() {
            assert(queue.frames.skip(k).skip(end - k) =~= queue.frames.skip(end));
        }
    }
}

/// Frames that arrive later do not change which frame a take finds, once it
/// finds one, and one that is accepted ends up behind the rest whether it
/// arrives before the take or after it.
pub proof fn law_put_behind(queue: Queue, frame: Arc<Frame>, time: Duration)
    requires
        queue.taken(time) is Some,
    ensures
        queue.put(frame).taken(time) == queue.taken(time),
        queue.put(frame).wrapped(time) == queue.wrapped(time),
        queue.accepts() ==> queue.put(frame).take(time) == queue.take(time).put(frame),
{
    let k = queue.stop(time);
    let target = queue.target(time);
    let more = queue.put(frame).frames;
    lemma_stop(queue.frames, target, 0);
    assert forall|j: int| 0 <= j < k implies !#[trigger] stops_at(more, target, j) by {
        assert(!stops_at(queue.frames, target, j));
    }
    lemma_stop_is(more, target, 0, k);
    assert(queue.frames.push(frame).skip(k) =~= queue.frames.skip(k).push(frame));
}

/// At the very start, before the first tick has passed, a take hands out the
/// frame in front and drops none.
pub proof fn law_take_at_start(queue: Queue, time: Duration)
    requires
        time.micros() < queue.time_base.micros(),
    ensures
        queue.taken(time) == (if queue.frames.len() > 0 {
            Some(queue.frames[0])
        } else {
            None
        }),
        queue.take(time) == queue,
{
    vstd::arithmetic::div_mod::lemma_basic_div(
        time.micros() as int,
        queue.time_base.micros() as int,
    );
    if queue.frames.len() > 0 {
        assert(stops_at(queue.frames, queue.target(time), 0));
        assert(queue.frames.skip(0) =~= queue.frames);
    }
}

/// A full buffer takes frames again as soon as a take has dropped one.
pub proof fn law_take_makes_room(queue: Queue, time: Duration)
    requires
        queue.wf(),
        0 < queue.stop(time) < queue.frames.len(),
    ensures
        queue.take(time).accepts(),
{
}

/// What a take does, in timestamps and times. Playback at `time` has reached a
/// tick: the whole microseconds of `time` over those of a tick. The frames in
/// front of position `k`, and no others, are dropped: they are in order, and the
/// timestamp of each lies before that tick. The frame at `k` is handed out. Its
/// timestamp is negative, or at or after the tick, or below that of the frame in
/// front of it. Without such a frame nothing is handed out and nothing is
/// dropped. The caller is told of a new start in the last case, and when the
/// video's time is over.
pub proof fn law_take_by_timestamp(queue: Queue, time: Duration) -> (k: int)
    requires
        queue.time_base.nanos >= 1000,
    ensures
        ({
            let tick = (time.nanos as int / 1000) / (queue.time_base.nanos as int / 1000);
            let frames = queue.frames;
            let starts_over = 0 < k < frames.len() && frames[k].pts < frames[k - 1].pts;
            &&& 0 <= k <= frames.len()
            &&& forall|j: int| 0 <= j < k ==> 0 <= (#[trigger] frames[j]).pts < tick
            &&& forall|i: int, j: int|
                0 <= i <= j < k ==> (#[trigger] frames[i]).pts <= (#[trigger] frames[j]).pts
            &&& k < frames.len() ==> frames[k].pts < 0 || frames[k].pts >= tick || starts_over
            &&& queue.taken(time) == (if k < frames.len() {
                Some(frames[k])
            } else {
                None
            })
            &&& queue.take(time).frames == (if k < frames.len() {
                frames.skip(k)
            } else {
                frames
            })
            &&& queue.take(time).time_base == queue.time_base
            &&& queue.take(time).duration == queue.duration
            &&& queue.wrapped(time) <==> time.nanos > queue.duration.nanos || starts_over
        }),
{
    let frames = queue.frames;
    let target = queue.target(time);
    let k = queue.stop(time);
    lemma_stop(frames, target, 0);
    assert forall|j: int| 0 <= j < k implies 0 <= (#[trigger] frames[j]).pts < target by {
        assert(!stops_at(frames, target, j));
    }
    lemma_in_order(frames, target, k);
    k
}

/// Frames at none of which a search ends are in order.
proof fn lemma_in_order(frames: Seq<Arc<Frame>>, target: nat, k: int)
    requires
        0 <= k <= frames.len(),
        forall|j: int| 0 <= j < k ==> !#[trigger] stops_at(frames, target, j),
    ensures
        forall|i: int, j: int|
            0 <= i <= j < k ==> (#[trigger] frames[i]).pts <= (#[trigger] frames[j]).pts,
    decreases k,
{
    if k > 0 {
        lemma_in_order(frames, target, k - 1);
        assert(!stops_at(frames, target, k - 1));
        if k > 1 {
            assert(frames[k - 2].pts <= frames[k - 1].pts);
            assert forall|i: int, j: int| 0 <= i <= j < k implies (#[trigger] frames[i]).pts <= (
            #[trigger] frames[j]).pts by {
                if j == k - 1 && i < j {
                    assert(frames[i].pts <= frames[k - 2].pts);
                }
            }
        }
    }
}

/// Out of frames that are in order, a take hands out the first one whose
/// timestamp is at or after the tick that playback has reached, and drops all
/// those in front of it.
pub proof fn law_take_finds_first_due(queue: Queue, time: Duration, k: int)
    requires
        queue.time_base.nanos >= 1000,
        0 <= k < queue.frames.len(),
        forall|i: int, j: int|
            0 <= i <= j < queue.frames.len() ==> (#[trigger] queue.frames[i]).pts <= (
            #[trigger] queue.frames[j]).pts,
        queue.frames[0].pts >= 0,
        queue.frames[k].pts >= (time.nanos as int / 1000) / (queue.time_base.nanos as int / 1000),
        forall|j: int|
            0 <= j < k ==> (#[trigger] queue.frames[j]).pts < (time.nanos as int / 1000) / (
            queue.time_base.nanos as int / 1000),
    ensures
        queue.taken(time) == Some(queue.frames[k]),
        queue.take(time).frames == queue.frames.skip(k),
        queue.wrapped(time) <==> time.nanos > queue.duration.nanos,
{
    let found = law_take_by_timestamp(queue, time);
    let tick = (time.nanos as int / 1000) / (queue.time_base.nanos as int / 1000);
    assert(queue.frames[0].pts <= queue.frames[k].pts);
    if found < k {
        assert(queue.frames[0].pts <= queue.frames[found].pts);
        assert(queue.frames[found].pts < tick);
        if found > 0 {
            assert(queue.frames[found - 1].pts <= queue.frames[found].pts);
        }
    }
    if found > 0 && found < queue.frames.len() {
        assert(queue.frames[found - 1].pts <= queue.frames[found].pts);
    }
    assert(found == k);
}

/// A put is accepted exactly when the buffer holds fewer than 31 frames. The
/// frame is then the last one, behind those that were there; else nothing
/// changes. The settings never change.
pub proof fn law_put_appends(queue: Queue, frame: Arc<Frame>)
    ensures
        queue.accepts() <==> queue.frames.len() < 31,
        queue.frames.len() < 31 ==> {
            &&& queue.put(frame).frames.len() == queue.frames.len() + 1
            &&& queue.put(frame).frames.last() == frame
            &&& queue.put(frame).frames.drop_last() == queue.frames
        },
        queue.frames.len() >= 31 ==> queue.put(frame) == queue,
        queue.put(frame).time_base == queue.time_base,
        queue.put(frame).duration == queue.duration,
{
    assert(queue.frames.push(frame).drop_last() =~= queue.frames);
}

/// Out of any number of puts into an empty buffer the first 31 are accepted, and
/// no further one.
pub proof fn law_first_puts_are_kept(queue: Queue, ops: Seq<QueueOp>)
    requires
        queue.frames.len() == 0,
        forall|j: int| 0 <= j < ops.len() ==> #[trigger] ops[j] is Put,
    ensures
        run(queue, ops).frames.len() == (if ops.len() < 31 {
            ops.len()
        } else {
            31
        }),
        forall|j: int|
            0 <= j < run(queue, ops).frames.len() ==> ops[j] == (QueueOp::Put {
                frame: #[trigger] run(queue, ops).frames[j],
            }),
    decreases ops.len(),
{
    if ops.len() > 0 {
        let before = ops.drop_last();
        assert forall|j: int| 0 <= j < before.len() implies #[trigger] before[j] is Put by {
            assert(ops[j] is Put);
        }
        law_first_puts_are_kept(queue, before);
        assert(ops[ops.len() - 1] is Put);
        let held = run(queue, before).frames;
        assert forall|j: int| 0 <= j < run(queue, ops).frames.len() implies ops[j] == (
        QueueOp::Put { frame: #[trigger] run(queue, ops).frames[j] }) by {
            if j < held.len() {
                assert(before[j] == QueueOp::Put { frame: held[j] });
            }
        }
    }
}

/// A buffer that holds at most 31 frames never holds more.
pub proof fn law_at_most_31_frames(queue: Queue, ops: Seq<QueueOp>)
    requires
        queue.frames.len() <= 31,
    ensures
        run(queue, ops).frames.len() <= 31,
    decreases ops.len(),
{
    if ops.len() > 0 {
        law_at_most_31_frames(queue, ops.drop_last());
        lemma_apply(run(queue, ops.drop_last()), ops.last());
    }
}

} // verus!
