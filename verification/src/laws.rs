//! What holds of the runtime across several operations.

use vstd::prelude::*;
use crate::channel::{drained, offered, oldest};
use crate::handle::StreamId;
use crate::runtime::CoreState;

verus! {

/// A queue of depth one that holds at most one frame still does after a
/// frame is offered or taken.
pub proof fn lemma_queue_depth_is_kept(queue: Seq<Seq<u32>>, frame: Seq<u32>)
    requires
        queue.len() <= 1,
    ensures
        offered(queue, frame).len() <= 1,
        drained(queue).len() <= 1,
{
}

/// Of two frames offered to an empty queue before it is drained, exactly
/// the first survives: the second is dropped, the drain yields the first, and
/// the queue is empty afterwards.
pub proof fn lemma_second_offer_is_dropped(first: Seq<u32>, second: Seq<u32>)
    ensures
        offered(offered(Seq::empty(), first), second) == offered(Seq::empty(), first),
        oldest(offered(offered(Seq::empty(), first), second)) == Some(first),
        drained(offered(offered(Seq::empty(), first), second)) == Seq::<Seq<u32>>::empty(),
{
}

/// Every operation on the state keeps its invariant, whatever handle, stream
/// or frame it is given: no queue ever holds more than one frame, streams and
/// queues stay paired, no stream is open under handle zero, and until the
/// handle count starts over every open or awaited handle is an issued one.
pub proof fn lemma_invariant_is_kept<S>(
    state: CoreState<S>,
    handle: StreamId,
    built: Option<S>,
    frame: Seq<u32>,
    callback: usize,
)
    requires
        state.inv(),
    ensures
        CoreState::<S>::initial().inv(),
        state.registered(callback).inv(),
        state.torn_down().inv(),
        state.issued().inv(),
        state.completed(handle, built).inv(),
        state.released(handle).inv(),
        state.delivered(handle, frame).inv(),
        state.polled(handle).inv(),
{
    assert(state.polled(handle).queues.dom() =~= state.queues.dom());
    assert(state.delivered(handle, frame).queues.dom() =~= state.queues.dom());
    assert(state.released(handle).queues.dom() =~= state.released(handle).streams.dom());
    assert(state.completed(handle, built).queues.dom() =~= state.completed(
        handle,
        built,
    ).streams.dom());
}

/// Completing an opening never touches a stream that is open: it either
/// leaves streams and queues as they are, or adds one stream with an empty
/// queue under a handle that is not zero and was not open. Either way the
/// handle is awaited no longer, so the same plan is never admitted again.
pub proof fn lemma_completion_adds_or_changes_nothing<S>(
    state: CoreState<S>,
    handle: StreamId,
    built: Option<S>,
)
    requires
        state.inv(),
    ensures
        !state.completed(handle, built).admits(handle),
        built is Some && state.admits(handle) ==> {
            &&& handle != 0
            &&& !state.streams.dom().contains(handle)
            &&& state.completed(handle, built).streams == state.streams.insert(handle, built->0)
            &&& state.completed(handle, built).count() == state.count() + 1
            &&& state.completed(handle, built).waiting(handle) is None
        },
        !(built is Some && state.admits(handle)) ==> {
            &&& state.completed(handle, built).streams == state.streams
            &&& state.completed(handle, built).queues == state.queues
        },
        forall|h: StreamId| #[trigger]
            state.streams.dom().contains(h) ==> {
                &&& state.completed(handle, built).streams.dom().contains(h)
                &&& state.completed(handle, built).streams[h] == state.streams[h]
                &&& state.completed(handle, built).queues[h] == state.queues[h]
            },
{
}

/// Until the handle count starts over, an opening that the platform builds
/// always succeeds: the handle just issued is not zero and admits a stream,
/// the stream count rises by one, the new stream's queue is empty, and the
/// next handle is one greater.
pub proof fn lemma_open_adds_one_stream<S>(state: CoreState<S>, stream: S)
    requires
        state.inv(),
        !state.started_over,
        state.upcoming < u64::MAX,
    ensures
        state.upcoming != 0,
        state.issued().admits(state.upcoming),
        state.issued().completed(state.upcoming, Some(stream)).count() == state.count() + 1,
        state.issued().completed(state.upcoming, Some(stream)).waiting(state.upcoming) is None,
        state.issued().completed(state.upcoming, Some(stream)).upcoming == state.upcoming + 1,
        !state.issued().completed(state.upcoming, Some(stream)).started_over,
        state.issued().completed(state.upcoming, Some(stream)).inv(),
{
    lemma_invariant_is_kept(state, state.upcoming, Some(stream), Seq::empty(), 0);
    lemma_invariant_is_kept(state.issued(), state.upcoming, Some(stream), Seq::empty(), 0);
}

/// A frame delivered while one waits for the same stream is dropped: the
/// state is as if it had never been delivered, and the next poll receives the
/// frame that waited.
pub proof fn lemma_delivery_to_full_channel_is_dropped<S>(
    state: CoreState<S>,
    handle: StreamId,
    first: Seq<u32>,
    second: Seq<u32>,
)
    requires
        state.inv(),
        state.accepts(handle, first),
    ensures
        !state.delivered(handle, first).accepts(handle, second),
        state.delivered(handle, first).delivered(handle, second) == state.delivered(handle, first),
        state.delivered(handle, first).delivered(handle, second).waiting(handle) == Some(first),
        state.delivered(handle, first).delivered(handle, second).polled(handle).waiting(handle)
            is None,
{
}

/// Releasing a handle twice leaves the state that releasing it once leaves,
/// and releasing a handle under which no stream is open changes nothing.
pub proof fn lemma_release_is_idempotent<S>(state: CoreState<S>, handle: StreamId)
    requires
        state.inv(),
    ensures
        state.released(handle).released(handle) == state.released(handle),
        !state.streams.dom().contains(handle) ==> state.released(handle) == state,
        !state.released(handle).streams.dom().contains(handle),
{
}

/// One step of a single-threaded driver, as the operations of the runtime
/// offer them.
pub enum Step<S> {
    /// An opening begins: a handle is issued and awaited.
    Begin,
    /// The opening planned under the handle is completed, with the stream the
    /// platform built or with nothing where it failed. The driver may hand in
    /// any handle, whether it was issued or not, and as often as it likes.
    Complete(StreamId, Option<S>),
    /// The stream under the handle is released.
    Release(StreamId),
}

/// The state that `step` leads to from `state`.
pub open spec fn after<S>(state: CoreState<S>, step: Step<S>) -> CoreState<S> {
    match step {
        Step::Begin => state.issued(),
        Step::Complete(handle, built) => state.completed(handle, built),
        Step::Release(handle) => state.released(handle),
    }
}

/// The state that a fresh runtime is in after `steps`.
pub open spec fn run<S>(steps: Seq<Step<S>>) -> CoreState<S>
    decreases steps.len(),
{
    if steps.len() == 0 {
        CoreState::initial()
    } else {
        after(run(steps.drop_last()), steps.last())
    }
}

/// The number of handles issued in `steps`.
pub open spec fn issues<S>(steps: Seq<Step<S>>) -> nat
    decreases steps.len(),
{
    if steps.len() == 0 {
        0
    } else {
        issues(steps.drop_last()) + if steps.last() is Begin {
            1nat
        } else {
            0nat
        }
    }
}

/// Whether step `i` of `steps` opens a stream under `handle`: it completes
/// an opening under `handle` with a built stream, and the state it meets
/// admits one. This is when the completion reports success.
pub open spec fn opens<S>(steps: Seq<Step<S>>, i: int, handle: StreamId) -> bool {
    &&& 0 <= i < steps.len()
    &&& steps[i] matches Step::Complete(h, built)
    &&& h == handle
    &&& built is Some
    &&& run(steps.take(i)).admits(handle)
}

/// Whether `handle` was opened in `steps` and not released since.
pub open spec fn live<S>(steps: Seq<Step<S>>, handle: StreamId) -> bool {
    exists|i: int|
        #![trigger opens(steps, i, handle)]
        opens(steps, i, handle) && forall|j: int|
            i < j < steps.len() ==> #[trigger] steps[j] != Step::<S>::Release(handle)
}

/// A prefix of a driver issues no more handles than the whole.
pub proof fn lemma_issues_of_prefix<S>(steps: Seq<Step<S>>, k: int)
    requires
        0 <= k <= steps.len(),
    ensures
        issues(steps.take(k)) <= issues(steps),
    decreases steps.len(),
{
    if k == steps.len() {
        assert(steps.take(k) =~= steps);
    } else {
        assert(steps.drop_last().take(k) =~= steps.take(k));
        lemma_issues_of_prefix(steps.drop_last(), k);
    }
}

/// After any sequence of operations on a fresh runtime, the open streams are
/// exactly the handles that were opened and not released since, and the
/// stream count is their number. Failed and refused completions, repeated
/// releases and releases of unknown handles do not count. A handle that was
/// opened was issued before, is not zero, and is never opened a second time.
/// The law speaks of drivers that issue fewer than 2^64 - 1 handles.
pub proof fn lemma_count_is_number_of_live_handles<S>(steps: Seq<Step<S>>)
    requires
        issues(steps) < u64::MAX,
    ensures
        run(steps).inv(),
        !run(steps).started_over,
        run(steps).upcoming == 1 + issues(steps),
        forall|h: StreamId| #[trigger] run(steps).streams.dom().contains(h) <==> live(steps, h),
        run(steps).streams.dom() == Set::new(|h: StreamId| live(steps, h)),
        run(steps).count() == Set::new(|h: StreamId| live(steps, h)).len(),
        forall|i: int, h: StreamId| #[trigger]
            opens(steps, i, h) ==> 1 <= h <= issues(steps.take(i)),
        forall|i: int, j: int, h: StreamId|
            i < j && #[trigger] opens(steps, i, h) ==> !#[trigger] opens(steps, j, h),
{
    lemma_live_handles(steps);
    assert(run(steps).streams.dom() =~= Set::new(|h: StreamId| live(steps, h)));
    assert forall|i: int, h: StreamId| #[trigger] opens(steps, i, h) implies 1 <= h <= issues(
        steps.take(i),
    ) by {
        lemma_issues_of_prefix(steps, i);
        lemma_live_handles(steps.take(i));
    }
    assert forall|i: int, j: int, h: StreamId|
        i < j && #[trigger] opens(steps, i, h) implies !#[trigger] opens(steps, j, h) by {
        if opens(steps, j, h) {
            let prefix = steps.take(j);
            lemma_issues_of_prefix(steps, j);
            lemma_live_handles(prefix);
            assert(prefix.take(i) =~= steps.take(i));
            assert(prefix[i] == steps[i]);
            assert(opens(prefix, i, h));
        }
    }
}

proof fn lemma_live_handles<S>(steps: Seq<Step<S>>)
    requires
        issues(steps) < u64::MAX,
    ensures
        run(steps).inv(),
        !run(steps).started_over,
        run(steps).upcoming == 1 + issues(steps),
        forall|h: StreamId| #[trigger] run(steps).streams.dom().contains(h) <==> live(steps, h),
        forall|i: int, h: StreamId| #[trigger]
            opens(steps, i, h) ==> !run(steps).awaiting.contains(h) && h < run(steps).upcoming,
    decreases steps.len(),
{
    if steps.len() == 0 {
    } else {
        let prev = steps.drop_last();
        let last = steps.last();
        let n = steps.len() - 1;
        let before = run(prev);
        let now = run(steps);
        lemma_live_handles(prev);
        lemma_invariant_is_kept(before, 0, None, Seq::empty(), 0);
        match last {
            Step::Complete(c, built) => {
                lemma_invariant_is_kept(before, c, built, Seq::empty(), 0);
                lemma_completion_adds_or_changes_nothing(before, c, built);
            },
            _ => {},
        }
        assert(steps.take(n) =~= prev);
        assert forall|i: int| 0 <= i < n implies #[trigger] steps.take(i) == prev.take(i) by {
            assert(steps.take(i) =~= prev.take(i));
        }
        assert forall|i: int, h: StreamId| i < n implies (#[trigger] opens(steps, i, h) <==> opens(
            prev,
            i,
            h,
        )) by {
            if 0 <= i < n {
                assert(steps[i] == prev[i]);
                assert(steps.take(i) == prev.take(i));
            }
        }
        assert forall|i: int, h: StreamId| #[trigger] opens(steps, i, h) implies {
            &&& !now.awaiting.contains(h)
            &&& h < now.upcoming
        } by {
            if i < n {
                assert(opens(prev, i, h));
            }
        }
        assert forall|h: StreamId| #[trigger] now.streams.dom().contains(h) <==> live(
            steps,
            h,
        ) by {
            if live(prev, h) && last != Step::<S>::Release(h) {
                let i = choose|i: int|
                    #![trigger opens(prev, i, h)]
                    opens(prev, i, h) && forall|j: int|
                        i < j < prev.len() ==> #[trigger] prev[j] != Step::<S>::Release(h);
                assert(opens(steps, i, h));
                assert forall|j: int| i < j < steps.len() implies #[trigger] steps[j]
                    != Step::<S>::Release(h) by {
                    if j < n {
                        assert(steps[j] == prev[j]);
                    }
                }
            }
            if live(steps, h) {
                let i = choose|i: int|
                    #![trigger opens(steps, i, h)]
                    opens(steps, i, h) && forall|j: int|
                        i < j < steps.len() ==> #[trigger] steps[j] != Step::<S>::Release(h);
                if i < n {
                    assert(opens(prev, i, h));
                    assert forall|j: int| i < j < prev.len() implies #[trigger] prev[j]
                        != Step::<S>::Release(h) by {
                        assert(steps[j] == prev[j]);
                    }
                    assert(live(prev, h));
                    assert(steps[n as int] != Step::<S>::Release(h));
                }
            }
            if opens(steps, n as int, h) {
                assert(live(steps, h));
            }
        }
    }
}

} // verus!
