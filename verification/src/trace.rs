//! What a whole run of the bridge does.
//!
//! `Bridge::step` takes one signal. Here the signals of a run are taken one
//! after another, and what holds of every run is proved: the listener is
//! spawned at most once, a stopped listener delivers nothing more, events
//! reach the host in the order of their capture, and a capture that is
//! dropped takes nothing else with it.

use vstd::prelude::*;
use crate::event::{
    lemma_captured_kind_is_injected_kind, EventKind, NativeEventView, NormalizedEventView,
};
use crate::listener::{next, ActionView, Phase, SignalView, StopCause};

verus! {

/// The phase after `signals` arrived one after another, starting in `phase`,
/// and the actions that were answered, in that order.
pub open spec fn run(phase: Phase, signals: Seq<SignalView>) -> (Phase, Seq<ActionView>)
    decreases signals.len(),
{
    if signals.len() == 0 {
        (phase, Seq::empty())
    } else {
        let before = run(phase, signals.drop_last());
        let last = next(before.0, signals.last());
        (last.0, before.1.push(last.1))
    }
}

/// The events that `actions` hand to the host, in the order of the actions.
pub open spec fn delivered(actions: Seq<ActionView>) -> Seq<NormalizedEventView>
    decreases actions.len(),
{
    if actions.len() == 0 {
        Seq::empty()
    } else {
        let before = delivered(actions.drop_last());
        match actions.last() {
            ActionView::Deliver(n) => before.push(n),
            _ => before,
        }
    }
}

/// How often `actions` spawn a listener thread.
pub open spec fn spawns(actions: Seq<ActionView>) -> nat
    decreases actions.len(),
{
    if actions.len() == 0 {
        0
    } else {
        let before = spawns(actions.drop_last());
        if actions.last() is Spawn {
            before + 1
        } else {
            before
        }
    }
}

/// The signals by which the listener thread reports `events`, one capture
/// after the other.
pub open spec fn captures(events: Seq<NativeEventView>) -> Seq<SignalView> {
    Seq::new(events.len(), |i: int| SignalView::Captured(events[i]))
}

/// What reaches the host of `events`: the normalized form of each capture
/// that has one, in the order of capture.
pub open spec fn arrivals(events: Seq<NativeEventView>) -> Seq<NormalizedEventView>
    decreases events.len(),
{
    if events.len() == 0 {
        Seq::empty()
    } else {
        let before = arrivals(events.drop_last());
        match events.last().normalized() {
            Ok(n) => before.push(n),
            Err(_) => before,
        }
    }
}

/// The captures that the bridge hears of `signals`: those that arrive while
/// the listener runs, in the order in which they arrive.
pub open spec fn heard(phase: Phase, signals: Seq<SignalView>) -> Seq<NativeEventView>
    decreases signals.len(),
{
    if signals.len() == 0 {
        Seq::empty()
    } else {
        let before = heard(phase, signals.drop_last());
        match signals.last() {
            SignalView::Captured(ev) => if run(phase, signals.drop_last()).0 is Listening {
                before.push(ev)
            } else {
                before
            },
            _ => before,
        }
    }
}

/// The place among the arrivals that the capture at `index` takes, if it
/// arrives: as many arrive before it as of the captures before it.
pub open spec fn place(events: Seq<NativeEventView>, index: int) -> int {
    arrivals(events.take(index)).len() as int
}

/// At most one listener: whatever signals arrive and in whatever order, the
/// listener thread is spawned at most once in the life of a bridge.
pub proof fn lemma_spawned_at_most_once(signals: Seq<SignalView>)
    ensures
        spawns(run(Phase::Idle, signals).1) <= 1,
        run(Phase::Idle, signals).0 is Idle ==> spawns(run(Phase::Idle, signals).1) == 0,
    decreases signals.len(),
{
    if signals.len() > 0 {
        lemma_spawned_at_most_once(signals.drop_last());
        let before = run(Phase::Idle, signals.drop_last());
        let last = next(before.0, signals.last());
        assert(before.1.push(last.1).drop_last() =~= before.1);
    }
}

/// A listener that has stopped stays stopped: it is never spawned again and
/// nothing more is delivered.
pub proof fn lemma_stopped_is_final(cause: StopCause, signals: Seq<SignalView>)
    ensures
        run(Phase::Stopped(cause), signals).0 == Phase::Stopped(cause),
        spawns(run(Phase::Stopped(cause), signals).1) == 0,
        delivered(run(Phase::Stopped(cause), signals).1).len() == 0,
    decreases signals.len(),
{
    if signals.len() > 0 {
        lemma_stopped_is_final(cause, signals.drop_last());
        let before = run(Phase::Stopped(cause), signals.drop_last());
        let last = next(before.0, signals.last());
        assert(before.1.push(last.1).drop_last() =~= before.1);
    }
}

/// Whatever signals arrive, and in whatever phase the bridge starts, the
/// host is handed exactly the arrivals of the captures that the bridge
/// heard, in the order in which it heard them.
pub proof fn lemma_delivers_what_is_heard(phase: Phase, signals: Seq<SignalView>)
    ensures
        delivered(run(phase, signals).1) == arrivals(heard(phase, signals)),
    decreases signals.len(),
{
    if signals.len() > 0 {
        lemma_delivers_what_is_heard(phase, signals.drop_last());
        let before = run(phase, signals.drop_last());
        let last = next(before.0, signals.last());
        assert(before.1.push(last.1).drop_last() =~= before.1);
        let heard_before = heard(phase, signals.drop_last());
        match signals.last() {
            SignalView::Captured(ev) => {
                if before.0 is Listening {
                    assert(heard_before.push(ev).drop_last() =~= heard_before);
                }
            },
            _ => {},
        }
    }
}

/// While the listener runs, captures alone never end it, and the host is
/// handed exactly the arrivals of the captures, in their order.
pub proof fn lemma_listening_delivers_arrivals(events: Seq<NativeEventView>)
    ensures
        run(Phase::Listening, captures(events)).0 == Phase::Listening,
        delivered(run(Phase::Listening, captures(events)).1) == arrivals(events),
    decreases events.len(),
{
    if events.len() > 0 {
        lemma_listening_delivers_arrivals(events.drop_last());
        assert(captures(events).drop_last() =~= captures(events.drop_last()));
        let before = run(Phase::Listening, captures(events).drop_last());
        let last = next(before.0, captures(events).last());
        assert(before.1.push(last.1).drop_last() =~= before.1);
    }
}

/// The arrivals of two runs of captures, one after the other, are the
/// arrivals of the first followed by those of the second.
pub proof fn lemma_arrivals_concat(first: Seq<NativeEventView>, second: Seq<NativeEventView>)
    ensures
        arrivals(first + second) == arrivals(first) + arrivals(second),
    decreases second.len(),
{
    if second.len() == 0 {
        assert(first + second =~= first);
        assert(arrivals(first) + arrivals(second) =~= arrivals(first));
    } else {
        lemma_arrivals_concat(first, second.drop_last());
        assert((first + second).drop_last() =~= first + second.drop_last());
        assert((first + second).last() == second.last());
        match second.last().normalized() {
            Ok(n) => {
                assert((arrivals(first) + arrivals(second.drop_last())).push(n) =~= arrivals(first)
                    + arrivals(second.drop_last()).push(n));
            },
            Err(_) => {},
        }
    }
}

/// First captured, first delivered. Of two captures that both arrive, the
/// earlier takes the earlier place, and at its place stands its own
/// normalized form.
pub proof fn lemma_arrivals_keep_capture_order(events: Seq<NativeEventView>, i: int, j: int)
    requires
        0 <= i < j < events.len(),
        events[i].normalized() is Ok,
        events[j].normalized() is Ok,
    ensures
        0 <= place(events, i) < place(events, j) < arrivals(events).len(),
        arrivals(events)[place(events, i)] == events[i].normalized()->Ok_0,
        arrivals(events)[place(events, j)] == events[j].normalized()->Ok_0,
{
    lemma_arrival_stands_at_its_place(events, i);
    lemma_arrival_stands_at_its_place(events, j);
    // What arrives up to and with `i` arrives before `j`.
    let upto_i = events.take(i + 1);
    let between = events.subrange(i + 1, j);
    assert(events.take(j) =~= upto_i + between);
    lemma_arrivals_concat(upto_i, between);
    assert(upto_i.drop_last() =~= events.take(i));
}

/// A capture that arrives stands at its place among the arrivals.
pub proof fn lemma_arrival_stands_at_its_place(events: Seq<NativeEventView>, i: int)
    requires
        0 <= i < events.len(),
        events[i].normalized() is Ok,
    ensures
        0 <= place(events, i) < arrivals(events).len(),
        arrivals(events)[place(events, i)] == events[i].normalized()->Ok_0,
{
    let upto = events.take(i + 1);
    let rest = events.skip(i + 1);
    assert(events =~= upto + rest);
    lemma_arrivals_concat(upto, rest);
    assert(upto.drop_last() =~= events.take(i));
    assert(upto.last() == events[i]);
}

/// Where every capture can be normalized, every capture arrives: as many
/// events reach the host as were captured, each at the place of its capture.
pub proof fn lemma_all_arrive(events: Seq<NativeEventView>)
    requires
        forall|i: int| 0 <= i < events.len() ==> (#[trigger] events[i]).normalized() is Ok,
    ensures
        arrivals(events).len() == events.len(),
        forall|i: int|
            0 <= i < events.len() ==> #[trigger] arrivals(events)[i]
                == events[i].normalized()->Ok_0,
    decreases events.len(),
{
    if events.len() > 0 {
        lemma_all_arrive(events.drop_last());
        assert forall|i: int| 0 <= i < events.len() implies #[trigger] arrivals(events)[i]
            == events[i].normalized()->Ok_0 by {
            if i < events.len() - 1 {
                assert(events.drop_last()[i] == events[i]);
            }
        }
    }
}

/// Synthetic events arrive in the order in which they were injected. When
/// the events of `requests` are injected one after another while the
/// listener runs, and each is captured in its turn, at or after the epoch,
/// then the host is handed exactly one event for each, of the kind that was
/// injected, stamped with the time of its capture, in the same order.
pub proof fn lemma_injected_events_arrive_in_order(
    requests: Seq<EventKind>,
    captured: Seq<NativeEventView>,
)
    requires
        captured.len() == requests.len(),
        forall|i: int|
            0 <= i < requests.len() ==> (#[trigger] captured[i]).kind == requests[i].captured_as(),
        forall|i: int| 0 <= i < requests.len() ==> (#[trigger] captured[i]).time is SinceEpoch,
    ensures
        run(Phase::Listening, captures(captured)).0 == Phase::Listening,
        delivered(run(Phase::Listening, captures(captured)).1) == arrivals(captured),
        arrivals(captured).len() == requests.len(),
        forall|i: int|
            0 <= i < requests.len() ==> (#[trigger] arrivals(captured)[i]).kind == requests[i],
        forall|i: int|
            0 <= i < requests.len() ==> Ok::<i64, crate::error::ConversionError>(
                (#[trigger] arrivals(captured)[i]).timestamp,
            ) == captured[i].time.stamp_of(),
{
    assert forall|i: int| 0 <= i < captured.len() implies (#[trigger] captured[i]).normalized()
        is Ok && (captured[i].normalized()->Ok_0).kind == requests[i] by {
        lemma_captured_kind_is_injected_kind(requests[i]);
    }
    lemma_all_arrive(captured);
    lemma_listening_delivers_arrivals(captured);
}

/// A dropped capture takes nothing with it. When one capture among others
/// cannot be normalized, the listener goes on, and the host is handed what
/// it would have been handed had that capture never happened: everything
/// before it, then everything after it.
pub proof fn lemma_dropped_capture_is_contained(
    before: Seq<NativeEventView>,
    bad: NativeEventView,
    after: Seq<NativeEventView>,
)
    requires
        bad.normalized() is Err,
    ensures
        run(Phase::Listening, captures(before.push(bad) + after)).0 == Phase::Listening,
        delivered(run(Phase::Listening, captures(before.push(bad) + after)).1) == arrivals(before)
            + arrivals(after),
        arrivals(before.push(bad) + after) == arrivals(before + after),
{
    lemma_listening_delivers_arrivals(before.push(bad) + after);
    lemma_arrivals_concat(before.push(bad), after);
    lemma_arrivals_concat(before, after);
    assert(before.push(bad).drop_last() =~= before);
}

} // verus!
