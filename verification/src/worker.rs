//! Decision logic of the background worker loop.
//!
//! The worker repeatedly performs a blocking receive on the raw-event
//! channel, translates each event, and forwards the resulting changes to the
//! consumer. The surrounding thread and channels are unverifiable plumbing;
//! the decisions the loop takes — forward, discard, or stop — are verified
//! here, together with the shape of the whole forwarded stream.

use vstd::prelude::*;

use crate::events::{
    classify, is_error, is_noise, is_structural, lemma_classify_structural, RawEvent,
    WatcherChange,
};

verus! {

/// The changes the consumer observes when the event source delivers the
/// given raw events, in order: each structural event contributes its
/// translation, noise and per-path errors contribute nothing.
pub open spec fn forwarded(events: Seq<RawEvent>) -> Seq<WatcherChange>
    decreases events.len(),
{
    if events.len() == 0 {
        Seq::empty()
    } else {
        match classify(events[0]) {
            Some(change) => seq![change] + forwarded(events.drop_first()),
            None => forwarded(events.drop_first()),
        }
    }
}

/// The action the worker loop takes after one blocking receive.
#[derive(Debug)]
pub enum WorkerStep {
    /// Push this change onto the forwarding channel.
    Forward(WatcherChange),
    /// Drop the event; the loop goes on.
    Discard,
    /// The raw-event channel closed: leave the loop. This is the sole
    /// normal termination path of the worker.
    Stop,
}

/// The decision the worker owes for one receive outcome: `None` stands for
/// a closed raw-event channel.
pub open spec fn decide_spec(input: Option<RawEvent>) -> WorkerStep {
    match input {
        None => WorkerStep::Stop,
        Some(ev) => match classify(ev) {
            Some(change) => WorkerStep::Forward(change),
            None => WorkerStep::Discard,
        },
    }
}

/// Decides what the worker loop does with the outcome of one blocking
/// receive: forward the translated change, discard noise and per-path
/// errors, and stop only when the channel has closed.
pub fn worker_decide(input: Option<RawEvent>) -> (step: WorkerStep)
    ensures
        step == decide_spec(input),
{
    match input {
        None => WorkerStep::Stop,
        Some(ev) => match WatcherChange::from_debounced_event(ev) {
            Some(change) => WorkerStep::Forward(change),
            None => WorkerStep::Discard,
        },
    }
}

/// Runs the worker loop's translation over a whole delivered batch: the
/// result is exactly the forwarded stream, complete and in order. Once the
/// source has closed, nothing beyond this is ever delivered.
pub fn run_worker(events: Vec<RawEvent>) -> (out: Vec<WatcherChange>)
    ensures
        out@ == forwarded(events@),
{
    let ghost all = events@;
    let mut rest = events;
    let mut out: Vec<WatcherChange> = Vec::new();
    proof {
        assert(out@ + forwarded(rest@) =~= forwarded(all));
    }
    while rest.len() > 0
        invariant
            forwarded(all) == out@ + forwarded(rest@),
        decreases rest.len(),
    {
        let ghost prev = rest@;
        let ev = rest.remove(0);
        proof {
            assert(rest@ =~= prev.drop_first());
        }
        match WatcherChange::from_debounced_event(ev) {
            Some(change) => {
                out.push(change);
                proof {
                    assert(out@ + forwarded(rest@) =~= forwarded(all));
                }
            },
            None => {},
        }
    }
    proof {
        assert(out@ =~= forwarded(all));
    }
    out
}

/// Forwarding distributes over concatenation of delivered batches: the
/// stream of changes for two batches in a row is the first batch's stream
/// followed by the second's.
pub proof fn lemma_forwarded_append(s1: Seq<RawEvent>, s2: Seq<RawEvent>)
    ensures
        forwarded(s1 + s2) == forwarded(s1) + forwarded(s2),
    decreases s1.len(),
{
    if s1.len() == 0 {
        assert(s1 + s2 =~= s2);
        assert(forwarded(s1) + forwarded(s2) =~= forwarded(s2));
    } else {
        assert((s1 + s2).drop_first() =~= s1.drop_first() + s2);
        lemma_forwarded_append(s1.drop_first(), s2);
        match classify(s1[0]) {
            Some(change) => {
                assert(seq![change] + (forwarded(s1.drop_first()) + forwarded(s2)) =~= (
                seq![change] + forwarded(s1.drop_first())) + forwarded(s2));
            },
            None => {},
        }
    }
}

/// Every sequence of structural mutations delivered under a watched root is
/// observed one for one: the consumer sees exactly one change per mutation,
/// with the matching variant and paths, in the same relative order.
pub proof fn lemma_structural_forwarded_in_order(events: Seq<RawEvent>)
    requires
        forall|i: int| 0 <= i < events.len() ==> is_structural(#[trigger] events[i]),
    ensures
        forwarded(events).len() == events.len(),
        forall|i: int|
            0 <= i < events.len() ==> Some(#[trigger] forwarded(events)[i]) == classify(events[i]),
    decreases events.len(),
{
    if events.len() > 0 {
        lemma_classify_structural(events[0]);
        let rest = events.drop_first();
        assert(forall|i: int| 0 <= i < rest.len() ==> is_structural(#[trigger] rest[i]));
        lemma_structural_forwarded_in_order(rest);
        let change = classify(events[0])->0;
        assert(forwarded(events) == seq![change] + forwarded(rest));
        assert(forall|i: int|
            1 <= i < events.len() ==> #[trigger] forwarded(events)[i] == forwarded(rest)[i - 1]
                && events[i] == rest[i - 1]);
    }
}

/// Noise-class raw events never produce a change: a batch of nothing but
/// advisory noise forwards nothing at all.
pub proof fn lemma_noise_forwards_nothing(events: Seq<RawEvent>)
    requires
        forall|i: int| 0 <= i < events.len() ==> is_noise(#[trigger] events[i]),
    ensures
        forwarded(events) == Seq::<WatcherChange>::empty(),
    decreases events.len(),
{
    if events.len() > 0 {
        lemma_classify_structural(events[0]);
        let rest = events.drop_first();
        assert(forall|i: int| 0 <= i < rest.len() ==> is_noise(#[trigger] rest[i]));
        lemma_noise_forwards_nothing(rest);
    }
}

/// An event that translates into nothing contributes nothing wherever it
/// stands in the stream: the events around it forward exactly as they would
/// without it.
pub proof fn lemma_silent_event_adds_nothing(
    before: Seq<RawEvent>,
    ev: RawEvent,
    after: Seq<RawEvent>,
)
    requires
        classify(ev) is None,
    ensures
        forwarded(before + seq![ev] + after) == forwarded(before) + forwarded(after),
{
    lemma_forwarded_append(before + seq![ev], after);
    lemma_forwarded_append(before, seq![ev]);
    assert(seq![ev].drop_first() =~= Seq::<RawEvent>::empty());
    assert(seq![ev][0] == ev);
    assert(forwarded(Seq::<RawEvent>::empty()) == Seq::<WatcherChange>::empty());
    assert(forwarded(seq![ev]) == forwarded(seq![ev].drop_first()));
    assert(forwarded(before) + forwarded(seq![ev]) =~= forwarded(before));
}

/// A noise-class raw event never produces a change, wherever it occurs: the
/// stream with it is the stream without it.
pub proof fn lemma_noise_event_produces_no_change(
    before: Seq<RawEvent>,
    noise: RawEvent,
    after: Seq<RawEvent>,
)
    requires
        is_noise(noise),
    ensures
        decide_spec(Some(noise)) == WorkerStep::Discard,
        forwarded(before + seq![noise] + after) == forwarded(before) + forwarded(after),
{
    lemma_classify_structural(noise);
    lemma_silent_event_adds_nothing(before, noise, after);
}

/// A per-path error event never terminates the worker and never surfaces as
/// a change: the loop discards it, and every genuine structural event after
/// it still flows through, unchanged and in order.
pub proof fn lemma_error_keeps_stream_flowing(
    before: Seq<RawEvent>,
    err: RawEvent,
    after: Seq<RawEvent>,
)
    requires
        is_error(err),
    ensures
        decide_spec(Some(err)) == WorkerStep::Discard,
        forwarded(before + seq![err] + after) == forwarded(before) + forwarded(after),
{
    lemma_classify_structural(err);
    lemma_silent_event_adds_nothing(before, err, after);
}

/// The worker stops for a closed raw-event channel and for nothing else:
/// shutdown of the event source is the sole termination path of the loop.
pub proof fn lemma_stop_only_on_closed_channel(input: Option<RawEvent>)
    ensures
        decide_spec(input) is Stop <==> input is None,
{
}

} // verus!

