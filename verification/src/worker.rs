//! The decisions the two workers make, verified. The blocking edges — the
//! terminal read that yields each input unit and the sleep between ticks —
//! belong to the caller's threads; each thread hands what it observed to a
//! step function here and performs the action the result names.

use vstd::prelude::*;

use crate::channel::channel_send;
use crate::event::{Event, Key};

verus! {

/// A unit of raw terminal input that could not be decoded into a key. The
/// worker never looks inside a decode error: every failure is skipped the
/// same way, by design, to tolerate transient input-stream noise.
#[derive(Clone, Copy, Debug, PartialEq, Eq)]
pub struct DecodeFailure;

/// What a worker does after handling one unit of work.
#[derive(Clone, Copy, Debug, PartialEq, Eq)]
pub enum WorkerStatus {
    /// Keep running: read the next unit (input worker), or sleep one
    /// interval and tick again (tick worker).
    Continue,
    /// The consumer is gone: terminate quietly.
    Stop,
}

/// What the input worker forwards for one decoded unit: a key becomes an
/// `Input` event; a malformed unit yields nothing.
pub open spec fn forwarded_event(unit: Result<Key, DecodeFailure>) -> Option<Event<Key>> {
    match unit {
        Ok(k) => Some(Event::Input(k)),
        Err(_) => None,
    }
}

/// The events the input worker forwards for a sequence of decoded units,
/// in the order the units arrived.
pub open spec fn forwarded_events(units: Seq<Result<Key, DecodeFailure>>) -> Seq<Event<Key>>
    decreases units.len(),
{
    if units.len() == 0 {
        Seq::empty()
    } else {
        forwarded_events(units.drop_last()) + (match forwarded_event(units.last()) {
            Some(ev) => seq![ev],
            None => Seq::empty(),
        })
    }
}

/// Decide what the input worker forwards for one unit: the decoded key as
/// an `Input` event, or nothing for a malformed unit.
pub fn decode_step(unit: Result<Key, DecodeFailure>) -> (r: Option<Event<Key>>)
    ensures
        r == forwarded_event(unit),
{
    match unit {
        Ok(k) => Some(Event::Input(k)),
        Err(_) => None,
    }
}

/// Decide what a worker does once a send has come back: keep running on
/// success, stop as soon as the channel reports the consumer gone.
pub fn next_status(outcome: Result<(), Event<Key>>) -> (st: WorkerStatus)
    ensures
        outcome matches Ok(_) ==> st == WorkerStatus::Continue,
        outcome matches Err(_) ==> st == WorkerStatus::Stop,
{
    match outcome {
        Ok(_) => WorkerStatus::Continue,
        Err(_) => WorkerStatus::Stop,
    }
}

/// One step of the input worker, on the next unit its terminal read
/// produced: forward a decoded key, skip a malformed unit silently. A
/// malformed unit never stops the worker; only a failed send — the
/// consumer is gone — does.
pub fn input_step(tx: &crossbeam_channel::Sender<Event<Key>>, unit: Result<Key, DecodeFailure>) -> (st: WorkerStatus)
    ensures
        unit matches Err(_) ==> st == WorkerStatus::Continue,
{
    match decode_step(unit) {
        Some(ev) => next_status(channel_send(tx, ev)),
        None => WorkerStatus::Continue,
    }
}

/// One step of the tick worker: emit one `Tick`. The caller sleeps one
/// `tick_rate_ms` interval on `Continue` and repeats; it terminates on
/// `Stop`, which the channel reports once the consumer is gone.
pub fn tick_step(tx: &crossbeam_channel::Sender<Event<Key>>) -> WorkerStatus {
    next_status(channel_send(tx, Event::Tick))
}

/// The decode-and-skip pipeline over a whole batch of units: exactly the
/// events the input worker would forward for them, in the same order.
pub fn forward_batch(units: &Vec<Result<Key, DecodeFailure>>) -> (evs: Vec<Event<Key>>)
    ensures
        evs@ == forwarded_events(units@),
{
    let mut evs: Vec<Event<Key>> = Vec::new();
    let mut i: usize = 0;
    while i < units.len()
        invariant
            i <= units@.len(),
            evs@ == forwarded_events(units@.take(i as int)),
        decreases units@.len() - i,
    {
        let unit = units[i];
        match decode_step(unit) {
            Some(ev) => evs.push(ev),
            None => (),
        }
        proof {
            let taken = units@.take(i as int + 1);
            assert(taken.drop_last() =~= units@.take(i as int));
            assert(taken.last() == unit);
        }
        i = i + 1;
    }
    proof {
        assert(units@.take(units@.len() as int) =~= units@);
    }
    evs
}

/// A sequence of units forwards producer-order-wise: the events of a
/// concatenation are the events of the first part followed by those of the
/// second.
pub proof fn lemma_forwarded_events_concat(a: Seq<Result<Key, DecodeFailure>>, b: Seq<Result<Key, DecodeFailure>>)
    ensures
        forwarded_events(a + b) == forwarded_events(a) + forwarded_events(b),
    decreases b.len(),
{
    if b.len() == 0 {
        assert(a + b =~= a);
        assert(forwarded_events(a) + forwarded_events(b) =~= forwarded_events(a));
    } else {
        lemma_forwarded_events_concat(a, b.drop_last());
        assert((a + b).drop_last() =~= a + b.drop_last());
        assert((a + b).last() == b.last());
        match forwarded_event(b.last()) {
            Some(ev) => {
                assert(forwarded_events(a) + forwarded_events(b.drop_last()) + seq![ev]
                    =~= forwarded_events(a) + forwarded_events(b));
            }
            None => {
                assert(forwarded_events(a) + forwarded_events(b.drop_last()) + Seq::<Event<Key>>::empty()
                    =~= forwarded_events(a) + forwarded_events(b));
            }
        }
    }
}

/// A batch in which every unit decoded to a key.
pub open spec fn all_decoded(keys: Seq<Key>) -> Seq<Result<Key, DecodeFailure>> {
    keys.map_values(|k: Key| Result::<Key, DecodeFailure>::Ok(k))
}

/// Those keys as the events the consumer sees, one `Input` per key.
pub open spec fn as_inputs(keys: Seq<Key>) -> Seq<Event<Key>> {
    keys.map_values(|k: Key| Event::<Key>::Input(k))
}

/// Ordered delivery of decodable input: when every unit decodes, the input
/// worker forwards exactly one `Input` event per key, in the keys' own
/// order.
pub proof fn lemma_inputs_in_order(keys: Seq<Key>)
    ensures
        forwarded_events(all_decoded(keys)) == as_inputs(keys),
    decreases keys.len(),
{
    if keys.len() == 0 {
        assert(all_decoded(keys) =~= Seq::<Result<Key, DecodeFailure>>::empty());
        assert(as_inputs(keys) =~= Seq::<Event<Key>>::empty());
    } else {
        lemma_inputs_in_order(keys.drop_last());
        let units = all_decoded(keys);
        assert(units.drop_last() =~= all_decoded(keys.drop_last()));
        assert(units.last() == Result::<Key, DecodeFailure>::Ok(keys.last()));
        assert(as_inputs(keys.drop_last()) + seq![Event::<Key>::Input(keys.last())]
            =~= as_inputs(keys));
    }
}

/// A malformed unit is invisible: the events forwarded for a batch with one
/// undecodable unit between two runs of units are exactly the events of the
/// two runs alone, so the surrounding valid events keep their order.
pub proof fn lemma_malformed_unit_skipped(
    before: Seq<Result<Key, DecodeFailure>>,
    failure: DecodeFailure,
    after: Seq<Result<Key, DecodeFailure>>,
)
    ensures
        forwarded_events(before + seq![Result::<Key, DecodeFailure>::Err(failure)] + after)
            == forwarded_events(before + after),
{
    let bad = seq![Result::<Key, DecodeFailure>::Err(failure)];
    lemma_forwarded_events_concat(before + bad, after);
    lemma_forwarded_events_concat(before, bad);
    lemma_forwarded_events_concat(before, after);
    assert(bad.drop_last() =~= Seq::<Result<Key, DecodeFailure>>::empty());
    assert(forwarded_events(Seq::<Result<Key, DecodeFailure>>::empty()) == Seq::<Event<Key>>::empty());
    assert(forwarded_events(bad) =~= Seq::<Event<Key>>::empty());
    assert(forwarded_events(before) + forwarded_events(bad) =~= forwarded_events(before));
}

} // verus!
