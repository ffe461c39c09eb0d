use vstd::prelude::*;
use crate::notify::NotifyTarget;
use crate::route::{filter_admits, Action, Route, SignalShape};

verus! {

/// A decoded signal payload.
#[derive(Debug, Clone, PartialEq, Eq)]
pub enum EventRecord {
    /// A systemd unit appeared or went away; the object path is not kept.
    Unit { name: String },
    /// Properties of `interface` changed (by name) or were invalidated.
    Properties { interface: String, changed: Vec<String>, invalidated: Vec<String> },
}

/// The declared shape that a record has.
pub open spec fn shape_of(record: EventRecord) -> SignalShape {
    match record {
        EventRecord::Unit { .. } => SignalShape::UnitLifecycle,
        EventRecord::Properties { .. } => SignalShape::PropertiesChanged,
    }
}

/// The text a filter reads in a record: the unit name, or the interface name.
pub open spec fn record_text(record: EventRecord) -> Seq<char> {
    match record {
        EventRecord::Unit { name } => name@,
        EventRecord::Properties { interface, .. } => interface@,
    }
}

impl EventRecord {
    pub fn shape(&self) -> (r: SignalShape)
        ensures
            r == shape_of(*self),
    {
        match self {
            EventRecord::Unit { .. } => SignalShape::UnitLifecycle,
            EventRecord::Properties { .. } => SignalShape::PropertiesChanged,
        }
    }

    pub fn text(&self) -> (r: &str)
        ensures
            r@ == record_text(*self),
    {
        match self {
            EventRecord::Unit { name } => name.as_str(),
            EventRecord::Properties { interface, .. } => interface.as_str(),
        }
    }
}

/// What one subscription's stream yields next; `stream` is the subscription's
/// row in the dispatch table.
#[derive(Debug, Clone, PartialEq, Eq)]
pub enum Incoming {
    /// A payload that decoded.
    Received { stream: usize, record: EventRecord },
    /// A payload that did not decode against the signal's shape.
    Malformed { stream: usize },
    /// The stream ended.
    Ended { stream: usize },
}

pub open spec fn stream_of(ev: Incoming) -> usize {
    match ev {
        Incoming::Received { stream, .. } => stream,
        Incoming::Malformed { stream } => stream,
        Incoming::Ended { stream } => stream,
    }
}

/// Why the watch stopped. Every failure is final.
#[derive(Debug, Clone, Copy, PartialEq, Eq, Structural)]
pub enum WatchError {
    /// A payload on `stream` did not have the signal's shape.
    Decode { stream: usize },
    /// `stream` ended.
    StreamEnded { stream: usize },
}

/// What the caller must do for one incoming item.
#[derive(Debug, Clone, PartialEq, Eq)]
pub enum Reaction {
    /// Nothing: the event did not pass its filter.
    Ignore,
    /// Write `note`.
    Log { note: String },
    /// Write `note`, then notify `target`.
    Notify { note: String, target: NotifyTarget },
    /// Stop watching, failing with the error.
    Halt(WatchError),
}

/// The reaction a dispatch table gives to one incoming item.
pub open spec fn respond(routes: Seq<Route>, ev: Incoming) -> Reaction {
    match ev {
        Incoming::Ended { stream } => Reaction::Halt(WatchError::StreamEnded { stream }),
        Incoming::Malformed { stream } => Reaction::Halt(WatchError::Decode { stream }),
        Incoming::Received { stream, record } => {
            let route = routes[stream as int];
            if shape_of(record) != route.subscription.shape {
                Reaction::Halt(WatchError::Decode { stream })
            } else if !filter_admits(route.filter, record_text(record)) {
                Reaction::Ignore
            } else {
                match route.action {
                    Action::Notify(target) => Reaction::Notify { note: route.note, target },
                    Action::Log => Reaction::Log { note: route.note },
                }
            }
        },
    }
}

/// One step of the watch: the reaction, and the failure recorded afterwards.
/// Once a failure is recorded, every item is answered by it and nothing else.
pub open spec fn advance(routes: Seq<Route>, failure: Option<WatchError>, ev: Incoming) -> (
    Reaction,
    Option<WatchError>,
) {
    match failure {
        Some(e) => (Reaction::Halt(e), Some(e)),
        None => {
            let r = respond(routes, ev);
            match r {
                Reaction::Halt(e) => (r, Some(e)),
                _ => (r, None),
            }
        },
    }
}

/// The failure recorded after the watch has taken `events` in order.
pub open spec fn failure_after(
    routes: Seq<Route>,
    failure: Option<WatchError>,
    events: Seq<Incoming>,
) -> Option<WatchError>
    decreases events.len(),
{
    if events.len() == 0 {
        failure
    } else {
        advance(routes, failure_after(routes, failure, events.drop_last()), events.last()).1
    }
}

/// The reactions to `events`, taken in order.
pub open spec fn run(routes: Seq<Route>, failure: Option<WatchError>, events: Seq<Incoming>) -> Seq<
    Reaction,
>
    decreases events.len(),
{
    if events.len() == 0 {
        Seq::empty()
    } else {
        run(routes, failure, events.drop_last()).push(
            advance(
                routes,
                failure_after(routes, failure, events.drop_last()),
                events.last(),
            ).0,
        )
    }
}

/// Every item names a row of the table.
pub open spec fn streams_in(routes: Seq<Route>, events: Seq<Incoming>) -> bool {
    forall|i: int| 0 <= i < events.len() ==> (stream_of(#[trigger] events[i]) as int) < routes.len()
}

/// The reaction at position `i` is the step taken on item `i` from the failure
/// recorded after the items before it.
proof fn lemma_run_at(routes: Seq<Route>, failure: Option<WatchError>, events: Seq<Incoming>)
    ensures
        run(routes, failure, events).len() == events.len(),
        forall|i: int|
            0 <= i < events.len() ==> #[trigger] run(routes, failure, events)[i] == advance(
                routes,
                failure_after(routes, failure, events.take(i)),
                events[i],
            ).0,
    decreases events.len(),
{
    if events.len() > 0 {
        let before = events.drop_last();
        lemma_run_at(routes, failure, before);
        assert forall|i: int| 0 <= i < events.len() implies #[trigger] run(
            routes,
            failure,
            events,
        )[i] == advance(routes, failure_after(routes, failure, events.take(i)), events[i]).0 by {
            if i < before.len() {
                assert(before.take(i) =~= events.take(i));
                assert(run(routes, failure, events)[i] == run(routes, failure, before)[i]);
            } else {
                assert(events.take(i) =~= before);
            }
        }
    }
}

/// Once recorded, a failure stays recorded whatever comes after.
proof fn lemma_failure_kept(
    routes: Seq<Route>,
    failure: Option<WatchError>,
    events: Seq<Incoming>,
    k: int,
    j: int,
)
    requires
        0 <= k <= j <= events.len(),
        failure_after(routes, failure, events.take(k)) is Some,
    ensures
        failure_after(routes, failure, events.take(j)) == failure_after(
            routes,
            failure,
            events.take(k),
        ),
    decreases j - k,
{
    if j > k {
        lemma_failure_kept(routes, failure, events, k, j - 1);
        assert(events.take(j).drop_last() =~= events.take(j - 1));
    }
}

/// Within the merged sequence of items, each item reaches its route's filter
/// and action exactly once, in the order received: the watch gives one
/// reaction per item, and while nothing has failed the reaction to an item is
/// the one its route gives it.
pub proof fn lemma_each_event_dispatched_once_in_order(routes: Seq<Route>, events: Seq<Incoming>)
    ensures
        run(routes, None, events).len() == events.len(),
        forall|i: int|
            0 <= i < events.len() && failure_after(routes, None, events.take(i)) is None
                ==> #[trigger] run(routes, None, events)[i] == respond(routes, events[i]),
{
    lemma_run_at(routes, None, events);
}

/// When an item makes the watch fail (a stream ended, or a payload did not
/// decode), the watch fails with that error and every later item, from any
/// stream, is answered by the same failure: nothing is noted or notified.
pub proof fn lemma_failure_stops_dispatch(routes: Seq<Route>, events: Seq<Incoming>, k: int)
    requires
        0 <= k < events.len(),
        failure_after(routes, None, events.take(k)) is None,
        respond(routes, events[k]) is Halt,
    ensures
        failure_after(routes, None, events) == Some(respond(routes, events[k])->Halt_0),
        forall|j: int|
            k < j < events.len() ==> #[trigger] run(routes, None, events)[j] == respond(
                routes,
                events[k],
            ),
{
    let e = respond(routes, events[k])->Halt_0;
    assert(events.take(k + 1).drop_last() =~= events.take(k));
    assert(events.take(k + 1).last() == events[k]);
    assert(failure_after(routes, None, events.take(k + 1)) == Some(e));
    lemma_failure_kept(routes, None, events, k + 1, events.len() as int);
    assert(events.take(events.len() as int) =~= events);
    lemma_run_at(routes, None, events);
    assert forall|j: int| k < j < events.len() implies #[trigger] run(routes, None, events)[j]
        == respond(routes, events[k]) by {
        lemma_failure_kept(routes, None, events, k + 1, j);
    }
}

fn respond_to(routes: &Vec<Route>, ev: &Incoming) -> (r: Reaction)
    requires
        (stream_of(*ev) as int) < routes@.len(),
    ensures
        r == respond(routes@, *ev),
{
    match ev {
        Incoming::Ended { stream } => Reaction::Halt(WatchError::StreamEnded { stream: *stream }),
        Incoming::Malformed { stream } => Reaction::Halt(WatchError::Decode { stream: *stream }),
        Incoming::Received { stream, record } => {
            let route = &routes[*stream];
            if record.shape() != route.subscription.shape {
                Reaction::Halt(WatchError::Decode { stream: *stream })
            } else if !route.filter.admits(record.text()) {
                Reaction::Ignore
            } else {
                match &route.action {
                    Action::Notify(target) => Reaction::Notify {
                        note: route.note.clone(),
                        target: target.duplicate(),
                    },
                    Action::Log => Reaction::Log { note: route.note.clone() },
                }
            }
        },
    }
}

/// The watcher: a dispatch table and the failure, if one came.
pub struct Watcher {
    routes: Vec<Route>,
    failure: Option<WatchError>,
}

impl Watcher {
    pub closed spec fn table(&self) -> Seq<Route> {
        self.routes@
    }

    pub closed spec fn failed(&self) -> Option<WatchError> {
        self.failure
    }

    /// A watcher over `routes` that has not failed.
    pub fn new(routes: Vec<Route>) -> (w: Watcher)
        ensures
            w.table() == routes@,
            w.failed() is None,
    {
        Watcher { routes, failure: None }
    }

    pub fn routes(&self) -> (r: &Vec<Route>)
        ensures
            r@ == self.table(),
    {
        &self.routes
    }

    pub fn failure(&self) -> (r: Option<WatchError>)
        ensures
            r == self.failed(),
    {
        self.failure
    }

    /// Takes one incoming item: applies its route's filter and action, or
    /// records the failure. After a failure nothing more is dispatched.
    pub fn step(&mut self, ev: &Incoming) -> (r: Reaction)
        requires
            (stream_of(*ev) as int) < old(self).table().len(),
        ensures
            final(self).table() == old(self).table(),
            (r, final(self).failed()) == advance(old(self).table(), old(self).failed(), *ev),
    {
        match self.failure {
            Some(e) => Reaction::Halt(e),
            None => {
                let r = respond_to(&self.routes, ev);
                if let Reaction::Halt(e) = r {
                    self.failure = Some(e);
                }
                r
            },
        }
    }

    /// Takes `events` in order, one step each.
    pub fn replay(&mut self, events: &Vec<Incoming>) -> (r: Vec<Reaction>)
        requires
            streams_in(old(self).table(), events@),
        ensures
            final(self).table() == old(self).table(),
            r@ == run(old(self).table(), old(self).failed(), events@),
            final(self).failed() == failure_after(old(self).table(), old(self).failed(), events@),
    {
        let ghost routes = self.table();
        let ghost start = self.failed();
        let mut r: Vec<Reaction> = Vec::new();
        let mut i: usize = 0;
        while i < events.len()
            invariant
                i <= events@.len(),
                self.table() == routes,
                streams_in(routes, events@),
                r@ == run(routes, start, events@.take(i as int)),
                self.failed() == failure_after(routes, start, events@.take(i as int)),
            decreases events@.len() - i,
        {
            assert(events@.take(i + 1).drop_last() =~= events@.take(i as int));
            assert(events@.take(i + 1).last() == events@[i as int]);
            let reaction = self.step(&events[i]);
            r.push(reaction);
            i = i + 1;
        }
        assert(events@.take(i as int) =~= events@);
        r
    }
}

} // verus!
