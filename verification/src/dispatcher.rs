//! The composite dispatcher: an ordered sequence of owned sinks behind the
//! same enabled/log/flush contract the sinks themselves implement.
//!
//! The dispatcher's view is the sequence of its sinks, in insertion order.
//! Two ghost histories make dispatch observable in contracts: `events()`
//! (from the `Sink` impl) records the calls the dispatcher itself received,
//! and `dispatch_calls()` records every invocation it forwarded to a sink, as
//! `(sink index, call)` pairs in invocation order. A `log` call appends
//! `log_trace`, the accepted indices in increasing order; a `flush` call
//! appends `flush_trace`, every index once, in order.

use vstd::prelude::*;

use crate::record::Metadata;
use crate::record::Record;
use crate::record::SinkEvent;
use crate::record::SpecMetadata;
use crate::record::SpecRecord;
use crate::sink::Sink;

verus! {

/// Aggregates an ordered sequence of sinks and relays every call to them.
/// Insertion order is dispatch order; duplicates are permitted and each
/// receives its own independent dispatch.
pub struct CompositeLogger<S: Sink> {
    loggers: Vec<S>,
    received: Ghost<Seq<SinkEvent>>,
    calls: Ghost<Seq<(int, SinkEvent)>>,
}

impl<S: Sink> View for CompositeLogger<S> {
    type V = Seq<S>;

    /// The owned sinks, in insertion order.
    closed spec fn view(&self) -> Seq<S> {
        self.loggers@
    }
}

/// The invocations one `log(r)` call forwards when the sinks are in the
/// states `sinks`: the indices whose sink accepts `r`'s metadata, in
/// increasing order, each paired with the delivered record.
pub open spec fn log_trace<S: Sink>(sinks: Seq<S>, r: SpecRecord) -> Seq<(int, SinkEvent)>
    decreases sinks.len(),
{
    if sinks.len() == 0 {
        Seq::empty()
    } else {
        log_trace(sinks.drop_last(), r) + if sinks.last().accepts(r.metadata) {
            seq![(sinks.len() - 1, SinkEvent::Logged(r))]
        } else {
            Seq::<(int, SinkEvent)>::empty()
        }
    }
}

/// The invocations one `flush` call forwards to `n` sinks: every index
/// exactly once, in increasing order.
pub open spec fn flush_trace(n: int) -> Seq<(int, SinkEvent)> {
    Seq::new(n as nat, |i: int| (i, SinkEvent::Flushed))
}

/// Law: one `log(r)` call forwards the record to a sink if and only if that
/// sink accepts `r`'s metadata — every entry of the trace is an accepted
/// index carrying the dispatched record, and every accepted index appears.
pub proof fn lemma_log_trace_complete<S: Sink>(sinks: Seq<S>, r: SpecRecord)
    ensures
        forall|k: int|
            0 <= k < log_trace(sinks, r).len() ==> {
                let e = #[trigger] log_trace(sinks, r)[k];
                &&& 0 <= e.0 < sinks.len()
                &&& sinks[e.0].accepts(r.metadata)
                &&& e.1 == SinkEvent::Logged(r)
            },
        forall|i: int|
            0 <= i < sinks.len() && #[trigger] sinks[i].accepts(r.metadata) ==> exists|k: int|
                0 <= k < log_trace(sinks, r).len() && log_trace(sinks, r)[k] == (
                    i,
                    SinkEvent::Logged(r),
                ),
    decreases sinks.len(),
{
    if sinks.len() > 0 {
        let head = sinks.drop_last();
        lemma_log_trace_complete(head, r);
        let pre = log_trace(head, r);
        let t = log_trace(sinks, r);
        assert forall|i: int|
            0 <= i < sinks.len() && #[trigger] sinks[i].accepts(r.metadata) implies exists|k: int|
            0 <= k < t.len() && t[k] == (i, SinkEvent::Logged(r)) by {
            if i < sinks.len() - 1 {
                assert(head[i] == sinks[i]);
                let k = choose|k: int| 0 <= k < pre.len() && pre[k] == (i, SinkEvent::Logged(r));
                assert(t[k] == (i, SinkEvent::Logged(r)));
            } else {
                assert(t[pre.len() as int] == (i, SinkEvent::Logged(r)));
            }
        }
    }
}

/// Law: dispatch order equals builder insertion order — within the trace of
/// one `log` call, the forwarded sink indices strictly increase, so a sink
/// added earlier is dispatched to before one added later, for every record.
pub proof fn lemma_log_trace_ordered<S: Sink>(sinks: Seq<S>, r: SpecRecord)
    ensures
        forall|p: int, q: int|
            0 <= p < q < log_trace(sinks, r).len() ==> #[trigger] log_trace(sinks, r)[p].0
                < #[trigger] log_trace(sinks, r)[q].0,
    decreases sinks.len(),
{
    if sinks.len() > 0 {
        let head = sinks.drop_last();
        lemma_log_trace_ordered(head, r);
        lemma_log_trace_complete(head, r);
        let pre = log_trace(head, r);
        let t = log_trace(sinks, r);
        assert forall|p: int, q: int| 0 <= p < q < t.len() implies t[p].0 < t[q].0 by {
            if q < pre.len() {
                assert(t[p] == pre[p] && t[q] == pre[q]);
            } else {
                assert(t[q].0 == sinks.len() - 1);
                assert(t[p] == pre[p]);
                assert(pre[p].0 < head.len());
            }
        }
    }
}

/// Law: one `flush` call reaches every sink exactly once, in insertion
/// order, irrespective of any sink's filtering decision.
pub proof fn lemma_flush_trace_each_once(n: int)
    requires
        0 <= n,
    ensures
        flush_trace(n).len() == n,
        forall|k: int| 0 <= k < n ==> #[trigger] flush_trace(n)[k] == (k, SinkEvent::Flushed),
{
}

impl<S: Sink> CompositeLogger<S> {
    /// Every sink invocation this dispatcher has forwarded, oldest first,
    /// as `(sink index, call)` pairs.
    pub closed spec fn dispatch_calls(&self) -> Seq<(int, SinkEvent)> {
        self.calls@
    }

    /// An empty dispatcher: no sinks, nothing received, nothing forwarded.
    pub fn new() -> (r: Self)
        ensures
            r@ == Seq::<S>::empty(),
            r.events() == Seq::<SinkEvent>::empty(),
            r.dispatch_calls() == Seq::<(int, SinkEvent)>::empty(),
    {
        CompositeLogger { loggers: Vec::new(), received: Ghost(Seq::empty()), calls: Ghost(Seq::empty()) }
    }

    /// Append a sink to the end of the dispatch sequence, consuming and
    /// returning the builder for fluent chaining.
    pub fn with_logger(self, logger: S) -> (r: Self)
        ensures
            r@ == self@.push(logger),
            r.events() == self.events(),
            r.dispatch_calls() == self.dispatch_calls(),
    {
        let mut loggers = self.loggers;
        loggers.push(logger);
        CompositeLogger { loggers, received: self.received, calls: self.calls }
    }
}

impl<S: Sink> Default for CompositeLogger<S> {
    /// Same as `new`: an empty dispatcher.
    fn default() -> (r: Self)
        ensures
            r@ == Seq::<S>::empty(),
            r.events() == Seq::<SinkEvent>::empty(),
            r.dispatch_calls() == Seq::<(int, SinkEvent)>::empty(),
    {
        CompositeLogger::new()
    }
}

impl<S: Sink> Sink for CompositeLogger<S> {
    /// The dispatcher accepts metadata exactly when at least one of its
    /// sinks accepts it.
    open spec fn accepts(&self, m: SpecMetadata) -> bool {
        exists|i: int| 0 <= i < self@.len() && self@[i].accepts(m)
    }

    /// The calls the dispatcher itself has received.
    closed spec fn events(&self) -> Seq<SinkEvent> {
        self.received@
    }

    /// True iff at least one owned sink wants this metadata.
    fn enabled(&self, metadata: &Metadata) -> (r: bool) {
        let n = self.loggers.len();
        let mut i: usize = 0;
        while i < n
            invariant
                n == self.loggers@.len(),
                0 <= i <= n,
                forall|j: int| 0 <= j < i ==> !self.loggers@[j].accepts(metadata@),
            decreases n - i,
        {
            if self.loggers[i].enabled(metadata) {
                proof {
                    assert(self@[i as int].accepts(metadata@));
                }
                return true;
            }
            i = i + 1;
        }
        false
    }

    /// Deliver `record` to every sink that accepts its metadata, in
    /// insertion order, re-evaluating each sink's decision independently;
    /// sinks that reject the metadata are left untouched.
    fn log(&mut self, record: &Record)
        ensures
            final(self)@.len() == old(self)@.len(),
            forall|i: int|
                0 <= i < old(self)@.len() && old(self)@[i].accepts(record@.metadata)
                    ==> #[trigger] final(self)@[i].events() == old(self)@[i].events().push(
                    SinkEvent::Logged(record@)),
            forall|i: int|
                0 <= i < old(self)@.len() && !old(self)@[i].accepts(record@.metadata)
                    ==> #[trigger] final(self)@[i] == old(self)@[i],
            final(self).dispatch_calls() == old(self).dispatch_calls() + log_trace(
                old(self)@,
                record@,
            ),
    {
        self.received = Ghost(self.received@.push(SinkEvent::Logged(record@)));
        let ghost sinks0 = self.loggers@;
        let ghost calls0 = self.calls@;
        let n = self.loggers.len();
        let mut i: usize = 0;
        while i < n
            invariant
                n == self.loggers@.len(),
                sinks0.len() == n,
                0 <= i <= n,
                forall|j: int| i <= j < n ==> #[trigger] self.loggers@[j] == sinks0[j],
                forall|j: int|
                    0 <= j < i && sinks0[j].accepts(record@.metadata)
                        ==> #[trigger] self.loggers@[j].events() == sinks0[j].events().push(
                        SinkEvent::Logged(record@)),
                forall|j: int|
                    0 <= j < i && !sinks0[j].accepts(record@.metadata)
                        ==> #[trigger] self.loggers@[j] == sinks0[j],
                self.calls@ == calls0 + log_trace(sinks0.take(i as int), record@),
                self.received@ == old(self).received@.push(SinkEvent::Logged(record@)),
            decreases n - i,
        {
            if self.loggers[i].enabled(&record.metadata) {
                let sink = &mut self.loggers[i];
                sink.log(record);
                self.calls = Ghost(self.calls@.push((i as int, SinkEvent::Logged(record@))));
            }
            proof {
                let t = sinks0.take(i + 1 as int);
                assert(t.drop_last() =~= sinks0.take(i as int));
                assert(t.last() == sinks0[i as int]);
                if sinks0[i as int].accepts(record@.metadata) {
                    assert(log_trace(t, record@) =~= log_trace(sinks0.take(i as int), record@)
                        + seq![(i as int, SinkEvent::Logged(record@))]);
                } else {
                    assert(log_trace(t, record@) =~= log_trace(sinks0.take(i as int), record@));
                }
                assert(self.calls@ =~= calls0 + log_trace(sinks0.take(i + 1 as int), record@));
            }
            i = i + 1;
        }
        proof {
            assert(sinks0.take(n as int) =~= sinks0);
        }
    }

    /// Invoke `flush` on every sink, unconditionally, in insertion order:
    /// flush is not subject to filtering.
    fn flush(&mut self)
        ensures
            final(self)@.len() == old(self)@.len(),
            forall|i: int|
                0 <= i < old(self)@.len() ==> #[trigger] final(self)@[i].events() == old(
                    self,
                )@[i].events().push(SinkEvent::Flushed),
            final(self).dispatch_calls() == old(self).dispatch_calls() + flush_trace(
                old(self)@.len() as int,
            ),
    {
        self.received = Ghost(self.received@.push(SinkEvent::Flushed));
        let ghost sinks0 = self.loggers@;
        let ghost calls0 = self.calls@;
        let n = self.loggers.len();
        let mut i: usize = 0;
        while i < n
            invariant
                n == self.loggers@.len(),
                sinks0.len() == n,
                0 <= i <= n,
                forall|j: int| i <= j < n ==> #[trigger] self.loggers@[j] == sinks0[j],
                forall|j: int|
                    0 <= j < i ==> #[trigger] self.loggers@[j].events() == sinks0[j].events().push(
                        SinkEvent::Flushed),
                self.calls@ == calls0 + flush_trace(i as int),
                self.received@ == old(self).received@.push(SinkEvent::Flushed),
            decreases n - i,
        {
            let sink = &mut self.loggers[i];
            sink.flush();
            self.calls = Ghost(self.calls@.push((i as int, SinkEvent::Flushed)));
            proof {
                assert(flush_trace(i + 1 as int) =~= flush_trace(i as int).push(
                    (i as int, SinkEvent::Flushed),
                ));
                assert(self.calls@ =~= calls0 + flush_trace(i + 1 as int));
            }
            i = i + 1;
        }
    }
}

} // verus!
