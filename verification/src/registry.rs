//! Global registration: a single-writer slot for the process-wide logging
//! endpoint, plus the global severity threshold.
//!
//! The slot starts `Unregistered` and moves to `Registered` at most once;
//! there is no deregistration. A successful registration transfers ownership
//! of the dispatcher into the slot and sets the threshold to its maximum
//! (least restrictive) value, deferring all filtering to the sinks. Every
//! later attempt fails with `AlreadyInitializedError`, the attempted
//! dispatcher is dropped, and the existing registration is left untouched.
//! Calls against the endpoint before a successful registration, or at a
//! level the threshold does not admit, have no observable effect.

use vstd::prelude::*;

use crate::dispatcher::flush_trace;
use crate::dispatcher::log_trace;
use crate::dispatcher::CompositeLogger;
use crate::level::filter_admits;
use crate::level::LevelFilter;
use crate::record::Metadata;
use crate::record::Record;
use crate::record::SinkEvent;
use crate::sink::Sink;

verus! {

/// A second registration was attempted against an already registered slot.
#[derive(Clone, Copy, Debug, PartialEq, Eq, Structural)]
pub struct AlreadyInitializedError;

/// The process-wide registration slot: at most one installed dispatcher,
/// written at most once, plus the global severity threshold. Before any
/// registration the threshold is `Off` and the endpoint relays nothing.
pub struct GlobalSlot<S: Sink> {
    dispatcher: Option<CompositeLogger<S>>,
    max_level: LevelFilter,
}

impl<S: Sink> GlobalSlot<S> {
    /// Whether a dispatcher has been installed.
    pub closed spec fn registered(&self) -> bool {
        self.dispatcher is Some
    }

    /// The installed dispatcher; meaningful only once registered.
    pub closed spec fn dispatcher(&self) -> CompositeLogger<S>
        recommends
            self.registered(),
    {
        self.dispatcher->0
    }

    /// The global severity threshold.
    pub closed spec fn threshold(&self) -> LevelFilter {
        self.max_level
    }

    /// A fresh, unregistered slot: no dispatcher, threshold `Off`.
    pub fn new() -> (r: Self)
        ensures
            !r.registered(),
            r.threshold() == LevelFilter::Off,
    {
        GlobalSlot { dispatcher: None, max_level: LevelFilter::Off }
    }

    /// Whether an event with this metadata would reach some sink through
    /// the endpoint: false before registration or when the threshold does
    /// not admit the level, otherwise the installed dispatcher's decision.
    pub fn enabled(&self, metadata: &Metadata) -> (r: bool)
        ensures
            r == (self.registered() && filter_admits(self.threshold(), metadata@.level)
                && self.dispatcher().accepts(metadata@)),
    {
        match &self.dispatcher {
            None => false,
            Some(d) => self.max_level.admits(&metadata.level) && d.enabled(metadata),
        }
    }

    /// Relay one record through the endpoint. Before a successful
    /// registration, or at a level the threshold does not admit, the call
    /// has no observable effect; otherwise the installed dispatcher
    /// dispatches the record to every sink that accepts its metadata.
    pub fn log(&mut self, record: &Record)
        ensures
            final(self).registered() == old(self).registered(),
            final(self).threshold() == old(self).threshold(),
            !(old(self).registered() && filter_admits(old(self).threshold(), record@.metadata.level))
                ==> *final(self) == *old(self),
            old(self).registered() && filter_admits(old(self).threshold(), record@.metadata.level)
                ==> {
                let before = old(self).dispatcher();
                let after = final(self).dispatcher();
                &&& after@.len() == before@.len()
                &&& forall|i: int|
                    0 <= i < before@.len() && before@[i].accepts(record@.metadata)
                        ==> #[trigger] after@[i].events() == before@[i].events().push(
                        SinkEvent::Logged(record@))
                &&& forall|i: int|
                    0 <= i < before@.len() && !before@[i].accepts(record@.metadata)
                        ==> #[trigger] after@[i] == before@[i]
                &&& after.dispatch_calls() == before.dispatch_calls() + log_trace(
                    before@,
                    record@,
                )
            },
    {
        match &mut self.dispatcher {
            None => (),
            Some(d) => {
                if self.max_level.admits(&record.metadata.level) {
                    d.log(record);
                }
            },
        }
    }

    /// Relay a `flush` through the endpoint: every sink of the installed
    /// dispatcher is flushed exactly once, in insertion order; before
    /// registration the call has no observable effect. Flush is not subject
    /// to the threshold or to filtering.
    pub fn flush(&mut self)
        ensures
            final(self).registered() == old(self).registered(),
            final(self).threshold() == old(self).threshold(),
            !old(self).registered() ==> *final(self) == *old(self),
            old(self).registered() ==> {
                let before = old(self).dispatcher();
                let after = final(self).dispatcher();
                &&& after@.len() == before@.len()
                &&& forall|i: int|
                    0 <= i < before@.len() ==> #[trigger] after@[i].events()
                        == before@[i].events().push(SinkEvent::Flushed)
                &&& after.dispatch_calls() == before.dispatch_calls()
                    + flush_trace(before@.len() as int)
            },
    {
        match &mut self.dispatcher {
            None => (),
            Some(d) => d.flush(),
        }
    }
}

impl<S: Sink> CompositeLogger<S> {
    /// Attempt the one registration: install this dispatcher as the sole
    /// owner of the endpoint and disable global-level severity filtering by
    /// raising the threshold to its maximum. Fails with
    /// `AlreadyInitializedError` — dropping this dispatcher and leaving the
    /// existing registration untouched — if and only if the slot is already
    /// registered.
    pub fn try_init(self, slot: &mut GlobalSlot<S>) -> (r: Result<(), AlreadyInitializedError>)
        ensures
            old(slot).registered() ==> r == Result::<(), AlreadyInitializedError>::Err(
                AlreadyInitializedError,
            ) && *final(slot) == *old(slot),
            !old(slot).registered() ==> r == Result::<(), AlreadyInitializedError>::Ok(())
                && final(slot).registered() && final(slot).dispatcher() == self
                && final(slot).threshold() == LevelFilter::Trace,
    {
        if slot.dispatcher.is_some() {
            Err(AlreadyInitializedError)
        } else {
            slot.dispatcher = Some(self);
            slot.max_level = LevelFilter::max();
            Ok(())
        }
    }

    /// Same as `try_init`, for programs in which this must be the first and
    /// only registration: the slot must still be unregistered, and the
    /// dispatcher is installed with the threshold at its maximum.
    pub fn init(self, slot: &mut GlobalSlot<S>)
        requires
            !old(slot).registered(),
        ensures
            final(slot).registered(),
            final(slot).dispatcher() == self,
            final(slot).threshold() == LevelFilter::Trace,
    {
        let r = self.try_init(slot);
        proof {
            assert(r is Ok);
        }
    }
}

} // verus!
