//! The capability contract every log sink implements.
//!
//! A sink exposes exactly three operations: a pure filtering decision
//! (`enabled`), delivery of one record (`log`), and `flush`. Its behaviour is
//! abstracted by two spec functions: `accepts`, the filtering decision as a
//! predicate over metadata, and `events`, the history of calls the sink has
//! received. Sink-level side effects, failures, or latency are invisible
//! through this contract; a sink reports its own failures out of band.

use vstd::prelude::*;

use crate::record::Metadata;
use crate::record::Record;
use crate::record::SinkEvent;
use crate::record::SpecMetadata;

verus! {

/// An external log consumer. `enabled` must be side-effect-free and its
/// truth value must not depend on which other sinks have been queried; the
/// contract makes that a precondition of composition by modelling the
/// decision as the pure predicate `accepts`.
pub trait Sink: Sized {
    /// The sink's filtering decision on metadata of this view. The default
    /// leaves the decision unspecified; a verified implementation overrides
    /// it with the predicate its `enabled` computes.
    open spec fn accepts(&self, m: SpecMetadata) -> bool {
        vstd::pervasive::arbitrary()
    }

    /// The calls this sink has received so far, oldest first. The default
    /// leaves the history unspecified; a verified implementation overrides
    /// it with the record its `log` and `flush` maintain.
    open spec fn events(&self) -> Seq<SinkEvent> {
        vstd::pervasive::arbitrary()
    }

    /// Whether the sink wants events with this metadata.
    fn enabled(&self, metadata: &Metadata) -> (r: bool)
        ensures
            r == self.accepts(metadata@),
    ;

    /// Deliver one record to the sink.
    fn log(&mut self, record: &Record)
        ensures
            final(self).events() == old(self).events().push(SinkEvent::Logged(record@)),
    ;

    /// Ask the sink to flush whatever it has buffered.
    fn flush(&mut self)
        ensures
            final(self).events() == old(self).events().push(SinkEvent::Flushed),
    ;
}

} // verus!
