//! Log events and their mathematical views.
//!
//! `Metadata` carries the attributes of a prospective event (severity and
//! target) that sinks use for their filtering decision; it never holds the
//! payload. `Record` is a realized event: metadata plus the message payload
//! and optional structured key/value fields. `SpecMetadata` and `SpecRecord`
//! are their views, and `SinkEvent` is the ghost record of one call a sink
//! has received, used to state which sinks a dispatched event reached.

use vstd::prelude::*;

use crate::level::Level;

verus! {

/// Attributes of a prospective log event, used only for filtering.
pub struct Metadata {
    /// Severity of the prospective event.
    pub level: Level,
    /// Module or component that would emit the event.
    pub target: String,
}

/// View of `Metadata`: the severity and the target as a character sequence.
pub struct SpecMetadata {
    pub level: Level,
    pub target: Seq<char>,
}

impl View for Metadata {
    type V = SpecMetadata;

    open spec fn view(&self) -> SpecMetadata {
        SpecMetadata { level: self.level, target: self.target@ }
    }
}

/// A realized log event: metadata, message payload, and optional structured
/// key/value fields (an empty sequence when none are attached).
pub struct Record {
    /// Attributes the event is filtered on.
    pub metadata: Metadata,
    /// The message payload.
    pub message: String,
    /// Structured key/value fields attached to the event.
    pub fields: Vec<(String, String)>,
}

/// View of `Record`: metadata view, message, and fields as sequences.
pub struct SpecRecord {
    pub metadata: SpecMetadata,
    pub message: Seq<char>,
    pub fields: Seq<(Seq<char>, Seq<char>)>,
}

impl View for Record {
    type V = SpecRecord;

    open spec fn view(&self) -> SpecRecord {
        SpecRecord {
            metadata: self.metadata@,
            message: self.message@,
            fields: self.fields@.map_values(|f: (String, String)| (f.0@, f.1@)),
        }
    }
}

/// One call a sink has received: either a record delivered through `log`,
/// or one `flush`.
pub enum SinkEvent {
    /// The sink's `log` was invoked with a record of this view.
    Logged(SpecRecord),
    /// The sink's `flush` was invoked.
    Flushed,
}

} // verus!
