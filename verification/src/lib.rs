//! A logging fan-out facade: an application registers several independent log
//! sinks behind one dispatcher, and every log event is forwarded to every sink
//! that accepts it. The dispatcher is built fluently, implements the same
//! enabled/log/flush capability contract as the sinks it aggregates, and is
//! installed at most once into a process-wide registration slot.

mod dispatcher;
mod level;
mod record;
mod registry;
mod sink;

pub use dispatcher::flush_trace;
pub use dispatcher::lemma_flush_trace_each_once;
pub use dispatcher::lemma_log_trace_complete;
pub use dispatcher::lemma_log_trace_ordered;
pub use dispatcher::log_trace;
pub use dispatcher::CompositeLogger;
pub use level::filter_admits;
pub use level::filter_rank;
pub use level::level_rank;
pub use level::Level;
pub use level::LevelFilter;
pub use record::Metadata;
pub use record::Record;
pub use record::SinkEvent;
pub use record::SpecMetadata;
pub use record::SpecRecord;
pub use registry::AlreadyInitializedError;
pub use registry::GlobalSlot;
pub use sink::Sink;
