use std::cell::RefCell;
use std::rc::Rc;

use composite_logger::CompositeLogger;
use composite_logger::Level;
use composite_logger::Metadata;
use composite_logger::Record;
use composite_logger::Sink;

/// Shared journal of sink invocations: `(sink id, message)` for a delivered
/// record, in the order the dispatcher forwarded them.
type Journal = Rc<RefCell<Vec<(usize, String)>>>;

/// A sink that accepts every event at most as verbose as `max_verbosity`,
/// appends deliveries to a shared journal, and counts its flushes.
struct RecordingSink {
    id: usize,
    max_verbosity: Level,
    journal: Journal,
    flushes: Rc<RefCell<usize>>,
}

impl RecordingSink {
    fn new(id: usize, max_verbosity: Level, journal: &Journal) -> (RecordingSink, Rc<RefCell<usize>>) {
        let flushes = Rc::new(RefCell::new(0));
        let sink = RecordingSink { id, max_verbosity, journal: Rc::clone(journal), flushes: Rc::clone(&flushes) };
        (sink, flushes)
    }
}

impl Sink for RecordingSink {
    fn enabled(&self, metadata: &Metadata) -> bool {
        metadata.level.severity() <= self.max_verbosity.severity()
    }

    fn log(&mut self, record: &Record) {
        self.journal.borrow_mut().push((self.id, record.message.clone()));
    }

    fn flush(&mut self) {
        *self.flushes.borrow_mut() += 1;
    }
}

fn metadata(level: Level) -> Metadata {
    Metadata { level, target: String::from("app::module") }
}

fn record(level: Level, message: &str) -> Record {
    Record { metadata: metadata(level), message: String::from(message), fields: Vec::new() }
}

#[test]
fn enabled_is_or_over_sinks() {
    let journal: Journal = Rc::new(RefCell::new(Vec::new()));
    let (a, _) = RecordingSink::new(0, Level::Warn, &journal);
    let (b, _) = RecordingSink::new(1, Level::Debug, &journal);
    let d = CompositeLogger::new().with_logger(a).with_logger(b);
    assert!(d.enabled(&metadata(Level::Error)));
    assert!(d.enabled(&metadata(Level::Info)));
    assert!(d.enabled(&metadata(Level::Debug)));
    assert!(!d.enabled(&metadata(Level::Trace)));

    let (only_warn, _) = RecordingSink::new(0, Level::Warn, &journal);
    let narrow = CompositeLogger::new().with_logger(only_warn);
    assert!(!narrow.enabled(&metadata(Level::Info)));
}

#[test]
fn zero_sinks_dispatcher_is_inert() {
    let d: CompositeLogger<RecordingSink> = CompositeLogger::new();
    assert!(!d.enabled(&metadata(Level::Error)));
    assert!(!d.enabled(&metadata(Level::Trace)));
    let mut d = d;
    d.log(&record(Level::Error, "dropped"));
    d.flush();
}

#[test]
fn default_dispatcher_is_empty() {
    let d: CompositeLogger<RecordingSink> = Default::default();
    assert!(!d.enabled(&metadata(Level::Error)));
    let mut d = d;
    d.log(&record(Level::Error, "dropped"));
    d.flush();
}

#[test]
fn log_reaches_exactly_the_accepting_sinks() {
    let journal: Journal = Rc::new(RefCell::new(Vec::new()));
    let (a, _) = RecordingSink::new(0, Level::Warn, &journal);
    let (b, _) = RecordingSink::new(1, Level::Debug, &journal);
    let mut d = CompositeLogger::new().with_logger(a).with_logger(b);

    d.log(&record(Level::Info, "info event"));
    assert_eq!(*journal.borrow(), vec![(1, String::from("info event"))]);

    d.log(&record(Level::Error, "error event"));
    assert_eq!(
        *journal.borrow(),
        vec![
            (1, String::from("info event")),
            (0, String::from("error event")),
            (1, String::from("error event")),
        ]
    );
}

#[test]
fn rejecting_sink_is_never_invoked() {
    let journal: Journal = Rc::new(RefCell::new(Vec::new()));
    let (a, _) = RecordingSink::new(0, Level::Error, &journal);
    let mut d = CompositeLogger::new().with_logger(a);
    d.log(&record(Level::Warn, "too verbose"));
    d.log(&record(Level::Trace, "much too verbose"));
    assert!(journal.borrow().is_empty());
}

#[test]
fn flush_reaches_every_sink_once_per_call() {
    let journal: Journal = Rc::new(RefCell::new(Vec::new()));
    let (a, a_flushes) = RecordingSink::new(0, Level::Error, &journal);
    let (b, b_flushes) = RecordingSink::new(1, Level::Trace, &journal);
    let mut d = CompositeLogger::new().with_logger(a).with_logger(b);

    d.flush();
    assert_eq!(*a_flushes.borrow(), 1);
    assert_eq!(*b_flushes.borrow(), 1);

    d.flush();
    assert_eq!(*a_flushes.borrow(), 2);
    assert_eq!(*b_flushes.borrow(), 2);
    assert!(journal.borrow().is_empty());
}

#[test]
fn dispatch_order_follows_insertion_order() {
    let journal: Journal = Rc::new(RefCell::new(Vec::new()));
    let mut d = CompositeLogger::new();
    for id in 0..5 {
        let (s, _) = RecordingSink::new(id, Level::Trace, &journal);
        d = d.with_logger(s);
    }
    d.log(&record(Level::Info, "fan out"));
    let seen: Vec<usize> = journal.borrow().iter().map(|e| e.0).collect();
    assert_eq!(seen, vec![0, 1, 2, 3, 4]);
}

#[test]
fn duplicate_sinks_each_get_their_own_dispatch() {
    let journal: Journal = Rc::new(RefCell::new(Vec::new()));
    let (a, _) = RecordingSink::new(7, Level::Info, &journal);
    let (twin, _) = RecordingSink::new(7, Level::Info, &journal);
    let mut d = CompositeLogger::new().with_logger(a).with_logger(twin);
    d.log(&record(Level::Info, "twice"));
    assert_eq!(
        *journal.borrow(),
        vec![(7, String::from("twice")), (7, String::from("twice"))]
    );
}

#[test]
fn warn_and_debug_sinks_scenario() {
    // Sink A accepts severity >= WARN, sink B accepts severity >= DEBUG.
    let journal: Journal = Rc::new(RefCell::new(Vec::new()));
    let (a, _) = RecordingSink::new(0, Level::Warn, &journal);
    let (b, _) = RecordingSink::new(1, Level::Debug, &journal);
    let mut d = CompositeLogger::new().with_logger(a).with_logger(b);

    // A record at INFO: enabled (B accepts); dispatched only to B.
    assert!(d.enabled(&metadata(Level::Info)));
    d.log(&record(Level::Info, "at info"));
    assert_eq!(*journal.borrow(), vec![(1, String::from("at info"))]);

    // A record at ERROR: enabled; dispatched to A then B, in that order.
    journal.borrow_mut().clear();
    assert!(d.enabled(&metadata(Level::Error)));
    d.log(&record(Level::Error, "at error"));
    assert_eq!(
        *journal.borrow(),
        vec![(0, String::from("at error")), (1, String::from("at error"))]
    );
}

/// A sink that keeps the structured fields of what it receives.
struct FieldSink {
    seen: Rc<RefCell<Vec<(String, String)>>>,
}

impl Sink for FieldSink {
    fn enabled(&self, _metadata: &Metadata) -> bool {
        true
    }

    fn log(&mut self, record: &Record) {
        self.seen.borrow_mut().extend(record.fields.iter().cloned());
    }

    fn flush(&mut self) {}
}

#[test]
fn record_fields_reach_the_sink() {
    let seen = Rc::new(RefCell::new(Vec::new()));
    let mut d = CompositeLogger::new().with_logger(FieldSink { seen: Rc::clone(&seen) });
    let rec = Record {
        metadata: metadata(Level::Info),
        message: String::from("with fields"),
        fields: vec![(String::from("user"), String::from("alice"))],
    };
    d.log(&rec);
    assert_eq!(*seen.borrow(), vec![(String::from("user"), String::from("alice"))]);
}
