use std::collections::HashMap;
use vstd::prelude::*;

verus! {

/// Declares `serde_json::Value` so that event metadata can carry it; the
/// library never looks inside such a value.
#[verifier::external_type_specification]
#[verifier::external_body]
pub struct ExJsonValue(serde_json::Value);

/// Event severity level.
#[derive(Debug, Clone, Copy, PartialEq, Eq, Structural)]
pub enum Level {
    Debug,
    Info,
    Warning,
    Error,
    Fatal,
}

impl Default for Level {
    fn default() -> (r: Level)
        ensures
            r == Level::Info,
    {
        Level::Info
    }
}

/// One frame of a captured call stack; every part may be unknown.
#[derive(Debug, Clone)]
pub struct StackFrame {
    pub file: Option<String>,
    pub line: Option<u32>,
    pub function: Option<String>,
}

/// One telemetry record.
#[derive(Debug, Clone)]
pub struct Event {
    /// Event type identifier (e.g. "error", "payment.success"), sent as `type`.
    pub event_type: String,
    pub level: Option<Level>,
    pub message: Option<String>,
    /// Additional structured data.
    pub metadata: Option<HashMap<String, serde_json::Value>>,
    pub stacktrace: Option<Vec<StackFrame>>,
    /// Low-cardinality labels for filtering.
    pub tags: Option<HashMap<String, String>>,
    /// RFC 3339 time of capture; set by the client, whatever the caller gave.
    pub timestamp: Option<String>,
    /// Client-suggested grouping key.
    pub fingerprint: Option<String>,
    pub environment: Option<String>,
    pub release: Option<String>,
}

/// An event with only its type set.
pub open spec fn is_bare_event(e: Event, event_type: Seq<char>) -> bool {
    &&& e.event_type@ == event_type
    &&& e.level.is_none()
    &&& e.message.is_none()
    &&& e.metadata.is_none()
    &&& e.stacktrace.is_none()
    &&& e.tags.is_none()
    &&& e.timestamp.is_none()
    &&& e.fingerprint.is_none()
    &&& e.environment.is_none()
    &&& e.release.is_none()
}

impl Event {
    /// An event of the given type with every optional field absent.
    pub fn with_type(event_type: &str) -> (r: Event)
        ensures
            is_bare_event(r, event_type@),
    {
        Event {
            event_type: event_type.to_string(),
            level: None,
            message: None,
            metadata: None,
            stacktrace: None,
            tags: None,
            timestamp: None,
            fingerprint: None,
            environment: None,
            release: None,
        }
    }
}

impl Default for Event {
    fn default() -> (r: Event)
        ensures
            is_bare_event(r, Seq::empty()),
    {
        let mut e = Event::with_type("");
        e.event_type = String::new();
        e
    }
}

/// Settings of one client, fixed once it is made.
#[derive(Debug, Clone)]
pub struct Config {
    /// Server base URL; not validated.
    pub endpoint: String,
    /// Project key, sent with every request.
    pub api_key: String,
    pub environment: Option<String>,
    pub release: Option<String>,
    /// Queue length at which captured events are sent.
    pub batch_size: usize,
    /// Local diagnostics only; never changes what is sent.
    pub debug: bool,
}

impl Default for Config {
    fn default() -> (r: Config)
        ensures
            r.endpoint@ == Seq::<char>::empty(),
            r.api_key@ == Seq::<char>::empty(),
            r.environment.is_some() && r.environment.unwrap()@ == "production"@,
            r.release.is_none(),
            r.batch_size == 10,
            !r.debug,
    {
        Config {
            endpoint: String::new(),
            api_key: String::new(),
            environment: Some("production".to_string()),
            release: None,
            batch_size: 10,
            debug: false,
        }
    }
}

} // verus!
