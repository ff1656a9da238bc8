use std::collections::HashMap;
use vstd::prelude::*;
use vstd::string::StringExecFns;
use crate::event::{Config, Event, Level, StackFrame};
use crate::json::{batch_encodes, batch_json, encode_batch, encode_event, encodes, encodes_all};
use crate::queue::EventQueue;

verus! {

/// Frames of the capture machinery left out of an error's stack trace.
pub const SKIPPED_FRAMES: usize = 3;

/// Relies on chrono's `Utc::now` and `DateTime::to_rfc3339`: the current UTC
/// time as RFC 3339 text. Nothing is promised of which time it is.
#[verifier::external_body]
fn now_rfc3339() -> (r: String) {
    chrono::Utc::now().to_rfc3339()
}

/// Relies on `backtrace::Backtrace::new` and the symbols of its frames: the
/// current call stack, one list of symbols for each frame, starting at this
/// call; each symbol gives its file, line and name where known.
#[verifier::external_body]
fn raw_frames() -> (r: Vec<Vec<StackFrame>>) {
    let bt = backtrace::Backtrace::new();
    bt.frames().iter().map(|frame| {
        frame.symbols().iter().map(|s| StackFrame {
            file: s.filename().map(|p| p.to_string_lossy().to_string()),
            line: s.lineno(),
            function: s.name().map(|n| n.to_string()),
        }).collect()
    }).collect()
}

/// The symbols of all frames, in order, one after the other.
pub open spec fn flat(frames: Seq<Vec<StackFrame>>) -> Seq<StackFrame>
    decreases frames.len(),
{
    if frames.len() == 0 {
        Seq::empty()
    } else {
        frames[0]@ + flat(frames.drop_first())
    }
}

/// `s` without its first `n` items; empty when it has fewer.
pub open spec fn after<T>(s: Seq<T>, n: nat) -> Seq<T> {
    if n <= s.len() {
        s.skip(n as int)
    } else {
        Seq::empty()
    }
}

/// Leaves out the first `skip` frames and lists the symbols of the rest.
pub fn flatten_frames(raw: Vec<Vec<StackFrame>>, skip: usize) -> (r: Vec<StackFrame>)
    ensures
        r@ == flat(after(raw@, skip as nat)),
{
    let mut raw = raw;
    let ghost whole = flat(after(raw@, skip as nat));
    let mut out: Vec<StackFrame> = Vec::new();
    if raw.len() < skip {
        return out;
    }
    while raw.len() > skip
        invariant
            skip <= raw.len(),
            out@ + flat(raw@.skip(skip as int)) == whole,
        decreases raw.len(),
    {
        let ghost rest = raw@.skip(skip as int);
        let mut inner = raw.remove(skip);
        assert(raw@.skip(skip as int) =~= rest.drop_first());
        out.append(&mut inner);
        assert(flat(rest) == rest[0]@ + flat(rest.drop_first()));
        assert(out@ + flat(raw@.skip(skip as int)) =~= whole);
    }
    assert(raw@.skip(skip as int) =~= Seq::<Vec<StackFrame>>::empty());
    assert(out@ =~= whole);
    out
}

/// The caller's stack trace: the current stack without the frames of the
/// capture machinery.
pub fn capture_backtrace() -> (r: Vec<StackFrame>)
    ensures
        exists|raw: Seq<Vec<StackFrame>>| r@ == #[trigger] flat(after(raw, SKIPPED_FRAMES as nat)),
{
    let raw = raw_frames();
    let ghost g = raw@;
    let r = flatten_frames(raw, SKIPPED_FRAMES);
    assert(r@ == flat(after(g, SKIPPED_FRAMES as nat)));
    r
}

/// One outgoing HTTP POST.
pub struct Request {
    pub url: String,
    /// Header names and values, in order.
    pub headers: Vec<(String, String)>,
    pub body: String,
}

pub open spec fn single_url(endpoint: Seq<char>) -> Seq<char> {
    endpoint + "/api/v1/events"@
}

pub open spec fn batch_url(endpoint: Seq<char>) -> Seq<char> {
    endpoint + "/api/v1/events/batch"@
}

pub open spec fn header_views(h: Seq<(String, String)>) -> Seq<(Seq<char>, Seq<char>)> {
    h.map_values(|p: (String, String)| (p.0@, p.1@))
}

/// The request that sends the non-empty `events` under `config`: one event to
/// the single path with its object as body, more to the batch path with the
/// `events` array in order.
pub open spec fn request_for(config: Config, events: Seq<Event>, r: Request) -> bool {
    &&& header_views(r.headers@) == seq![
        ("Content-Type"@, "application/json"@),
        ("X-PulseKit-Key"@, config.api_key@),
    ]
    &&& if events.len() == 1 {
        r.url@ == single_url(config.endpoint@) && encodes(events[0], r.body@)
    } else {
        r.url@ == batch_url(config.endpoint@) && batch_encodes(events, r.body@)
    }
}

/// `e` enriched at `timestamp`: the timestamp replaced, environment and
/// release taken from `config` where the event has none, level `Info` where
/// it has none, everything else kept.
pub open spec fn enriched(e: Event, timestamp: String, config: Config) -> Event {
    Event {
        timestamp: Some(timestamp),
        environment: if e.environment.is_some() { e.environment } else { config.environment },
        release: if e.release.is_some() { e.release } else { config.release },
        level: Some(
            match e.level {
                Some(l) => l,
                None => Level::Info,
            },
        ),
        ..e
    }
}

fn clone_opt(s: &Option<String>) -> (r: Option<String>)
    ensures
        r == *s,
{
    match s {
        Some(t) => Some(t.clone()),
        None => None,
    }
}

/// Fills in what the client adds to every event it captures.
pub fn enrich(event: Event, timestamp: String, config: &Config) -> (r: Event)
    ensures
        r == enriched(event, timestamp, *config),
{
    let mut e = event;
    e.timestamp = Some(timestamp);
    if e.environment.is_none() {
        e.environment = clone_opt(&config.environment);
    }
    if e.release.is_none() {
        e.release = clone_opt(&config.release);
    }
    if e.level.is_none() {
        e.level = Some(Level::Info);
    }
    e
}

/// A telemetry client: its settings and the events that wait to be sent.
/// Sending is left to the caller, who performs each request handed back.
pub struct PulseKit {
    config: Config,
    queue: EventQueue,
}

/// The state after capturing `event` at `timestamp`, with `r` the request
/// that the capture hands back.
pub open spec fn captured(
    before: PulseKit,
    event: Event,
    timestamp: String,
    after: PulseKit,
    r: Option<Request>,
) -> bool {
    let queued = before.pending().push(enriched(event, timestamp, before.config()));
    &&& after.config() == before.config()
    &&& if queued.len() >= before.config().batch_size {
        &&& after.pending() == Seq::<Event>::empty()
        &&& r.is_some()
        &&& request_for(before.config(), queued, r.unwrap())
    } else {
        after.pending() == queued && r.is_none()
    }
}

/// The state after a flush of `before`, with `r` the request handed back.
pub open spec fn flushed(before: PulseKit, after: PulseKit, r: Option<Request>) -> bool {
    &&& after.config() == before.config()
    &&& after.pending() == Seq::<Event>::empty()
    &&& if before.pending().len() == 0 {
        r.is_none()
    } else {
        r.is_some() && request_for(before.config(), before.pending(), r.unwrap())
    }
}

/// An error event for `message` with the given options and some stack trace.
pub open spec fn error_event(
    e: Event,
    message: Seq<char>,
    tags: Option<HashMap<String, String>>,
    metadata: Option<HashMap<String, serde_json::Value>>,
) -> bool {
    &&& e.event_type@ == "error"@
    &&& e.level == Some(Level::Error)
    &&& e.message.is_some() && e.message.unwrap()@ == message
    &&& e.stacktrace.is_some()
    &&& e.tags == tags
    &&& e.metadata == metadata
    &&& e.timestamp.is_none() && e.fingerprint.is_none()
    &&& e.environment.is_none() && e.release.is_none()
}

/// A message event for `message` at `level` with the given options.
pub open spec fn message_event(
    e: Event,
    message: Seq<char>,
    level: Level,
    tags: Option<HashMap<String, String>>,
    metadata: Option<HashMap<String, serde_json::Value>>,
) -> bool {
    &&& e.event_type@ == "message"@
    &&& e.level == Some(level)
    &&& e.message.is_some() && e.message.unwrap()@ == message
    &&& e.stacktrace.is_none()
    &&& e.tags == tags
    &&& e.metadata == metadata
    &&& e.timestamp.is_none() && e.fingerprint.is_none()
    &&& e.environment.is_none() && e.release.is_none()
}

impl PulseKit {
    pub closed spec fn config(&self) -> Config {
        self.config
    }

    /// The events waiting to be sent, oldest first.
    pub closed spec fn pending(&self) -> Seq<Event> {
        self.queue@
    }

    /// A client with nothing pending.
    pub fn new(config: Config) -> (r: PulseKit)
        ensures
            r.config() == config,
            r.pending() == Seq::<Event>::empty(),
    {
        PulseKit { config, queue: EventQueue::new() }
    }

    pub fn get_config(&self) -> (r: &Config)
        ensures
            *r == self.config(),
    {
        &self.config
    }

    /// The number of events waiting to be sent.
    pub fn queue_len(&self) -> (r: usize)
        ensures
            r == self.pending().len(),
    {
        self.queue.len()
    }

    /// The request that sends `events`.
    pub fn prepare_request(&self, events: &Vec<Event>) -> (r: Request)
        requires
            events.len() >= 1,
        ensures
            request_for(self.config(), events@, r),
    {
        let mut url = self.config.endpoint.clone();
        let body;
        if events.len() == 1 {
            url.append("/api/v1/events");
            body = encode_event(&events[0]);
        } else {
            url.append("/api/v1/events/batch");
            body = encode_batch(events);
        }
        let mut headers: Vec<(String, String)> = Vec::new();
        headers.push((String::from_str("Content-Type"), String::from_str("application/json")));
        headers.push((String::from_str("X-PulseKit-Key"), self.config.api_key.clone()));
        assert(header_views(headers@) =~= seq![
            ("Content-Type"@, "application/json"@),
            ("X-PulseKit-Key"@, self.config.api_key@),
        ]);
        Request { url, headers, body }
    }

    /// Captures `event` as if at `timestamp`: enriches it, queues it, and once
    /// the queue reaches the batch size drains it whole into one request.
    pub fn capture_at(&mut self, event: Event, timestamp: String) -> (r: Option<Request>)
        ensures
            captured(*old(self), event, timestamp, *final(self), r),
    {
        let e = enrich(event, timestamp, &self.config);
        let n = self.queue.push(e);
        if n >= self.config.batch_size {
            let batch = self.queue.drain_all();
            Some(self.prepare_request(&batch))
        } else {
            None
        }
    }

    /// Captures `event` at the current time; see `capture_at`.
    pub fn capture(&mut self, event: Event) -> (r: Option<Request>)
        ensures
            exists|timestamp: String| #[trigger] captured(*old(self), event, timestamp, *final(self), r),
    {
        let timestamp = now_rfc3339();
        let ghost t = timestamp;
        let r = self.capture_at(event, timestamp);
        assert(captured(*old(self), event, t, *self, r));
        r
    }

    /// Captures a message at the given level.
    pub fn capture_message(&mut self, message: &str, level: Level) -> (r: Option<Request>)
        ensures
            exists|e: Event, timestamp: String|
                message_event(e, message@, level, None, None) && #[trigger] captured(
                    *old(self),
                    e,
                    timestamp,
                    *final(self),
                    r,
                ),
    {
        self.capture_message_with_options(message, level, None, None)
    }

    /// Captures a message at the given level, with tags and metadata.
    pub fn capture_message_with_options(
        &mut self,
        message: &str,
        level: Level,
        tags: Option<HashMap<String, String>>,
        metadata: Option<HashMap<String, serde_json::Value>>,
    ) -> (r: Option<Request>)
        ensures
            exists|e: Event, timestamp: String|
                message_event(e, message@, level, tags, metadata) && #[trigger] captured(
                    *old(self),
                    e,
                    timestamp,
                    *final(self),
                    r,
                ),
    {
        let mut e = Event::with_type("message");
        e.level = Some(level);
        e.message = Some(message.to_string());
        e.tags = tags;
        e.metadata = metadata;
        let ghost g = e;
        let timestamp = now_rfc3339();
        let ghost t = timestamp;
        let r = self.capture_at(e, timestamp);
        assert(message_event(g, message@, level, tags, metadata));
        assert(captured(*old(self), g, t, *self, r));
        r
    }

    /// Captures an error with the caller's stack trace.
    pub fn capture_error(&mut self, message: &str) -> (r: Option<Request>)
        ensures
            exists|e: Event, timestamp: String|
                error_event(e, message@, None, None) && #[trigger] captured(
                    *old(self),
                    e,
                    timestamp,
                    *final(self),
                    r,
                ),
    {
        self.capture_error_with_options(message, None, None)
    }

    /// Captures an error with the caller's stack trace, tags and metadata.
    pub fn capture_error_with_options(
        &mut self,
        message: &str,
        tags: Option<HashMap<String, String>>,
        metadata: Option<HashMap<String, serde_json::Value>>,
    ) -> (r: Option<Request>)
        ensures
            exists|e: Event, timestamp: String|
                error_event(e, message@, tags, metadata) && #[trigger] captured(
                    *old(self),
                    e,
                    timestamp,
                    *final(self),
                    r,
                ),
    {
        let stacktrace = capture_backtrace();
        let mut e = Event::with_type("error");
        e.level = Some(Level::Error);
        e.message = Some(message.to_string());
        e.stacktrace = Some(stacktrace);
        e.tags = tags;
        e.metadata = metadata;
        let ghost g = e;
        let timestamp = now_rfc3339();
        let ghost t = timestamp;
        let r = self.capture_at(e, timestamp);
        assert(error_event(g, message@, tags, metadata));
        assert(captured(*old(self), g, t, *self, r));
        r
    }

    fn drain_request(&mut self) -> (r: Option<Request>)
        ensures
            flushed(*old(self), *final(self), r),
    {
        let events = self.queue.drain_all();
        if events.len() == 0 {
            None
        } else {
            Some(self.prepare_request(&events))
        }
    }

    /// Drains the queue into the request that the caller sends and awaits;
    /// nothing to send when the queue is empty.
    pub fn flush(&mut self) -> (r: Option<Request>)
        ensures
            flushed(*old(self), *final(self), r),
    {
        self.drain_request()
    }

    /// Drains the queue into the request that the caller sends, blocking;
    /// nothing to send when the queue is empty.
    pub fn flush_blocking(&mut self) -> (r: Option<Request>)
        ensures
            flushed(*old(self), *final(self), r),
    {
        self.drain_request()
    }
}

/// A capture stamps the event with the capture time, whatever timestamp the
/// caller had set.
pub proof fn lemma_capture_time_wins(event: Event, timestamp: String, config: Config)
    ensures
        enriched(event, timestamp, config).timestamp == Some(timestamp),
{
}

/// Environment and release come from the settings exactly where the event
/// has none; a value the caller set is kept unchanged.
pub proof fn lemma_settings_fill_gaps(event: Event, timestamp: String, config: Config)
    ensures
        event.environment.is_none() ==> enriched(event, timestamp, config).environment
            == config.environment,
        event.environment.is_some() ==> enriched(event, timestamp, config).environment
            == event.environment,
        event.release.is_none() ==> enriched(event, timestamp, config).release == config.release,
        event.release.is_some() ==> enriched(event, timestamp, config).release == event.release,
{
}

/// Below the batch size a capture only queues; the capture that reaches it
/// hands back one request carrying every queued event in order, and leaves the
/// queue empty.
pub proof fn lemma_batch_threshold(
    before: PulseKit,
    event: Event,
    timestamp: String,
    after: PulseKit,
    r: Option<Request>,
)
    requires
        captured(before, event, timestamp, after, r),
    ensures
        before.pending().len() + 1 < before.config().batch_size ==> r.is_none()
            && after.pending().len() > 0,
        before.pending().len() + 1 == before.config().batch_size ==> r.is_some()
            && after.pending().len() == 0 && request_for(
            before.config(),
            before.pending().push(enriched(event, timestamp, before.config())),
            r.unwrap(),
        ),
{
}

/// Flushing an empty queue sends nothing.
pub proof fn lemma_empty_flush(before: PulseKit, after: PulseKit, r: Option<Request>)
    requires
        flushed(before, after, r),
        before.pending().len() == 0,
    ensures
        r.is_none(),
        after.pending().len() == 0,
{
}

/// One event goes to the single path with its own object as body; two or more
/// go to the batch path with the `events` array in push order.
pub proof fn lemma_request_shape(config: Config, events: Seq<Event>, r: Request)
    requires
        request_for(config, events, r),
        events.len() >= 1,
    ensures
        events.len() == 1 ==> r.url@ == single_url(config.endpoint@) && encodes(events[0], r.body@),
        events.len() >= 2 ==> r.url@ == batch_url(config.endpoint@) && exists|texts: Seq<Seq<char>>|
            encodes_all(events, texts) && r.body@ == #[trigger] batch_json(texts),
{
}

} // verus!
