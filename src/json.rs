use std::collections::HashMap;
use vstd::prelude::*;
use crate::event::{is_bare_event, Event, Level, StackFrame};
use vstd::string::StringExecFns;

verus! {

/// The JSON string literal (quotes and escapes included) that encodes `s`.
pub uninterp spec fn json_quoted(s: Seq<char>) -> Seq<char>;

/// Relies on `serde_json::to_string` on a `str`: it writes the JSON string
/// literal of its argument, and a `str` never makes it fail.
#[verifier::external_body]
fn quote(s: &str) -> (r: String)
    ensures
        r@ == json_quoted(s@),
{
    serde_json::to_string(s).unwrap_or_default()
}

/// Relies on `serde_json::to_string` on a string map: it writes one JSON
/// object, whose member order follows the map's walk and is not fixed.
#[verifier::external_body]
fn tags_text(tags: &HashMap<String, String>) -> (r: String) {
    serde_json::to_string(tags).unwrap_or_default()
}

/// Relies on `serde_json::to_string` on a map of JSON values: it writes one
/// JSON object, whose member order follows the map's walk and is not fixed.
#[verifier::external_body]
fn metadata_text(metadata: &HashMap<String, serde_json::Value>) -> (r: String) {
    serde_json::to_string(metadata).unwrap_or_default()
}

/// Items separated by commas.
pub open spec fn join(items: Seq<Seq<char>>) -> Seq<char>
    decreases items.len(),
{
    if items.len() == 0 {
        Seq::empty()
    } else if items.len() == 1 {
        items[0]
    } else {
        join(items.drop_last()) + ","@ + items.last()
    }
}

pub open spec fn views(items: Seq<String>) -> Seq<Seq<char>> {
    items.map_values(|s: String| s@)
}

pub open spec fn object(members: Seq<Seq<char>>) -> Seq<char> {
    "{"@ + join(members) + "}"@
}

pub open spec fn array(items: Seq<Seq<char>>) -> Seq<char> {
    "["@ + join(items) + "]"@
}

/// `"key":value`; keys are plain ASCII names that need no escape.
pub open spec fn member(key: Seq<char>, value: Seq<char>) -> Seq<char> {
    "\""@ + key + "\":"@ + value
}

pub open spec fn digit_text(d: nat) -> Seq<char> {
    if d == 0 { "0"@ } else if d == 1 { "1"@ } else if d == 2 { "2"@ } else if d == 3 { "3"@ }
    else if d == 4 { "4"@ } else if d == 5 { "5"@ } else if d == 6 { "6"@ } else if d == 7 { "7"@ }
    else if d == 8 { "8"@ } else { "9"@ }
}

/// Decimal digits of `n`, without leading zeros.
pub open spec fn decimal(n: nat) -> Seq<char>
    decreases n,
{
    if n < 10 {
        digit_text(n)
    } else {
        decimal(n / 10) + digit_text(n % 10)
    }
}

fn digit(d: u32) -> (r: &'static str)
    requires
        d < 10,
    ensures
        r@ == digit_text(d as nat),
{
    match d {
        0 => "0",
        1 => "1",
        2 => "2",
        3 => "3",
        4 => "4",
        5 => "5",
        6 => "6",
        7 => "7",
        8 => "8",
        _ => "9",
    }
}

fn push_decimal(out: &mut String, n: u32)
    ensures
        final(out)@ == old(out)@ + decimal(n as nat),
    decreases n,
{
    if n >= 10 {
        push_decimal(out, n / 10);
    }
    out.append(digit(n % 10));
    assert(final(out)@ =~= old(out)@ + decimal(n as nat));
}

/// Appends the items of `items` separated by commas.
fn push_joined(out: &mut String, items: &Vec<String>)
    ensures
        final(out)@ == old(out)@ + join(views(items@)),
{
    let ghost start = out@;
    let mut i: usize = 0;
    while i < items.len()
        invariant
            i <= items.len(),
            out@ == start + join(views(items@.subrange(0, i as int))),
        decreases items.len() - i,
    {
        let ghost prev = views(items@.subrange(0, i as int));
        let ghost next = views(items@.subrange(0, i + 1));
        assert(next.drop_last() =~= prev);
        assert(next.last() == items@[i as int]@);
        if i > 0 {
            out.append(",");
        }
        out.append(items[i].as_str());
        i += 1;
        proof {
            if i == 1 {
                assert(prev =~= Seq::empty());
                assert(out@ =~= start + join(next));
            } else {
                assert(out@ =~= start + join(next));
            }
        }
    }
    assert(items@.subrange(0, items.len() as int) =~= items@);
}

pub open spec fn level_name(l: Level) -> Seq<char> {
    match l {
        Level::Debug => "debug"@,
        Level::Info => "info"@,
        Level::Warning => "warning"@,
        Level::Error => "error"@,
        Level::Fatal => "fatal"@,
    }
}

/// A member for a present value, nothing for an absent one.
pub open spec fn opt_member(key: Seq<char>, value: Option<Seq<char>>) -> Seq<Seq<char>> {
    match value {
        Some(v) => seq![member(key, v)],
        None => Seq::empty(),
    }
}

pub open spec fn quoted_opt(s: Option<String>) -> Option<Seq<char>> {
    match s {
        Some(t) => Some(json_quoted(t@)),
        None => None,
    }
}

pub open spec fn frame_json(f: StackFrame) -> Seq<char> {
    object(
        opt_member("file"@, quoted_opt(f.file)) + opt_member(
            "line"@,
            match f.line {
                Some(n) => Some(decimal(n as nat)),
                None => None,
            },
        ) + opt_member("function"@, quoted_opt(f.function)),
    )
}

pub open spec fn frames_json(frames: Seq<StackFrame>) -> Seq<char> {
    array(frames.map_values(|f: StackFrame| frame_json(f)))
}

/// The members of an event's JSON object, absent fields left out; `tags` and
/// `metadata` are the JSON texts of those maps.
pub open spec fn event_members(e: Event, tags: Seq<char>, metadata: Seq<char>) -> Seq<Seq<char>> {
    seq![member("type"@, json_quoted(e.event_type@))]
        + opt_member(
            "level"@,
            match e.level {
                Some(l) => Some("\""@ + level_name(l) + "\""@),
                None => None,
            },
        ) + opt_member("message"@, quoted_opt(e.message))
        + opt_member("metadata"@, if e.metadata.is_some() { Some(metadata) } else { None })
        + opt_member(
            "stacktrace"@,
            match e.stacktrace {
                Some(f) => Some(frames_json(f@)),
                None => None,
            },
        ) + opt_member("tags"@, if e.tags.is_some() { Some(tags) } else { None })
        + opt_member("timestamp"@, quoted_opt(e.timestamp))
        + opt_member("fingerprint"@, quoted_opt(e.fingerprint))
        + opt_member("environment"@, quoted_opt(e.environment))
        + opt_member("release"@, quoted_opt(e.release))
}

pub open spec fn event_json(e: Event, tags: Seq<char>, metadata: Seq<char>) -> Seq<char> {
    object(event_members(e, tags, metadata))
}

/// `text` is the JSON object of `e` for some texts of its two maps.
pub open spec fn encodes(e: Event, text: Seq<char>) -> bool {
    exists|tags: Seq<char>, metadata: Seq<char>| text == #[trigger] event_json(e, tags, metadata)
}

pub open spec fn encodes_all(events: Seq<Event>, texts: Seq<Seq<char>>) -> bool {
    &&& texts.len() == events.len()
    &&& forall|i: int| 0 <= i < events.len() ==> #[trigger] encodes(events[i], texts[i])
}

/// `{"events":[...]}` around the given event objects.
pub open spec fn batch_json(items: Seq<Seq<char>>) -> Seq<char> {
    object(seq![member("events"@, array(items))])
}

/// `text` is a batch body holding the JSON objects of `events`, in order.
pub open spec fn batch_encodes(events: Seq<Event>, text: Seq<char>) -> bool {
    exists|texts: Seq<Seq<char>>| encodes_all(events, texts) && text == #[trigger] batch_json(texts)
}

fn push_member(members: &mut Vec<String>, key: &str, value: &str)
    ensures
        views(final(members)@) == views(old(members)@).push(member(key@, value@)),
{
    let mut m = String::from_str("\"");
    m.append(key);
    m.append("\":");
    m.append(value);
    members.push(m);
    assert(views(final(members)@) =~= views(old(members)@).push(member(key@, value@)));
}

fn push_opt_quoted(members: &mut Vec<String>, key: &str, value: &Option<String>)
    ensures
        views(final(members)@) == views(old(members)@) + opt_member(key@, quoted_opt(*value)),
{
    match value {
        Some(s) => {
            let q = quote(s.as_str());
            push_member(members, key, q.as_str());
            assert(seq![member(key@, q@)] == opt_member(key@, quoted_opt(*value)));
        },
        None => {
            assert(views(members@) + opt_member(key@, quoted_opt(*value)) =~= views(members@));
        },
    }
}

fn push_opt_text(members: &mut Vec<String>, key: &str, present: bool, text: &str)
    ensures
        views(final(members)@) == views(old(members)@) + opt_member(
            key@,
            if present { Some(text@) } else { None },
        ),
{
    if present {
        push_member(members, key, text);
        assert(views(members@) =~= views(old(members)@) + opt_member(key@, Some(text@)));
    } else {
        assert(views(members@) + opt_member(key@, None) =~= views(members@));
    }
}

/// Wraps the members in braces.
fn close_object(members: &Vec<String>) -> (r: String)
    ensures
        r@ == object(views(members@)),
{
    let mut out = String::from_str("{");
    push_joined(&mut out, members);
    out.append("}");
    out
}

/// Wraps the items in brackets.
fn close_array(items: &Vec<String>) -> (r: String)
    ensures
        r@ == array(views(items@)),
{
    let mut out = String::from_str("[");
    push_joined(&mut out, items);
    out.append("]");
    out
}

/// The JSON object of one stack frame, unknown parts left out.
pub fn encode_frame(f: &StackFrame) -> (r: String)
    ensures
        r@ == frame_json(*f),
{
    let mut members: Vec<String> = Vec::new();
    assert(views(members@) =~= Seq::empty());
    push_opt_quoted(&mut members, "file", &f.file);
    let ghost after_file = views(members@);
    match f.line {
        Some(n) => {
            let mut d = String::new();
            push_decimal(&mut d, n);
            assert(d@ =~= decimal(n as nat));
            push_member(&mut members, "line", d.as_str());
        },
        None => {},
    }
    assert(views(members@) =~= after_file + opt_member(
        "line"@,
        match f.line {
            Some(n) => Some(decimal(n as nat)),
            None => None,
        },
    ));
    push_opt_quoted(&mut members, "function", &f.function);
    let r = close_object(&members);
    assert(views(members@) =~= opt_member("file"@, quoted_opt(f.file)) + opt_member(
        "line"@,
        match f.line {
            Some(n) => Some(decimal(n as nat)),
            None => None,
        },
    ) + opt_member("function"@, quoted_opt(f.function)));
    r
}

/// The JSON array of the frames, in order.
pub fn encode_frames(frames: &Vec<StackFrame>) -> (r: String)
    ensures
        r@ == frames_json(frames@),
{
    let mut items: Vec<String> = Vec::new();
    let mut i: usize = 0;
    while i < frames.len()
        invariant
            i <= frames.len(),
            views(items@) =~= frames@.subrange(0, i as int).map_values(|f: StackFrame| frame_json(f)),
        decreases frames.len() - i,
    {
        let item = encode_frame(&frames[i]);
        let ghost before = items@;
        items.push(item);
        assert(views(items@) =~= views(before).push(frame_json(frames@[i as int])));
        assert(frames@.subrange(0, i + 1).map_values(|f: StackFrame| frame_json(f)) =~= frames@.subrange(
            0,
            i as int,
        ).map_values(|f: StackFrame| frame_json(f)).push(frame_json(frames@[i as int])));
        i += 1;
    }
    assert(frames@.subrange(0, frames.len() as int) =~= frames@);
    close_array(&items)
}

/// The JSON object of an event, absent fields left out, given the JSON texts
/// of its tags and metadata maps.
pub fn encode_event_with(e: &Event, tags: &str, metadata: &str) -> (r: String)
    ensures
        r@ == event_json(*e, tags@, metadata@),
{
    let mut members: Vec<String> = Vec::new();
    let q = quote(e.event_type.as_str());
    push_member(&mut members, "type", q.as_str());
    let ghost m0 = views(members@);
    match e.level {
        Some(l) => {
            let mut v = String::from_str("\"");
            v.append(level_str(l));
            v.append("\"");
            push_member(&mut members, "level", v.as_str());
        },
        None => {},
    }
    let ghost m1 = views(members@);
    assert(m1 =~= m0 + opt_member(
        "level"@,
        match e.level {
            Some(l) => Some("\""@ + level_name(l) + "\""@),
            None => None,
        },
    ));
    push_opt_quoted(&mut members, "message", &e.message);
    push_opt_text(&mut members, "metadata", e.metadata.is_some(), metadata);
    let ghost m2 = views(members@);
    match &e.stacktrace {
        Some(frames) => {
            let v = encode_frames(frames);
            push_member(&mut members, "stacktrace", v.as_str());
        },
        None => {},
    }
    let ghost m3 = views(members@);
    assert(m3 =~= m2 + opt_member(
        "stacktrace"@,
        match e.stacktrace {
            Some(f) => Some(frames_json(f@)),
            None => None,
        },
    ));
    push_opt_text(&mut members, "tags", e.tags.is_some(), tags);
    push_opt_quoted(&mut members, "timestamp", &e.timestamp);
    push_opt_quoted(&mut members, "fingerprint", &e.fingerprint);
    push_opt_quoted(&mut members, "environment", &e.environment);
    push_opt_quoted(&mut members, "release", &e.release);
    assert(views(members@) =~= event_members(*e, tags@, metadata@));
    close_object(&members)
}

fn level_str(l: Level) -> (r: &'static str)
    ensures
        r@ == level_name(l),
{
    match l {
        Level::Debug => "debug",
        Level::Info => "info",
        Level::Warning => "warning",
        Level::Error => "error",
        Level::Fatal => "fatal",
    }
}

/// The JSON object of an event; its tags and metadata maps are written by
/// serde_json, in the order in which their maps are walked.
pub fn encode_event(e: &Event) -> (r: String)
    ensures
        encodes(*e, r@),
{
    let tags = match &e.tags {
        Some(m) => tags_text(m),
        None => String::new(),
    };
    let metadata = match &e.metadata {
        Some(m) => metadata_text(m),
        None => String::new(),
    };
    let r = encode_event_with(e, tags.as_str(), metadata.as_str());
    assert(r@ == event_json(*e, tags@, metadata@));
    r
}

/// The batch body `{"events":[...]}` with the events' objects in order.
pub fn encode_batch(events: &Vec<Event>) -> (r: String)
    ensures
        batch_encodes(events@, r@),
{
    let mut items: Vec<String> = Vec::new();
    let mut i: usize = 0;
    while i < events.len()
        invariant
            i <= events.len(),
            encodes_all(events@.subrange(0, i as int), views(items@)),
        decreases events.len() - i,
    {
        let item = encode_event(&events[i]);
        let ghost before = items@;
        items.push(item);
        assert(views(items@) =~= views(before).push(item@));
        assert(events@.subrange(0, i + 1) =~= events@.subrange(0, i as int).push(events@[i as int]));
        i += 1;
    }
    assert(events@.subrange(0, events.len() as int) =~= events@);
    let arr = close_array(&items);
    let mut members: Vec<String> = Vec::new();
    push_member(&mut members, "events", arr.as_str());
    assert(views(members@) =~= seq![member("events"@, array(views(items@)))]);
    let r = close_object(&members);
    assert(r@ == batch_json(views(items@)));
    assert(encodes_all(events@, views(items@)));
    r
}

/// An event with only its type set encodes as an object whose one member is
/// `type`: no other key appears, not even as null.
pub proof fn lemma_bare_event_json(e: Event, text: Seq<char>)
    requires
        is_bare_event(e, e.event_type@),
        encodes(e, text),
    ensures
        text == object(seq![member("type"@, json_quoted(e.event_type@))]),
{
    let (tags, metadata) = choose|tags: Seq<char>, metadata: Seq<char>|
        text == #[trigger] event_json(e, tags, metadata);
    assert(event_members(e, tags, metadata) =~= seq![member("type"@, json_quoted(e.event_type@))]);
}

} // verus!
