//! Classification of rollout events and the incremental per-file event cache.
use vstd::prelude::*;
use crate::model::CodexStatus;
use crate::text::{chars_of, contains_at_any, has_infix, lines_from, lower, same_text, split_lines};

verus! {

/// A member of a JSON object as the classification rules read it.
#[derive(Clone, Debug, PartialEq)]
pub enum JsonField {
    /// The member is absent.
    Missing,
    /// The member holds a string.
    Text(String),
    /// The member is present but holds something other than a string.
    Other,
}

/// The `payload` object of a rollout line.
#[derive(Clone, Debug, PartialEq)]
pub struct EventPayload {
    /// The `type` member.
    pub kind: JsonField,
    /// The `name` member.
    pub name: JsonField,
    /// The `tool_name` member.
    pub tool_name: JsonField,
}

/// One JSON line of a rollout file, as far as the classification reads it.
#[derive(Clone, Debug, PartialEq)]
pub struct EventRecord {
    /// The `timestamp` member when it is a string.
    pub timestamp: Option<String>,
    /// The `payload` member; its members are `Missing` when it is not an object.
    pub payload: Option<EventPayload>,
}

/// A status together with the time (milliseconds since the epoch) it was reached.
#[derive(Clone, Copy, Debug, PartialEq, Eq, Structural)]
pub struct ReducedEvent {
    pub status: CodexStatus,
    pub at: i64,
}

/// The text of a string member, and the empty text otherwise.
pub open spec fn text_or_empty(f: JsonField) -> Seq<char> {
    match f {
        JsonField::Text(s) => s@,
        _ => Seq::empty(),
    }
}

/// The event kind: the `type` member.
pub open spec fn payload_kind(p: EventPayload) -> Seq<char> {
    text_or_empty(p.kind)
}

/// The tool of an event: the `name` member when present, else `tool_name`.
pub open spec fn payload_tool(p: EventPayload) -> Seq<char> {
    match p.name {
        JsonField::Missing => text_or_empty(p.tool_name),
        JsonField::Text(s) => s@,
        JsonField::Other => Seq::empty(),
    }
}

/// The kind and the tool joined by one space, in ASCII lower case.
pub open spec fn searchable(kind: Seq<char>, tool: Seq<char>) -> Seq<char> {
    lower(kind + seq![' '] + tool)
}

/// Whether an event asks the user for approval or input.
pub open spec fn asks_user(kind: Seq<char>, tool: Seq<char>) -> bool {
    has_infix(searchable(kind, tool), "approval"@) || has_infix(
        searchable(kind, tool),
        "request_user_input"@,
    )
}

/// The status that an event kind announces, if any.
pub open spec fn kind_status(kind: Seq<char>) -> Option<CodexStatus> {
    if kind == "task_started"@ || kind == "user_message"@ || kind == "reasoning"@ || kind
        == "function_call_output"@ || kind == "custom_tool_call_output"@ || kind
        == "patch_apply_end"@ {
        Some(CodexStatus::Thinking)
    } else if kind == "function_call"@ || kind == "custom_tool_call"@ || kind
        == "patch_apply_begin"@ {
        Some(CodexStatus::Executing)
    } else if kind == "task_complete"@ {
        Some(CodexStatus::Completed)
    } else if kind == "turn_aborted"@ || kind == "error"@ {
        Some(CodexStatus::Failed)
    } else {
        None
    }
}

/// The status that an event of this kind and tool announces, if any.
pub open spec fn event_status(kind: Seq<char>, tool: Seq<char>) -> Option<CodexStatus> {
    if asks_user(kind, tool) {
        Some(CodexStatus::WaitingApproval)
    } else {
        kind_status(kind)
    }
}

/// The status that a rollout line announces, if any.
pub open spec fn record_status(r: EventRecord) -> Option<CodexStatus> {
    match r.payload {
        None => None,
        Some(p) => event_status(payload_kind(p), payload_tool(p)),
    }
}

/// Milliseconds since the epoch of an RFC 3339 date-time text, when it parses.
pub uninterp spec fn rfc3339_epoch_millis(text: Seq<char>) -> Option<i64>;

/// The time a rollout line states for itself, when it states a parsable one.
pub open spec fn stated_time(r: EventRecord) -> Option<i64> {
    match r.timestamp {
        Some(t) => rfc3339_epoch_millis(t@),
        None => None,
    }
}

/// Calls `chrono::DateTime::parse_from_rfc3339` and converts a parsed value with
/// `timestamp_millis`. Claims only that the result is a function of the text.
#[verifier::external_body]
fn parse_rfc3339_millis(text: &str) -> (r: Option<i64>)
    ensures
        r == rfc3339_epoch_millis(text@),
{
    match chrono::DateTime::parse_from_rfc3339(text) {
        Ok(t) => Some(t.timestamp_millis()),
        Err(_) => None,
    }
}

fn text_of(f: &JsonField) -> (r: &str)
    ensures
        r@ == text_or_empty(*f),
{
    match f {
        JsonField::Text(s) => s.as_str(),
        _ => {
            proof {
                reveal_strlit("");
            }
            ""
        },
    }
}

fn tool_of(p: &EventPayload) -> (r: &str)
    ensures
        r@ == payload_tool(*p),
{
    match &p.name {
        JsonField::Missing => text_of(&p.tool_name),
        JsonField::Text(s) => s.as_str(),
        JsonField::Other => {
            proof {
                reveal_strlit("");
            }
            ""
        },
    }
}

fn status_of_kind(kind: &str) -> (r: Option<CodexStatus>)
    ensures
        r == kind_status(kind@),
{
    if same_text(kind, "task_started") || same_text(kind, "user_message") || same_text(
        kind,
        "reasoning",
    ) || same_text(kind, "function_call_output") || same_text(kind, "custom_tool_call_output")
        || same_text(kind, "patch_apply_end") {
        Some(CodexStatus::Thinking)
    } else if same_text(kind, "function_call") || same_text(kind, "custom_tool_call")
        || same_text(kind, "patch_apply_begin") {
        Some(CodexStatus::Executing)
    } else if same_text(kind, "task_complete") {
        Some(CodexStatus::Completed)
    } else if same_text(kind, "turn_aborted") || same_text(kind, "error") {
        Some(CodexStatus::Failed)
    } else {
        None
    }
}

/// The status that an event of this kind and tool announces: waiting for the user
/// when the lower-cased "kind tool" text mentions approval or a request for user
/// input, else the status of the kind, and none for kinds that announce nothing.
pub fn classify_event(kind: &str, tool: &str) -> (r: Option<CodexStatus>)
    ensures
        r == event_status(kind@, tool@),
{
    let mut joined = chars_of(kind);
    joined.push(' ');
    let tail = chars_of(tool);
    let mut i: usize = 0;
    while i < tail.len()
        invariant
            i <= tail.len(),
            joined@ == kind@ + seq![' '] + tail@.take(i as int),
        decreases tail.len() - i,
    {
        joined.push(tail[i]);
        i = i + 1;
        assert(joined@ =~= kind@ + seq![' '] + tail@.take(i as int));
    }
    assert(tail@.take(tail.len() as int) =~= tail@);
    let approval = chars_of("approval");
    let request = chars_of("request_user_input");
    if contains_at_any(&joined, &approval, true) || contains_at_any(&joined, &request, true) {
        Some(CodexStatus::WaitingApproval)
    } else {
        status_of_kind(kind)
    }
}

/// The time of a rollout line: its `timestamp` when that parses as RFC 3339,
/// and `now` otherwise.
pub open spec fn time_of(record: EventRecord, now: i64) -> i64 {
    match stated_time(record) {
        Some(m) => m,
        None => now,
    }
}

/// The event a rollout line announces when it is read at time `now`.
pub open spec fn reduced_of(record: EventRecord, now: i64) -> Option<ReducedEvent> {
    match record_status(record) {
        Some(status) => Some(ReducedEvent { status, at: time_of(record, now) }),
        None => None,
    }
}

/// The time of a rollout line: its `timestamp` when that parses as RFC 3339,
/// otherwise `now`.
pub fn event_timestamp(record: &EventRecord, now: i64) -> (t: i64)
    ensures
        t == time_of(*record, now),
{
    let parsed = match &record.timestamp {
        Some(text) => parse_rfc3339_millis(text.as_str()),
        None => None,
    };
    time_from(parsed, now)
}

/// The status a rollout line announces, with the time of the line (`now` when
/// it states none); `None` for lines without a payload and for kinds that
/// announce nothing.
pub fn reduce_event(record: &EventRecord, now: i64) -> (r: Option<ReducedEvent>)
    ensures
        r == reduced_of(*record, now),
{
    match &record.payload {
        None => None,
        Some(p) => {
            let kind = text_of(&p.kind);
            let tool = tool_of(p);
            match classify_event(kind, tool) {
                None => None,
                Some(status) => Some(ReducedEvent { status, at: event_timestamp(record, now) }),
            }
        },
    }
}

} // verus!

verus! {

/// How many bytes of a rollout file are read the first time it is seen.
pub const INITIAL_TAIL_BYTES: u64 = 262144;

/// One line of a rollout file: malformed JSON, or a parsed record.
#[derive(Clone, Debug, PartialEq)]
pub enum RolloutLine {
    Malformed,
    Parsed(EventRecord),
}

/// Where to start reading a rollout file, and whether the first line read is a
/// fragment to be dropped.
#[derive(Clone, Copy, Debug, PartialEq, Eq, Structural)]
pub struct ReadWindow {
    pub start: u64,
    pub skip_first_line: bool,
}

/// What is remembered of one rollout file between two polls.
#[derive(Clone, Copy, Debug, PartialEq, Eq, Structural)]
pub struct RolloutCache {
    /// The file length up to which lines have been read.
    pub offset: u64,
    /// The latest event that announced a status.
    pub last: Option<ReducedEvent>,
    /// How many malformed lines have been met.
    pub malformed_lines: usize,
}

/// The empty cache.
pub open spec fn fresh_cache() -> RolloutCache {
    RolloutCache { offset: 0, last: None, malformed_lines: 0 }
}

/// The cache before a read of a file of `length` bytes: a file that shrank is
/// read again from scratch.
pub open spec fn cache_for_length(c: RolloutCache, length: u64) -> RolloutCache {
    if length < c.offset {
        fresh_cache()
    } else {
        c
    }
}

/// The read that a file of `length` bytes calls for, if any: nothing when it has
/// not grown; the last `INITIAL_TAIL_BYTES` the first time, skipping the cut
/// first line; otherwise everything past the old length.
pub open spec fn window_for_length(c: RolloutCache, length: u64) -> Option<ReadWindow> {
    if length > c.offset {
        let start: u64 = if c.offset == 0 {
            if length >= INITIAL_TAIL_BYTES {
                (length - INITIAL_TAIL_BYTES) as u64
            } else {
                0u64
            }
        } else {
            c.offset
        };
        Some(ReadWindow { start, skip_first_line: c.offset == 0 && start > 0 })
    } else {
        None
    }
}

/// The lines of a read that are taken into account.
pub open spec fn counted_lines(lines: Seq<RolloutLine>, w: ReadWindow) -> Seq<RolloutLine> {
    if w.skip_first_line && lines.len() > 0 {
        lines.drop_first()
    } else {
        lines
    }
}

/// The number of malformed lines.
pub open spec fn count_malformed(lines: Seq<RolloutLine>) -> nat
    decreases lines.len(),
{
    if lines.len() == 0 {
        0
    } else {
        count_malformed(lines.drop_last()) + if lines.last() is Malformed {
            1nat
        } else {
            0nat
        }
    }
}

/// The index of the last line that announces a status, if any.
pub open spec fn last_announcing(lines: Seq<RolloutLine>) -> Option<int>
    decreases lines.len(),
{
    if lines.len() == 0 {
        None
    } else {
        match lines.last() {
            RolloutLine::Parsed(r) if record_status(r) is Some => Some(lines.len() - 1),
            _ => last_announcing(lines.drop_last()),
        }
    }
}

/// The cache after one more line read at time `now`.
pub open spec fn after_line(c: RolloutCache, line: RolloutLine, now: i64) -> RolloutCache {
    match line {
        RolloutLine::Malformed => RolloutCache {
            malformed_lines: (c.malformed_lines + 1) as usize,
            ..c
        },
        RolloutLine::Parsed(r) => match reduced_of(r, now) {
            Some(e) => RolloutCache { last: Some(e), ..c },
            None => c,
        },
    }
}

/// The cache after the lines, in order, read at time `now`.
pub open spec fn after_lines(c: RolloutCache, lines: Seq<RolloutLine>, now: i64) -> RolloutCache
    decreases lines.len(),
{
    if lines.len() == 0 {
        c
    } else {
        after_line(after_lines(c, lines.drop_last(), now), lines.last(), now)
    }
}

/// The cache after the lines read through `window` from a file of `length`
/// bytes at time `now`.
pub open spec fn after_read(
    c: RolloutCache,
    length: u64,
    window: ReadWindow,
    lines: Seq<RolloutLine>,
    now: i64,
) -> RolloutCache {
    after_lines(RolloutCache { offset: length, ..c }, counted_lines(lines, window), now)
}

proof fn lemma_count_malformed_prefix(lines: Seq<RolloutLine>, i: int)
    requires
        0 <= i <= lines.len(),
    ensures
        count_malformed(lines.take(i)) <= count_malformed(lines),
    decreases lines.len(),
{
    if i < lines.len() {
        let shorter = lines.drop_last();
        assert(lines.take(i) =~= shorter.take(i));
        lemma_count_malformed_prefix(shorter, i);
    } else {
        assert(lines.take(i) =~= lines);
    }
}

/// Reading lines keeps the offset, adds the malformed ones to the count, and
/// leaves as latest event that of the last announcing line, if any.
pub proof fn lemma_after_lines(c: RolloutCache, lines: Seq<RolloutLine>, now: i64)
    requires
        c.malformed_lines + count_malformed(lines) <= usize::MAX,
    ensures
        after_lines(c, lines, now).offset == c.offset,
        after_lines(c, lines, now).malformed_lines == c.malformed_lines + count_malformed(lines),
        last_announcing(lines) is None ==> after_lines(c, lines, now).last == c.last,
        last_announcing(lines) matches Some(i) ==> 0 <= i < lines.len() && (
        lines[i] matches RolloutLine::Parsed(r) && after_lines(c, lines, now).last == reduced_of(
            r,
            now,
        )),
    decreases lines.len(),
{
    if lines.len() > 0 {
        lemma_after_lines(c, lines.drop_last(), now);
        if let Some(i) = last_announcing(lines) {
            if i < lines.len() - 1 {
                assert(lines[i] == lines.drop_last()[i]);
            }
        }
    }
}

/// Malformed lines never erase what an earlier line announced: whatever lines
/// follow, the last announcing line of the whole is the last announcing line of
/// the suffix if it has one, and otherwise that of the prefix.
pub proof fn lemma_malformed_lines_keep_state(before: Seq<RolloutLine>, after: Seq<RolloutLine>)
    requires
        forall|i: int| 0 <= i < after.len() ==> after[i] is Malformed,
    ensures
        last_announcing(before + after) == last_announcing(before),
        count_malformed(before + after) == count_malformed(before) + after.len(),
    decreases after.len(),
{
    if after.len() == 0 {
        assert(before + after =~= before);
    } else {
        let shorter = after.drop_last();
        lemma_malformed_lines_keep_state(before, shorter);
        assert((before + after).drop_last() =~= before + shorter);
        assert((before + after).last() == after.last());
    }
}

impl RolloutCache {
    /// The cache of a file not read yet.
    pub fn new() -> (c: RolloutCache)
        ensures
            c == fresh_cache(),
    {
        RolloutCache { offset: 0, last: None, malformed_lines: 0 }
    }

    /// Prepares a read of a file that is now `length` bytes long: forgets the file
    /// if it shrank, and says which bytes to read, if any.
    pub fn begin_read(&mut self, length: u64) -> (w: Option<ReadWindow>)
        ensures
            *final(self) == cache_for_length(*old(self), length),
            w == window_for_length(cache_for_length(*old(self), length), length),
    {
        if length < self.offset {
            *self = RolloutCache::new();
        }
        if length > self.offset {
            let first_read = self.offset == 0;
            let start = if first_read {
                if length >= INITIAL_TAIL_BYTES {
                    length - INITIAL_TAIL_BYTES
                } else {
                    0
                }
            } else {
                self.offset
            };
            Some(ReadWindow { start, skip_first_line: first_read && start > 0 })
        } else {
            None
        }
    }

    /// Takes in the lines read through `window` from a file of `length` bytes at
    /// time `now`: the file counts as read up to `length`, each malformed line is
    /// counted, and each line that announces a status becomes the latest event.
    pub fn finish_read(
        &mut self,
        length: u64,
        window: ReadWindow,
        lines: &Vec<RolloutLine>,
        now: i64,
    )
        requires
            old(self).malformed_lines + count_malformed(counted_lines(lines@, window))
                <= usize::MAX,
        ensures
            *final(self) == after_read(*old(self), length, window, lines@, now),
    {
        self.offset = length;
        let first: usize = if window.skip_first_line && lines.len() > 0 {
            1
        } else {
            0
        };
        let ghost counted = counted_lines(lines@, window);
        let ghost start = *self;
        assert(counted =~= lines@.subrange(first as int, lines.len() as int));
        assert(counted.take(0) =~= Seq::<RolloutLine>::empty());
        let mut i: usize = first;
        while i < lines.len()
            invariant
                first <= i <= lines.len(),
                counted == lines@.subrange(first as int, lines.len() as int),
                start.malformed_lines + count_malformed(counted) <= usize::MAX,
                *self == after_lines(start, counted.take(i - first), now),
            decreases lines.len() - i,
        {
            let ghost k = i - first;
            let ghost before = *self;
            assert(counted.take(k + 1).drop_last() =~= counted.take(k));
            assert(counted.take(k + 1).last() == lines@[i as int]);
            proof {
                lemma_count_malformed_prefix(counted, k + 1);
                lemma_after_lines(start, counted.take(k), now);
            }
            match &lines[i] {
                RolloutLine::Malformed => {
                    self.malformed_lines = self.malformed_lines + 1;
                },
                RolloutLine::Parsed(record) => {
                    match reduce_event(record, now) {
                        Some(e) => {
                            self.last = Some(e);
                        },
                        None => {},
                    }
                },
            }
            assert(*self == after_line(before, lines@[i as int], now));
            i = i + 1;
        }
        assert(counted.take(lines.len() - first) =~= counted);
    }

    /// The latest event, and whether any malformed line was met.
    pub fn latest(&self) -> (r: Option<(ReducedEvent, bool)>)
        ensures
            r == match self.last {
                Some(e) => Some((e, self.malformed_lines > 0)),
                None => None,
            },
    {
        match self.last {
            Some(e) => Some((e, self.malformed_lines > 0)),
            None => None,
        }
    }
}

} // verus!

verus! {

/// Reading a rollout file again: a file of unchanged length calls for no read
/// and keeps the cache; a file that grew is read on from where the last read
/// stopped, without dropping a first line, and afterwards the latest event is
/// that of the last new line that announces a status (the earlier one when no
/// new line does) and the malformed new lines are added to the count; a file
/// that shrank starts over.
pub proof fn lemma_incremental_read(
    c: RolloutCache,
    length: u64,
    lines: Seq<RolloutLine>,
    now: i64,
)
    requires
        c.malformed_lines + count_malformed(lines) <= usize::MAX,
    ensures
        length == c.offset ==> cache_for_length(c, length) == c && window_for_length(
            c,
            length,
        ) is None,
        length < c.offset ==> cache_for_length(c, length) == fresh_cache(),
        c.offset > 0 && length > c.offset ==> ({
            let w = ReadWindow { start: c.offset, skip_first_line: false };
            let after = after_read(cache_for_length(c, length), length, w, lines, now);
            &&& window_for_length(cache_for_length(c, length), length) == Some(w)
            &&& after.offset == length
            &&& after.malformed_lines == c.malformed_lines + count_malformed(lines)
            &&& last_announcing(lines) is None ==> after.last == c.last
            &&& last_announcing(lines) matches Some(i) ==> (lines[i] matches RolloutLine::Parsed(
                r,
            ) && after.last == reduced_of(r, now))
        }),
{
    lemma_after_lines(RolloutCache { offset: length, ..c }, lines, now);
}

} // verus!

verus! {

/// A JSON value. Numbers are kept only as such: no rule reads their value.
/// An object holds each key once.
#[derive(Debug, PartialEq)]
pub enum JsonValue {
    Null,
    Bool(bool),
    Number,
    Text(String),
    Array(Vec<JsonValue>),
    Object(Vec<(String, JsonValue)>),
}

/// The JSON value a text holds, when it is one JSON document.
pub uninterp spec fn json_of(text: Seq<char>) -> Option<JsonValue>;

#[verifier::external_type_specification]
#[verifier::external_body]
pub struct ExSerdeJsonValue(serde_json::Value);

/// Converts a `serde_json::Value` into a `JsonValue`, variant by variant.
#[verifier::external_body]
fn json_value_from(v: &serde_json::Value) -> JsonValue {
    match v {
        serde_json::Value::Null => JsonValue::Null,
        serde_json::Value::Bool(b) => JsonValue::Bool(*b),
        serde_json::Value::Number(_) => JsonValue::Number,
        serde_json::Value::String(t) => JsonValue::Text(t.clone()),
        serde_json::Value::Array(a) => JsonValue::Array(a.iter().map(json_value_from).collect()),
        serde_json::Value::Object(m) => JsonValue::Object(
            m.iter().map(|(k, x)| (k.clone(), json_value_from(x))).collect(),
        ),
    }
}

/// Calls `serde_json::from_str::<serde_json::Value>` and converts a parsed value
/// variant by variant; `None` when the text is not a JSON document. Claims only
/// that the result is a function of the text.
#[verifier::external_body]
fn parse_json(text: &str) -> (r: Option<JsonValue>)
    ensures
        r == json_of(text@),
{
    match serde_json::from_str::<serde_json::Value>(text) {
        Ok(v) => Some(json_value_from(&v)),
        Err(_) => None,
    }
}

/// The value of the first member with this key.
pub open spec fn member(entries: Seq<(String, JsonValue)>, key: Seq<char>) -> Option<JsonValue>
    decreases entries.len(),
{
    if entries.len() == 0 {
        None
    } else if entries[0].0@ == key {
        Some(entries[0].1)
    } else {
        member(entries.drop_first(), key)
    }
}

/// The member of an object with this key; nothing for other values.
pub open spec fn field(v: JsonValue, key: Seq<char>) -> Option<JsonValue> {
    match v {
        JsonValue::Object(entries) => member(entries@, key),
        _ => None,
    }
}

/// A member as the classification rules read it.
pub open spec fn as_field(v: Option<JsonValue>) -> JsonField {
    match v {
        None => JsonField::Missing,
        Some(JsonValue::Text(s)) => JsonField::Text(s),
        Some(_) => JsonField::Other,
    }
}

/// A rollout line as the classification rules read it: malformed when it is no
/// JSON document; otherwise its `timestamp` when that is a string, and the
/// `type`, `name` and `tool_name` members of its `payload` when present.
pub open spec fn line_of(j: Option<JsonValue>) -> RolloutLine {
    match j {
        None => RolloutLine::Malformed,
        Some(v) => RolloutLine::Parsed(
            EventRecord {
                timestamp: match field(v, "timestamp"@) {
                    Some(JsonValue::Text(s)) => Some(s),
                    _ => None,
                },
                payload: match field(v, "payload"@) {
                    None => None,
                    Some(p) => Some(
                        EventPayload {
                            kind: as_field(field(p, "type"@)),
                            name: as_field(field(p, "name"@)),
                            tool_name: as_field(field(p, "tool_name"@)),
                        },
                    ),
                },
            },
        ),
    }
}

fn member_of<'a>(entries: &'a Vec<(String, JsonValue)>, key: &str) -> (r: Option<&'a JsonValue>)
    ensures
        match r {
            Some(v) => member(entries@, key@) == Some(*v),
            None => member(entries@, key@) is None,
        },
{
    let mut i: usize = 0;
    assert(entries@.skip(0) =~= entries@);
    while i < entries.len()
        invariant
            i <= entries.len(),
            member(entries@, key@) == member(entries@.skip(i as int), key@),
        decreases entries.len() - i,
    {
        assert(entries@.skip(i as int)[0] == entries@[i as int]);
        assert(entries@.skip(i as int).drop_first() =~= entries@.skip(i + 1));
        if same_text(entries[i].0.as_str(), key) {
            return Some(&entries[i].1);
        }
        i = i + 1;
    }
    None
}

fn field_of<'a>(v: &'a JsonValue, key: &str) -> (r: Option<&'a JsonValue>)
    ensures
        match r {
            Some(x) => field(*v, key@) == Some(*x),
            None => field(*v, key@) is None,
        },
{
    match v {
        JsonValue::Object(entries) => member_of(entries, key),
        _ => None,
    }
}

fn as_field_of(v: Option<&JsonValue>) -> (r: JsonField)
    ensures
        r == as_field(
            match v {
                Some(x) => Some(*x),
                None => None,
            },
        ),
{
    match v {
        None => JsonField::Missing,
        Some(JsonValue::Text(s)) => JsonField::Text(s.clone()),
        Some(_) => JsonField::Other,
    }
}

/// The rollout line that a parsed (or unparsable) line stands for.
pub fn rollout_line_from(j: Option<JsonValue>) -> (r: RolloutLine)
    ensures
        r == line_of(j),
{
    match &j {
        None => RolloutLine::Malformed,
        Some(v) => {
            let timestamp = match field_of(v, "timestamp") {
                Some(JsonValue::Text(s)) => Some(s.clone()),
                _ => None,
            };
            let payload = match field_of(v, "payload") {
                None => None,
                Some(p) => Some(
                    EventPayload {
                        kind: as_field_of(field_of(p, "type")),
                        name: as_field_of(field_of(p, "name")),
                        tool_name: as_field_of(field_of(p, "tool_name")),
                    },
                ),
            };
            RolloutLine::Parsed(EventRecord { timestamp, payload })
        },
    }
}

/// Reads one line of a rollout file.
pub fn rollout_line(text: &str) -> (r: RolloutLine)
    ensures
        r == line_of(json_of(text@)),
{
    rollout_line_from(parse_json(text))
}

} // verus!

verus! {

/// Reads the text of a rollout file, line by line (lines as `str::lines`
/// splits them).
pub fn rollout_lines(text: &str) -> (r: Vec<RolloutLine>)
    ensures
        r@.len() == lines_from(text@, 0).len(),
        forall|i: int|
            0 <= i < r@.len() ==> #[trigger] r@[i] == line_of(json_of(lines_from(text@, 0)[i])),
{
    let texts = split_lines(text);
    let mut out: Vec<RolloutLine> = Vec::new();
    let mut i: usize = 0;
    while i < texts.len()
        invariant
            i <= texts.len(),
            texts@.len() == lines_from(text@, 0).len(),
            forall|j: int| 0 <= j < texts@.len() ==> (#[trigger] texts@[j])@ == lines_from(text@, 0)[j],
            out@.len() == i,
            forall|j: int|
                0 <= j < i ==> #[trigger] out@[j] == line_of(json_of(lines_from(text@, 0)[j])),
        decreases texts.len() - i,
    {
        out.push(rollout_line(texts[i].as_str()));
        i = i + 1;
    }
    out
}

/// The time of a rollout line from the parsed value of its `timestamp`: that
/// value when there is one, `now` otherwise.
pub fn time_from(parsed: Option<i64>, now: i64) -> (t: i64)
    ensures
        t == match parsed {
            Some(m) => m,
            None => now,
        },
{
    match parsed {
        Some(m) => m,
        None => now,
    }
}

} // verus!
