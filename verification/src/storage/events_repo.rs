//! The log of events. Events are only ever added, and stored as they are. An
//! event whose fingerprint is in the log already is a duplicate and is not
//! added again. An event that is no duplicate but has the id of an event in
//! the log is refused.

use vstd::prelude::*;
use vstd::string::*;
use crate::json::{get_str, str_member, Json};
use crate::error::AppError;
use crate::models::event::{event_type_tag, EventType, EventView, NormalizedEvent};
use crate::storage::keys::{
    distinct, key_index, lemma_key_index, lemma_key_index_absent, lemma_key_index_found,
};
use crate::text::{concat, str_eq};

verus! {

/// An event in the log, with the fingerprint it was stored under.
#[derive(Debug)]
pub struct StoredEvent {
    pub event: NormalizedEvent,
    pub fingerprint: String,
}

/// What a [`StoredEvent`] holds.
pub struct StoredEventView {
    pub event: EventView,
    pub fingerprint: Seq<char>,
}

impl View for StoredEvent {
    type V = StoredEventView;

    open spec fn view(&self) -> StoredEventView {
        StoredEventView { event: self.event@, fingerprint: self.fingerprint@ }
    }
}

/// What a list of stored events holds.
pub open spec fn log_view(rows: Seq<StoredEvent>) -> Seq<StoredEventView> {
    Seq::new(rows.len(), |i: int| rows[i]@)
}

/// The fingerprints in the log, in the order of the rows.
pub open spec fn log_fingerprints(rows: Seq<StoredEventView>) -> Seq<Seq<char>> {
    Seq::new(rows.len(), |i: int| rows[i].fingerprint)
}

/// The event ids in the log, in the order of the rows.
pub open spec fn log_ids(rows: Seq<StoredEventView>) -> Seq<Seq<char>> {
    Seq::new(rows.len(), |i: int| rows[i].event.id)
}

/// Whether the log holds an event under this fingerprint.
pub open spec fn log_holds(rows: Seq<StoredEventView>, fingerprint: Seq<char>) -> bool {
    key_index(log_fingerprints(rows), fingerprint) is Some
}

/// Whether the log takes an event with this id under this fingerprint: neither
/// may be in the log already.
pub open spec fn log_accepts(
    rows: Seq<StoredEventView>,
    id: Seq<char>,
    fingerprint: Seq<char>,
) -> bool {
    !log_holds(rows, fingerprint) && key_index(log_ids(rows), id) is None
}

/// Whether the log refuses an event with this id under this fingerprint: the
/// fingerprint is new, so that the event is no duplicate, but the log holds
/// another event with the same id.
pub open spec fn log_refuses(
    rows: Seq<StoredEventView>,
    id: Seq<char>,
    fingerprint: Seq<char>,
) -> bool {
    !log_holds(rows, fingerprint) && key_index(log_ids(rows), id) is Some
}

/// The row that `event` is stored as under `fingerprint`: the event as it is,
/// and the fingerprint.
pub open spec fn stored_as(event: EventView, fingerprint: Seq<char>) -> StoredEventView {
    StoredEventView { event, fingerprint }
}

/// The log after `event` has been offered under `fingerprint`: added behind the
/// others if the log takes it, and the log as it was if not.
pub open spec fn log_insert(
    rows: Seq<StoredEventView>,
    event: EventView,
    fingerprint: Seq<char>,
) -> Seq<StoredEventView> {
    if log_accepts(rows, event.id, fingerprint) {
        rows.push(stored_as(event, fingerprint))
    } else {
        rows
    }
}

/// What holds of every log: no fingerprint and no id stands in it twice.
pub open spec fn log_wf(rows: Seq<StoredEventView>) -> bool {
    distinct(log_fingerprints(rows)) && distinct(log_ids(rows))
}

/// Whether `e` says that an event was refused because the log holds another
/// event with its id.
pub open spec fn is_id_conflict(e: AppError) -> bool {
    e matches AppError::Database(detail) && detail@ == "UNIQUE constraint failed: events.id"@
}

/// Offering an event to a log keeps the log as a log should be.
pub proof fn lemma_log_insert_keeps_wf(
    rows: Seq<StoredEventView>,
    event: EventView,
    fingerprint: Seq<char>,
)
    requires
        log_wf(rows),
    ensures
        log_wf(log_insert(rows, event, fingerprint)),
{
    lemma_key_index(log_fingerprints(rows), fingerprint);
    lemma_key_index(log_ids(rows), event.id);
    if log_accepts(rows, event.id, fingerprint) {
        let after = log_insert(rows, event, fingerprint);
        assert(log_fingerprints(after) =~= log_fingerprints(rows).push(fingerprint));
        assert(log_ids(after) =~= log_ids(rows).push(event.id));
    }
}

/// The row that an event is stored as under a fingerprint.
pub fn stored_form(event: &NormalizedEvent, fingerprint: &str) -> (r: StoredEvent)
    ensures
        r@ == stored_as(event@, fingerprint@),
{
    StoredEvent { event: event.clone(), fingerprint: String::from_str(fingerprint) }
}

/// How many events of type `event_type` the log holds for the agent
/// `agent_id`.
pub open spec fn log_count(
    rows: Seq<StoredEventView>,
    agent_id: Seq<char>,
    event_type: EventType,
) -> nat
    decreases rows.len(),
{
    if rows.len() == 0 {
        0
    } else {
        log_count(rows.drop_last(), agent_id, event_type) + if rows.last().event.agent_id
            == agent_id && rows.last().event.event_type == event_type {
            1nat
        } else {
            0nat
        }
    }
}

/// The log of events. No fingerprint and no id stands in it twice.
pub struct EventsRepo {
    rows: Vec<StoredEvent>,
}

impl View for EventsRepo {
    type V = Seq<StoredEventView>;

    closed spec fn view(&self) -> Seq<StoredEventView> {
        log_view(self.rows@)
    }
}

impl EventsRepo {
    /// What always holds of the log: no fingerprint and no id stands in it
    /// twice.
    #[verifier::type_invariant]
    pub open spec fn wf(&self) -> bool {
        log_wf(self@)
    }

    /// The empty log.
    pub fn new() -> (r: Self)
        ensures
            r@ == Seq::<StoredEventView>::empty(),
    {
        let r = EventsRepo { rows: Vec::new() };
        assert(r@ =~= Seq::<StoredEventView>::empty());
        r
    }

    /// How many events the log holds.
    pub fn len(&self) -> (r: usize)
        ensures
            r == self@.len(),
    {
        self.rows.len()
    }

    /// Whether an event stands in the log under `fingerprint`.
    pub fn has_fingerprint(&self, fingerprint: &str) -> (r: bool)
        ensures
            r == log_holds(self@, fingerprint@),
    {
        let mut i: usize = 0;
        while i < self.rows.len()
            invariant
                i <= self.rows@.len(),
                forall|j: int| 0 <= j < i ==> log_fingerprints(self@)[j] != fingerprint@,
            decreases self.rows@.len() - i,
        {
            if str_eq(self.rows[i].fingerprint.as_str(), fingerprint) {
                proof {
                    lemma_key_index_found(log_fingerprints(self@), fingerprint@, i as int);
                }
                return true;
            }
            i = i + 1;
        }
        proof {
            lemma_key_index_absent(log_fingerprints(self@), fingerprint@);
        }
        false
    }

    /// Whether an event with the id `id` stands in the log.
    pub fn has_id(&self, id: &str) -> (r: bool)
        ensures
            r == (key_index(log_ids(self@), id@) is Some),
    {
        let mut i: usize = 0;
        while i < self.rows.len()
            invariant
                i <= self.rows@.len(),
                forall|j: int| 0 <= j < i ==> log_ids(self@)[j] != id@,
            decreases self.rows@.len() - i,
        {
            if str_eq(self.rows[i].event.id.as_str(), id) {
                proof {
                    lemma_key_index_found(log_ids(self@), id@, i as int);
                }
                return true;
            }
            i = i + 1;
        }
        proof {
            lemma_key_index_absent(log_ids(self@), id@);
        }
        false
    }

    /// Offers an event to the log under its fingerprint.
    ///
    /// `Ok(true)`: the event has been added, as it is. `Ok(false)`: the log
    /// holds an event under this fingerprint already, and stays as it is; this
    /// result is the only sign of a duplicate that there is. `Err`: the event
    /// is no duplicate, but the log holds another event with its id; the log
    /// stays as it is.
    pub fn insert(&mut self, event: &NormalizedEvent, fingerprint: &str) -> (r: Result<
        bool,
        AppError,
    >)
        ensures
            final(self)@ == log_insert(old(self)@, event@, fingerprint@),
            match r {
                Ok(true) => log_accepts(old(self)@, event@.id, fingerprint@),
                Ok(false) => log_holds(old(self)@, fingerprint@),
                Err(e) => log_refuses(old(self)@, event@.id, fingerprint@) && is_id_conflict(e),
            },
            log_wf(final(self)@),
    {
        proof {
            use_type_invariant(&*self);
            lemma_log_insert_keeps_wf(self@, event@, fingerprint@);
        }
        if self.has_fingerprint(fingerprint) {
            return Ok(false);
        }
        if self.has_id(event.id.as_str()) {
            return Err(AppError::Database(String::from_str("UNIQUE constraint failed: events.id")));
        }
        let ghost before = self@;
        let row = stored_form(event, fingerprint);
        let mut rows: Vec<StoredEvent> = Vec::new();
        std::mem::swap(&mut self.rows, &mut rows);
        rows.push(row);
        proof {
            assert(log_view(rows@) =~= before.push(stored_as(event@, fingerprint@)));
        }
        self.rows = rows;
        Ok(true)
    }

    /// How many events of type `event_type` the log holds for the agent
    /// `agent_id`.
    pub fn count_by_type(&self, agent_id: &str, event_type: EventType) -> (r: u64)
        ensures
            r == log_count(self@, agent_id@, event_type),
    {
        let mut n: u64 = 0;
        let mut i: usize = 0;
        while i < self.rows.len()
            invariant
                i <= self.rows@.len(),
                n <= i,
                n == log_count(self@.take(i as int), agent_id@, event_type),
            decreases self.rows@.len() - i,
        {
            proof {
                assert(self@.take(i + 1).drop_last() =~= self@.take(i as int));
            }
            let row = &self.rows[i];
            if str_eq(row.event.agent_id.as_str(), agent_id) && row.event.event_type
                == event_type {
                n = n + 1;
            }
            i = i + 1;
        }
        assert(self@.take(self@.len() as int) =~= self@);
        n
    }

    /// How many tasks the agent `agent_id` has completed.
    pub fn count_completed_tasks(&self, agent_id: &str) -> (r: u64)
        ensures
            r == log_count(self@, agent_id@, EventType::TaskCompleted),
    {
        self.count_by_type(agent_id, EventType::TaskCompleted)
    }

    /// How many times the agent `agent_id` has started a tool.
    pub fn count_tools_used(&self, agent_id: &str) -> (r: u64)
        ensures
            r == log_count(self@, agent_id@, EventType::ToolStarted),
    {
        self.count_by_type(agent_id, EventType::ToolStarted)
    }
}

/// An event that the log has taken is a duplicate from then on: after an event
/// has been added under a fingerprint, a second offer under that fingerprint
/// changes nothing, whatever the id of the second event. The log is then one
/// row longer than before the first offer.
pub proof fn lemma_offered_twice_stored_once(
    rows: Seq<StoredEventView>,
    first: EventView,
    second: EventView,
    fingerprint: Seq<char>,
)
    requires
        !log_refuses(rows, first.id, fingerprint),
    ensures
        log_holds(log_insert(rows, first, fingerprint), fingerprint),
        log_insert(log_insert(rows, first, fingerprint), second, fingerprint) == log_insert(
            rows,
            first,
            fingerprint,
        ),
        log_insert(rows, first, fingerprint).len() == if log_holds(rows, fingerprint) {
            rows.len()
        } else {
            rows.len() + 1
        },
{
    let after = log_insert(rows, first, fingerprint);
    lemma_key_index(log_fingerprints(rows), fingerprint);
    if log_accepts(rows, first.id, fingerprint) {
        assert(log_fingerprints(after) =~= log_fingerprints(rows).push(fingerprint));
        lemma_key_index_found(log_fingerprints(after), fingerprint, rows.len() as int);
    }
}

/// Whether the text with bytes `a` sorts behind the text with bytes `b`: at the
/// first byte in which they differ, `a` has the greater one, or `b` ends where
/// `a` goes on.
pub open spec fn sorts_after(a: Seq<u8>, b: Seq<u8>) -> bool
    decreases a.len(),
{
    if a.len() == 0 {
        false
    } else if b.len() == 0 {
        true
    } else if a[0] != b[0] {
        a[0] > b[0]
    } else {
        sorts_after(a.drop_first(), b.drop_first())
    }
}

/// Whether the timestamp `a` is later than the timestamp `b`, going by their
/// text.
pub open spec fn is_later(a: Seq<char>, b: Seq<char>) -> bool {
    sorts_after(vstd::utf8::encode_utf8(a), vstd::utf8::encode_utf8(b))
}

/// No text sorts behind one that sorts behind it.
pub proof fn lemma_sorts_after_asymmetric(a: Seq<u8>, b: Seq<u8>)
    ensures
        !(sorts_after(a, b) && sorts_after(b, a)),
    decreases a.len(),
{
    if a.len() > 0 && b.len() > 0 && a[0] == b[0] {
        lemma_sorts_after_asymmetric(a.drop_first(), b.drop_first());
    }
}

/// A text that sorts behind another sorts behind every third text, or the
/// third sorts behind the other.
pub proof fn lemma_sorts_after_between(a: Seq<u8>, b: Seq<u8>, c: Seq<u8>)
    requires
        sorts_after(a, c),
    ensures
        sorts_after(a, b) || sorts_after(b, c),
    decreases a.len(),
{
    if b.len() > 0 && c.len() > 0 && a[0] == b[0] && b[0] == c[0] {
        lemma_sorts_after_between(a.drop_first(), b.drop_first(), c.drop_first());
    }
}

/// Whether the timestamp of `a` is later than that of `b`.
fn later_than(a: &str, b: &str) -> (r: bool)
    ensures
        r == is_later(a@, b@),
{
    let x = a.as_bytes();
    let y = b.as_bytes();
    let mut i: usize = 0;
    assert(x@.skip(0) =~= x@);
    assert(y@.skip(0) =~= y@);
    while i < x.len() && i < y.len()
        invariant
            i <= x@.len(),
            i <= y@.len(),
            x@ == vstd::utf8::encode_utf8(a@),
            y@ == vstd::utf8::encode_utf8(b@),
            sorts_after(x@, y@) == sorts_after(x@.skip(i as int), y@.skip(i as int)),
        decreases x@.len() - i,
    {
        proof {
            assert(x@.skip(i as int).len() > 0);
            assert(y@.skip(i as int).len() > 0);
            assert(x@.skip(i as int)[0] == x@[i as int]);
            assert(y@.skip(i as int)[0] == y@[i as int]);
            assert(x@.skip(i as int).drop_first() =~= x@.skip(i + 1));
            assert(y@.skip(i as int).drop_first() =~= y@.skip(i + 1));
        }
        if x[i] != y[i] {
            return x[i] > y[i];
        }
        i = i + 1;
    }
    proof {
        assert(x@.skip(i as int).len() == x@.len() - i);
        assert(y@.skip(i as int).len() == y@.len() - i);
    }
    i < x.len()
}

/// A line of an agent's history.
#[derive(Debug)]
pub struct ResumeEvent {
    /// The tag of the type of the event.
    pub event_type: String,
    /// What happened, in a few words.
    pub summary: String,
    pub ts: String,
}

/// What a [`ResumeEvent`] holds.
pub struct ResumeEventView {
    pub event_type: Seq<char>,
    pub summary: Seq<char>,
    pub ts: Seq<char>,
}

impl View for ResumeEvent {
    type V = ResumeEventView;

    open spec fn view(&self) -> ResumeEventView {
        ResumeEventView { event_type: self.event_type@, summary: self.summary@, ts: self.ts@ }
    }
}

/// What a list of history lines holds.
pub open spec fn resume_view(list: Seq<ResumeEvent>) -> Seq<ResumeEventView> {
    Seq::new(list.len(), |i: int| list[i]@)
}

/// The tool that a payload names; the empty text if it names none.
pub open spec fn tool_of(payload: Json) -> Seq<char> {
    match str_member(payload, "tool_name"@) {
        Some(tool) => tool,
        None => Seq::empty(),
    }
}

/// What an event of type `event_type` with payload `payload` is summed up as:
/// a fixed phrase for the start and the end of an agent and of a task, a phrase
/// that names the tool for the start, the success and the failure of a tool,
/// and the tag of its type for any other event.
pub open spec fn summary_of(event_type: EventType, payload: Json) -> Seq<char> {
    match event_type {
        EventType::TaskCompleted => "작업 완료"@,
        EventType::TaskStarted => "작업 시작"@,
        EventType::ToolStarted => "도구 실행: "@ + tool_of(payload),
        EventType::ToolSucceeded => "도구 성공: "@ + tool_of(payload),
        EventType::ToolFailed => "도구 실패: "@ + tool_of(payload),
        EventType::AgentStarted => "에이전트 시작"@,
        EventType::AgentStopped => "에이전트 종료"@,
        other => event_type_tag(other),
    }
}

/// The history line for an event.
pub open spec fn resume_of(event: EventView) -> ResumeEventView {
    ResumeEventView {
        event_type: event_type_tag(event.event_type),
        summary: summary_of(event.event_type, event.payload),
        ts: event.ts,
    }
}

/// Sums an event up in a few words.
pub fn extract_summary_from_type(event: &NormalizedEvent) -> (r: String)
    ensures
        r@ == summary_of(event@.event_type, event@.payload),
{
    let tool: &str = match get_str(&event.payload, "tool_name") {
        Some(t) => t,
        None => "",
    };
    proof {
        reveal_strlit("");
        assert(""@ =~= Seq::<char>::empty());
    }
    match event.event_type {
        EventType::TaskCompleted => String::from_str("작업 완료"),
        EventType::TaskStarted => String::from_str("작업 시작"),
        EventType::ToolStarted => concat("도구 실행: ", tool),
        EventType::ToolSucceeded => concat("도구 성공: ", tool),
        EventType::ToolFailed => concat("도구 실패: ", tool),
        EventType::AgentStarted => String::from_str("에이전트 시작"),
        EventType::AgentStopped => String::from_str("에이전트 종료"),
        other => String::from_str(other.as_tag()),
    }
}

/// The first position from `from` on at which the line is not later than `ts`;
/// the length of the list if every line from `from` on is later.
pub open spec fn position_from(list: Seq<ResumeEventView>, ts: Seq<char>, from: int) -> int
    decreases list.len() - from,
{
    if from < 0 || from >= list.len() {
        list.len() as int
    } else if !is_later(list[from].ts, ts) {
        from
    } else {
        position_from(list, ts, from + 1)
    }
}

/// The list with `line` put in front of the first line that is not later than
/// it.
pub open spec fn put_in_order(list: Seq<ResumeEventView>, line: ResumeEventView) -> Seq<
    ResumeEventView,
> {
    list.insert(position_from(list, line.ts, 0), line)
}

/// The history of the agent `agent_id`: a line for each of its events in the
/// log, the latest first. Of two events with the same timestamp, the one that
/// was logged later comes first.
pub open spec fn newest_first(rows: Seq<StoredEventView>, agent_id: Seq<char>) -> Seq<
    ResumeEventView,
>
    decreases rows.len(),
{
    if rows.len() == 0 {
        Seq::empty()
    } else {
        let earlier = newest_first(rows.drop_last(), agent_id);
        if rows.last().event.agent_id == agent_id {
            put_in_order(earlier, resume_of(rows.last().event))
        } else {
            earlier
        }
    }
}

/// The first `limit` lines of the history of the agent `agent_id`; all of it if
/// it has no more.
pub open spec fn recent_events(
    rows: Seq<StoredEventView>,
    agent_id: Seq<char>,
    limit: usize,
) -> Seq<ResumeEventView> {
    let all = newest_first(rows, agent_id);
    if limit < all.len() {
        all.take(limit as int)
    } else {
        all
    }
}

/// Whether no line of the list is later than a line before it.
pub open spec fn is_newest_first(list: Seq<ResumeEventView>) -> bool {
    forall|i: int, j: int| 0 <= i < j < list.len() ==> !is_later(list[j].ts, list[i].ts)
}

/// The position that `position_from` gives lies between `from` and the end of
/// the list; every line between `from` and it is later than `ts`, and the line
/// at it, if there is one, is not.
pub proof fn lemma_position_from(list: Seq<ResumeEventView>, ts: Seq<char>, from: int)
    requires
        0 <= from <= list.len(),
    ensures
        from <= position_from(list, ts, from) <= list.len(),
        forall|k: int| from <= k < position_from(list, ts, from) ==> is_later(list[k].ts, ts),
        position_from(list, ts, from) < list.len() ==> !is_later(
            list[position_from(list, ts, from)].ts,
            ts,
        ),
    decreases list.len() - from,
{
    if from < list.len() && is_later(list[from].ts, ts) {
        lemma_position_from(list, ts, from + 1);
    }
}

/// Putting a line in order keeps a list ordered.
pub proof fn lemma_put_in_order_keeps_order(list: Seq<ResumeEventView>, line: ResumeEventView)
    requires
        is_newest_first(list),
    ensures
        is_newest_first(put_in_order(list, line)),
        put_in_order(list, line).len() == list.len() + 1,
{
    let p = position_from(list, line.ts, 0);
    lemma_position_from(list, line.ts, 0);
    let after = put_in_order(list, line);
    assert forall|i: int, j: int| 0 <= i < j < after.len() implies !is_later(
        after[j].ts,
        after[i].ts,
    ) by {
        let new_ts = vstd::utf8::encode_utf8(line.ts);
        if j == p {
            // the line itself against one before it, which is later than it
            lemma_sorts_after_asymmetric(new_ts, vstd::utf8::encode_utf8(list[i].ts));
        } else if i == p {
            // a line behind the new one: not later than the one at `p`, which
            // is not later than the new one
            let behind = vstd::utf8::encode_utf8(list[j - 1].ts);
            let at = vstd::utf8::encode_utf8(list[p].ts);
            if sorts_after(behind, new_ts) {
                lemma_sorts_after_between(behind, at, new_ts);
                if j - 1 > p {
                    assert(!is_later(list[j - 1].ts, list[p].ts));
                } else {
                    assert(j - 1 == p);
                }
            }
        } else {
            let a = if i < p {
                i
            } else {
                i - 1
            };
            let b = if j < p {
                j
            } else {
                j - 1
            };
            assert(after[i] == list[a]);
            assert(after[j] == list[b]);
            assert(a < b);
        }
    }
}

/// Whether `line` is the history line of an event that the log holds for the
/// agent `agent_id`.
pub open spec fn is_line_of(
    rows: Seq<StoredEventView>,
    agent_id: Seq<char>,
    line: ResumeEventView,
) -> bool {
    exists|i: int|
        0 <= i < rows.len() && rows[i].event.agent_id == agent_id && #[trigger] resume_of(
            rows[i].event,
        ) == line
}

/// The history of an agent is ordered, the latest first, and each of its lines
/// is the line of an event that the log holds for the agent.
pub proof fn lemma_newest_first_is_ordered(rows: Seq<StoredEventView>, agent_id: Seq<char>)
    ensures
        is_newest_first(newest_first(rows, agent_id)),
        newest_first(rows, agent_id).len() <= rows.len(),
        forall|k: int|
            0 <= k < newest_first(rows, agent_id).len() ==> is_line_of(
                rows,
                agent_id,
                #[trigger] newest_first(rows, agent_id)[k],
            ),
    decreases rows.len(),
{
    if rows.len() > 0 {
        let front = rows.drop_last();
        lemma_newest_first_is_ordered(front, agent_id);
        let earlier = newest_first(front, agent_id);
        let all = newest_first(rows, agent_id);
        assert forall|line: ResumeEventView| is_line_of(front, agent_id, line) implies is_line_of(
            rows,
            agent_id,
            line,
        ) by {
            let i = choose|i: int|
                0 <= i < front.len() && front[i].event.agent_id == agent_id
                    && #[trigger] resume_of(front[i].event) == line;
            assert(rows[i] == front[i]);
            assert(resume_of(rows[i].event) == line);
        }
        if rows.last().event.agent_id == agent_id {
            let line = resume_of(rows.last().event);
            lemma_put_in_order_keeps_order(earlier, line);
            lemma_position_from(earlier, line.ts, 0);
            let p = position_from(earlier, line.ts, 0);
            assert(resume_of(rows[rows.len() - 1].event) == line);
            assert(is_line_of(rows, agent_id, line));
            assert forall|k: int| 0 <= k < all.len() implies is_line_of(
                rows,
                agent_id,
                #[trigger] all[k],
            ) by {
                if k != p {
                    let e = if k < p {
                        k
                    } else {
                        k - 1
                    };
                    assert(all[k] == earlier[e]);
                    assert(is_line_of(front, agent_id, earlier[e]));
                }
            }
        } else {
            assert forall|k: int| 0 <= k < all.len() implies is_line_of(
                rows,
                agent_id,
                #[trigger] all[k],
            ) by {
                assert(is_line_of(front, agent_id, earlier[k]));
            }
        }
    }
}

impl EventsRepo {
    /// The latest events of the agent `agent_id`, the latest first, `limit` of
    /// them at most.
    pub fn get_recent_by_agent(&self, agent_id: &str, limit: usize) -> (r: Vec<ResumeEvent>)
        ensures
            resume_view(r@) == recent_events(self@, agent_id@, limit),
    {
        let mut out: Vec<ResumeEvent> = Vec::new();
        let mut i: usize = 0;
        assert(resume_view(out@) =~= Seq::<ResumeEventView>::empty());
        while i < self.rows.len()
            invariant
                i <= self.rows@.len(),
                out@.len() <= i,
                resume_view(out@) == newest_first(self@.take(i as int), agent_id@),
            decreases self.rows@.len() - i,
        {
            proof {
                assert(self@.take(i + 1).drop_last() =~= self@.take(i as int));
                assert(self@.take(i + 1).last() == self@[i as int]);
            }
            let row = &self.rows[i];
            if str_eq(row.event.agent_id.as_str(), agent_id) {
                let line = ResumeEvent {
                    event_type: String::from_str(row.event.event_type.as_tag()),
                    summary: extract_summary_from_type(&row.event),
                    ts: row.event.ts.clone(),
                };
                let ghost before = resume_view(out@);
                let mut p: usize = 0;
                while p < out.len() && later_than(out[p].ts.as_str(), line.ts.as_str())
                    invariant
                        p <= out@.len(),
                        before == resume_view(out@),
                        position_from(before, line@.ts, 0) == position_from(
                            before,
                            line@.ts,
                            p as int,
                        ),
                    decreases out@.len() - p,
                {
                    p = p + 1;
                }
                let ghost line_view = line@;
                out.insert(p, line);
                assert(resume_view(out@) =~= before.insert(p as int, line_view));
            }
            i = i + 1;
        }
        assert(self@.take(self@.len() as int) =~= self@);
        if limit < out.len() {
            let ghost all = resume_view(out@);
            out.truncate(limit);
            assert(resume_view(out@) =~= all.take(limit as int));
        }
        out
    }
}

} // verus!
