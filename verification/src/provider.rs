//! The decisions of the status provider: which threads are shown and how,
//! how a snapshot summarises them, which state database and query are used,
//! and which processes and file changes matter.
use vstd::prelude::*;
use crate::events::ReducedEvent;
use crate::model::{
    CodexStatus, HealthLevel, ProviderHealth, StatusSnapshot, ThreadConfidence, ThreadState,
};
use crate::text::{
    begins_with, chars_of, contains_at_any, ends_with, equals, has_infix, has_prefix, has_suffix,
    lower, same_text,
};

verus! {

/// A completed thread shows as completed for this long, then as idle.
pub const COMPLETED_HOLD_MS: i64 = 8000;

/// A failed thread shows as failed for this long, then as idle.
pub const FAILED_HOLD_MS: i64 = 15000;

/// A thread without rollout events counts as thinking while its database row is
/// younger than this.
pub const RECENT_UPDATE_MS: i64 = 12000;

/// An idle thread is shown while its database row is younger than this.
pub const IDLE_VISIBLE_MS: i64 = 120000;

/// A thread waiting for the user is shown for a day after its last event.
pub const APPROVAL_VISIBLE_MS: i64 = 86400000;

/// Any other thread is shown for an hour after its last event.
pub const ACTIVE_VISIBLE_MS: i64 = 3600000;

/// At most this many threads are shown.
pub const MAX_VISIBLE_THREADS: usize = 8;

/// `a - b`, saturated to the range of `i64`.
pub open spec fn saturating_diff(a: i64, b: i64) -> i64 {
    if a - b > i64::MAX {
        i64::MAX
    } else if a - b < i64::MIN {
        i64::MIN
    } else {
        (a - b) as i64
    }
}

/// `a - b`, saturated to the range of `i64`.
pub fn saturating_difference(a: i64, b: i64) -> (r: i64)
    ensures
        r == saturating_diff(a, b),
{
    let d: i128 = a as i128 - b as i128;
    if d > i64::MAX as i128 {
        i64::MAX
    } else if d < i64::MIN as i128 {
        i64::MIN
    } else {
        d as i64
    }
}

/// A row of the thread table.
#[derive(Clone, Debug, PartialEq)]
pub struct ThreadRow {
    pub id: String,
    pub title: String,
    /// Last update of the row, in milliseconds since the epoch.
    pub updated_at: i64,
}

/// The status, its start, the time of the last change and the confidence of a
/// thread, before fading and visibility are applied.
pub open spec fn observed_state(now: i64, updated_at: i64, reduced: Option<(ReducedEvent, bool)>) -> (
    CodexStatus,
    i64,
    i64,
    ThreadConfidence,
) {
    match reduced {
        Some((e, malformed)) => (
            e.status,
            e.at,
            e.at,
            if malformed {
                ThreadConfidence::Limited
            } else {
                ThreadConfidence::Normal
            },
        ),
        None => (
            if saturating_diff(now, updated_at) < RECENT_UPDATE_MS {
                CodexStatus::Thinking
            } else {
                CodexStatus::Idle
            },
            updated_at,
            updated_at,
            ThreadConfidence::Limited,
        ),
    }
}

/// Completion and failure fade to idle once they are older than their hold time.
pub open spec fn faded_status(status: CodexStatus, event_age: i64) -> CodexStatus {
    match status {
        CodexStatus::Completed if event_age > COMPLETED_HOLD_MS => CodexStatus::Idle,
        CodexStatus::Failed if event_age > FAILED_HOLD_MS => CodexStatus::Idle,
        other => other,
    }
}

/// Whether a thread with this (faded) status and these ages is shown.
pub open spec fn shown(status: CodexStatus, event_age: i64, db_age: i64) -> bool {
    match status {
        CodexStatus::Idle => db_age < IDLE_VISIBLE_MS,
        CodexStatus::WaitingApproval => event_age < APPROVAL_VISIBLE_MS,
        _ => event_age < ACTIVE_VISIBLE_MS,
    }
}

/// The thread that a row shows at time `now`, if it is shown at all.
pub open spec fn assessed_thread(now: i64, row: ThreadRow, reduced: Option<(ReducedEvent, bool)>) -> Option<
    ThreadState,
> {
    let (status, since, changed, confidence) = observed_state(now, row.updated_at, reduced);
    let event_age = saturating_diff(now, changed);
    let faded = faded_status(status, event_age);
    if shown(faded, event_age, saturating_diff(now, row.updated_at)) {
        Some(
            ThreadState {
                id: row.id,
                title: row.title,
                status: faded,
                status_since: since,
                last_changed_at: changed,
                confidence,
            },
        )
    } else {
        None
    }
}

/// The thread that a row shows at time `now`, given the latest event of its
/// rollout file and whether that file had malformed lines; `None` when the
/// thread is too old to be shown.
pub fn assess_thread(now: i64, row: ThreadRow, reduced: Option<(ReducedEvent, bool)>) -> (r: Option<
    ThreadState,
>)
    ensures
        r == assessed_thread(now, row, reduced),
        reduced matches Some((e, m)) ==> (r matches Some(t) ==> {
            &&& t.status_since == e.at
            &&& t.last_changed_at == e.at
            &&& (e.status != CodexStatus::Completed && e.status != CodexStatus::Failed ==> t.status
                == e.status)
            &&& t.status == shown_event_status(now, e)
        }),
        reduced matches Some((e, m)) ==> (r is Some <==> ({
            let st = shown_event_status(now, e);
            if st == CodexStatus::Idle {
                now - row.updated_at < 120000
            } else if st == CodexStatus::WaitingApproval {
                now - e.at < 86400000
            } else {
                now - e.at < 3600000
            }
        })),
        reduced is None ==> (r matches Some(t) ==> t.status == (if now - row.updated_at < 12000 {
            CodexStatus::Thinking
        } else {
            CodexStatus::Idle
        })),
        reduced is None ==> (r is Some <==> now - row.updated_at < 120000),
{
    proof {
        match reduced {
            Some((e, m)) => lemma_thread_from_event(now, row, e, m),
            None => lemma_thread_from_database(now, row),
        }
    }
    let (status, since, changed, confidence) = match reduced {
        Some((e, malformed)) => (
            e.status,
            e.at,
            e.at,
            if malformed {
                ThreadConfidence::Limited
            } else {
                ThreadConfidence::Normal
            },
        ),
        None => (
            if saturating_difference(now, row.updated_at) < RECENT_UPDATE_MS {
                CodexStatus::Thinking
            } else {
                CodexStatus::Idle
            },
            row.updated_at,
            row.updated_at,
            ThreadConfidence::Limited,
        ),
    };
    let event_age = saturating_difference(now, changed);
    let faded = match status {
        CodexStatus::Completed if event_age > COMPLETED_HOLD_MS => CodexStatus::Idle,
        CodexStatus::Failed if event_age > FAILED_HOLD_MS => CodexStatus::Idle,
        other => other,
    };
    let db_age = saturating_difference(now, row.updated_at);
    let visible = match faded {
        CodexStatus::Idle => db_age < IDLE_VISIBLE_MS,
        CodexStatus::WaitingApproval => event_age < APPROVAL_VISIBLE_MS,
        _ => event_age < ACTIVE_VISIBLE_MS,
    };
    if visible {
        Some(
            ThreadState {
                id: row.id,
                title: row.title,
                status: faded,
                status_since: since,
                last_changed_at: changed,
                confidence,
            },
        )
    } else {
        None
    }
}

/// Offers one row to the list of shown threads; returns whether the list is now
/// full, after which no further row is looked at.
pub fn offer_thread(
    threads: &mut Vec<ThreadState>,
    now: i64,
    row: ThreadRow,
    reduced: Option<(ReducedEvent, bool)>,
) -> (full: bool)
    requires
        old(threads).len() < MAX_VISIBLE_THREADS,
    ensures
        final(threads)@ == match assessed_thread(now, row, reduced) {
            Some(t) => old(threads)@.push(t),
            None => old(threads)@,
        },
        final(threads).len() <= MAX_VISIBLE_THREADS,
        full == (final(threads).len() == MAX_VISIBLE_THREADS),
{
    match assess_thread(now, row, reduced) {
        Some(t) => threads.push(t),
        None => {},
    }
    threads.len() == MAX_VISIBLE_THREADS
}

/// A thread shown as completed or failed is still within its hold time, and a
/// shown thread whose status came from the database alone has limited confidence.
pub proof fn lemma_shown_threads_are_fresh(
    now: i64,
    row: ThreadRow,
    reduced: Option<(ReducedEvent, bool)>,
)
    ensures
        assessed_thread(now, row, reduced) matches Some(t) ==> {
            &&& t.status == CodexStatus::Completed ==> saturating_diff(now, t.last_changed_at)
                <= COMPLETED_HOLD_MS
            &&& t.status == CodexStatus::Failed ==> saturating_diff(now, t.last_changed_at)
                <= FAILED_HOLD_MS
            &&& reduced is None ==> t.confidence == ThreadConfidence::Limited
        },
{
}

} // verus!

verus! {

/// The most urgent of a non-empty list of statuses; among equally urgent ones
/// the last.
pub open spec fn most_urgent(s: Seq<CodexStatus>) -> CodexStatus
    recommends
        s.len() > 0,
    decreases s.len(),
{
    if s.len() <= 1 {
        s[0]
    } else {
        let best = most_urgent(s.drop_last());
        if s.last().rank() >= best.rank() {
            s.last()
        } else {
            best
        }
    }
}

/// The aggregate status of a list: the most urgent one, idle for an empty list.
pub open spec fn aggregate_status(s: Seq<CodexStatus>) -> CodexStatus {
    if s.len() == 0 {
        CodexStatus::Idle
    } else {
        most_urgent(s)
    }
}

/// The statuses of a list of threads.
pub open spec fn statuses(threads: Seq<ThreadState>) -> Seq<CodexStatus> {
    threads.map_values(|t: ThreadState| t.status)
}

/// Whether some thread has limited confidence.
pub open spec fn any_limited(threads: Seq<ThreadState>) -> bool {
    exists|i: int| 0 <= i < threads.len() && #[trigger] threads[i].confidence == ThreadConfidence::Limited
}

/// The most urgent status is one of the list and at least as urgent as each.
pub proof fn lemma_most_urgent(s: Seq<CodexStatus>)
    requires
        s.len() > 0,
    ensures
        s.contains(most_urgent(s)),
        forall|i: int| 0 <= i < s.len() ==> (#[trigger] s[i]).rank() <= most_urgent(s).rank(),
    decreases s.len(),
{
    if s.len() > 1 {
        lemma_most_urgent(s.drop_last());
        let best = most_urgent(s.drop_last());
        let k = choose|k: int| 0 <= k < s.drop_last().len() && s.drop_last()[k] == best;
        assert(s[k] == best);
        assert(s[s.len() - 1] == s.last());
        assert forall|i: int| 0 <= i < s.len() implies (#[trigger] s[i]).rank() <= most_urgent(
            s,
        ).rank() by {
            if i < s.len() - 1 {
                assert(s[i] == s.drop_last()[i]);
            }
        }
    } else {
        assert(s[0] == most_urgent(s));
    }
}

/// The aggregate of a snapshot's threads is as urgent as any thread, and it is
/// the status of one of them unless there is none.
pub proof fn lemma_aggregate_dominates(threads: Seq<ThreadState>)
    ensures
        forall|i: int| 0 <= i < threads.len() ==> (#[trigger] threads[i]).status.rank()
            <= aggregate_status(statuses(threads)).rank(),
        threads.len() > 0 ==> exists|i: int| 0 <= i < threads.len() && #[trigger] threads[i].status
            == aggregate_status(statuses(threads)),
        threads.len() == 0 ==> aggregate_status(statuses(threads)) == CodexStatus::Idle,
{
    let s = statuses(threads);
    if threads.len() > 0 {
        lemma_most_urgent(s);
        assert forall|i: int| 0 <= i < threads.len() implies (#[trigger] threads[i]).status.rank()
            <= aggregate_status(s).rank() by {
            assert(s[i] == threads[i].status);
        }
        let k = choose|k: int| 0 <= k < s.len() && s[k] == most_urgent(s);
        assert(threads[k].status == aggregate_status(s));
    }
}

/// The snapshot while Codex is not running.
pub fn offline_snapshot(now: i64) -> (r: StatusSnapshot)
    ensures
        r.aggregate == CodexStatus::Offline,
        r.threads@.len() == 0,
        r.health.level == HealthLevel::Unavailable,
        r.health.message@ == "Codex 未运行"@,
        r.health.last_successful_read is None,
        r.observed_at == now,
{
    StatusSnapshot {
        aggregate: CodexStatus::Offline,
        threads: Vec::new(),
        health: ProviderHealth {
            level: HealthLevel::Unavailable,
            message: String::from_str("Codex 未运行"),
            last_successful_read: None,
        },
        observed_at: now,
    }
}

/// The snapshot after the threads were read: the aggregate is the most urgent
/// thread status (idle without threads), and the health is degraded exactly when
/// some thread has limited confidence.
pub fn threads_snapshot(now: i64, threads: Vec<ThreadState>) -> (r: StatusSnapshot)
    ensures
        r.aggregate == aggregate_status(statuses(threads@)),
        r.threads == threads,
        r.health.level == (if any_limited(threads@) {
            HealthLevel::Degraded
        } else {
            HealthLevel::Healthy
        }),
        r.health.message@ == (if any_limited(threads@) {
            "部分线程仅能提供有限状态"@
        } else {
            "状态探测正常"@
        }),
        r.health.last_successful_read == Some(now),
        r.observed_at == now,
{
    let mut limited = false;
    let mut best = CodexStatus::Idle;
    let mut i: usize = 0;
    while i < threads.len()
        invariant
            i <= threads.len(),
            limited == exists|j: int| 0 <= j < i && #[trigger] threads@[j].confidence
                == ThreadConfidence::Limited,
            i > 0 ==> best == most_urgent(statuses(threads@).take(i as int)),
            i == 0 ==> best == CodexStatus::Idle,
        decreases threads.len() - i,
    {
        let ghost s = statuses(threads@);
        assert(s.take(i + 1).drop_last() =~= s.take(i as int));
        assert(s.take(i + 1).last() == threads@[i as int].status);
        if threads[i].confidence == ThreadConfidence::Limited {
            limited = true;
        }
        let status = threads[i].status;
        if i == 0 || status.priority() >= best.priority() {
            best = status;
        }
        i = i + 1;
    }
    proof {
        let s = statuses(threads@);
        assert(s.take(threads.len() as int) =~= s);
    }
    let level = if limited {
        HealthLevel::Degraded
    } else {
        HealthLevel::Healthy
    };
    let message = if limited {
        String::from_str("部分线程仅能提供有限状态")
    } else {
        String::from_str("状态探测正常")
    };
    StatusSnapshot {
        aggregate: best,
        threads,
        health: ProviderHealth { level, message, last_successful_read: Some(now) },
        observed_at: now,
    }
}

/// The prefix of the message of a snapshot taken after the threads could not be read.
pub open spec fn degraded_prefix() -> Seq<char> {
    "已降级为进程探测："@
}

/// The snapshot after the threads could not be read: idle, no threads, degraded
/// health with the reason.
pub fn degraded_snapshot(now: i64, error: &str) -> (r: StatusSnapshot)
    ensures
        r.aggregate == CodexStatus::Idle,
        r.threads@.len() == 0,
        r.health.level == HealthLevel::Degraded,
        r.health.message@ == degraded_prefix() + error@,
        r.health.last_successful_read is None,
        r.observed_at == now,
{
    let mut message = String::from_str("已降级为进程探测：");
    message.append(error);
    StatusSnapshot {
        aggregate: CodexStatus::Idle,
        threads: Vec::new(),
        health: ProviderHealth {
            level: HealthLevel::Degraded,
            message,
            last_successful_read: None,
        },
        observed_at: now,
    }
}

/// The snapshot of a running Codex after an attempt to read its threads.
pub fn snapshot_after_read(now: i64, read: Result<Vec<ThreadState>, String>) -> (r: StatusSnapshot)
    ensures
        read matches Ok(threads) ==> {
            &&& r.aggregate == aggregate_status(statuses(threads@))
            &&& r.threads == threads
            &&& r.health.level == (if any_limited(threads@) {
                HealthLevel::Degraded
            } else {
                HealthLevel::Healthy
            })
            &&& r.health.message@ == (if any_limited(threads@) {
                "部分线程仅能提供有限状态"@
            } else {
                "状态探测正常"@
            })
            &&& r.health.last_successful_read == Some(now)
        },
        read matches Err(e) ==> {
            &&& r.aggregate == CodexStatus::Idle
            &&& r.threads@.len() == 0
            &&& r.health.level == HealthLevel::Degraded
            &&& r.health.message@ == degraded_prefix() + e@
            &&& r.health.last_successful_read is None
        },
        r.observed_at == now,
{
    match read {
        Ok(threads) => threads_snapshot(now, threads),
        Err(e) => degraded_snapshot(now, e.as_str()),
    }
}

} // verus!

verus! {

/// Whether a column of this name is present.
pub open spec fn has_column(columns: Seq<String>, name: Seq<char>) -> bool {
    exists|i: int| 0 <= i < columns.len() && #[trigger] columns[i]@ == name
}

fn column_present(columns: &Vec<String>, name: &str) -> (r: bool)
    ensures
        r == has_column(columns@, name@),
{
    let mut i: usize = 0;
    while i < columns.len()
        invariant
            i <= columns.len(),
            forall|j: int| 0 <= j < i ==> (#[trigger] columns@[j])@ != name@,
        decreases columns.len() - i,
    {
        if same_text(columns[i].as_str(), name) {
            return true;
        }
        i = i + 1;
    }
    false
}

/// The title expression of the thread query.
pub open spec fn title_expr(columns: Seq<String>) -> Seq<char> {
    if has_column(columns, "title"@) {
        "COALESCE(title, '未命名任务')"@
    } else {
        "'未命名任务'"@
    }
}

/// The rollout path expression of the thread query.
pub open spec fn rollout_expr(columns: Seq<String>) -> Seq<char> {
    if has_column(columns, "rollout_path"@) {
        "rollout_path"@
    } else {
        "NULL"@
    }
}

/// The update time expression (milliseconds) of the thread query.
pub open spec fn updated_expr(columns: Seq<String>) -> Seq<char> {
    if has_column(columns, "updated_at_ms"@) {
        "COALESCE(updated_at_ms, 0)"@
    } else if has_column(columns, "updated_at"@) {
        "COALESCE(updated_at * 1000, 0)"@
    } else {
        "0"@
    }
}

/// The filter that leaves out archived threads, where the table knows them.
pub open spec fn archive_filter(columns: Seq<String>) -> Seq<char> {
    if has_column(columns, "archived"@) {
        "WHERE archived = 0"@
    } else {
        ""@
    }
}

/// The query of the 16 most recently updated threads.
pub open spec fn thread_query_text(columns: Seq<String>) -> Seq<char> {
    "SELECT id, "@ + title_expr(columns) + ", "@ + rollout_expr(columns) + ", "@ + updated_expr(
        columns,
    ) + " FROM threads "@ + archive_filter(columns) + " ORDER BY "@ + updated_expr(columns)
        + " DESC LIMIT 16"@
}

/// The message when the thread table lacks an `id` column.
pub open spec fn incompatible_table_message() -> Seq<char> {
    "threads 表结构不兼容"@
}

/// The query that reads the threads, adapted to the columns the thread table
/// has; an error when it has no `id` column.
pub fn thread_query(columns: &Vec<String>) -> (r: Result<String, String>)
    ensures
        r matches Ok(q) ==> has_column(columns@, "id"@) && q@ == thread_query_text(columns@),
        r matches Err(e) ==> !has_column(columns@, "id"@) && e@ == incompatible_table_message(),
{
    if !column_present(columns, "id") {
        return Err(String::from_str("threads 表结构不兼容"));
    }
    let title = if column_present(columns, "title") {
        "COALESCE(title, '未命名任务')"
    } else {
        "'未命名任务'"
    };
    let rollout = if column_present(columns, "rollout_path") {
        "rollout_path"
    } else {
        "NULL"
    };
    let updated = if column_present(columns, "updated_at_ms") {
        "COALESCE(updated_at_ms, 0)"
    } else if column_present(columns, "updated_at") {
        "COALESCE(updated_at * 1000, 0)"
    } else {
        "0"
    };
    let filter = if column_present(columns, "archived") {
        "WHERE archived = 0"
    } else {
        ""
    };
    let mut q = String::from_str("SELECT id, ");
    q.append(title);
    q.append(", ");
    q.append(rollout);
    q.append(", ");
    q.append(updated);
    q.append(" FROM threads ");
    q.append(filter);
    q.append(" ORDER BY ");
    q.append(updated);
    q.append(" DESC LIMIT 16");
    Ok(q)
}

/// The value of a decimal digit.
pub open spec fn digit_value(c: char) -> int {
    (c as int) - ('0' as int)
}

/// The value of a non-empty string of decimal digits.
pub open spec fn digits_value(s: Seq<char>) -> int
    decreases s.len(),
{
    if s.len() == 0 {
        0
    } else {
        digits_value(s.drop_last()) * 10 + digit_value(s.last())
    }
}

/// Every character is a decimal digit.
pub open spec fn all_digits(s: Seq<char>) -> bool {
    forall|i: int| 0 <= i < s.len() ==> '0' <= #[trigger] s[i] && s[i] <= '9'
}

/// What the standard library parses from a text as a `u32`: an optional `+`,
/// then one or more decimal digits whose value fits.
pub open spec fn decimal_u32(s: Seq<char>) -> Option<u32> {
    let d = if s.len() > 0 && s[0] == '+' {
        s.drop_first()
    } else {
        s
    };
    if d.len() > 0 && all_digits(d) && digits_value(d) <= u32::MAX {
        Some(digits_value(d) as u32)
    } else {
        None
    }
}

/// Calls `str::parse::<u32>`; its documentation describes the accepted texts as
/// an optional `+` followed by decimal digits whose value fits in a `u32`.
#[verifier::external_body]
fn parse_decimal_u32(text: &str) -> (r: Option<u32>)
    ensures
        r == decimal_u32(text@),
{
    text.parse::<u32>().ok()
}

/// A file name of a state database: `state_<n>.sqlite`.
pub open spec fn is_state_db_name(name: Seq<char>) -> bool {
    has_prefix(name, "state_"@) && has_suffix(name, ".sqlite"@)
}

/// The generation number of a state database name: the part between `state_`
/// and `.sqlite` read as a `u32`, and 0 when it is not one.
pub open spec fn state_db_generation(name: Seq<char>) -> u32 {
    if name.len() >= 13 {
        match decimal_u32(name.subrange(6, name.len() - 7)) {
            Some(v) => v,
            None => 0,
        }
    } else {
        0
    }
}

/// The message when the Codex home holds no state database.
pub open spec fn missing_state_db_message() -> Seq<char> {
    "未找到兼容的 Codex 状态数据库"@
}

fn generation_of(name: &str) -> (r: u32)
    ensures
        r == state_db_generation(name@),
{
    let n = name.unicode_len();
    if n >= 13 {
        let digits = name.substring_char(6, n - 7);
        match parse_decimal_u32(digits) {
            Some(v) => v,
            None => 0,
        }
    } else {
        0
    }
}

fn state_db_name(name: &str) -> (r: bool)
    ensures
        r == is_state_db_name(name@),
{
    let chars = chars_of(name);
    let prefix = chars_of("state_");
    let suffix = chars_of(".sqlite");
    begins_with(&chars, &prefix, false) && ends_with(&chars, &suffix, false)
}

/// Chooses the state database among the file names of the Codex home: the
/// `state_<n>.sqlite` file with the highest generation, the last listed among
/// equals; an error when there is none.
pub fn select_state_db(names: &Vec<String>) -> (r: Result<usize, String>)
    ensures
        r matches Ok(i) ==> {
            &&& 0 <= i < names.len()
            &&& is_state_db_name(names@[i as int]@)
            &&& forall|j: int|
                0 <= j < names.len() && is_state_db_name(#[trigger] names@[j]@) ==> state_db_generation(
                    names@[j]@,
                ) <= state_db_generation(names@[i as int]@)
            &&& forall|j: int|
                i < j < names.len() && is_state_db_name(#[trigger] names@[j]@) ==> state_db_generation(
                    names@[j]@,
                ) < state_db_generation(names@[i as int]@)
        },
        r matches Err(e) ==> {
            &&& e@ == missing_state_db_message()
            &&& forall|j: int| 0 <= j < names.len() ==> !is_state_db_name(#[trigger] names@[j]@)
        },
{
    let mut best: Option<usize> = None;
    let mut best_gen: u32 = 0;
    let mut i: usize = 0;
    while i < names.len()
        invariant
            i <= names.len(),
            best is None ==> forall|j: int| 0 <= j < i ==> !is_state_db_name(#[trigger] names@[j]@),
            best matches Some(b) ==> {
                &&& b < i
                &&& is_state_db_name(names@[b as int]@)
                &&& best_gen == state_db_generation(names@[b as int]@)
                &&& forall|j: int|
                    0 <= j < i && is_state_db_name(#[trigger] names@[j]@) ==> state_db_generation(
                        names@[j]@,
                    ) <= best_gen
                &&& forall|j: int|
                    b < j < i && is_state_db_name(#[trigger] names@[j]@) ==> state_db_generation(
                        names@[j]@,
                    ) < best_gen
            },
        decreases names.len() - i,
    {
        let name = names[i].as_str();
        if state_db_name(name) {
            let g = generation_of(name);
            let better = match best {
                None => true,
                Some(_) => g >= best_gen,
            };
            if better {
                best = Some(i);
                best_gen = g;
            }
        }
        i = i + 1;
    }
    match best {
        Some(b) => Ok(b),
        None => Err(String::from_str("未找到兼容的 Codex 状态数据库")),
    }
}

/// Whether a process is Codex: its lower-cased name is `codex.exe` or `codex`,
/// or begins with `codex-`.
pub open spec fn is_codex_name(name: Seq<char>) -> bool {
    lower(name) == "codex.exe"@ || lower(name) == "codex"@ || has_prefix(lower(name), "codex-"@)
}

/// Whether a process of this name is Codex.
pub fn is_codex_process(name: &str) -> (r: bool)
    ensures
        r == is_codex_name(name@),
{
    let chars = chars_of(name);
    let exe = chars_of("codex.exe");
    let bare = chars_of("codex");
    let dashed = chars_of("codex-");
    equals(&chars, &exe, true) || equals(&chars, &bare, true) || begins_with(&chars, &dashed, true)
}

/// Whether any of the running processes is Codex.
pub fn any_codex_process(names: &Vec<String>) -> (r: bool)
    ensures
        r == exists|i: int| 0 <= i < names.len() && is_codex_name(#[trigger] names@[i]@),
{
    let mut i: usize = 0;
    while i < names.len()
        invariant
            i <= names.len(),
            forall|j: int| 0 <= j < i ==> !is_codex_name(#[trigger] names@[j]@),
        decreases names.len() - i,
    {
        if is_codex_process(names[i].as_str()) {
            return true;
        }
        i = i + 1;
    }
    false
}

/// A changed file as the file watcher reports it.
#[derive(Clone, Debug, PartialEq)]
pub struct ChangedPath {
    /// The file name, when the path has one that is valid text.
    pub file_name: Option<String>,
    /// The extension, when the path has one that is valid text.
    pub extension: Option<String>,
}

/// Whether a change to this file can change the status: a `jsonl` rollout, or a
/// `state_` database file or its write-ahead log.
pub open spec fn is_relevant(p: ChangedPath) -> bool {
    let name = match p.file_name {
        Some(n) => n@,
        None => Seq::empty(),
    };
    (match p.extension {
        Some(e) => e@ == "jsonl"@,
        None => false,
    }) || (has_prefix(name, "state_"@) && (has_infix(name, ".sqlite"@) || has_suffix(name, "-wal"@)))
}

/// Whether a change to this file can change the status.
pub fn is_relevant_change(p: &ChangedPath) -> (r: bool)
    ensures
        r == is_relevant(*p),
{
    let jsonl = match &p.extension {
        Some(e) => same_text(e.as_str(), "jsonl"),
        None => false,
    };
    if jsonl {
        return true;
    }
    let name = match &p.file_name {
        Some(n) => chars_of(n.as_str()),
        None => Vec::new(),
    };
    let prefix = chars_of("state_");
    let db = chars_of(".sqlite");
    let wal = chars_of("-wal");
    begins_with(&name, &prefix, false) && (contains_at_any(&name, &db, false) || ends_with(
        &name,
        &wal,
        false,
    ))
}

/// Whether any of the changed files can change the status.
pub fn any_relevant_change(paths: &Vec<ChangedPath>) -> (r: bool)
    ensures
        r == exists|i: int| 0 <= i < paths.len() && is_relevant(#[trigger] paths@[i]),
{
    let mut i: usize = 0;
    while i < paths.len()
        invariant
            i <= paths.len(),
            forall|j: int| 0 <= j < i ==> !is_relevant(#[trigger] paths@[j]),
        decreases paths.len() - i,
    {
        if is_relevant_change(&paths[i]) {
            return true;
        }
        i = i + 1;
    }
    false
}

} // verus!

verus! {

/// The status a thread built from an event is shown with: the event's status,
/// except that completion older than 8 s and failure older than 15 s show as
/// idle (ages as exact differences; saturation does not change these tests).
pub open spec fn shown_event_status(now: i64, e: ReducedEvent) -> CodexStatus {
    if (e.status == CodexStatus::Completed && now - e.at > 8000) || (e.status
        == CodexStatus::Failed && now - e.at > 15000) {
        CodexStatus::Idle
    } else {
        e.status
    }
}

/// A thread built from the latest event of its rollout: it keeps the row's id
/// and title, starts and last changed at the event's time, has normal
/// confidence unless the rollout had malformed lines, keeps the event's status
/// (thinking, executing and waiting stay as they are; only completion older
/// than 8 s and failure older than 15 s turn idle), and is shown while an idle
/// one's row is younger than two minutes, a waiting one's event younger than a
/// day, and any other event younger than an hour.
pub proof fn lemma_thread_from_event(now: i64, row: ThreadRow, e: ReducedEvent, malformed: bool)
    ensures
        assessed_thread(now, row, Some((e, malformed))) matches Some(t) ==> {
            &&& t.id == row.id
            &&& t.title == row.title
            &&& t.status_since == e.at
            &&& t.last_changed_at == e.at
            &&& t.confidence == (if malformed {
                ThreadConfidence::Limited
            } else {
                ThreadConfidence::Normal
            })
            &&& (e.status != CodexStatus::Completed && e.status != CodexStatus::Failed ==> t.status
                == e.status)
            &&& (e.status == CodexStatus::Completed ==> (t.status == CodexStatus::Idle <==> now
                - e.at > 8000) && (t.status == CodexStatus::Idle || t.status
                == CodexStatus::Completed))
            &&& (e.status == CodexStatus::Failed ==> (t.status == CodexStatus::Idle <==> now
                - e.at > 15000) && (t.status == CodexStatus::Idle || t.status
                == CodexStatus::Failed))
        },
        assessed_thread(now, row, Some((e, malformed))) is Some <==> ({
            let st = shown_event_status(now, e);
            if st == CodexStatus::Idle {
                now - row.updated_at < 120000
            } else if st == CodexStatus::WaitingApproval {
                now - e.at < 86400000
            } else {
                now - e.at < 3600000
            }
        }),
{
}

/// A thread with no rollout event follows its database row: thinking while the
/// row is younger than 12 s, idle after; it starts and last changed at the
/// row's update, has limited confidence, and is shown while thinking for an
/// hour and while idle for two minutes after the update.
pub proof fn lemma_thread_from_database(now: i64, row: ThreadRow)
    ensures
        assessed_thread(now, row, None) matches Some(t) ==> {
            &&& t.id == row.id
            &&& t.title == row.title
            &&& t.status == (if now - row.updated_at < 12000 {
                CodexStatus::Thinking
            } else {
                CodexStatus::Idle
            })
            &&& t.status_since == row.updated_at
            &&& t.last_changed_at == row.updated_at
            &&& t.confidence == ThreadConfidence::Limited
        },
        assessed_thread(now, row, None) is Some <==> now - row.updated_at < 120000,
{
}

} // verus!
