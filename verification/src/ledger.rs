use crate::dto::{EntryLogQueryParams, PaginatedResponse, PaginationPayload};
use crate::error::AppError;
use crate::models::EntryLog;
use crate::state::{lemma_wf_depends_on_memberships, Store};
use crate::text::{lowercase, lowercase_of, text_view};
use vstd::prelude::*;

verus! {

/// The part of a listing that a caller gets: the page, its size, and how many
/// lines come before it.
#[derive(Clone, Copy, Debug, PartialEq, Eq, Structural)]
pub struct PageWindow {
    pub page: i32,
    pub per_page: i32,
    pub offset: i64,
}

/// The page that is served for a request: the first page and the default size
/// where none is asked for, no page before the first, and a size of at least
/// one and at most `max_per_page`.
pub open spec fn window_of(
    page: Option<i32>,
    per_page: Option<i32>,
    default_per_page: i32,
    max_per_page: i32,
) -> PageWindow {
    let asked_page = match page {
        Some(p) => p,
        None => 1i32,
    };
    let asked_size = match per_page {
        Some(s) => s,
        None => default_per_page,
    };
    let served_page = if asked_page < 1 {
        1i32
    } else {
        asked_page
    };
    let capped = if asked_size > max_per_page {
        max_per_page
    } else {
        asked_size
    };
    let served_size = if capped < 1 {
        1i32
    } else {
        capped
    };
    PageWindow {
        page: served_page,
        per_page: served_size,
        offset: ((served_page - 1) * served_size) as i64,
    }
}

/// The number of pages that `total` lines fill at `per_page` lines a page.
pub open spec fn pages_of(total: i64, per_page: i32) -> int {
    if total <= 0 || per_page <= 0 {
        0
    } else {
        (total - 1) / (per_page as int) + 1
    }
}

/// The number of lines that a listing returns at most: the default where none
/// is asked for, at least one, and at most `max`.
pub open spec fn limit_of(limit: Option<u32>, default: u32, max: u32) -> u32 {
    let asked = match limit {
        Some(l) => l,
        None => default,
    };
    let capped = if asked > max {
        max
    } else {
        asked
    };
    if capped < 1 {
        1u32
    } else {
        capped
    }
}

/// Computes the page that is served for a request.
pub fn page_window(
    page: Option<i32>,
    per_page: Option<i32>,
    default_per_page: i32,
    max_per_page: i32,
) -> (window: PageWindow)
    ensures
        window == window_of(page, per_page, default_per_page, max_per_page),
        window.page >= 1,
        window.per_page >= 1,
        window.offset == (window.page - 1) * window.per_page,
{
    let asked_page = match page {
        Some(p) => p,
        None => 1,
    };
    let asked_size = match per_page {
        Some(s) => s,
        None => default_per_page,
    };
    let served_page: i32 = if asked_page < 1 {
        1
    } else {
        asked_page
    };
    let capped: i32 = if asked_size > max_per_page {
        max_per_page
    } else {
        asked_size
    };
    let served_size: i32 = if capped < 1 {
        1
    } else {
        capped
    };
    let before: i64 = (served_page - 1) as i64;
    let size: i64 = served_size as i64;
    assert(0 <= before * size <= 0x7fff_ffff * 0x7fff_ffff) by (nonlinear_arith)
        requires
            0 <= before <= 0x7fff_ffff,
            1 <= size <= 0x7fff_ffff,
    ;
    PageWindow { page: served_page, per_page: served_size, offset: before * size }
}

/// The page of the audit ledger that is served for a query: fifty lines where
/// no size is asked for, and never more than a hundred.
pub fn entry_log_window(params: &EntryLogQueryParams) -> (window: PageWindow)
    ensures
        window == window_of(params.page, params.per_page, 50, 100),
{
    page_window(params.page, params.per_page, 50, 100)
}

/// Computes the number of pages of a listing.
pub fn total_pages(total: i64, per_page: i32) -> (pages: i64)
    ensures
        pages == pages_of(total, per_page),
{
    if total <= 0 || per_page <= 0 {
        0
    } else {
        (total - 1) / (per_page as i64) + 1
    }
}

/// The page of a member's memberships that is served: ten lines where no
/// size is asked for.
pub fn memberships_window(payload: &PaginationPayload) -> (window: PageWindow)
    ensures
        window == window_of(payload.page, payload.per_page, 10, i32::MAX),
{
    page_window(payload.page, payload.per_page, 10, i32::MAX)
}

/// Puts one page of a listing together with the totals of the whole listing.
pub fn paginate<T>(data: Vec<T>, total: i64, window: PageWindow) -> (response: PaginatedResponse<T>)
    ensures
        response.data == data,
        response.total == total,
        response.total_pages == pages_of(total, window.per_page),
        response.page == window.page,
        response.per_page == window.per_page,
{
    PaginatedResponse {
        data,
        total,
        total_pages: total_pages(total, window.per_page),
        page: window.page,
        per_page: window.per_page,
    }
}

/// Computes the number of lines that a listing returns at most.
pub fn clamp_limit(limit: Option<u32>, default: u32, max: u32) -> (served: u32)
    ensures
        served == limit_of(limit, default, max),
{
    let asked = match limit {
        Some(l) => l,
        None => default,
    };
    let capped = if asked > max {
        max
    } else {
        asked
    };
    if capped < 1 {
        1
    } else {
        capped
    }
}

/// The column by which the ledger is ordered: the one asked for if it is one
/// of member name, status and card, and the entry time otherwise.
pub open spec fn order_column(order_by: Option<Seq<char>>) -> Seq<char> {
    match order_by {
        None => "el.entry_time"@,
        Some(name) => if name == "member_name"@ {
            "el.member_name"@
        } else if name == "status"@ {
            "el.status"@
        } else if name == "card_id"@ {
            "el.card_id"@
        } else {
            "el.entry_time"@
        },
    }
}

/// The direction in which the ledger is ordered: ascending if that is asked
/// for, in any letter case, and descending otherwise.
pub open spec fn order_direction(direction: Option<Seq<char>>) -> Seq<char> {
    match direction {
        Some(d) => direction_word(lowercase_of(d)),
        None => "DESC"@,
    }
}

/// The keyword for a direction given in lower case: ascending for `asc`,
/// descending for anything else.
pub open spec fn direction_word(lowered: Seq<char>) -> Seq<char> {
    if lowered == "asc"@ {
        "ASC"@
    } else {
        "DESC"@
    }
}

/// Chooses the keyword for a direction given in lower case.
pub fn direction_keyword(lowered: &String) -> (word: &'static str)
    ensures
        word@ == direction_word(lowered@),
{
    if *lowered == String::from_str("asc") {
        "ASC"
    } else {
        "DESC"
    }
}

/// The ordering clause of a ledger query.
pub fn build_order_clause(params: &EntryLogQueryParams) -> (clause: String)
    ensures
        clause@ == "ORDER BY "@ + order_column(text_view(params.order_by)) + " "@
            + order_direction(text_view(params.order_direction)),
{
    let column = match &params.order_by {
        None => "el.entry_time",
        Some(name) => if *name == String::from_str("member_name") {
            "el.member_name"
        } else if *name == String::from_str("status") {
            "el.status"
        } else if *name == String::from_str("card_id") {
            "el.card_id"
        } else {
            "el.entry_time"
        },
    };
    let direction = match &params.order_direction {
        Some(d) => direction_keyword(&lowercase(d.as_str())),
        None => "DESC",
    };
    let mut clause = String::from_str("ORDER BY ");
    clause.append(column);
    clause.append(" ");
    clause.append(direction);
    clause
}

/// What a purge of the ledger removes.
#[derive(Clone, Copy, Debug, PartialEq, Eq, Structural)]
pub enum Purge {
    Everything,
    Before(i64),
}

/// The seconds of one purge period: thirty days.
pub const PURGE_PERIOD_SECS: i64 = 2_592_000;

/// What a purge with the given age removes at the instant `now`, or the
/// message with which it is refused. An age of zero removes everything; an
/// age of one to sixty periods removes what is older than that; any other age
/// is refused, and so is one that reaches before the first instant.
pub open spec fn purge_of(period: Option<i64>, now: i64) -> Result<Purge, Seq<char>> {
    match period {
        None => Err("Period must be specified"@),
        Some(p) => if p == 0 {
            Ok(Purge::Everything)
        } else if p < 0 || p > 60 {
            Err("Period must be between 0 and 60 months"@)
        } else if now - p * PURGE_PERIOD_SECS < i64::MIN {
            Err("Invalid period"@)
        } else {
            Ok(Purge::Before((now - p * PURGE_PERIOD_SECS) as i64))
        },
    }
}

/// Decides what a purge removes.
pub fn plan_purge(period: Option<i64>, now: i64) -> (res: Result<Purge, AppError>)
    ensures
        res is Ok <==> purge_of(period, now) is Ok,
        res matches Ok(purge) ==> purge_of(period, now) == Ok::<Purge, Seq<char>>(purge),
        res matches Err(e) ==> purge_of(period, now) is Err && e.is_validation(
            purge_of(period, now)->Err_0,
        ),
{
    let p = match period {
        Some(p) => p,
        None => {
            return Err(AppError::Validation(String::from_str("Period must be specified")));
        },
    };
    if p == 0 {
        return Ok(Purge::Everything);
    }
    if p < 0 || p > 60 {
        return Err(
            AppError::Validation(String::from_str("Period must be between 0 and 60 months")),
        );
    }
    let age: i64 = p * PURGE_PERIOD_SECS;
    match now.checked_sub(age) {
        Some(threshold) => Ok(Purge::Before(threshold)),
        None => Err(AppError::Validation(String::from_str("Invalid period"))),
    }
}

/// Whether a purge keeps a record.
pub open spec fn survives(log: EntryLog, purge: Purge) -> bool {
    match purge {
        Purge::Everything => false,
        Purge::Before(threshold) => log.entry_time >= threshold,
    }
}

/// The first `n` records of the ledger without those that the purge removes,
/// in their order.
pub open spec fn survivors_upto(logs: Seq<EntryLog>, purge: Purge, n: int) -> Seq<EntryLog>
    decreases n,
{
    if n <= 0 {
        Seq::empty()
    } else if survives(logs[n - 1], purge) {
        survivors_upto(logs, purge, n - 1).push(logs[n - 1])
    } else {
        survivors_upto(logs, purge, n - 1)
    }
}

/// The ledger without the record with identifier `id`.
pub open spec fn without_upto(logs: Seq<EntryLog>, id: i64, n: int) -> Seq<EntryLog>
    decreases n,
{
    if n <= 0 {
        Seq::empty()
    } else if logs[n - 1].id != id {
        without_upto(logs, id, n - 1).push(logs[n - 1])
    } else {
        without_upto(logs, id, n - 1)
    }
}

/// Whether a listing for `member` shows a record: every record where no
/// member is asked for, and otherwise the records of that member.
pub open spec fn shown(log: EntryLog, member: Option<i64>) -> bool {
    match member {
        Some(id) => log.member_id == Some(id),
        None => true,
    }
}

/// The records among the first `n` that a listing for `member` shows, in the
/// order in which they were written.
pub open spec fn shown_upto(logs: Seq<EntryLog>, member: Option<i64>, n: int) -> Seq<EntryLog>
    decreases n,
{
    if n <= 0 {
        Seq::empty()
    } else if shown(logs[n - 1], member) {
        shown_upto(logs, member, n - 1).push(logs[n - 1])
    } else {
        shown_upto(logs, member, n - 1)
    }
}

/// The listing for `member`: the records shown, last written first, and at
/// most `limit` of them.
pub open spec fn history_of(logs: Seq<EntryLog>, member: Option<i64>, limit: int) -> Seq<EntryLog> {
    let all = shown_upto(logs, member, logs.len() as int);
    let count = if all.len() < limit {
        all.len() as int
    } else {
        limit
    };
    Seq::new(count as nat, |i: int| all[all.len() - 1 - i])
}

/// A copy of a ledger record.
pub fn clone_log(log: &EntryLog) -> (copy: EntryLog)
    ensures
        copy == *log,
{
    EntryLog {
        id: log.id,
        member_id: log.member_id,
        membership_id: log.membership_id,
        member_name: match &log.member_name {
            Some(name) => Some(name.clone()),
            None => None,
        },
        card_id: log.card_id.clone(),
        entry_time: log.entry_time,
        status: log.status,
        notes: log.notes.clone(),
        local_date: log.local_date,
    }
}

impl Store {
    /// Purges the ledger: removes every record, or every record older than
    /// the given number of thirty-day periods. A refused purge removes
    /// nothing. Nothing but the ledger changes.
    pub fn delete_entry_logs(&mut self, period: Option<i64>, now: i64) -> (res: Result<
        (),
        AppError,
    >)
        ensures
            final(self).wf() == old(self).wf(),
            final(self).members == old(self).members,
            final(self).membership_types == old(self).membership_types,
            final(self).memberships == old(self).memberships,
            final(self).next_entry_log_id == old(self).next_entry_log_id,
            final(self).next_membership_id == old(self).next_membership_id,
            final(self).next_member_id == old(self).next_member_id,
            final(self).next_type_id == old(self).next_type_id,
            final(self).checkpoint == old(self).checkpoint,
            res is Ok <==> purge_of(period, now) is Ok,
            res matches Err(e) ==> final(self).entry_logs == old(self).entry_logs
                && e.is_validation(purge_of(period, now)->Err_0),
            res is Ok ==> final(self).entry_logs@ == survivors_upto(
                old(self).entry_logs@,
                purge_of(period, now)->Ok_0,
                old(self).entry_logs@.len() as int,
            ),
    {
        let purge = match plan_purge(period, now) {
            Ok(purge) => purge,
            Err(e) => {
                return Err(e);
            },
        };
        let mut kept: Vec<EntryLog> = Vec::new();
        let mut k: usize = 0;
        while k < self.entry_logs.len()
            invariant
                k <= self.entry_logs@.len(),
                *self == *old(self),
                kept@ == survivors_upto(self.entry_logs@, purge, k as int),
            decreases self.entry_logs@.len() - k,
        {
            let log = &self.entry_logs[k];
            let keep = match purge {
                Purge::Everything => false,
                Purge::Before(threshold) => log.entry_time >= threshold,
            };
            if keep {
                kept.push(clone_log(log));
            }
            k = k + 1;
        }
        self.entry_logs = kept;
        proof {
            lemma_wf_depends_on_memberships(*self, *old(self));
        }
        Ok(())
    }

    /// Lists the records of the ledger for `member`, or for everybody where
    /// no member is given: last written first, and at most `limit` of them.
    pub fn history(&self, member: Option<i64>, limit: u32) -> (listing: Vec<EntryLog>)
        ensures
            listing@ == history_of(self.entry_logs@, member, limit as int),
    {
        let mut all: Vec<EntryLog> = Vec::new();
        let mut k: usize = 0;
        while k < self.entry_logs.len()
            invariant
                k <= self.entry_logs@.len(),
                all@ == shown_upto(self.entry_logs@, member, k as int),
                all@.len() <= k,
            decreases self.entry_logs@.len() - k,
        {
            let log = &self.entry_logs[k];
            let wanted = match member {
                Some(id) => match log.member_id {
                    Some(theirs) => theirs == id,
                    None => false,
                },
                None => true,
            };
            if wanted {
                all.push(clone_log(log));
            }
            k = k + 1;
        }
        let total = all.len();
        let count: usize = if total < limit as usize {
            total
        } else {
            limit as usize
        };
        let mut listing: Vec<EntryLog> = Vec::new();
        let mut i: usize = 0;
        while i < count
            invariant
                i <= count <= total,
                total == all@.len(),
                listing@.len() == i,
                forall|j: int| 0 <= j < i ==> listing@[j] == all@[total - 1 - j],
            decreases count - i,
        {
            listing.push(clone_log(&all[total - 1 - i]));
            i = i + 1;
        }
        assert(listing@ =~= history_of(self.entry_logs@, member, limit as int));
        listing
    }

    /// Lists the most recent records of the ledger: a hundred where no
    /// number is asked for, at least one and at most five hundred.
    pub fn get_recent_entry_logs(&self, limit: Option<u32>) -> (listing: Vec<EntryLog>)
        ensures
            listing@ == history_of(self.entry_logs@, None, limit_of(limit, 100, 500) as int),
    {
        self.history(None, clamp_limit(limit, 100, 500))
    }

    /// Lists the most recent records of a member: fifty where no number is
    /// asked for, at least one and at most two hundred.
    pub fn get_member_entry_logs(&self, member_id: i64, limit: Option<u32>) -> (listing: Vec<
        EntryLog,
    >)
        ensures
            listing@ == history_of(
                self.entry_logs@,
                Some(member_id),
                limit_of(limit, 50, 200) as int,
            ),
    {
        self.history(Some(member_id), clamp_limit(limit, 50, 200))
    }

    /// Removes the ledger record with the given identifier, if there is one.
    pub fn delete_entry_log(&mut self, entry_log_id: i64)
        ensures
            final(self).wf() == old(self).wf(),
            final(self).members == old(self).members,
            final(self).membership_types == old(self).membership_types,
            final(self).memberships == old(self).memberships,
            final(self).next_entry_log_id == old(self).next_entry_log_id,
            final(self).next_membership_id == old(self).next_membership_id,
            final(self).next_member_id == old(self).next_member_id,
            final(self).next_type_id == old(self).next_type_id,
            final(self).checkpoint == old(self).checkpoint,
            final(self).entry_logs@ == without_upto(
                old(self).entry_logs@,
                entry_log_id,
                old(self).entry_logs@.len() as int,
            ),
    {
        let mut kept: Vec<EntryLog> = Vec::new();
        let mut k: usize = 0;
        while k < self.entry_logs.len()
            invariant
                k <= self.entry_logs@.len(),
                *self == *old(self),
                kept@ == without_upto(self.entry_logs@, entry_log_id, k as int),
            decreases self.entry_logs@.len() - k,
        {
            let log = &self.entry_logs[k];
            if log.id != entry_log_id {
                kept.push(clone_log(log));
            }
            k = k + 1;
        }
        self.entry_logs = kept;
        proof {
            lemma_wf_depends_on_memberships(*self, *old(self));
        }
    }
}

/// What survives a purge is what the ledger held at or after the threshold,
/// and each survivor was in the ledger.
pub proof fn lemma_survivors_are_recent(logs: Seq<EntryLog>, purge: Purge, n: int)
    requires
        0 <= n <= logs.len(),
    ensures
        survivors_upto(logs, purge, n).len() <= n,
        forall|i: int|
            0 <= i < survivors_upto(logs, purge, n).len() ==> survives(
                #[trigger] survivors_upto(logs, purge, n)[i],
                purge,
            ) && exists|j: int| 0 <= j < n && logs[j] == survivors_upto(logs, purge, n)[i],
        purge == Purge::Everything ==> survivors_upto(logs, purge, n).len() == 0,
    decreases n,
{
    if n > 0 {
        lemma_survivors_are_recent(logs, purge, n - 1);
        let before = survivors_upto(logs, purge, n - 1);
        let now = survivors_upto(logs, purge, n);
        assert forall|i: int| 0 <= i < now.len() implies survives(#[trigger] now[i], purge)
            && exists|j: int| 0 <= j < n && logs[j] == now[i] by {
            if i < before.len() {
                assert(now[i] == before[i]);
                let j = choose|j: int| 0 <= j < n - 1 && logs[j] == before[i];
                assert(logs[j] == now[i]);
            } else {
                assert(logs[n - 1] == now[i]);
            }
        }
    }
}

} // verus!
