use crate::clock::{
    day_label, day_label_of, facility_clock, read_clock, timezone_known, Clock, MAX_CLOCK_SECS,
};
use crate::dto::{
    invalid_input_result, EntryStatus, ManualEntry, ScanPayload, ScanPayloadSingle,
    ScanProcessingResult, ScanResultView,
};
use crate::error::AppError;
use crate::lifecycle::{lifecycle, lifecycle_status, MembershipStatus};
use crate::models::{EntryLog, LogStatus, Member, Membership, MembershipType};
use crate::state::{AppState, Store};
use crate::text::{
    trim, trimmed, clone_text, decimal_text, full_name, full_name_of, integer_text, prefixed, text_or_empty,
    text_or_nothing, text_view,
};
use vstd::prelude::*;

verus! {

/// Whether a member answers to a credential: the member is not deleted, and
/// the credential is the member's full or short card identifier.
pub open spec fn member_matches(member: Member, credential: Seq<char>) -> bool {
    &&& !member.is_deleted
    &&& (text_view(member.card_id) == Some(credential) || text_view(member.short_card_id) == Some(
        credential,
    ))
}

/// The first of the first `n` members that answers to the credential.
pub open spec fn member_upto(members: Seq<Member>, credential: Seq<char>, n: int) -> Option<int>
    decreases n,
{
    if n <= 0 {
        None
    } else {
        match member_upto(members, credential, n - 1) {
            Some(i) => Some(i),
            None => if member_matches(members[n - 1], credential) {
                Some(n - 1)
            } else {
                None
            },
        }
    }
}

/// The member that a credential resolves to: the first one that answers to it.
pub open spec fn resolved_member(members: Seq<Member>, credential: Seq<char>) -> Option<int> {
    member_upto(members, credential, members.len() as int)
}

/// Whether a membership belongs to a member and is not deleted.
pub open spec fn is_candidate(membership: Membership, member_id: i64) -> bool {
    membership.member_id == member_id && !membership.is_deleted
}

/// The class of a status in the choice of the governing membership: active
/// before pending before every other status.
pub open spec fn status_class(status: MembershipStatus) -> int {
    match status {
        MembershipStatus::Active => 0,
        MembershipStatus::Pending => 1,
        _ => 2,
    }
}

/// The key by which memberships of one class are ordered: among pending ones
/// the soonest start date comes first, among all others the latest.
pub open spec fn date_key(membership: Membership) -> int {
    if membership.status == MembershipStatus::Pending {
        membership.start_date as int
    } else {
        -(membership.start_date as int)
    }
}

/// Whether membership `a` governs admission rather than membership `b`.
pub open spec fn precedes(a: Membership, b: Membership) -> bool {
    status_class(a.status) < status_class(b.status) || (status_class(a.status) == status_class(
        b.status,
    ) && date_key(a) < date_key(b))
}

/// The governing membership among the first `n`: a candidate that no other
/// candidate precedes, and the earliest such one.
pub open spec fn relevant_upto(memberships: Seq<Membership>, member_id: i64, n: int) -> Option<
    int,
>
    decreases n,
{
    if n <= 0 {
        None
    } else {
        let before = relevant_upto(memberships, member_id, n - 1);
        if is_candidate(memberships[n - 1], member_id) && (before is None || precedes(
            memberships[n - 1],
            memberships[before->0],
        )) {
            Some(n - 1)
        } else {
            before
        }
    }
}

/// The membership of a member that governs admission.
pub open spec fn relevant_membership(memberships: Seq<Membership>, member_id: i64) -> Option<int> {
    relevant_upto(memberships, member_id, memberships.len() as int)
}

/// The first of the first `n` membership types with the identifier `id`.
pub open spec fn type_upto(types: Seq<MembershipType>, id: i64, n: int) -> Option<int>
    decreases n,
{
    if n <= 0 {
        None
    } else {
        match type_upto(types, id, n - 1) {
            Some(i) => Some(i),
            None => if types[n - 1].id == id {
                Some(n - 1)
            } else {
                None
            },
        }
    }
}

/// Whether a ledger record is an admission of the member on the local day.
pub open spec fn is_admission_on(log: EntryLog, member_id: i64, day: i32) -> bool {
    log.member_id == Some(member_id) && log.local_date == day && log.status == LogStatus::Allowed
}

/// Whether the ledger holds an admission of the member on the local day.
pub open spec fn admitted_on(logs: Seq<EntryLog>, member_id: i64, day: i32) -> bool {
    exists|i: int| 0 <= i < logs.len() && is_admission_on(#[trigger] logs[i], member_id, day)
}

/// What the pipeline decides for one membership: the outcome for the caller
/// and for the ledger, the reason, and the status and visit count that the
/// membership has afterwards.
pub struct Verdict {
    pub status: EntryStatus,
    pub log_status: LogStatus,
    pub message: Seq<char>,
    pub membership_status: MembershipStatus,
    pub remaining_visits: Option<i64>,
}

/// The executable form of a `Verdict`.
#[derive(Clone, Debug)]
pub struct Decision {
    pub status: EntryStatus,
    pub log_status: LogStatus,
    pub message: String,
    pub membership_status: MembershipStatus,
    pub remaining_visits: Option<i64>,
}

impl View for Decision {
    type V = Verdict;

    open spec fn view(&self) -> Verdict {
        Verdict {
            status: self.status,
            log_status: self.log_status,
            message: self.message@,
            membership_status: self.membership_status,
            remaining_visits: self.remaining_visits,
        }
    }
}

/// The reason given for a membership that expired by its date.
pub open spec fn expired_message(end_date: Option<i32>) -> Seq<char> {
    match end_date {
        Some(end) => "expired_on|"@ + day_label_of(end),
        None => "expired"@,
    }
}

/// The decision of the pipeline for the governing membership.
///
/// A membership without a visit count is refused as invalid and left as it
/// is. Otherwise the lifecycle status of the day is computed and kept, and the
/// scan is refused unless that status is active. An active membership is
/// refused at or after the cutoff hour of its type, then if the member was
/// admitted earlier on the same local day. Otherwise the scan is allowed: one
/// visit is taken, and the membership expires when none is left.
pub open spec fn verdict(
    membership: Membership,
    enter_by: Option<i64>,
    admitted_today: bool,
    clock: Clock,
) -> Verdict {
    let status = lifecycle(
        membership.status,
        membership.start_date,
        membership.end_date,
        membership.remaining_visits,
        clock.today,
    );
    if membership.remaining_visits is None {
        Verdict {
            status: EntryStatus::DeniedNoMembership,
            log_status: LogStatus::DeniedNoMembership,
            message: "invalid_membership"@,
            membership_status: membership.status,
            remaining_visits: None,
        }
    } else {
        let visits = membership.remaining_visits->0;
        match status {
            MembershipStatus::Expired => if visits <= 0 {
                Verdict {
                    status: EntryStatus::DeniedNoVisitsLeft,
                    log_status: LogStatus::DeniedNoVisitsLeft,
                    message: "no_visits_left"@,
                    membership_status: status,
                    remaining_visits: Some(visits),
                }
            } else {
                Verdict {
                    status: EntryStatus::DeniedMembershipExpired,
                    log_status: LogStatus::DeniedMembershipExpired,
                    message: expired_message(membership.end_date),
                    membership_status: status,
                    remaining_visits: Some(visits),
                }
            },
            MembershipStatus::Pending => Verdict {
                status: EntryStatus::DeniedMembershipNotActiveYet,
                log_status: LogStatus::DeniedMembershipNotActiveYet,
                message: "pending|"@ + day_label_of(membership.start_date) + "."@,
                membership_status: status,
                remaining_visits: Some(visits),
            },
            MembershipStatus::Inactive => Verdict {
                status: EntryStatus::DeniedMembershipInactive,
                log_status: LogStatus::DeniedMembershipInactive,
                message: "inactive"@,
                membership_status: status,
                remaining_visits: Some(visits),
            },
            MembershipStatus::Suspended => Verdict {
                status: EntryStatus::DeniedMembershipSuspended,
                log_status: LogStatus::DeniedMembershipSuspended,
                message: "suspended"@,
                membership_status: status,
                remaining_visits: Some(visits),
            },
            MembershipStatus::Active => if enter_by is Some && clock.hour >= enter_by->0 {
                Verdict {
                    status: EntryStatus::DeniedAfterHours,
                    log_status: LogStatus::DeniedAfterHours,
                    message: "after_hours|"@ + decimal_text(enter_by->0),
                    membership_status: status,
                    remaining_visits: Some(visits),
                }
            } else if admitted_today {
                Verdict {
                    status: EntryStatus::DeniedAlreadyCheckedIn,
                    log_status: LogStatus::DeniedAlreadyCheckedIn,
                    message: "already_checked"@,
                    membership_status: status,
                    remaining_visits: Some(visits),
                }
            } else {
                Verdict {
                    status: EntryStatus::Allowed,
                    log_status: LogStatus::Allowed,
                    message: "allowed"@,
                    membership_status: if visits - 1 > 0 {
                        MembershipStatus::Active
                    } else {
                        MembershipStatus::Expired
                    },
                    remaining_visits: Some((visits - 1) as i64),
                }
            },
        }
    }
}

/// The membership after a decision: with the decided status and visit count,
/// and marked as updated at `now` if either changed.
pub open spec fn settled(membership: Membership, decided: Verdict, now: i64) -> Membership {
    if decided.membership_status != membership.status || decided.remaining_visits
        != membership.remaining_visits {
        Membership {
            status: decided.membership_status,
            remaining_visits: decided.remaining_visits,
            updated_at: now,
            ..membership
        }
    } else {
        membership
    }
}

/// What a ledger record says, apart from its identifier and its time.
pub struct LedgerLine {
    pub member_id: Option<i64>,
    pub membership_id: Option<i64>,
    pub member_name: Option<Seq<char>>,
    pub card_id: Seq<char>,
    pub status: LogStatus,
    pub notes: Seq<char>,
}

/// Whether `log` is the record with identifier `id` that was written at the
/// reading `clock` and says `line`.
pub open spec fn records(log: EntryLog, id: i64, line: LedgerLine, clock: Clock) -> bool {
    &&& log.id == id
    &&& log.member_id == line.member_id
    &&& log.membership_id == line.membership_id
    &&& text_view(log.member_name) == line.member_name
    &&& log.card_id@ == line.card_id
    &&& log.entry_time == clock.now
    &&& log.status == line.status
    &&& log.notes@ == line.notes
    &&& log.local_date == clock.today
}

/// What one scan does: the result for the caller, the line written to the
/// ledger, and the memberships afterwards.
pub struct ScanPlan {
    pub result: ScanResultView,
    pub line: LedgerLine,
    pub memberships: Seq<Membership>,
}

/// What a scan of `credential` at the reading `clock` does to `store`.
///
/// An unknown credential is refused. So is a member without a membership.
/// Otherwise the governing membership is judged by `verdict` and settled, with
/// the cutoff hour of its type and the ledger's admissions of the day.
pub open spec fn scan_plan(store: Store, credential: Seq<char>, clock: Clock) -> ScanPlan {
    match resolved_member(store.members@, credential) {
        None => ScanPlan {
            result: ScanResultView {
                status: EntryStatus::DeniedMemberNotFound,
                message: "member_not_found"@,
                member_name: None,
                card_id: Some(credential),
                membership_type_name: None,
                membership_end_date: None,
                remaining_visits: None,
            },
            line: LedgerLine {
                member_id: None,
                membership_id: None,
                member_name: None,
                card_id: credential,
                status: LogStatus::DeniedMemberNotFound,
                notes: "member_not_found"@,
            },
            memberships: store.memberships@,
        },
        Some(mi) => {
            let member = store.members@[mi];
            let name = full_name_of(member.first_name@, member.last_name@);
            let card = match member.card_id {
                Some(c) => c@,
                None => credential,
            };
            match relevant_membership(store.memberships@, member.id) {
                None => ScanPlan {
                    result: ScanResultView {
                        status: EntryStatus::DeniedNoMembership,
                        message: "no_membership"@,
                        member_name: Some(name),
                        card_id: Some(card),
                        membership_type_name: None,
                        membership_end_date: None,
                        remaining_visits: None,
                    },
                    line: LedgerLine {
                        member_id: Some(member.id),
                        membership_id: None,
                        member_name: Some(name),
                        card_id: card,
                        status: LogStatus::DeniedNoMembership,
                        notes: "no_membership"@,
                    },
                    memberships: store.memberships@,
                },
                Some(si) => {
                    let membership = store.memberships@[si];
                    let ti = type_upto(
                        store.membership_types@,
                        membership.membership_type_id,
                        store.membership_types@.len() as int,
                    );
                    let enter_by = match ti {
                        Some(t) => store.membership_types@[t].enter_by,
                        None => None,
                    };
                    let kind_name = match ti {
                        Some(t) => Some(store.membership_types@[t].name@),
                        None => None,
                    };
                    let decided = verdict(
                        membership,
                        enter_by,
                        admitted_on(store.entry_logs@, member.id, clock.today),
                        clock,
                    );
                    let allowed = decided.status == EntryStatus::Allowed;
                    ScanPlan {
                        result: ScanResultView {
                            status: decided.status,
                            message: decided.message,
                            member_name: Some(name),
                            card_id: if allowed {
                                text_view(member.card_id)
                            } else {
                                Some(card)
                            },
                            membership_type_name: kind_name,
                            membership_end_date: membership.end_date,
                            remaining_visits: if allowed {
                                decided.remaining_visits
                            } else {
                                membership.remaining_visits
                            },
                        },
                        line: LedgerLine {
                            member_id: Some(member.id),
                            membership_id: Some(membership.id),
                            member_name: Some(name),
                            card_id: card,
                            status: decided.log_status,
                            notes: decided.message,
                        },
                        memberships: store.memberships@.update(
                            si,
                            settled(membership, decided, clock.now),
                        ),
                    }
                },
            }
        },
    }
}

/// Whether `post` is `pre` with one more ledger record, which has the next
/// identifier and the time of `clock` and says `line`, and with `memberships`
/// for its memberships.
pub open spec fn committed(
    pre: Store,
    post: Store,
    line: LedgerLine,
    memberships: Seq<Membership>,
    clock: Clock,
) -> bool {
    &&& post.members == pre.members
    &&& post.membership_types == pre.membership_types
    &&& post.checkpoint == pre.checkpoint
    &&& post.next_membership_id == pre.next_membership_id
    &&& post.next_member_id == pre.next_member_id
    &&& post.next_type_id == pre.next_type_id
    &&& post.memberships@ == memberships
    &&& post.next_entry_log_id == pre.next_entry_log_id + 1
    &&& post.entry_logs@.len() == pre.entry_logs@.len() + 1
    &&& post.entry_logs@.subrange(0, pre.entry_logs@.len() as int) == pre.entry_logs@
    &&& records(post.entry_logs@[pre.entry_logs@.len() as int], pre.next_entry_log_id, line, clock)
}

/// Whether a scan of `credential` at `clock` takes the store from `pre` to
/// `post` and returns `result`.
pub open spec fn admitted(
    pre: Store,
    post: Store,
    result: ScanResultView,
    credential: Seq<char>,
    clock: Clock,
) -> bool {
    let plan = scan_plan(pre, credential, clock);
    result == plan.result && committed(pre, post, plan.line, plan.memberships, clock)
}

/// Finds the member that a credential resolves to.
pub fn find_member(members: &Vec<Member>, credential: &String) -> (found: Option<usize>)
    ensures
        found is Some <==> resolved_member(members@, credential@) is Some,
        found matches Some(i) ==> resolved_member(members@, credential@) == Some(i as int) && i
            < members@.len(),
{
    let mut found: Option<usize> = None;
    let mut k: usize = 0;
    while k < members.len()
        invariant
            k <= members@.len(),
            found is Some <==> member_upto(members@, credential@, k as int) is Some,
            found matches Some(i) ==> member_upto(members@, credential@, k as int) == Some(
                i as int,
            ) && i < k,
        decreases members@.len() - k,
    {
        if found.is_none() {
            let member = &members[k];
            let by_card = match &member.card_id {
                Some(card) => *card == *credential,
                None => false,
            };
            let by_short = match &member.short_card_id {
                Some(card) => *card == *credential,
                None => false,
            };
            if !member.is_deleted && (by_card || by_short) {
                found = Some(k);
            }
        }
        k = k + 1;
    }
    found
}

/// Decides whether membership `a` governs admission rather than `b`.
pub fn is_more_relevant(a: &Membership, b: &Membership) -> (res: bool)
    ensures
        res == precedes(*a, *b),
{
    let class_a: u8 = match a.status {
        MembershipStatus::Active => 0,
        MembershipStatus::Pending => 1,
        _ => 2,
    };
    let class_b: u8 = match b.status {
        MembershipStatus::Active => 0,
        MembershipStatus::Pending => 1,
        _ => 2,
    };
    if class_a != class_b {
        class_a < class_b
    } else if a.status == MembershipStatus::Pending {
        a.start_date < b.start_date
    } else {
        a.start_date > b.start_date
    }
}

/// Selects the membership of a member that governs admission.
pub fn select_membership(memberships: &Vec<Membership>, member_id: i64) -> (found: Option<usize>)
    ensures
        found is Some <==> relevant_membership(memberships@, member_id) is Some,
        found matches Some(i) ==> relevant_membership(memberships@, member_id) == Some(i as int)
            && i < memberships@.len(),
{
    let mut best: Option<usize> = None;
    let mut k: usize = 0;
    while k < memberships.len()
        invariant
            k <= memberships@.len(),
            best is Some <==> relevant_upto(memberships@, member_id, k as int) is Some,
            best matches Some(i) ==> relevant_upto(memberships@, member_id, k as int) == Some(
                i as int,
            ) && i < k,
        decreases memberships@.len() - k,
    {
        let candidate = &memberships[k];
        if candidate.member_id == member_id && !candidate.is_deleted {
            let better = match best {
                Some(b) => is_more_relevant(candidate, &memberships[b]),
                None => true,
            };
            if better {
                best = Some(k);
            }
        }
        k = k + 1;
    }
    best
}

/// Finds the membership type with the identifier `id`.
pub fn find_type(types: &Vec<MembershipType>, id: i64) -> (found: Option<usize>)
    ensures
        found is Some <==> type_upto(types@, id, types@.len() as int) is Some,
        found matches Some(i) ==> type_upto(types@, id, types@.len() as int) == Some(i as int)
            && i < types@.len(),
{
    let mut found: Option<usize> = None;
    let mut k: usize = 0;
    while k < types.len()
        invariant
            k <= types@.len(),
            found is Some <==> type_upto(types@, id, k as int) is Some,
            found matches Some(i) ==> type_upto(types@, id, k as int) == Some(i as int) && i < k,
        decreases types@.len() - k,
    {
        if found.is_none() && types[k].id == id {
            found = Some(k);
        }
        k = k + 1;
    }
    found
}

/// Tells whether the ledger holds an admission of the member on the day.
pub fn already_checked_in(logs: &Vec<EntryLog>, member_id: i64, day: i32) -> (res: bool)
    ensures
        res == admitted_on(logs@, member_id, day),
{
    let mut k: usize = 0;
    while k < logs.len()
        invariant
            k <= logs@.len(),
            forall|i: int| 0 <= i < k ==> !is_admission_on(#[trigger] logs@[i], member_id, day),
        decreases logs@.len() - k,
    {
        let log = &logs[k];
        let same_member = match log.member_id {
            Some(id) => id == member_id,
            None => false,
        };
        if same_member && log.local_date == day && log.status == LogStatus::Allowed {
            return true;
        }
        k = k + 1;
    }
    false
}

/// Decides the scan for the governing membership.
pub fn decide_admission(
    membership: &Membership,
    enter_by: Option<i64>,
    admitted_today: bool,
    clock: &Clock,
) -> (decision: Decision)
    requires
        membership.wf(),
    ensures
        decision@ == verdict(*membership, enter_by, admitted_today, *clock),
{
    let visits = match membership.remaining_visits {
        Some(visits) => visits,
        None => {
            return Decision {
                status: EntryStatus::DeniedNoMembership,
                log_status: LogStatus::DeniedNoMembership,
                message: String::from_str("invalid_membership"),
                membership_status: membership.status,
                remaining_visits: None,
            };
        },
    };
    let status = lifecycle_status(
        membership.status,
        membership.start_date,
        membership.end_date,
        membership.remaining_visits,
        clock.today,
    );
    match status {
        MembershipStatus::Expired => {
            if visits <= 0 {
                Decision {
                    status: EntryStatus::DeniedNoVisitsLeft,
                    log_status: LogStatus::DeniedNoVisitsLeft,
                    message: String::from_str("no_visits_left"),
                    membership_status: status,
                    remaining_visits: Some(visits),
                }
            } else {
                let message = match membership.end_date {
                    Some(end) => prefixed("expired_on|", &day_label(end)),
                    None => String::from_str("expired"),
                };
                Decision {
                    status: EntryStatus::DeniedMembershipExpired,
                    log_status: LogStatus::DeniedMembershipExpired,
                    message,
                    membership_status: status,
                    remaining_visits: Some(visits),
                }
            }
        },
        MembershipStatus::Pending => {
            let mut message = prefixed("pending|", &day_label(membership.start_date));
            message.append(".");
            Decision {
                status: EntryStatus::DeniedMembershipNotActiveYet,
                log_status: LogStatus::DeniedMembershipNotActiveYet,
                message,
                membership_status: status,
                remaining_visits: Some(visits),
            }
        },
        MembershipStatus::Inactive => Decision {
            status: EntryStatus::DeniedMembershipInactive,
            log_status: LogStatus::DeniedMembershipInactive,
            message: String::from_str("inactive"),
            membership_status: status,
            remaining_visits: Some(visits),
        },
        MembershipStatus::Suspended => Decision {
            status: EntryStatus::DeniedMembershipSuspended,
            log_status: LogStatus::DeniedMembershipSuspended,
            message: String::from_str("suspended"),
            membership_status: status,
            remaining_visits: Some(visits),
        },
        MembershipStatus::Active => {
            let late = match enter_by {
                Some(cutoff) => clock.hour as i64 >= cutoff,
                None => false,
            };
            if late {
                let cutoff = enter_by.unwrap();
                Decision {
                    status: EntryStatus::DeniedAfterHours,
                    log_status: LogStatus::DeniedAfterHours,
                    message: prefixed("after_hours|", &integer_text(cutoff)),
                    membership_status: status,
                    remaining_visits: Some(visits),
                }
            } else if admitted_today {
                Decision {
                    status: EntryStatus::DeniedAlreadyCheckedIn,
                    log_status: LogStatus::DeniedAlreadyCheckedIn,
                    message: String::from_str("already_checked"),
                    membership_status: status,
                    remaining_visits: Some(visits),
                }
            } else {
                let left = visits - 1;
                Decision {
                    status: EntryStatus::Allowed,
                    log_status: LogStatus::Allowed,
                    message: String::from_str("allowed"),
                    membership_status: if left > 0 {
                        MembershipStatus::Active
                    } else {
                        MembershipStatus::Expired
                    },
                    remaining_visits: Some(left),
                }
            }
        },
    }
}


/// The message of the error that a full ledger gives.
pub open spec fn ledger_full_message() -> Seq<char> {
    "Entry log identifiers are exhausted"@
}

/// What a manual admission writes and returns, or `None` for a payload with
/// neither a credential nor a name.
pub open spec fn manual_plan(store: Store, payload: ManualEntry) -> Option<
    (ScanResultView, LedgerLine),
> {
    if payload.card_id is Some && payload.card_id->0.len() > 0 {
        let credential = payload.card_id->0;
        match resolved_member(store.members@, credential) {
            None => Some(
                (
                    ScanResultView {
                        status: EntryStatus::DeniedMemberNotFound,
                        message: "member_not_found"@,
                        member_name: None,
                        card_id: Some(credential),
                        membership_type_name: None,
                        membership_end_date: None,
                        remaining_visits: None,
                    },
                    LedgerLine {
                        member_id: None,
                        membership_id: None,
                        member_name: None,
                        card_id: credential,
                        status: LogStatus::DeniedMemberNotFound,
                        notes: "member_not_found"@,
                    },
                ),
            ),
            Some(mi) => {
                let member = store.members@[mi];
                let name = full_name_of(member.first_name@, member.last_name@);
                let card = match member.card_id {
                    Some(c) => c@,
                    None => credential,
                };
                Some(
                    (
                        ScanResultView {
                            status: EntryStatus::AllowedSingle,
                            message: "allowed_single"@,
                            member_name: Some(name),
                            card_id: Some(card),
                            membership_type_name: None,
                            membership_end_date: None,
                            remaining_visits: None,
                        },
                        LedgerLine {
                            member_id: Some(member.id),
                            membership_id: None,
                            member_name: Some(name),
                            card_id: card,
                            status: LogStatus::AllowedSingle,
                            notes: "allowed_single"@,
                        },
                    ),
                )
            },
        }
    } else if payload.first_name is None && payload.last_name is None {
        None
    } else {
        let name = full_name_of(text_or_nothing(payload.first_name), text_or_nothing(payload.last_name));
        Some(
            (
                ScanResultView {
                    status: EntryStatus::AllowedSingle,
                    message: "allowed_single"@,
                    member_name: Some(name),
                    card_id: None,
                    membership_type_name: None,
                    membership_end_date: None,
                    remaining_visits: None,
                },
                LedgerLine {
                    member_id: None,
                    membership_id: None,
                    member_name: Some(name),
                    card_id: Seq::empty(),
                    status: LogStatus::AllowedSingle,
                    notes: "allowed_single"@,
                },
            ),
        )
    }
}

impl Store {
    /// Writes one record to the ledger, with the next identifier and the time
    /// of `clock`. A ledger whose identifiers are used up refuses the record
    /// and stays as it is.
    pub fn log_entry_attempt(
        &mut self,
        clock: &Clock,
        member_id: Option<i64>,
        member_name: Option<String>,
        membership_id: Option<i64>,
        card_id_scanned: String,
        status: LogStatus,
        notes: String,
    ) -> (res: Result<(), AppError>)
        ensures
            res is Err <==> old(self).next_entry_log_id == i64::MAX,
            res matches Err(e) ==> *final(self) == *old(self) && e.is_database(
                ledger_full_message(),
            ),
            res is Ok ==> committed(
                *old(self),
                *final(self),
                LedgerLine {
                    member_id,
                    membership_id,
                    member_name: text_view(member_name),
                    card_id: card_id_scanned@,
                    status,
                    notes: notes@,
                },
                old(self).memberships@,
                *clock,
            ),
    {
        if self.next_entry_log_id == i64::MAX {
            return Err(AppError::Database(String::from_str("Entry log identifiers are exhausted")));
        }
        let log = EntryLog {
            id: self.next_entry_log_id,
            member_id,
            membership_id,
            member_name,
            card_id: card_id_scanned,
            entry_time: clock.now,
            status,
            notes,
            local_date: clock.today,
        };
        self.entry_logs.push(log);
        self.next_entry_log_id = self.next_entry_log_id + 1;
        assert(self.entry_logs@.subrange(0, old(self).entry_logs@.len() as int) =~= old(
            self,
        ).entry_logs@);
        Ok(())
    }

    /// Runs the admission pipeline for a credential at the reading `clock`:
    /// resolves the member, selects and settles the governing membership,
    /// writes the ledger record and returns the result. Nothing changes when
    /// the ledger is full.
    pub fn scan(&mut self, credential: &String, clock: &Clock) -> (res: Result<
        ScanProcessingResult,
        AppError,
    >)
        requires
            old(self).wf(),
        ensures
            final(self).wf(),
            res is Err <==> old(self).next_entry_log_id == i64::MAX,
            res matches Err(e) ==> *final(self) == *old(self) && e.is_database(
                ledger_full_message(),
            ),
            res matches Ok(result) ==> admitted(
                *old(self),
                *final(self),
                result@,
                credential@,
                *clock,
            ),
    {
        if self.next_entry_log_id == i64::MAX {
            return Err(AppError::Database(String::from_str("Entry log identifiers are exhausted")));
        }
        let mi = match find_member(&self.members, credential) {
            Some(mi) => mi,
            None => {
                let _ = self.log_entry_attempt(
                    clock,
                    None,
                    None,
                    None,
                    credential.clone(),
                    LogStatus::DeniedMemberNotFound,
                    String::from_str("member_not_found"),
                );
                return Ok(
                    ScanProcessingResult {
                        status: EntryStatus::DeniedMemberNotFound,
                        message: String::from_str("member_not_found"),
                        member_name: None,
                        card_id: Some(credential.clone()),
                        membership_type_name: None,
                        membership_end_date: None,
                        remaining_visits: None,
                    },
                );
            },
        };
        let member_id = self.members[mi].id;
        let name = full_name(&self.members[mi].first_name, &self.members[mi].last_name);
        let member_card = clone_text(&self.members[mi].card_id);
        let card = match &self.members[mi].card_id {
            Some(c) => c.clone(),
            None => credential.clone(),
        };
        let si = match select_membership(&self.memberships, member_id) {
            Some(si) => si,
            None => {
                let _ = self.log_entry_attempt(
                    clock,
                    Some(member_id),
                    Some(name.clone()),
                    None,
                    card.clone(),
                    LogStatus::DeniedNoMembership,
                    String::from_str("no_membership"),
                );
                return Ok(
                    ScanProcessingResult {
                        status: EntryStatus::DeniedNoMembership,
                        message: String::from_str("no_membership"),
                        member_name: Some(name),
                        card_id: Some(card),
                        membership_type_name: None,
                        membership_end_date: None,
                        remaining_visits: None,
                    },
                );
            },
        };
        let membership = self.memberships[si];
        let ti = find_type(&self.membership_types, membership.membership_type_id);
        let enter_by = match ti {
            Some(t) => self.membership_types[t].enter_by,
            None => None,
        };
        let kind_name = match ti {
            Some(t) => Some(self.membership_types[t].name.clone()),
            None => None,
        };
        let admitted_today = already_checked_in(&self.entry_logs, member_id, clock.today);
        let decision = decide_admission(&membership, enter_by, admitted_today, clock);
        let allowed = decision.status == EntryStatus::Allowed;
        if decision.membership_status != membership.status || decision.remaining_visits
            != membership.remaining_visits {
            let mut changed = membership;
            changed.status = decision.membership_status;
            changed.remaining_visits = decision.remaining_visits;
            changed.updated_at = clock.now;
            self.memberships.set(si, changed);
        }
        assert(self.memberships@ =~= old(self).memberships@.update(
            si as int,
            settled(membership, decision@, clock.now),
        ));
        let _ = self.log_entry_attempt(
            clock,
            Some(member_id),
            Some(name.clone()),
            Some(membership.id),
            card.clone(),
            decision.log_status,
            decision.message.clone(),
        );
        Ok(
            ScanProcessingResult {
                status: decision.status,
                message: decision.message,
                member_name: Some(name),
                card_id: if allowed {
                    member_card
                } else {
                    Some(card)
                },
                membership_type_name: kind_name,
                membership_end_date: membership.end_date,
                remaining_visits: if allowed {
                    decision.remaining_visits
                } else {
                    membership.remaining_visits
                },
            },
        )
    }

    /// Records a manual admission, which checks no membership and changes
    /// none. With a credential the member is resolved, and an unknown
    /// credential is refused; without one the walk-in is recorded by name.
    /// A payload with neither a credential nor a name is invalid input:
    /// nothing is written.
    pub fn scan_single(&mut self, payload: &ScanPayloadSingle, clock: &Clock) -> (res: Result<
        ScanProcessingResult,
        AppError,
    >)
        ensures
            final(self).wf() == old(self).wf(),
            manual_plan(*old(self), payload@) is None ==> *final(self) == *old(self) && (
            res matches Ok(result) && result@ == invalid_input_result()),
            manual_plan(*old(self), payload@) is Some ==> (res is Err <==> old(
                self,
            ).next_entry_log_id == i64::MAX),
            res matches Err(e) ==> *final(self) == *old(self) && e.is_database(
                ledger_full_message(),
            ),
            manual_plan(*old(self), payload@) matches Some(plan) ==> (res matches Ok(result)
                ==> result@ == plan.0 && committed(
                *old(self),
                *final(self),
                plan.1,
                old(self).memberships@,
                *clock,
            )),
    {
        let with_card = match &payload.card_id {
            Some(card) => card.as_str().unicode_len() > 0,
            None => false,
        };
        if !with_card && payload.first_name.is_none() && payload.last_name.is_none() {
            return Ok(
                ScanProcessingResult {
                    status: EntryStatus::Error,
                    message: String::from_str("card_invalid"),
                    member_name: None,
                    card_id: None,
                    membership_type_name: None,
                    membership_end_date: None,
                    remaining_visits: None,
                },
            );
        }
        if self.next_entry_log_id == i64::MAX {
            return Err(AppError::Database(String::from_str("Entry log identifiers are exhausted")));
        }
        if with_card {
            let credential = match &payload.card_id {
                Some(card) => card.clone(),
                None => String::new(),
            };
            match find_member(&self.members, &credential) {
                None => {
                    let _ = self.log_entry_attempt(
                        clock,
                        None,
                        None,
                        None,
                        credential.clone(),
                        LogStatus::DeniedMemberNotFound,
                        String::from_str("member_not_found"),
                    );
                    Ok(
                        ScanProcessingResult {
                            status: EntryStatus::DeniedMemberNotFound,
                            message: String::from_str("member_not_found"),
                            member_name: None,
                            card_id: Some(credential),
                            membership_type_name: None,
                            membership_end_date: None,
                            remaining_visits: None,
                        },
                    )
                },
                Some(mi) => {
                    let member_id = self.members[mi].id;
                    let name = full_name(&self.members[mi].first_name, &self.members[mi].last_name);
                    let card = match &self.members[mi].card_id {
                        Some(c) => c.clone(),
                        None => credential,
                    };
                    let _ = self.log_entry_attempt(
                        clock,
                        Some(member_id),
                        Some(name.clone()),
                        None,
                        card.clone(),
                        LogStatus::AllowedSingle,
                        String::from_str("allowed_single"),
                    );
                    Ok(
                        ScanProcessingResult {
                            status: EntryStatus::AllowedSingle,
                            message: String::from_str("allowed_single"),
                            member_name: Some(name),
                            card_id: Some(card),
                            membership_type_name: None,
                            membership_end_date: None,
                            remaining_visits: None,
                        },
                    )
                },
            }
        } else {
            let first = text_or_empty(&payload.first_name);
            let last = text_or_empty(&payload.last_name);
            let name = full_name(&first, &last);
            let _ = self.log_entry_attempt(
                clock,
                None,
                Some(name.clone()),
                None,
                String::new(),
                LogStatus::AllowedSingle,
                String::from_str("allowed_single"),
            );
            Ok(
                ScanProcessingResult {
                    status: EntryStatus::AllowedSingle,
                    message: String::from_str("allowed_single"),
                    member_name: Some(name),
                    card_id: None,
                    membership_type_name: None,
                    membership_end_date: None,
                    remaining_visits: None,
                },
            )
        }
    }
}

/// The message of the error that an unknown time zone gives.
pub open spec fn timezone_message() -> Seq<char> {
    "Invalid gym timezone configuration."@
}

/// Whether the scan of the credential `card` at the instant `utc_secs` takes
/// the application from `pre` to `post` and returns `res`.
///
/// Settings and the remembered pass stay. A credential that is empty without
/// the white space around it is invalid input, and an unknown zone is a
/// configuration error; both leave the store as it is. Otherwise the scan
/// fails exactly if the ledger's identifiers are used up, again leaving the
/// store as it is, and else does what `admitted` says at the reading of the
/// facility's clock.
pub open spec fn processed(
    pre: AppState,
    post: AppState,
    res: Result<ScanProcessingResult, AppError>,
    card: Seq<char>,
    utc_secs: i64,
) -> bool {
    &&& post.settings == pre.settings
    &&& post.last_membership_check == pre.last_membership_check
    &&& trimmed(card).len() == 0 ==> post.store == pre.store && (res matches Ok(result)
        && result@ == invalid_input_result())
    &&& trimmed(card).len() > 0 && !timezone_known(pre.settings.timezone@) ==> post.store
        == pre.store && (res matches Err(e) && e.is_config(timezone_message()))
    &&& trimmed(card).len() > 0 && timezone_known(pre.settings.timezone@) ==> {
        &&& res is Err <==> pre.store.next_entry_log_id == i64::MAX
        &&& res matches Err(e) ==> post.store == pre.store && e.is_database(ledger_full_message())
        &&& res matches Ok(result) ==> admitted(
            pre.store,
            post.store,
            result@,
            trimmed(card),
            facility_clock(utc_secs, pre.settings.timezone@),
        )
    }
}

/// Processes the scan of a credential at the instant `utc_secs`.
///
/// The credential is taken without the white space around it. An empty one is
/// invalid input: nothing is looked up and nothing is written. Otherwise the
/// clock is read in the zone of the settings, an unknown zone being a
/// configuration error, and the pipeline runs on the store.
pub fn process_scan(payload: ScanPayload, state: &mut AppState, utc_secs: i64) -> (res: Result<
    ScanProcessingResult,
    AppError,
>)
    requires
        old(state).store.wf(),
        0 <= utc_secs <= MAX_CLOCK_SECS,
    ensures
        final(state).store.wf(),
        processed(*old(state), *final(state), res, payload.card_id@, utc_secs),
{
    let credential = trim(payload.card_id.as_str());
    if credential.as_str().unicode_len() == 0 {
        return Ok(
            ScanProcessingResult {
                status: EntryStatus::Error,
                message: String::from_str("card_invalid"),
                member_name: None,
                card_id: None,
                membership_type_name: None,
                membership_end_date: None,
                remaining_visits: None,
            },
        );
    }
    let clock = match read_clock(utc_secs, state.settings.timezone.as_str()) {
        Ok(clock) => clock,
        Err(e) => {
            return Err(e);
        },
    };
    state.store.scan(&credential, &clock)
}

/// Processes a manual admission at the instant `utc_secs`: reads the clock in
/// the zone of the settings, an unknown zone being a configuration error, and
/// records the admission in the store's ledger.
pub fn process_scan_single(payload: ScanPayloadSingle, state: &mut AppState, utc_secs: i64) -> (res:
    Result<ScanProcessingResult, AppError>)
    requires
        0 <= utc_secs <= MAX_CLOCK_SECS,
    ensures
        final(state).store.wf() == old(state).store.wf(),
        final(state).settings == old(state).settings,
        final(state).last_membership_check == old(state).last_membership_check,
        !timezone_known(old(state).settings.timezone@) ==> final(state).store == old(state).store
            && (res matches Err(e) && e.is_config(timezone_message())),
        timezone_known(old(state).settings.timezone@) ==> {
            let plan = manual_plan(old(state).store, payload@);
            &&& plan is None ==> final(state).store == old(state).store && (res matches Ok(result)
                && result@ == invalid_input_result())
            &&& plan is Some ==> (res is Err <==> old(state).store.next_entry_log_id == i64::MAX)
            &&& res matches Err(e) ==> final(state).store == old(state).store && e.is_database(
                ledger_full_message(),
            )
            &&& plan matches Some(written) ==> (res matches Ok(result) ==> result@ == written.0
                && committed(
                old(state).store,
                final(state).store,
                written.1,
                old(state).store.memberships@,
                facility_clock(utc_secs, old(state).settings.timezone@),
            ))
        },
{
    let clock = match read_clock(utc_secs, state.settings.timezone.as_str()) {
        Ok(clock) => clock,
        Err(e) => {
            return Err(e);
        },
    };
    state.store.scan_single(&payload, &clock)
}

} // verus!
