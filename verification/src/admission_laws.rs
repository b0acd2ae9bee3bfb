use crate::admission::{
    admitted, admitted_on, is_admission_on, is_candidate, member_matches, member_upto, precedes,
    processed, relevant_membership, relevant_upto, resolved_member, scan_plan, settled,
    type_upto, verdict,
};
use crate::clock::{facility_clock, timezone_known, Clock};
use crate::dto::{EntryStatus, ScanProcessingResult, ScanResultView};
use crate::error::AppError;
use crate::lifecycle::MembershipStatus;
use crate::models::{LogStatus, Member, Membership};
use crate::state::{AppState, Store};
use crate::sweeper::{activates, checked, reconciled, swept, SweepReport};
use crate::text::trimmed;
use vstd::prelude::*;

verus! {

/// Whether `i` is, among the first `n` memberships, a candidate that no other
/// candidate precedes and that precedes every candidate before it.
pub open spec fn governs(memberships: Seq<Membership>, member_id: i64, n: int, i: int) -> bool {
    &&& 0 <= i < n
    &&& is_candidate(memberships[i], member_id)
    &&& forall|j: int|
        0 <= j < n && is_candidate(#[trigger] memberships[j], member_id) ==> !precedes(
            memberships[j],
            memberships[i],
        ) && (j < i ==> precedes(memberships[i], memberships[j]))
}

/// The member that a credential resolves to answers to it, and no member
/// before does; a credential resolves to nobody exactly if no member answers
/// to it.
pub proof fn lemma_resolved_member_is_first(members: Seq<Member>, credential: Seq<char>, n: int)
    requires
        0 <= n <= members.len(),
    ensures
        match member_upto(members, credential, n) {
            Some(i) => 0 <= i < n && member_matches(members[i], credential) && forall|j: int|
                0 <= j < i ==> !member_matches(#[trigger] members[j], credential),
            None => forall|j: int|
                0 <= j < n ==> !member_matches(#[trigger] members[j], credential),
        },
    decreases n,
{
    if n > 0 {
        lemma_resolved_member_is_first(members, credential, n - 1);
    }
}

/// The governing membership is a candidate of the member that no other
/// candidate precedes, and the earliest such one; there is none exactly if
/// the member has no candidate.
pub proof fn lemma_relevant_membership_governs(
    memberships: Seq<Membership>,
    member_id: i64,
    n: int,
)
    requires
        0 <= n <= memberships.len(),
    ensures
        match relevant_upto(memberships, member_id, n) {
            Some(i) => governs(memberships, member_id, n, i),
            None => forall|j: int|
                0 <= j < n ==> !is_candidate(#[trigger] memberships[j], member_id),
        },
    decreases n,
{
    if n > 0 {
        lemma_relevant_membership_governs(memberships, member_id, n - 1);
    }
}

/// Only one membership governs: whatever satisfies `governs` is the one that
/// the selection returns.
pub proof fn lemma_governing_membership_is_unique(
    memberships: Seq<Membership>,
    member_id: i64,
    n: int,
    i: int,
)
    requires
        0 <= n <= memberships.len(),
        governs(memberships, member_id, n, i),
    ensures
        relevant_upto(memberships, member_id, n) == Some(i),
{
    lemma_relevant_membership_governs(memberships, member_id, n);
    let found = relevant_upto(memberships, member_id, n);
    if found is None {
        assert(!is_candidate(memberships[i], member_id));
    } else {
        let k = found->0;
        assert(is_candidate(memberships[k], member_id));
        assert(is_candidate(memberships[i], member_id));
        if k < i {
            assert(precedes(memberships[i], memberships[k]));
        } else if i < k {
            assert(precedes(memberships[k], memberships[i]));
        }
    }
}

/// Every scan writes exactly one ledger record and keeps the records before
/// it. It changes no member and no membership type, and no membership but
/// the one that governs the admission of the resolved member; and of that
/// one it changes the visit count only when the scan is allowed.
pub proof fn lemma_scan_touches_one_membership(
    pre: Store,
    post: Store,
    result: ScanResultView,
    credential: Seq<char>,
    clock: Clock,
)
    requires
        admitted(pre, post, result, credential, clock),
    ensures
        post.entry_logs@.len() == pre.entry_logs@.len() + 1,
        post.entry_logs@.subrange(0, pre.entry_logs@.len() as int) == pre.entry_logs@,
        post.members == pre.members,
        post.membership_types == pre.membership_types,
        post.memberships@.len() == pre.memberships@.len(),
        forall|i: int|
            0 <= i < pre.memberships@.len() && #[trigger] post.memberships@[i]
                != pre.memberships@[i] ==> {
                &&& resolved_member(pre.members@, credential) is Some
                &&& relevant_membership(
                    pre.memberships@,
                    pre.members@[resolved_member(pre.members@, credential)->0].id,
                ) == Some(i)
                &&& post.memberships@[i].id == pre.memberships@[i].id
                &&& post.memberships@[i].member_id == pre.memberships@[i].member_id
                &&& post.memberships@[i].start_date == pre.memberships@[i].start_date
                &&& post.memberships@[i].end_date == pre.memberships@[i].end_date
                &&& result.status != EntryStatus::Allowed ==> post.memberships@[i].remaining_visits
                    == pre.memberships@[i].remaining_visits
            },
{
    match resolved_member(pre.members@, credential) {
        None => {},
        Some(mi) => {
            let member = pre.members@[mi];
            lemma_relevant_membership_governs(
                pre.memberships@,
                member.id,
                pre.memberships@.len() as int,
            );
        },
    }
}

/// A scan of a credential that resolves to nobody is refused as
/// `member_not_found`, writes one ledger record of its own, and changes
/// nothing else. So two such scans in a row leave members, memberships and
/// types as they were and add two records with different identifiers.
pub proof fn lemma_unknown_credential_twice(
    first: Store,
    second: Store,
    third: Store,
    first_result: ScanResultView,
    second_result: ScanResultView,
    credential: Seq<char>,
    first_clock: Clock,
    second_clock: Clock,
)
    requires
        resolved_member(first.members@, credential) is None,
        admitted(first, second, first_result, credential, first_clock),
        admitted(second, third, second_result, credential, second_clock),
    ensures
        first_result.status == EntryStatus::DeniedMemberNotFound,
        second_result.status == EntryStatus::DeniedMemberNotFound,
        third.members == first.members,
        third.membership_types == first.membership_types,
        third.memberships@ == first.memberships@,
        third.checkpoint == first.checkpoint,
        third.entry_logs@.len() == first.entry_logs@.len() + 2,
        third.entry_logs@.subrange(0, first.entry_logs@.len() as int) == first.entry_logs@,
        third.entry_logs@[first.entry_logs@.len() as int].status
            == LogStatus::DeniedMemberNotFound,
        third.entry_logs@[first.entry_logs@.len() as int + 1].status == LogStatus::DeniedMemberNotFound,
        third.entry_logs@[first.entry_logs@.len() as int].id != third.entry_logs@[
            first.entry_logs@.len() as int + 1
        ].id,
{
    let n = first.entry_logs@.len() as int;
    assert(second.entry_logs@.subrange(0, n) == first.entry_logs@);
    assert(third.entry_logs@.subrange(0, n + 1) == second.entry_logs@);
    assert(third.entry_logs@[n] == third.entry_logs@.subrange(0, n + 1)[n]);
    assert(third.entry_logs@.subrange(0, n) =~= third.entry_logs@.subrange(0, n + 1).subrange(
        0,
        n,
    ));
}

/// The scan that takes the last visit of a membership leaves it expired with
/// no visit left, and every later judgement of that membership is
/// `no_visits_left`, whatever the hour and whether or not the member was
/// admitted that day.
pub proof fn lemma_last_visit_expires(
    membership: Membership,
    enter_by: Option<i64>,
    admitted_today: bool,
    clock: Clock,
    later_enter_by: Option<i64>,
    later_admitted: bool,
    later: Clock,
)
    requires
        membership.remaining_visits == Some(1i64),
        verdict(membership, enter_by, admitted_today, clock).status == EntryStatus::Allowed,
    ensures
        ({
            let decided = verdict(membership, enter_by, admitted_today, clock);
            let after = settled(membership, decided, clock.now);
            &&& decided.remaining_visits == Some(0i64)
            &&& decided.membership_status == MembershipStatus::Expired
            &&& after.remaining_visits == Some(0i64)
            &&& after.status == MembershipStatus::Expired
            &&& verdict(after, later_enter_by, later_admitted, later).status
                == EntryStatus::DeniedNoVisitsLeft
        }),
{
}

/// An allowed scan takes exactly one visit, and the membership stays active
/// exactly if a visit is left.
pub proof fn lemma_allowed_scan_takes_one_visit(
    membership: Membership,
    enter_by: Option<i64>,
    admitted_today: bool,
    clock: Clock,
)
    requires
        verdict(membership, enter_by, admitted_today, clock).status == EntryStatus::Allowed,
    ensures
        ({
            let decided = verdict(membership, enter_by, admitted_today, clock);
            &&& !admitted_today
            &&& membership.remaining_visits is Some
            &&& membership.remaining_visits->0 > 0
            &&& decided.remaining_visits == Some((membership.remaining_visits->0 - 1) as i64)
            &&& decided.membership_status == MembershipStatus::Active
                <==> membership.remaining_visits->0 > 1
            &&& enter_by is Some ==> clock.hour < enter_by->0
        }),
{
}

/// A denial never changes the visit count of the membership, and a suspended
/// membership is never changed at all.
pub proof fn lemma_denial_keeps_visits(
    membership: Membership,
    enter_by: Option<i64>,
    admitted_today: bool,
    clock: Clock,
)
    requires
        verdict(membership, enter_by, admitted_today, clock).status != EntryStatus::Allowed,
    ensures
        verdict(membership, enter_by, admitted_today, clock).remaining_visits
            == membership.remaining_visits,
        membership.status == MembershipStatus::Suspended ==> settled(
            membership,
            verdict(membership, enter_by, admitted_today, clock),
            clock.now,
        ) == membership,
{
}

/// After an allowed scan that took the last visit, the membership is stored
/// as expired with no visit left, in the same step as the ledger record; and
/// a second scan of the same credential, on any day and at any hour, is
/// refused as `no_visits_left` as long as that membership still governs.
pub proof fn lemma_scan_after_last_visit(
    first: Store,
    second: Store,
    third: Store,
    first_result: ScanResultView,
    second_result: ScanResultView,
    credential: Seq<char>,
    first_clock: Clock,
    second_clock: Clock,
)
    requires
        admitted(first, second, first_result, credential, first_clock),
        admitted(second, third, second_result, credential, second_clock),
        first_result.status == EntryStatus::Allowed,
        first_result.remaining_visits == Some(0i64),
        relevant_membership(
            second.memberships@,
            first.members@[resolved_member(first.members@, credential)->0].id,
        ) == relevant_membership(
            first.memberships@,
            first.members@[resolved_member(first.members@, credential)->0].id,
        ),
    ensures
        ({
            let member = first.members@[resolved_member(first.members@, credential)->0];
            let at = relevant_membership(first.memberships@, member.id)->0;
            &&& second.memberships@[at].remaining_visits == Some(0i64)
            &&& second.memberships@[at].status == MembershipStatus::Expired
            &&& second.entry_logs@[first.entry_logs@.len() as int].status == LogStatus::Allowed
        }),
        second_result.status == EntryStatus::DeniedNoVisitsLeft,
        third.memberships@ == second.memberships@,
{
    let mi = resolved_member(first.members@, credential)->0;
    let member = first.members@[mi];
    let ms = first.memberships@;
    let si = relevant_membership(ms, member.id)->0;
    lemma_relevant_membership_governs(ms, member.id, ms.len() as int);
    let after = second.memberships@[si];
    assert(after.remaining_visits == Some(0i64));
    assert(after.status == MembershipStatus::Expired);
    assert(third.memberships@ =~= second.memberships@);
}

/// After an allowed scan that left the membership a visit, a second scan of
/// the same credential on the same local day is refused as
/// `already_checked_in` and changes no membership, unless it comes at or
/// after the cutoff hour and is refused for that.
pub proof fn lemma_second_scan_same_day(
    first: Store,
    second: Store,
    third: Store,
    first_result: ScanResultView,
    second_result: ScanResultView,
    credential: Seq<char>,
    first_clock: Clock,
    second_clock: Clock,
)
    requires
        admitted(first, second, first_result, credential, first_clock),
        admitted(second, third, second_result, credential, second_clock),
        first_clock.today == second_clock.today,
        first_result.status == EntryStatus::Allowed,
        first_result.remaining_visits is Some && first_result.remaining_visits->0 > 0,
        second_result.status != EntryStatus::DeniedAfterHours,
    ensures
        second_result.status == EntryStatus::DeniedAlreadyCheckedIn,
        third.memberships@ == second.memberships@,
{
    let mi = resolved_member(first.members@, credential)->0;
    let member = first.members@[mi];
    let ms = first.memberships@;
    let n = ms.len() as int;
    let si = relevant_membership(ms, member.id)->0;
    lemma_relevant_membership_governs(ms, member.id, n);
    let membership = ms[si];
    let ti = type_upto(
        first.membership_types@,
        membership.membership_type_id,
        first.membership_types@.len() as int,
    );
    let enter_by = match ti {
        Some(t) => first.membership_types@[t].enter_by,
        None => None,
    };
    let decided = verdict(
        membership,
        enter_by,
        admitted_on(first.entry_logs@, member.id, first_clock.today),
        first_clock,
    );
    let after = settled(membership, decided, first_clock.now);
    let ms2 = second.memberships@;
    assert(ms2 == ms.update(si, after));
    assert(after.status == MembershipStatus::Active);
    assert(governs(ms2, member.id, n, si)) by {
        assert(is_candidate(ms2[si], member.id));
        assert forall|j: int| 0 <= j < n && is_candidate(#[trigger] ms2[j], member.id) implies !precedes(
            ms2[j],
            ms2[si],
        ) && (j < si ==> precedes(ms2[si], ms2[j])) by {
            if j != si {
                assert(ms2[j] == ms[j]);
                assert(is_candidate(ms[j], member.id));
            }
        }
    }
    lemma_governing_membership_is_unique(ms2, member.id, n, si);
    let logs2 = second.entry_logs@;
    let written = logs2[first.entry_logs@.len() as int];
    assert(is_admission_on(written, member.id, second_clock.today));
    assert(admitted_on(logs2, member.id, second_clock.today));
    let plan = scan_plan(second, credential, second_clock);
    assert(second_result == plan.result);
    assert(after.remaining_visits == decided.remaining_visits);
    assert(third.memberships@ =~= second.memberships@);
}

/// The cutoff hour of the type of a membership, if the type is there and has
/// one.
pub open spec fn cutoff_of(store: Store, membership: Membership) -> Option<i64> {
    match type_upto(
        store.membership_types@,
        membership.membership_type_id,
        store.membership_types@.len() as int,
    ) {
        Some(t) => store.membership_types@[t].enter_by,
        None => None,
    }
}

/// A member who was admitted on a local day is not admitted again on that
/// day: while the ledger holds the admission, a scan that resolves to the
/// member is never allowed and takes no visit from any membership.
pub proof fn lemma_no_second_admission(
    pre: Store,
    post: Store,
    result: ScanResultView,
    credential: Seq<char>,
    clock: Clock,
)
    requires
        admitted(pre, post, result, credential, clock),
        resolved_member(pre.members@, credential) is Some,
        admitted_on(
            pre.entry_logs@,
            pre.members@[resolved_member(pre.members@, credential)->0].id,
            clock.today,
        ),
    ensures
        result.status != EntryStatus::Allowed,
        post.memberships@.len() == pre.memberships@.len(),
        forall|i: int|
            0 <= i < pre.memberships@.len() ==> (#[trigger] post.memberships@[i]).remaining_visits
                == pre.memberships@[i].remaining_visits,
{
    let member = pre.members@[resolved_member(pre.members@, credential)->0];
    lemma_relevant_membership_governs(pre.memberships@, member.id, pre.memberships@.len() as int);
}

/// A member whose governing membership is active, has not ended and has two
/// or more visits left is admitted before the cutoff hour, if the member was
/// not admitted earlier that day: the scan is allowed, takes one visit and
/// leaves the membership active, and writes one record of the admission.
pub proof fn lemma_active_member_is_admitted(
    pre: Store,
    post: Store,
    result: ScanResultView,
    credential: Seq<char>,
    clock: Clock,
    visits: i64,
)
    requires
        admitted(pre, post, result, credential, clock),
        resolved_member(pre.members@, credential) is Some,
        relevant_membership(
            pre.memberships@,
            pre.members@[resolved_member(pre.members@, credential)->0].id,
        ) is Some,
        ({
            let member = pre.members@[resolved_member(pre.members@, credential)->0];
            let membership = pre.memberships@[relevant_membership(pre.memberships@, member.id)->0];
            &&& membership.status == MembershipStatus::Active
            &&& membership.end_date is Some ==> membership.end_date->0 >= clock.today
            &&& membership.remaining_visits == Some(visits)
            &&& visits >= 2
            &&& cutoff_of(pre, membership) is Some ==> clock.hour < cutoff_of(pre, membership)->0
            &&& !admitted_on(pre.entry_logs@, member.id, clock.today)
        }),
    ensures
        ({
            let member = pre.members@[resolved_member(pre.members@, credential)->0];
            let at = relevant_membership(pre.memberships@, member.id)->0;
            let written = post.entry_logs@[pre.entry_logs@.len() as int];
            &&& result.status == EntryStatus::Allowed
            &&& result.remaining_visits == Some((visits - 1) as i64)
            &&& post.memberships@[at].remaining_visits == Some((visits - 1) as i64)
            &&& post.memberships@[at].status == MembershipStatus::Active
            &&& post.entry_logs@.len() == pre.entry_logs@.len() + 1
            &&& written.status == LogStatus::Allowed
            &&& written.member_id == Some(member.id)
            &&& written.local_date == clock.today
        }),
{
    let member = pre.members@[resolved_member(pre.members@, credential)->0];
    lemma_relevant_membership_governs(pre.memberships@, member.id, pre.memberships@.len() as int);
}

/// A reconciliation pass between two scans of one local day does not bring a
/// second admission. After an allowed scan that left the membership a visit
/// and a pass on the same day, a scan of the same credential on that day is
/// never allowed, and the membership keeps its visits and stays active. The
/// scan is refused as `already_checked_in`, and changes no membership, if it
/// comes before the cutoff hour and the pass activated no other membership of
/// the member.
pub proof fn lemma_second_scan_after_pass(
    first: Store,
    second: Store,
    passed: Store,
    third: Store,
    first_result: ScanResultView,
    report: SweepReport,
    second_result: ScanResultView,
    credential: Seq<char>,
    first_clock: Clock,
    pass_clock: Clock,
    second_clock: Clock,
)
    requires
        admitted(first, second, first_result, credential, first_clock),
        reconciled(second, passed, report, pass_clock),
        admitted(passed, third, second_result, credential, second_clock),
        first_clock.today == pass_clock.today,
        pass_clock.today == second_clock.today,
        first_result.status == EntryStatus::Allowed,
        first_result.remaining_visits is Some && first_result.remaining_visits->0 > 0,
    ensures
        second_result.status != EntryStatus::Allowed,
        ({
            let member = first.members@[resolved_member(first.members@, credential)->0];
            let at = relevant_membership(first.memberships@, member.id)->0;
            &&& third.memberships@[at].remaining_visits == first_result.remaining_visits
            &&& third.memberships@[at].status == MembershipStatus::Active
            &&& third.entry_logs@.len() == second.entry_logs@.len() + 1
            &&& (second_result.status != EntryStatus::DeniedAfterHours && (forall|j: int|
                0 <= j < second.memberships@.len() && is_candidate(
                    #[trigger] second.memberships@[j],
                    member.id,
                ) ==> !activates(second.memberships@[j], pass_clock.today))) ==> {
                &&& second_result.status == EntryStatus::DeniedAlreadyCheckedIn
                &&& third.memberships@ == passed.memberships@
                &&& third.entry_logs@[second.entry_logs@.len() as int].status
                    == LogStatus::DeniedAlreadyCheckedIn
            }
        }),
{
    let mi = resolved_member(first.members@, credential)->0;
    let member = first.members@[mi];
    let ms = first.memberships@;
    let n = ms.len() as int;
    let si = relevant_membership(ms, member.id)->0;
    lemma_relevant_membership_governs(ms, member.id, n);
    let membership = ms[si];
    let decided = verdict(
        membership,
        cutoff_of(first, membership),
        admitted_on(first.entry_logs@, member.id, first_clock.today),
        first_clock,
    );
    let after = settled(membership, decided, first_clock.now);
    let ms2 = second.memberships@;
    assert(ms2 == ms.update(si, after));
    assert(after.status == MembershipStatus::Active);
    assert(after.remaining_visits == first_result.remaining_visits);
    assert(governs(ms2, member.id, n, si)) by {
        assert(is_candidate(ms2[si], member.id));
        assert forall|j: int| 0 <= j < n && is_candidate(#[trigger] ms2[j], member.id) implies !precedes(
            ms2[j],
            ms2[si],
        ) && (j < si ==> precedes(ms2[si], ms2[j])) by {
            if j != si {
                assert(ms2[j] == ms[j]);
                assert(is_candidate(ms[j], member.id));
            }
        }
    }
    let ms3 = passed.memberships@;
    assert(ms3.len() == n);
    assert forall|j: int| 0 <= j < n implies #[trigger] ms3[j] == ms2[j] || ms3[j] == swept(
        ms2[j],
        pass_clock,
    ) by {}
    assert(ms3[si] == ms2[si]);
    let written = second.entry_logs@[first.entry_logs@.len() as int];
    assert(is_admission_on(written, member.id, second_clock.today));
    assert(passed.entry_logs@ == second.entry_logs@);
    assert(admitted_on(passed.entry_logs@, member.id, second_clock.today));
    lemma_no_second_admission(passed, third, second_result, credential, second_clock);
    lemma_scan_touches_one_membership(passed, third, second_result, credential, second_clock);
    lemma_relevant_membership_governs(ms3, member.id, n);
    if third.memberships@[si] != ms3[si] {
        assert(relevant_membership(ms3, member.id) == Some(si));
    }
    assert(third.memberships@[si].status == MembershipStatus::Active);
    if second_result.status != EntryStatus::DeniedAfterHours && (forall|j: int|
        0 <= j < second.memberships@.len() && is_candidate(
            #[trigger] second.memberships@[j],
            member.id,
        ) ==> !activates(second.memberships@[j], pass_clock.today)) {
        assert(governs(ms3, member.id, n, si)) by {
            assert(is_candidate(ms3[si], member.id));
            assert forall|j: int| 0 <= j < n && is_candidate(#[trigger] ms3[j], member.id) implies !precedes(
                ms3[j],
                ms3[si],
            ) && (j < si ==> precedes(ms3[si], ms3[j])) by {
                if j != si {
                    assert(is_candidate(ms2[j], member.id));
                    assert(!activates(ms2[j], pass_clock.today));
                }
            }
        }
        lemma_governing_membership_is_unique(ms3, member.id, n, si);
        assert(third.memberships@ =~= passed.memberships@);
    }
}

/// Two scans in a row of a credential that resolves to nobody, in a known
/// zone and with two ledger identifiers left, both return `member_not_found`.
/// Members, memberships and membership types stay as they were; the ledger
/// gains two separate records, each of a refused unknown credential with no
/// member and no membership.
pub proof fn lemma_unknown_credential_processed_twice(
    first: AppState,
    second: AppState,
    third: AppState,
    first_res: Result<ScanProcessingResult, AppError>,
    second_res: Result<ScanProcessingResult, AppError>,
    card: Seq<char>,
    first_secs: i64,
    second_secs: i64,
)
    requires
        processed(first, second, first_res, card, first_secs),
        processed(second, third, second_res, card, second_secs),
        trimmed(card).len() > 0,
        resolved_member(first.store.members@, trimmed(card)) is None,
        timezone_known(first.settings.timezone@),
        first.store.next_entry_log_id < i64::MAX - 1,
    ensures
        first_res matches Ok(result) && result.status == EntryStatus::DeniedMemberNotFound,
        second_res matches Ok(result) && result.status == EntryStatus::DeniedMemberNotFound,
        third.store.members == first.store.members,
        third.store.membership_types == first.store.membership_types,
        third.store.memberships@ == first.store.memberships@,
        third.store.entry_logs@.len() == first.store.entry_logs@.len() + 2,
        third.store.entry_logs@.subrange(0, first.store.entry_logs@.len() as int)
            == first.store.entry_logs@,
        ({
            let n = first.store.entry_logs@.len() as int;
            let one = third.store.entry_logs@[n];
            let two = third.store.entry_logs@[n + 1];
            &&& one.id != two.id
            &&& one.status == LogStatus::DeniedMemberNotFound
            &&& two.status == LogStatus::DeniedMemberNotFound
            &&& one.card_id@ == trimmed(card)
            &&& two.card_id@ == trimmed(card)
            &&& one.member_id is None && one.membership_id is None
            &&& two.member_id is None && two.membership_id is None
        }),
{
    let zone = first.settings.timezone@;
    let n = first.store.entry_logs@.len() as int;
    lemma_unknown_credential_twice(
        first.store,
        second.store,
        third.store,
        first_res->Ok_0@,
        second_res->Ok_0@,
        trimmed(card),
        facility_clock(first_secs, zone),
        facility_clock(second_secs, zone),
    );
    assert(third.store.entry_logs@.subrange(0, n + 1) == second.store.entry_logs@);
    assert(third.store.entry_logs@[n] == third.store.entry_logs@.subrange(0, n + 1)[n]);
}

/// Two scans of one local day with a reconciliation in between, in a known
/// zone and with two ledger identifiers left: if the first is allowed and
/// leaves the membership a visit, the second is never allowed, and the
/// membership keeps that visit count and stays active. The second scan
/// returns `already_checked_in` if it comes before the cutoff hour and the
/// pass activated no other membership of the member.
pub proof fn lemma_second_scan_processed_after_pass(
    first: AppState,
    second: AppState,
    passed: AppState,
    third: AppState,
    first_res: Result<ScanProcessingResult, AppError>,
    pass_res: Result<SweepReport, AppError>,
    second_res: Result<ScanProcessingResult, AppError>,
    card: Seq<char>,
    first_secs: i64,
    pass_secs: i64,
    second_secs: i64,
)
    requires
        processed(first, second, first_res, card, first_secs),
        checked(second, passed, pass_res, pass_secs),
        processed(passed, third, second_res, card, second_secs),
        trimmed(card).len() > 0,
        timezone_known(first.settings.timezone@),
        first.store.next_entry_log_id < i64::MAX - 1,
        facility_clock(first_secs, first.settings.timezone@).today == facility_clock(
            pass_secs,
            first.settings.timezone@,
        ).today,
        facility_clock(pass_secs, first.settings.timezone@).today == facility_clock(
            second_secs,
            first.settings.timezone@,
        ).today,
        first_res matches Ok(result) ==> result.status == EntryStatus::Allowed
            && result.remaining_visits is Some && result.remaining_visits->0 > 0,
    ensures
        first_res is Ok,
        pass_res is Ok,
        second_res matches Ok(result) && result.status != EntryStatus::Allowed,
        ({
            let member = first.store.members@[resolved_member(
                first.store.members@,
                trimmed(card),
            )->0];
            let at = relevant_membership(first.store.memberships@, member.id)->0;
            let today = facility_clock(pass_secs, first.settings.timezone@).today;
            &&& third.store.memberships@[at].remaining_visits == first_res->Ok_0.remaining_visits
            &&& third.store.memberships@[at].status == MembershipStatus::Active
            &&& third.store.entry_logs@.len() == first.store.entry_logs@.len() + 2
            &&& (second_res->Ok_0.status != EntryStatus::DeniedAfterHours && (forall|j: int|
                0 <= j < second.store.memberships@.len() && is_candidate(
                    #[trigger] second.store.memberships@[j],
                    member.id,
                ) ==> !activates(second.store.memberships@[j], today))) ==> {
                &&& second_res->Ok_0.status == EntryStatus::DeniedAlreadyCheckedIn
                &&& third.store.memberships@ == passed.store.memberships@
                &&& third.store.entry_logs@[first.store.entry_logs@.len() as int + 1].status
                    == LogStatus::DeniedAlreadyCheckedIn
            }
        }),
{
    let zone = first.settings.timezone@;
    lemma_second_scan_after_pass(
        first.store,
        second.store,
        passed.store,
        third.store,
        first_res->Ok_0@,
        pass_res->Ok_0,
        second_res->Ok_0@,
        trimmed(card),
        facility_clock(first_secs, zone),
        facility_clock(pass_secs, zone),
        facility_clock(second_secs, zone),
    );
}

} // verus!
