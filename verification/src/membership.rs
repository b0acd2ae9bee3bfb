use crate::admission::is_candidate;
use crate::clock::{valid_day, Clock, MAX_DAY, MIN_DAY};
use crate::error::{AppError, ErrorCodes, TranslatableError};
use crate::lifecycle::{determine_membership_status, initial_status, MembershipStatus};
use crate::models::{Member, Membership, MembershipType};
use crate::state::Store;
use crate::text::{clone_text, decimal_text, integer_text, prefixed, text_view, trim, trimmed};
use vstd::prelude::*;

verus! {

/// What is asked for when a membership is saved. With an identifier the
/// membership of that identifier is changed; without one a new membership is
/// made. Dates are day numbers.
#[derive(Clone, Copy, Debug)]
pub struct MembershipPayload {
    pub member_id: i64,
    pub membership_id: Option<i64>,
    pub membership_type_id: Option<i64>,
    pub membership_start_date: Option<i32>,
    pub membership_end_date: Option<i32>,
    pub membership_remaining_visits: Option<i64>,
    pub membership_suspended: Option<bool>,
}

/// Whether a saved membership succeeded, with a message.
#[derive(Clone, Debug)]
pub struct MembershipResponse {
    pub success: bool,
    pub message: String,
}

/// Why a membership is not saved.
#[derive(Clone, Copy, Debug, PartialEq, Eq, Structural)]
pub enum SaveRefusal {
    MemberNotFound,
    DatesRequired,
    EndNotAfterStart,
    DatesOutOfRange,
    VisitsRequired,
    TypeRequired,
    Overlapping,
    MembershipNotFound,
    IdentifiersExhausted,
}

/// Whether the store holds a member with this identifier that is not deleted.
pub open spec fn member_exists(members: Seq<Member>, id: i64) -> bool {
    exists|i: int| 0 <= i < members.len() && is_live_member(#[trigger] members[i], id)
}

/// Whether `member` has the identifier `id` and is not deleted.
pub open spec fn is_live_member(member: Member, id: i64) -> bool {
    member.id == id && !member.is_deleted
}

/// Whether a membership holds the member's access in a way that a new
/// membership from `start` to `end` would overlap: it is the member's, it is
/// not deleted, it is active, pending or suspended, and it either runs into
/// the new window or began by the new start and has no end.
pub open spec fn overlaps(membership: Membership, member_id: i64, start: i32, end: i32) -> bool {
    &&& is_candidate(membership, member_id)
    &&& (membership.status == MembershipStatus::Active || membership.status
        == MembershipStatus::Pending || membership.status == MembershipStatus::Suspended)
    &&& match membership.end_date {
        Some(their_end) => membership.start_date <= end && their_end >= start,
        None => membership.start_date <= start,
    }
}

/// Whether any membership overlaps the new window.
pub open spec fn has_overlap(
    memberships: Seq<Membership>,
    member_id: i64,
    start: i32,
    end: i32,
) -> bool {
    exists|i: int|
        0 <= i < memberships.len() && overlaps(#[trigger] memberships[i], member_id, start, end)
}

/// The first of the first `n` memberships that has the identifier `id` and is
/// not deleted.
pub open spec fn membership_upto(memberships: Seq<Membership>, id: i64, n: int) -> Option<int>
    decreases n,
{
    if n <= 0 {
        None
    } else {
        match membership_upto(memberships, id, n - 1) {
            Some(i) => Some(i),
            None => if memberships[n - 1].id == id && !memberships[n - 1].is_deleted {
                Some(n - 1)
            } else {
                None
            },
        }
    }
}

/// Why the store refuses to save what the payload asks for, or `None` if it
/// saves it. The checks come in this order: the member exists; a start date
/// is given; an end date is given and lies after the start date; both are
/// calendar dates; a visit count is given; a membership type is given. Then a
/// membership to change must exist, and a new membership must overlap no
/// active, pending or suspended one of the member.
pub open spec fn save_refusal(store: Store, payload: MembershipPayload) -> Option<SaveRefusal> {
    if !member_exists(store.members@, payload.member_id) {
        Some(SaveRefusal::MemberNotFound)
    } else if payload.membership_start_date is None {
        Some(SaveRefusal::DatesRequired)
    } else if payload.membership_end_date is None || payload.membership_end_date->0
        <= payload.membership_start_date->0 {
        Some(SaveRefusal::EndNotAfterStart)
    } else if !valid_day(payload.membership_start_date->0) || !valid_day(
        payload.membership_end_date->0,
    ) {
        Some(SaveRefusal::DatesOutOfRange)
    } else if payload.membership_remaining_visits is None {
        Some(SaveRefusal::VisitsRequired)
    } else if payload.membership_type_id is None {
        Some(SaveRefusal::TypeRequired)
    } else {
        match payload.membership_id {
            Some(id) => if membership_upto(
                store.memberships@,
                id,
                store.memberships@.len() as int,
            ) is None {
                Some(SaveRefusal::MembershipNotFound)
            } else {
                None
            },
            None => if has_overlap(
                store.memberships@,
                payload.member_id,
                payload.membership_start_date->0,
                payload.membership_end_date->0,
            ) {
                Some(SaveRefusal::Overlapping)
            } else if store.next_membership_id == i64::MAX {
                Some(SaveRefusal::IdentifiersExhausted)
            } else {
                None
            },
        }
    }
}

/// Whether `e` is the error that reports the refusal.
pub open spec fn reports(e: AppError, refusal: SaveRefusal, payload: MembershipPayload) -> bool {
    match refusal {
        SaveRefusal::MemberNotFound => e.is_not_found(
            "Member with ID "@ + decimal_text(payload.member_id) + " not found."@,
        ),
        SaveRefusal::DatesRequired => e.is_validation(
            "Start date and end date are required for a membership."@,
        ),
        SaveRefusal::EndNotAfterStart => e.is_validation("End date cannot be before start date."@),
        SaveRefusal::DatesOutOfRange => e.is_validation(
            "Membership dates must be calendar dates."@,
        ),
        SaveRefusal::VisitsRequired => e.is_validation(
            "Remaining visits must be specified for a membership."@,
        ),
        SaveRefusal::TypeRequired => e.is_validation("Membership_type_id must be provided."@),
        SaveRefusal::Overlapping => e.is_translatable(
            "error.overlapping_membership"@,
            "failed to add membership:Member already has overlapping membership"@,
        ),
        SaveRefusal::MembershipNotFound => payload.membership_id is Some && e.is_not_found(
            "Membership with ID Some("@ + decimal_text(payload.membership_id->0)
                + ") not found after save."@,
        ),
        SaveRefusal::IdentifiersExhausted => e.is_database(
            "Membership identifiers are exhausted"@,
        ),
    }
}

/// The status with which the payload's membership is saved on `today`:
/// suspended if that is asked for, and otherwise what its dates and visits
/// give.
pub open spec fn saved_status(payload: MembershipPayload, today: i32) -> MembershipStatus {
    if payload.membership_suspended == Some(true) {
        MembershipStatus::Suspended
    } else {
        initial_status(
            payload.membership_start_date->0,
            payload.membership_end_date->0,
            payload.membership_remaining_visits->0,
            today,
        )
    }
}

/// The membership that a change makes of `membership`.
pub open spec fn changed_membership(
    membership: Membership,
    payload: MembershipPayload,
    clock: Clock,
) -> Membership {
    if membership.member_id == payload.member_id {
        Membership {
            start_date: payload.membership_start_date->0,
            end_date: payload.membership_end_date,
            remaining_visits: payload.membership_remaining_visits,
            status: saved_status(payload, clock.today),
            updated_at: clock.now,
            membership_type_id: payload.membership_type_id->0,
            ..membership
        }
    } else {
        membership
    }
}

/// The membership that is made for a payload without an identifier.
pub open spec fn new_membership(id: i64, payload: MembershipPayload, clock: Clock) -> Membership {
    Membership {
        id,
        member_id: payload.member_id,
        membership_type_id: payload.membership_type_id->0,
        start_date: payload.membership_start_date->0,
        end_date: payload.membership_end_date,
        remaining_visits: payload.membership_remaining_visits,
        status: saved_status(payload, clock.today),
        purchase_date: clock.now,
        created_at: clock.now,
        updated_at: clock.now,
        is_deleted: false,
    }
}

/// The memberships after a save that is not refused, and the one saved.
pub open spec fn saved(store: Store, payload: MembershipPayload, clock: Clock) -> (
    Seq<Membership>,
    Membership,
) {
    match payload.membership_id {
        Some(id) => {
            let at = membership_upto(store.memberships@, id, store.memberships@.len() as int)->0;
            let after = changed_membership(store.memberships@[at], payload, clock);
            (store.memberships@.update(at, after), after)
        },
        None => {
            let made = new_membership(store.next_membership_id, payload, clock);
            (store.memberships@.push(made), made)
        },
    }
}

/// The membership after a soft delete of the identifier `id` at `now`.
pub open spec fn soft_deleted(membership: Membership, id: i64, now: i64) -> Membership {
    if membership.id == id && !membership.is_deleted {
        Membership { is_deleted: true, updated_at: now, ..membership }
    } else {
        membership
    }
}

/// The membership after the type `type_id` was retired: inactive, if it is of
/// that type and not deleted.
pub open spec fn after_retirement(membership: Membership, type_id: i64) -> Membership {
    if membership.membership_type_id == type_id && !membership.is_deleted {
        Membership { status: MembershipStatus::Inactive, ..membership }
    } else {
        membership
    }
}

/// The first of the first `n` membership types that has the identifier `id`
/// and is not deleted.
pub open spec fn live_type_upto(types: Seq<MembershipType>, id: i64, n: int) -> Option<int>
    decreases n,
{
    if n <= 0 {
        None
    } else {
        match live_type_upto(types, id, n - 1) {
            Some(i) => Some(i),
            None => if types[n - 1].id == id && !types[n - 1].is_deleted {
                Some(n - 1)
            } else {
                None
            },
        }
    }
}

/// Whether `after` is the type `before` retired at `now`: flagged as deleted,
/// with the instant of the retirement appended to its name, and otherwise the
/// same.
pub open spec fn retired(before: MembershipType, after: MembershipType, now: i64) -> bool {
    &&& after.id == before.id
    &&& after.name@ == before.name@ + "_deleted_"@ + decimal_text(now)
    &&& after.duration_days == before.duration_days
    &&& after.visit_limit == before.visit_limit
    &&& after.enter_by == before.enter_by
    &&& after.price_minor == before.price_minor
    &&& text_view(after.description) == text_view(before.description)
    &&& after.created_at == before.created_at
    &&& after.updated_at == now
    &&& after.is_deleted
}

/// Tells whether the store holds a live member with this identifier.
pub fn has_member(members: &Vec<Member>, id: i64) -> (res: bool)
    ensures
        res == member_exists(members@, id),
{
    let mut k: usize = 0;
    while k < members.len()
        invariant
            k <= members@.len(),
            forall|i: int| 0 <= i < k ==> !is_live_member(#[trigger] members@[i], id),
        decreases members@.len() - k,
    {
        if members[k].id == id && !members[k].is_deleted {
            return true;
        }
        k = k + 1;
    }
    false
}

/// Tells whether a membership of the member overlaps the window.
pub fn find_overlap(memberships: &Vec<Membership>, member_id: i64, start: i32, end: i32) -> (res:
    bool)
    ensures
        res == has_overlap(memberships@, member_id, start, end),
{
    let mut k: usize = 0;
    while k < memberships.len()
        invariant
            k <= memberships@.len(),
            forall|i: int|
                0 <= i < k ==> !overlaps(#[trigger] memberships@[i], member_id, start, end),
        decreases memberships@.len() - k,
    {
        let m = &memberships[k];
        let holding = m.status == MembershipStatus::Active || m.status
            == MembershipStatus::Pending || m.status == MembershipStatus::Suspended;
        let crossing = match m.end_date {
            Some(their_end) => m.start_date <= end && their_end >= start,
            None => m.start_date <= start,
        };
        if m.member_id == member_id && !m.is_deleted && holding && crossing {
            return true;
        }
        k = k + 1;
    }
    false
}

/// Finds the live membership with the identifier `id`.
pub fn find_membership(memberships: &Vec<Membership>, id: i64) -> (found: Option<usize>)
    ensures
        found is Some <==> membership_upto(memberships@, id, memberships@.len() as int) is Some,
        found matches Some(i) ==> membership_upto(memberships@, id, memberships@.len() as int)
            == Some(i as int) && i < memberships@.len(),
{
    let mut found: Option<usize> = None;
    let mut k: usize = 0;
    while k < memberships.len()
        invariant
            k <= memberships@.len(),
            found is Some <==> membership_upto(memberships@, id, k as int) is Some,
            found matches Some(i) ==> membership_upto(memberships@, id, k as int) == Some(
                i as int,
            ) && i < k,
        decreases memberships@.len() - k,
    {
        if found.is_none() && memberships[k].id == id && !memberships[k].is_deleted {
            found = Some(k);
        }
        k = k + 1;
    }
    found
}

/// Finds the live membership type with the identifier `id`.
pub fn find_live_type(types: &Vec<MembershipType>, id: i64) -> (found: Option<usize>)
    ensures
        found is Some <==> live_type_upto(types@, id, types@.len() as int) is Some,
        found matches Some(i) ==> live_type_upto(types@, id, types@.len() as int) == Some(
            i as int,
        ) && i < types@.len(),
{
    let mut found: Option<usize> = None;
    let mut k: usize = 0;
    while k < types.len()
        invariant
            k <= types@.len(),
            found is Some <==> live_type_upto(types@, id, k as int) is Some,
            found matches Some(i) ==> live_type_upto(types@, id, k as int) == Some(i as int) && i
                < k,
        decreases types@.len() - k,
    {
        if found.is_none() && types[k].id == id && !types[k].is_deleted {
            found = Some(k);
        }
        k = k + 1;
    }
    found
}

impl Store {
    /// Saves a membership at the reading `clock`: changes the one that the
    /// payload names, or makes a new one. A refused save changes nothing.
    pub fn save_membership(&mut self, payload: MembershipPayload, clock: &Clock) -> (res: Result<
        Membership,
        AppError,
    >)
        requires
            old(self).wf(),
        ensures
            final(self).wf(),
            final(self).members == old(self).members,
            final(self).membership_types == old(self).membership_types,
            final(self).entry_logs == old(self).entry_logs,
            final(self).next_entry_log_id == old(self).next_entry_log_id,
            final(self).next_member_id == old(self).next_member_id,
            final(self).next_type_id == old(self).next_type_id,
            final(self).checkpoint == old(self).checkpoint,
            res is Err <==> save_refusal(*old(self), payload) is Some,
            res matches Err(e) ==> *final(self) == *old(self) && reports(
                e,
                save_refusal(*old(self), payload)->0,
                payload,
            ),
            res matches Ok(membership) ==> {
                &&& final(self).memberships@ == saved(*old(self), payload, *clock).0
                &&& membership == saved(*old(self), payload, *clock).1
                &&& final(self).next_membership_id == if payload.membership_id is None {
                    old(self).next_membership_id + 1
                } else {
                    old(self).next_membership_id as int
                }
            },
    {
        if !has_member(&self.members, payload.member_id) {
            let mut text = prefixed("Member with ID ", &integer_text(payload.member_id));
            text.append(" not found.");
            return Err(AppError::NotFound(text));
        }
        let start = match payload.membership_start_date {
            Some(start) => start,
            None => {
                return Err(
                    AppError::Validation(
                        String::from_str("Start date and end date are required for a membership."),
                    ),
                );
            },
        };
        let end = match payload.membership_end_date {
            Some(end) => end,
            None => {
                return Err(
                    AppError::Validation(String::from_str("End date cannot be before start date.")),
                );
            },
        };
        if end <= start {
            return Err(
                AppError::Validation(String::from_str("End date cannot be before start date.")),
            );
        }
        if start < MIN_DAY || start > MAX_DAY || end < MIN_DAY || end > MAX_DAY {
            return Err(
                AppError::Validation(String::from_str("Membership dates must be calendar dates.")),
            );
        }
        let visits = match payload.membership_remaining_visits {
            Some(visits) => visits,
            None => {
                return Err(
                    AppError::Validation(
                        String::from_str("Remaining visits must be specified for a membership."),
                    ),
                );
            },
        };
        let type_id = match payload.membership_type_id {
            Some(type_id) => type_id,
            None => {
                return Err(
                    AppError::Validation(String::from_str("Membership_type_id must be provided.")),
                );
            },
        };
        let suspended = match payload.membership_suspended {
            Some(flag) => flag,
            None => false,
        };
        let status = if suspended {
            MembershipStatus::Suspended
        } else {
            determine_membership_status(start, end, visits, clock.today)
        };
        match payload.membership_id {
            Some(id) => {
                let at = match find_membership(&self.memberships, id) {
                    Some(at) => at,
                    None => {
                        let mut text = prefixed("Membership with ID Some(", &integer_text(id));
                        text.append(") not found after save.");
                        return Err(AppError::NotFound(text));
                    },
                };
                let mut membership = self.memberships[at];
                if membership.member_id == payload.member_id {
                    membership.start_date = start;
                    membership.end_date = Some(end);
                    membership.remaining_visits = Some(visits);
                    membership.status = status;
                    membership.updated_at = clock.now;
                    membership.membership_type_id = type_id;
                    self.memberships.set(at, membership);
                }
                assert(self.memberships@ =~= saved(*old(self), payload, *clock).0);
                Ok(membership)
            },
            None => {
                if find_overlap(&self.memberships, payload.member_id, start, end) {
                    let mut params: Vec<(String, String)> = Vec::new();
                    params.push((String::from_str("id"), integer_text(payload.member_id)));
                    return Err(
                        AppError::Translatable(
                            TranslatableError::with_params(
                                ErrorCodes::overlapping_membership(),
                                params,
                                "failed to add membership:Member already has overlapping membership",
                            ),
                        ),
                    );
                }
                if self.next_membership_id == i64::MAX {
                    return Err(
                        AppError::Database(
                            String::from_str("Membership identifiers are exhausted"),
                        ),
                    );
                }
                let membership = Membership {
                    id: self.next_membership_id,
                    member_id: payload.member_id,
                    membership_type_id: type_id,
                    start_date: start,
                    end_date: Some(end),
                    remaining_visits: Some(visits),
                    status,
                    purchase_date: clock.now,
                    created_at: clock.now,
                    updated_at: clock.now,
                    is_deleted: false,
                };
                self.memberships.push(membership);
                self.next_membership_id = self.next_membership_id + 1;
                Ok(membership)
            },
        }
    }

    /// Deletes a membership logically at the instant `now`: flags every live
    /// membership with the identifier, and removes nothing.
    pub fn delete_membership(&mut self, id: i64, now: i64)
        ensures
            final(self).wf() == old(self).wf(),
            final(self).members == old(self).members,
            final(self).membership_types == old(self).membership_types,
            final(self).entry_logs == old(self).entry_logs,
            final(self).next_entry_log_id == old(self).next_entry_log_id,
            final(self).next_membership_id == old(self).next_membership_id,
            final(self).next_member_id == old(self).next_member_id,
            final(self).next_type_id == old(self).next_type_id,
            final(self).checkpoint == old(self).checkpoint,
            final(self).memberships@.len() == old(self).memberships@.len(),
            forall|i: int|
                0 <= i < old(self).memberships@.len() ==> final(self).memberships@[i]
                    == soft_deleted(#[trigger] old(self).memberships@[i], id, now),
    {
        let ghost before = self.memberships@;
        let mut k: usize = 0;
        while k < self.memberships.len()
            invariant
                k <= before.len(),
                before == old(self).memberships@,
                self.memberships@.len() == before.len(),
                self.members == old(self).members,
                self.membership_types == old(self).membership_types,
                self.entry_logs == old(self).entry_logs,
                self.next_entry_log_id == old(self).next_entry_log_id,
                self.next_membership_id == old(self).next_membership_id,
                self.next_member_id == old(self).next_member_id,
                self.next_type_id == old(self).next_type_id,
                self.checkpoint == old(self).checkpoint,
                forall|i: int|
                    0 <= i < k ==> self.memberships@[i] == soft_deleted(
                        #[trigger] before[i],
                        id,
                        now,
                    ),
                forall|i: int| k <= i < before.len() ==> self.memberships@[i] == before[i],
            decreases before.len() - k,
        {
            let mut membership = self.memberships[k];
            if membership.id == id && !membership.is_deleted {
                membership.is_deleted = true;
                membership.updated_at = now;
                self.memberships.set(k, membership);
            }
            k = k + 1;
        }
        assert(final(self).wf() == old(self).wf()) by {
            assert forall|i: int| 0 <= i < before.len() implies (
            #[trigger] self.memberships@[i]).wf() == before[i].wf() by {
                assert(self.memberships@[i] == soft_deleted(before[i], id, now));
            }
        }
    }

    /// Retires a membership type at the instant `now`: flags it as deleted,
    /// appends the instant to its name so that the name is free again, and
    /// makes every live membership of that type inactive. A type that is not
    /// there, or is deleted already, is reported and nothing changes.
    pub fn delete_membership_type(&mut self, id: i64, now: i64) -> (res: Result<(), AppError>)
        ensures
            final(self).wf() == old(self).wf(),
            final(self).members == old(self).members,
            final(self).entry_logs == old(self).entry_logs,
            final(self).next_entry_log_id == old(self).next_entry_log_id,
            final(self).next_membership_id == old(self).next_membership_id,
            final(self).next_member_id == old(self).next_member_id,
            final(self).next_type_id == old(self).next_type_id,
            final(self).checkpoint == old(self).checkpoint,
            res is Ok <==> live_type_upto(
                old(self).membership_types@,
                id,
                old(self).membership_types@.len() as int,
            ) is Some,
            res matches Err(e) ==> *final(self) == *old(self) && e.is_not_found(
                "Membership type with id "@ + decimal_text(id) + " not found."@,
            ),
            res is Ok ==> {
                let at = live_type_upto(
                    old(self).membership_types@,
                    id,
                    old(self).membership_types@.len() as int,
                )->0;
                &&& final(self).membership_types@.len() == old(self).membership_types@.len()
                &&& retired(old(self).membership_types@[at], final(self).membership_types@[at], now)
                &&& forall|i: int|
                    0 <= i < old(self).membership_types@.len() && i != at ==> (
                    #[trigger] final(self).membership_types@[i]) == old(self).membership_types@[i]
                &&& final(self).memberships@.len() == old(self).memberships@.len()
                &&& forall|i: int|
                    0 <= i < old(self).memberships@.len() ==> final(self).memberships@[i]
                        == after_retirement(#[trigger] old(self).memberships@[i], id)
            },
    {
        let at = match find_live_type(&self.membership_types, id) {
            Some(at) => at,
            None => {
                let mut text = prefixed("Membership type with id ", &integer_text(id));
                text.append(" not found.");
                return Err(AppError::NotFound(text));
            },
        };
        let current = &self.membership_types[at];
        let mut name = current.name.clone();
        name.append("_deleted_");
        name.append(integer_text(now).as_str());
        let retired_type = MembershipType {
            id: current.id,
            name,
            duration_days: current.duration_days,
            visit_limit: current.visit_limit,
            enter_by: current.enter_by,
            price_minor: current.price_minor,
            description: clone_text(&current.description),
            created_at: current.created_at,
            updated_at: now,
            is_deleted: true,
        };
        self.membership_types.set(at, retired_type);
        let ghost before = self.memberships@;
        let ghost types = self.membership_types;
        let mut k: usize = 0;
        while k < self.memberships.len()
            invariant
                k <= before.len(),
                before == old(self).memberships@,
                self.memberships@.len() == before.len(),
                self.members == old(self).members,
                self.membership_types == types,
                self.entry_logs == old(self).entry_logs,
                self.next_entry_log_id == old(self).next_entry_log_id,
                self.next_membership_id == old(self).next_membership_id,
                self.next_member_id == old(self).next_member_id,
                self.next_type_id == old(self).next_type_id,
                self.checkpoint == old(self).checkpoint,
                forall|i: int|
                    0 <= i < k ==> self.memberships@[i] == after_retirement(
                        #[trigger] before[i],
                        id,
                    ),
                forall|i: int| k <= i < before.len() ==> self.memberships@[i] == before[i],
            decreases before.len() - k,
        {
            let mut membership = self.memberships[k];
            if membership.membership_type_id == id && !membership.is_deleted {
                membership.status = MembershipStatus::Inactive;
                self.memberships.set(k, membership);
            }
            k = k + 1;
        }
        assert(final(self).wf() == old(self).wf()) by {
            assert forall|i: int| 0 <= i < before.len() implies (
            #[trigger] self.memberships@[i]).wf() == before[i].wf() by {
                assert(self.memberships@[i] == after_retirement(before[i], id));
            }
        }
        Ok(())
    }
}

/// What is asked for when a membership type is made or changed. The price is
/// in the smallest unit of the currency.
#[derive(Clone, Debug)]
pub struct NewMembershipTypePayload {
    pub name: String,
    pub duration_days: Option<i64>,
    pub visit_limit: Option<i64>,
    pub enter_by: Option<i64>,
    pub price_minor: i64,
    pub description: Option<String>,
    pub is_active: Option<bool>,
}

/// The message with which a membership type is refused, or `None` if it is
/// accepted. The name must not be blank, the price not negative, a duration
/// positive, a visit limit positive (or zero, when a type is changed) and not
/// above the duration, and a cutoff hour an hour of the day.
pub open spec fn type_refusal(payload: NewMembershipTypePayload, updating: bool) -> Option<
    Seq<char>,
> {
    if trimmed(payload.name@).len() == 0 {
        Some("Membership type name cannot be empty."@)
    } else if payload.price_minor < 0 {
        Some("Price cannot be negative."@)
    } else if payload.duration_days is Some && payload.duration_days->0 <= 0 {
        Some("Duration days must be positive if provided."@)
    } else if payload.visit_limit is Some && !updating && payload.visit_limit->0 <= 0 {
        Some("Visit limit must be positive if provided."@)
    } else if payload.visit_limit is Some && updating && payload.visit_limit->0 < 0 {
        Some("Visit limit must be positive or 0 if provided."@)
    } else if payload.visit_limit is Some && payload.visit_limit->0 > (match payload.duration_days {
        Some(d) => d,
        None => 0i64,
    }) {
        Some("Visit limit cannot exceed duration days."@)
    } else if payload.enter_by is Some && (payload.enter_by->0 < 0 || payload.enter_by->0 > 23) {
        Some("Enter by must valid hours."@)
    } else {
        None
    }
}

/// Checks what is asked for a membership type, for a new type or for a
/// change.
pub fn validate_membership_type(payload: &NewMembershipTypePayload, updating: bool) -> (res:
    Result<(), AppError>)
    ensures
        res is Ok <==> type_refusal(*payload, updating) is None,
        res matches Err(e) ==> type_refusal(*payload, updating) is Some && e.is_validation(
            type_refusal(*payload, updating)->0,
        ),
{
    if trim(payload.name.as_str()).as_str().unicode_len() == 0 {
        return Err(AppError::Validation(String::from_str("Membership type name cannot be empty.")));
    }
    if payload.price_minor < 0 {
        return Err(AppError::Validation(String::from_str("Price cannot be negative.")));
    }
    match payload.duration_days {
        Some(duration) => {
            if duration <= 0 {
                return Err(
                    AppError::Validation(
                        String::from_str("Duration days must be positive if provided."),
                    ),
                );
            }
        },
        None => {},
    }
    match payload.visit_limit {
        Some(limit) => {
            if !updating && limit <= 0 {
                return Err(
                    AppError::Validation(
                        String::from_str("Visit limit must be positive if provided."),
                    ),
                );
            }
            if updating && limit < 0 {
                return Err(
                    AppError::Validation(
                        String::from_str("Visit limit must be positive or 0 if provided."),
                    ),
                );
            }
            let duration = match payload.duration_days {
                Some(d) => d,
                None => 0,
            };
            if limit > duration {
                return Err(
                    AppError::Validation(
                        String::from_str("Visit limit cannot exceed duration days."),
                    ),
                );
            }
        },
        None => {},
    }
    match payload.enter_by {
        Some(hour) => {
            if hour < 0 || hour > 23 {
                return Err(AppError::Validation(String::from_str("Enter by must valid hours.")));
            }
        },
        None => {},
    }
    Ok(())
}

/// No two memberships of a member that are active, pending or suspended
/// overlap after a new membership was saved, if none did before: the new one
/// is only made when it overlaps none of them.
pub proof fn lemma_new_membership_overlaps_none(
    store: Store,
    payload: MembershipPayload,
    clock: Clock,
)
    requires
        payload.membership_id is None,
        save_refusal(store, payload) is None,
    ensures
        forall|i: int|
            0 <= i < store.memberships@.len() ==> !overlaps(
                #[trigger] store.memberships@[i],
                payload.member_id,
                payload.membership_start_date->0,
                payload.membership_end_date->0,
            ),
        saved(store, payload, clock).0.len() == store.memberships@.len() + 1,
        saved(store, payload, clock).1.wf(),
{
}

} // verus!
