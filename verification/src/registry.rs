use crate::error::AppError;
use crate::members::{member_refusal, short_card_id, short_form, validate_member, MemberPayload};
use crate::membership::{
    find_live_type, live_type_upto, type_refusal, validate_membership_type,
    NewMembershipTypePayload,
};
use crate::models::{Member, MembershipType};
use crate::state::{lemma_wf_depends_on_memberships, Store};
use crate::text::{clone_text, decimal_text, integer_text, prefixed, text_view};
use vstd::prelude::*;

verus! {

/// Whether a member other than `except` has the card identifier.
pub open spec fn holds_card(member: Member, card: Seq<char>, except: Option<i64>) -> bool {
    text_view(member.card_id) == Some(card) && (except is Some ==> member.id != except->0)
}

/// Whether the card identifier is taken by a member other than `except`.
pub open spec fn card_taken(members: Seq<Member>, card: Seq<char>, except: Option<i64>) -> bool {
    exists|i: int| 0 <= i < members.len() && holds_card(#[trigger] members[i], card, except)
}

/// Whether a membership type other than `except` has the name.
pub open spec fn holds_name(kind: MembershipType, name: Seq<char>, except: Option<i64>) -> bool {
    kind.name@ == name && (except is Some ==> kind.id != except->0)
}

/// Whether the name is taken by a membership type other than `except`.
pub open spec fn name_taken(types: Seq<MembershipType>, name: Seq<char>, except: Option<i64>) -> bool {
    exists|i: int| 0 <= i < types.len() && holds_name(#[trigger] types[i], name, except)
}

/// The first of the first `n` members that has the identifier `id` and is
/// not deleted.
pub open spec fn live_member_upto(members: Seq<Member>, id: i64, n: int) -> Option<int>
    decreases n,
{
    if n <= 0 {
        None
    } else {
        match live_member_upto(members, id, n - 1) {
            Some(i) => Some(i),
            None => if members[n - 1].id == id && !members[n - 1].is_deleted {
                Some(n - 1)
            } else {
                None
            },
        }
    }
}

/// The first `n` members without those that have the identifier `id`.
pub open spec fn members_without_upto(members: Seq<Member>, id: i64, n: int) -> Seq<Member>
    decreases n,
{
    if n <= 0 {
        Seq::empty()
    } else if members[n - 1].id != id {
        members_without_upto(members, id, n - 1).push(members[n - 1])
    } else {
        members_without_upto(members, id, n - 1)
    }
}

/// Whether `member` holds what the payload asks for: card and short card,
/// names, contact and date of birth.
pub open spec fn carries(member: Member, payload: MemberPayload) -> bool {
    &&& text_view(member.card_id) == Some(payload.card_id@)
    &&& text_view(member.short_card_id) == Some(short_form(payload.card_id@))
    &&& member.first_name@ == payload.first_name@
    &&& member.last_name@ == payload.last_name@
    &&& text_view(member.email) == text_view(payload.email)
    &&& text_view(member.phone) == text_view(payload.phone)
    &&& member.date_of_birth == payload.date_of_birth
}

/// Whether `kind` holds what the payload asks for.
pub open spec fn describes(kind: MembershipType, payload: NewMembershipTypePayload) -> bool {
    &&& kind.name@ == payload.name@
    &&& kind.duration_days == payload.duration_days
    &&& kind.visit_limit == payload.visit_limit
    &&& kind.enter_by == payload.enter_by
    &&& kind.price_minor == payload.price_minor
    &&& text_view(kind.description) == text_view(payload.description)
}

/// Why a member is not saved.
#[derive(Clone, Copy, Debug, PartialEq, Eq, Structural)]
pub enum RegistryRefusal {
    Invalid,
    NotFound,
    Taken,
    IdentifiersExhausted,
}

/// Why a new member is refused, or `None` if it is made: the payload must be
/// valid, the card free, and an identifier left.
pub open spec fn add_member_refusal(store: Store, payload: MemberPayload) -> Option<
    RegistryRefusal,
> {
    if member_refusal(payload, false) is Some {
        Some(RegistryRefusal::Invalid)
    } else if card_taken(store.members@, payload.card_id@, None) {
        Some(RegistryRefusal::Taken)
    } else if store.next_member_id == i64::MAX {
        Some(RegistryRefusal::IdentifiersExhausted)
    } else {
        None
    }
}

/// Why a change of a member is refused, or `None` if it is made: the payload
/// must be valid, the member there, and the card not another member's.
pub open spec fn update_member_refusal(store: Store, payload: MemberPayload) -> Option<
    RegistryRefusal,
> {
    if member_refusal(payload, true) is Some {
        Some(RegistryRefusal::Invalid)
    } else if live_member_upto(store.members@, payload.id->0, store.members@.len() as int)
        is None {
        Some(RegistryRefusal::NotFound)
    } else if card_taken(store.members@, payload.card_id@, payload.id) {
        Some(RegistryRefusal::Taken)
    } else {
        None
    }
}

/// Why a new membership type is refused, or `None` if it is made.
pub open spec fn add_type_refusal(store: Store, payload: NewMembershipTypePayload) -> Option<
    RegistryRefusal,
> {
    if type_refusal(payload, false) is Some {
        Some(RegistryRefusal::Invalid)
    } else if name_taken(store.membership_types@, payload.name@, None) {
        Some(RegistryRefusal::Taken)
    } else if store.next_type_id == i64::MAX {
        Some(RegistryRefusal::IdentifiersExhausted)
    } else {
        None
    }
}

/// Why a change of a membership type is refused, or `None` if it is made.
pub open spec fn update_type_refusal(
    store: Store,
    id: i64,
    payload: NewMembershipTypePayload,
) -> Option<RegistryRefusal> {
    if type_refusal(payload, true) is Some {
        Some(RegistryRefusal::Invalid)
    } else if live_type_upto(store.membership_types@, id, store.membership_types@.len() as int)
        is None {
        Some(RegistryRefusal::NotFound)
    } else if name_taken(store.membership_types@, payload.name@, Some(id)) {
        Some(RegistryRefusal::Taken)
    } else {
        None
    }
}

/// A copy of a member.
pub fn clone_member(member: &Member) -> (copy: Member)
    ensures
        copy == *member,
{
    Member {
        id: member.id,
        card_id: match &member.card_id {
            Some(t) => Some(t.clone()),
            None => None,
        },
        short_card_id: match &member.short_card_id {
            Some(t) => Some(t.clone()),
            None => None,
        },
        first_name: member.first_name.clone(),
        last_name: member.last_name.clone(),
        email: match &member.email {
            Some(t) => Some(t.clone()),
            None => None,
        },
        phone: match &member.phone {
            Some(t) => Some(t.clone()),
            None => None,
        },
        date_of_birth: member.date_of_birth,
        created_at: member.created_at,
        updated_at: member.updated_at,
        is_deleted: member.is_deleted,
    }
}

/// A copy of a membership type.
pub fn clone_type(kind: &MembershipType) -> (copy: MembershipType)
    ensures
        copy == *kind,
{
    MembershipType {
        id: kind.id,
        name: kind.name.clone(),
        duration_days: kind.duration_days,
        visit_limit: kind.visit_limit,
        enter_by: kind.enter_by,
        price_minor: kind.price_minor,
        description: match &kind.description {
            Some(t) => Some(t.clone()),
            None => None,
        },
        created_at: kind.created_at,
        updated_at: kind.updated_at,
        is_deleted: kind.is_deleted,
    }
}

/// Tells whether the card identifier is taken by a member other than
/// `except`.
pub fn is_card_taken(members: &Vec<Member>, card: &String, except: Option<i64>) -> (res: bool)
    ensures
        res == card_taken(members@, card@, except),
{
    let mut k: usize = 0;
    while k < members.len()
        invariant
            k <= members@.len(),
            forall|i: int| 0 <= i < k ==> !holds_card(#[trigger] members@[i], card@, except),
        decreases members@.len() - k,
    {
        let same = match &members[k].card_id {
            Some(theirs) => *theirs == *card,
            None => false,
        };
        let other = match except {
            Some(id) => members[k].id != id,
            None => true,
        };
        if same && other {
            return true;
        }
        k = k + 1;
    }
    false
}

/// Tells whether the name is taken by a membership type other than `except`.
pub fn is_name_taken(types: &Vec<MembershipType>, name: &String, except: Option<i64>) -> (res:
    bool)
    ensures
        res == name_taken(types@, name@, except),
{
    let mut k: usize = 0;
    while k < types.len()
        invariant
            k <= types@.len(),
            forall|i: int| 0 <= i < k ==> !holds_name(#[trigger] types@[i], name@, except),
        decreases types@.len() - k,
    {
        let other = match except {
            Some(id) => types[k].id != id,
            None => true,
        };
        if types[k].name == *name && other {
            return true;
        }
        k = k + 1;
    }
    false
}

/// Finds the live member with the identifier `id`.
pub fn find_live_member(members: &Vec<Member>, id: i64) -> (found: Option<usize>)
    ensures
        found is Some <==> live_member_upto(members@, id, members@.len() as int) is Some,
        found matches Some(i) ==> live_member_upto(members@, id, members@.len() as int) == Some(
            i as int,
        ) && i < members@.len(),
{
    let mut found: Option<usize> = None;
    let mut k: usize = 0;
    while k < members.len()
        invariant
            k <= members@.len(),
            found is Some <==> live_member_upto(members@, id, k as int) is Some,
            found matches Some(i) ==> live_member_upto(members@, id, k as int) == Some(i as int)
                && i < k,
        decreases members@.len() - k,
    {
        if found.is_none() && members[k].id == id && !members[k].is_deleted {
            found = Some(k);
        }
        k = k + 1;
    }
    found
}

impl Store {
    /// Makes a new member at the instant `now`. The card identifier must not
    /// be another member's. A refusal changes nothing.
    pub fn add_member(&mut self, payload: &MemberPayload, now: i64) -> (res: Result<
        Member,
        AppError,
    >)
        ensures
            final(self).wf() == old(self).wf(),
            final(self).membership_types == old(self).membership_types,
            final(self).memberships == old(self).memberships,
            final(self).entry_logs == old(self).entry_logs,
            final(self).next_entry_log_id == old(self).next_entry_log_id,
            final(self).next_membership_id == old(self).next_membership_id,
            final(self).next_type_id == old(self).next_type_id,
            final(self).checkpoint == old(self).checkpoint,
            res is Err <==> add_member_refusal(*old(self), *payload) is Some,
            res matches Err(e) ==> *final(self) == *old(self) && match add_member_refusal(
                *old(self),
                *payload,
            )->0 {
                RegistryRefusal::Invalid => e.is_validation(member_refusal(*payload, false)->0),
                RegistryRefusal::Taken => e.is_translatable(
                    "error.card_already_exists"@,
                    "failed to create member: card_id already exists!"@,
                ),
                _ => e.is_database("Member identifiers are exhausted"@),
            },
            res matches Ok(member) ==> {
                &&& final(self).members@ == old(self).members@.push(member)
                &&& final(self).next_member_id == old(self).next_member_id + 1
                &&& member.id == old(self).next_member_id
                &&& carries(member, *payload)
                &&& member.created_at == now
                &&& member.updated_at == now
                &&& !member.is_deleted
            },
    {
        match validate_member(payload, false) {
            Ok(()) => {},
            Err(e) => {
                return Err(e);
            },
        }
        if is_card_taken(&self.members, &payload.card_id, None) {
            return Err(AppError::card_already_exists(&payload.card_id));
        }
        if self.next_member_id == i64::MAX {
            return Err(AppError::Database(String::from_str("Member identifiers are exhausted")));
        }
        let member = Member {
            id: self.next_member_id,
            card_id: Some(payload.card_id.clone()),
            short_card_id: Some(short_card_id(payload.card_id.as_str())),
            first_name: payload.first_name.clone(),
            last_name: payload.last_name.clone(),
            email: clone_text(&payload.email),
            phone: clone_text(&payload.phone),
            date_of_birth: payload.date_of_birth,
            created_at: now,
            updated_at: now,
            is_deleted: false,
        };
        let copy = clone_member(&member);
        self.members.push(member);
        self.next_member_id = self.next_member_id + 1;
        proof {
            lemma_wf_depends_on_memberships(*self, *old(self));
        }
        Ok(copy)
    }

    /// Changes a member at the instant `now`: card, names, contact and date
    /// of birth. The member must be there and the card must not be another
    /// member's. A refusal changes nothing.
    pub fn update_member(&mut self, payload: &MemberPayload, now: i64) -> (res: Result<
        Member,
        AppError,
    >)
        ensures
            final(self).wf() == old(self).wf(),
            final(self).membership_types == old(self).membership_types,
            final(self).memberships == old(self).memberships,
            final(self).entry_logs == old(self).entry_logs,
            final(self).next_entry_log_id == old(self).next_entry_log_id,
            final(self).next_membership_id == old(self).next_membership_id,
            final(self).next_member_id == old(self).next_member_id,
            final(self).next_type_id == old(self).next_type_id,
            final(self).checkpoint == old(self).checkpoint,
            res is Err <==> update_member_refusal(*old(self), *payload) is Some,
            res matches Err(e) ==> *final(self) == *old(self) && match update_member_refusal(
                *old(self),
                *payload,
            )->0 {
                RegistryRefusal::Invalid => e.is_validation(member_refusal(*payload, true)->0),
                RegistryRefusal::NotFound => e.is_not_found(
                    "Member with ID "@ + decimal_text(payload.id->0)
                        + " not found after update."@,
                ),
                _ => e.is_translatable(
                    "error.card_already_exists"@,
                    "failed to create member: card_id already exists!"@,
                ),
            },
            res matches Ok(member) ==> {
                let at = live_member_upto(
                    old(self).members@,
                    payload.id->0,
                    old(self).members@.len() as int,
                )->0;
                &&& final(self).members@ == old(self).members@.update(at, member)
                &&& member.id == old(self).members@[at].id
                &&& member.created_at == old(self).members@[at].created_at
                &&& member.is_deleted == old(self).members@[at].is_deleted
                &&& member.updated_at == now
                &&& carries(member, *payload)
            },
    {
        match validate_member(payload, true) {
            Ok(()) => {},
            Err(e) => {
                return Err(e);
            },
        }
        let id = match payload.id {
            Some(id) => id,
            None => {
                return Err(
                    AppError::Validation(String::from_str("Member ID is required for updates.")),
                );
            },
        };
        let at = match find_live_member(&self.members, id) {
            Some(at) => at,
            None => {
                let mut text = prefixed("Member with ID ", &integer_text(id));
                text.append(" not found after update.");
                return Err(AppError::NotFound(text));
            },
        };
        if is_card_taken(&self.members, &payload.card_id, Some(id)) {
            return Err(AppError::card_already_exists(&payload.card_id));
        }
        let member = Member {
            id: self.members[at].id,
            card_id: Some(payload.card_id.clone()),
            short_card_id: Some(short_card_id(payload.card_id.as_str())),
            first_name: payload.first_name.clone(),
            last_name: payload.last_name.clone(),
            email: clone_text(&payload.email),
            phone: clone_text(&payload.phone),
            date_of_birth: payload.date_of_birth,
            created_at: self.members[at].created_at,
            updated_at: now,
            is_deleted: self.members[at].is_deleted,
        };
        let copy = clone_member(&member);
        self.members.set(at, member);
        proof {
            lemma_wf_depends_on_memberships(*self, *old(self));
        }
        Ok(copy)
    }

    /// Removes every member with the identifier `id`. If there is none, that
    /// is reported and nothing changes.
    pub fn delete_member(&mut self, id: i64) -> (res: Result<(), AppError>)
        ensures
            final(self).wf() == old(self).wf(),
            final(self).membership_types == old(self).membership_types,
            final(self).memberships == old(self).memberships,
            final(self).entry_logs == old(self).entry_logs,
            final(self).next_entry_log_id == old(self).next_entry_log_id,
            final(self).next_membership_id == old(self).next_membership_id,
            final(self).next_member_id == old(self).next_member_id,
            final(self).next_type_id == old(self).next_type_id,
            final(self).checkpoint == old(self).checkpoint,
            final(self).members@ == members_without_upto(
                old(self).members@,
                id,
                old(self).members@.len() as int,
            ),
            res is Ok <==> final(self).members@.len() < old(self).members@.len(),
            res is Ok <==> exists|i: int|
                0 <= i < old(self).members@.len() && (#[trigger] old(self).members@[i]).id == id,
            res matches Err(e) ==> e.is_not_found(
                "Member with id "@ + decimal_text(id) + " not found."@,
            ),
    {
        let mut kept: Vec<Member> = Vec::new();
        let mut k: usize = 0;
        while k < self.members.len()
            invariant
                k <= self.members@.len(),
                *self == *old(self),
                kept@ == members_without_upto(self.members@, id, k as int),
                kept@.len() <= k,
                kept@.len() == k <==> forall|i: int|
                    0 <= i < k ==> (#[trigger] self.members@[i]).id != id,
            decreases self.members@.len() - k,
        {
            if self.members[k].id != id {
                kept.push(clone_member(&self.members[k]));
            }
            k = k + 1;
        }
        let removed = kept.len() < self.members.len();
        self.members = kept;
        proof {
            lemma_wf_depends_on_memberships(*self, *old(self));
        }
        if removed {
            Ok(())
        } else {
            let mut text = prefixed("Member with id ", &integer_text(id));
            text.append(" not found.");
            Err(AppError::NotFound(text))
        }
    }

    /// Makes a new membership type at the instant `now`. Its name must not be
    /// another type's. A refusal changes nothing.
    pub fn add_membership_type(&mut self, payload: &NewMembershipTypePayload, now: i64) -> (res:
        Result<MembershipType, AppError>)
        ensures
            final(self).wf() == old(self).wf(),
            final(self).members == old(self).members,
            final(self).memberships == old(self).memberships,
            final(self).entry_logs == old(self).entry_logs,
            final(self).next_entry_log_id == old(self).next_entry_log_id,
            final(self).next_membership_id == old(self).next_membership_id,
            final(self).next_member_id == old(self).next_member_id,
            final(self).checkpoint == old(self).checkpoint,
            res is Err <==> add_type_refusal(*old(self), *payload) is Some,
            res matches Err(e) ==> *final(self) == *old(self) && match add_type_refusal(
                *old(self),
                *payload,
            )->0 {
                RegistryRefusal::Invalid => e.is_validation(type_refusal(*payload, false)->0),
                RegistryRefusal::Taken => e.is_translatable(
                    "error.membership_type_name_exists"@,
                    "failed to update membership_type: name already exists!"@,
                ),
                _ => e.is_database("Membership type identifiers are exhausted"@),
            },
            res matches Ok(kind) ==> {
                &&& final(self).membership_types@ == old(self).membership_types@.push(kind)
                &&& final(self).next_type_id == old(self).next_type_id + 1
                &&& kind.id == old(self).next_type_id
                &&& describes(kind, *payload)
                &&& kind.created_at == now
                &&& kind.updated_at == now
                &&& !kind.is_deleted
            },
    {
        match validate_membership_type(payload, false) {
            Ok(()) => {},
            Err(e) => {
                return Err(e);
            },
        }
        if is_name_taken(&self.membership_types, &payload.name, None) {
            return Err(AppError::membership_type_name_exists(&payload.name));
        }
        if self.next_type_id == i64::MAX {
            return Err(
                AppError::Database(String::from_str("Membership type identifiers are exhausted")),
            );
        }
        let kind = MembershipType {
            id: self.next_type_id,
            name: payload.name.clone(),
            duration_days: payload.duration_days,
            visit_limit: payload.visit_limit,
            enter_by: payload.enter_by,
            price_minor: payload.price_minor,
            description: clone_text(&payload.description),
            created_at: now,
            updated_at: now,
            is_deleted: false,
        };
        let copy = clone_type(&kind);
        self.membership_types.push(kind);
        self.next_type_id = self.next_type_id + 1;
        proof {
            lemma_wf_depends_on_memberships(*self, *old(self));
        }
        Ok(copy)
    }

    /// Changes a membership type at the instant `now`. The type must be there
    /// and its new name must not be another type's. A refusal changes
    /// nothing.
    pub fn update_membership_type(
        &mut self,
        id: i64,
        payload: &NewMembershipTypePayload,
        now: i64,
    ) -> (res: Result<MembershipType, AppError>)
        ensures
            final(self).wf() == old(self).wf(),
            final(self).members == old(self).members,
            final(self).memberships == old(self).memberships,
            final(self).entry_logs == old(self).entry_logs,
            final(self).next_entry_log_id == old(self).next_entry_log_id,
            final(self).next_membership_id == old(self).next_membership_id,
            final(self).next_member_id == old(self).next_member_id,
            final(self).next_type_id == old(self).next_type_id,
            final(self).checkpoint == old(self).checkpoint,
            res is Err <==> update_type_refusal(*old(self), id, *payload) is Some,
            res matches Err(e) ==> *final(self) == *old(self) && match update_type_refusal(
                *old(self),
                id,
                *payload,
            )->0 {
                RegistryRefusal::Invalid => e.is_validation(type_refusal(*payload, true)->0),
                RegistryRefusal::NotFound => e.is_not_found(
                    "Membership type with id "@ + decimal_text(id) + " not found."@,
                ),
                _ => e.is_translatable(
                    "error.membership_type_name_exists"@,
                    "failed to update membership_type: name already exists!"@,
                ),
            },
            res matches Ok(kind) ==> {
                let at = live_type_upto(
                    old(self).membership_types@,
                    id,
                    old(self).membership_types@.len() as int,
                )->0;
                &&& final(self).membership_types@ == old(self).membership_types@.update(at, kind)
                &&& kind.id == id
                &&& kind.created_at == old(self).membership_types@[at].created_at
                &&& !kind.is_deleted
                &&& kind.updated_at == now
                &&& describes(kind, *payload)
            },
    {
        match validate_membership_type(payload, true) {
            Ok(()) => {},
            Err(e) => {
                return Err(e);
            },
        }
        let at = match find_live_type(&self.membership_types, id) {
            Some(at) => at,
            None => {
                let mut text = prefixed("Membership type with id ", &integer_text(id));
                text.append(" not found.");
                return Err(AppError::NotFound(text));
            },
        };
        if is_name_taken(&self.membership_types, &payload.name, Some(id)) {
            return Err(AppError::membership_type_name_exists(&payload.name));
        }
        proof {
            lemma_live_type_has_id(self.membership_types@, id, self.membership_types@.len() as int);
        }
        let kind = MembershipType {
            id,
            name: payload.name.clone(),
            duration_days: payload.duration_days,
            visit_limit: payload.visit_limit,
            enter_by: payload.enter_by,
            price_minor: payload.price_minor,
            description: clone_text(&payload.description),
            created_at: self.membership_types[at].created_at,
            updated_at: now,
            is_deleted: false,
        };
        let copy = clone_type(&kind);
        self.membership_types.set(at, kind);
        proof {
            lemma_wf_depends_on_memberships(*self, *old(self));
        }
        Ok(copy)
    }
}

/// The live type that is found for an identifier has that identifier and is
/// not deleted.
pub proof fn lemma_live_type_has_id(types: Seq<MembershipType>, id: i64, n: int)
    requires
        0 <= n <= types.len(),
    ensures
        live_type_upto(types, id, n) matches Some(i) ==> 0 <= i < n && types[i].id == id
            && !types[i].is_deleted,
    decreases n,
{
    if n > 0 {
        lemma_live_type_has_id(types, id, n - 1);
    }
}

} // verus!
