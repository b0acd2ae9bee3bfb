use crate::dto::{FilterField, GetMembersPaginatedPayload};
use crate::error::AppError;
use crate::ledger::{page_window, window_of, PageWindow};
use crate::query::{
    filters_view, join_texts, joined, search_term, split_at_commas, split_commas, texts,
    trimmed_upto,
};
use crate::text::{
    lowercase, prefixed, text_view, trim, trimmed, uppercase, uppercase_of,
};
use vstd::prelude::*;

verus! {

/// What is asked for when a member is made or changed. The date of birth is
/// a day number.
#[derive(Clone, Debug)]
pub struct MemberPayload {
    pub id: Option<i64>,
    pub card_id: String,
    pub first_name: String,
    pub last_name: String,
    pub email: Option<String>,
    pub phone: Option<String>,
    pub date_of_birth: Option<i32>,
}

/// Whether a change of a member succeeded, with a message.
#[derive(Clone, Debug)]
pub struct MemberResponse {
    pub success: bool,
    pub message: String,
}

/// The message with which a member is refused, or `None` if the member is
/// accepted. A new member needs a card identifier and both names, none of
/// them blank; a change needs the member's identifier first.
pub open spec fn member_refusal(payload: MemberPayload, updating: bool) -> Option<Seq<char>> {
    let no_card = trimmed(payload.card_id@).len() == 0;
    let no_name = trimmed(payload.first_name@).len() == 0 || trimmed(payload.last_name@).len()
        == 0;
    if updating {
        if payload.id is None {
            Some("Member ID is required for updates."@)
        } else if no_name {
            Some("First and last name are required."@)
        } else if no_card {
            Some("Card id must not be empty!"@)
        } else {
            None
        }
    } else {
        if no_card {
            Some("Card id must not be empty!"@)
        } else if no_name {
            Some("Required first and last name!"@)
        } else {
            None
        }
    }
}

/// Checks what is asked for a member, for a new member or for a change.
pub fn validate_member(payload: &MemberPayload, updating: bool) -> (res: Result<(), AppError>)
    ensures
        res is Ok <==> member_refusal(*payload, updating) is None,
        res matches Err(e) ==> member_refusal(*payload, updating) is Some && e.is_validation(
            member_refusal(*payload, updating)->0,
        ),
{
    let no_card = trim(payload.card_id.as_str()).as_str().unicode_len() == 0;
    let no_first = trim(payload.first_name.as_str()).as_str().unicode_len() == 0;
    let no_last = trim(payload.last_name.as_str()).as_str().unicode_len() == 0;
    if updating {
        if payload.id.is_none() {
            return Err(AppError::Validation(String::from_str("Member ID is required for updates.")));
        }
        if no_first || no_last {
            return Err(AppError::Validation(String::from_str("First and last name are required.")));
        }
        if no_card {
            return Err(AppError::Validation(String::from_str("Card id must not be empty!")));
        }
    } else {
        if no_card {
            return Err(AppError::Validation(String::from_str("Card id must not be empty!")));
        }
        if no_first || no_last {
            return Err(AppError::Validation(String::from_str("Required first and last name!")));
        }
    }
    Ok(())
}

/// The short form of a card identifier: its first four characters, or all of
/// it if it has fewer.
pub open spec fn short_form(card: Seq<char>) -> Seq<char> {
    if card.len() <= 4 {
        card
    } else {
        card.subrange(0, 4)
    }
}

/// Makes the short form of a card identifier.
pub fn short_card_id(card: &str) -> (short: String)
    ensures
        short@ == short_form(card@),
{
    let n = card.unicode_len();
    if n <= 4 {
        String::from_str(card)
    } else {
        String::from_str(card.substring_char(0, 4))
    }
}

/// The page of the member listing that is served: twenty lines where no size
/// is asked for.
pub fn members_window(payload: &GetMembersPaginatedPayload) -> (window: PageWindow)
    ensures
        window == window_of(payload.page, payload.per_page, 20, i32::MAX),
{
    page_window(payload.page, payload.per_page, 20, i32::MAX)
}

/// Whether the member listing can be ordered by this field.
pub open spec fn is_member_order(field: Seq<char>) -> bool {
    field == "name"@ || field == "card_id"@ || field == "membership_status"@
}

/// Whether this is a direction of ordering.
pub open spec fn is_direction(direction: Seq<char>) -> bool {
    direction == "asc"@ || direction == "desc"@
}

/// Whether the member listing can be filtered by this field.
pub open spec fn is_member_filter(field: Seq<char>) -> bool {
    field == "membership_type_name"@ || field == "membership_status"@
}

/// Why a request for the member listing is refused.
#[derive(Clone, Copy, Debug, PartialEq, Eq, Structural)]
pub enum ListingRefusal {
    OrderBy,
    OrderDirection,
    FilterField(usize),
}

/// The first of the first `n` filters whose field cannot be filtered by.
pub open spec fn bad_filter_upto(filters: Seq<FilterField>, n: int) -> Option<int>
    decreases n,
{
    if n <= 0 {
        None
    } else {
        match bad_filter_upto(filters, n - 1) {
            Some(i) => Some(i),
            None => if !is_member_filter(filters[n - 1].field@) {
                Some(n - 1)
            } else {
                None
            },
        }
    }
}

/// Why a request for the member listing is refused, or `None` if it is
/// served: the field to order by, then the direction, then the first filter
/// that names a field which cannot be filtered by.
pub open spec fn listing_refusal(payload: GetMembersPaginatedPayload) -> Option<ListingRefusal> {
    if payload.order_by is Some && !is_member_order(payload.order_by->0@) {
        Some(ListingRefusal::OrderBy)
    } else if payload.order_direction is Some && !is_direction(payload.order_direction->0@) {
        Some(ListingRefusal::OrderDirection)
    } else {
        match payload.filter_fields {
            Some(filters) => match bad_filter_upto(filters@, filters@.len() as int) {
                Some(i) => Some(ListingRefusal::FilterField(i as usize)),
                None => None,
            },
            None => None,
        }
    }
}

/// The message of a refusal.
pub open spec fn listing_message(payload: GetMembersPaginatedPayload, refusal: ListingRefusal) -> Seq<
    char,
> {
    match refusal {
        ListingRefusal::OrderBy => "Invalid order_by field: "@ + payload.order_by->0@
            + ". Allowed values are: name, card_id, membership_status."@,
        ListingRefusal::OrderDirection => "Invalid order_direction: "@
            + payload.order_direction->0@ + ". Allowed values are: asc, desc."@,
        ListingRefusal::FilterField(i) => "Invalid filter field: "@
            + payload.filter_fields->0@[i as int].field@
            + ". Allowed values are: membership_type_name, membership_status."@,
    }
}

/// Checks a request for the member listing.
pub fn validate_member_listing(payload: &GetMembersPaginatedPayload) -> (res: Result<
    (),
    AppError,
>)
    ensures
        res is Ok <==> listing_refusal(*payload) is None,
        res matches Err(e) ==> listing_refusal(*payload) is Some && e.is_validation(
            listing_message(*payload, listing_refusal(*payload)->0),
        ),
{
    match &payload.order_by {
        Some(field) => {
            if !(*field == String::from_str("name") || *field == String::from_str("card_id")
                || *field == String::from_str("membership_status")) {
                let mut text = String::from_str("Invalid order_by field: ");
                text.append(field.as_str());
                text.append(". Allowed values are: name, card_id, membership_status.");
                return Err(AppError::Validation(text));
            }
        },
        None => {},
    }
    match &payload.order_direction {
        Some(direction) => {
            if !(*direction == String::from_str("asc") || *direction == String::from_str("desc")) {
                let mut text = String::from_str("Invalid order_direction: ");
                text.append(direction.as_str());
                text.append(". Allowed values are: asc, desc.");
                return Err(AppError::Validation(text));
            }
        },
        None => {},
    }
    match &payload.filter_fields {
        Some(filters) => {
            let mut k: usize = 0;
            while k < filters.len()
                invariant
                    k <= filters@.len(),
                    bad_filter_upto(filters@, k as int) is None,
                    payload.filter_fields == Some(*filters),
                    payload.order_by is Some ==> is_member_order(payload.order_by->0@),
                    payload.order_direction is Some ==> is_direction(payload.order_direction->0@),
                decreases filters@.len() - k,
            {
                let field = &filters[k].field;
                if !(*field == String::from_str("membership_type_name") || *field
                    == String::from_str("membership_status")) {
                    let mut text = String::from_str("Invalid filter field: ");
                    text.append(field.as_str());
                    text.append(". Allowed values are: membership_type_name, membership_status.");
                    proof {
                        assert(bad_filter_upto(filters@, k as int + 1) == Some(k as int));
                        lemma_bad_filter_stays(filters@, k as int + 1, filters@.len() as int);
                    }
                    return Err(AppError::Validation(text));
                }
                k = k + 1;
            }
        },
        None => {},
    }
    Ok(())
}

/// The ordering of the member listing: by the field asked for, in the
/// direction asked for and ascending where none is; by last and first name
/// where no field is asked for.
pub open spec fn member_order_of(order_by: Option<Seq<char>>, direction: Option<Seq<char>>) -> Seq<
    char,
> {
    member_order_with(
        order_by,
        match direction {
            Some(d) => uppercase_of(d),
            None => "ASC"@,
        },
    )
}

/// The ordering of the member listing by the field asked for, with the
/// keyword `dir` for the direction.
pub open spec fn member_order_with(order_by: Option<Seq<char>>, dir: Seq<char>) -> Seq<char> {
    match order_by {
        Some(field) => if field == "name"@ {
            "ORDER BY m.first_name "@ + dir + ", m.last_name "@ + dir
        } else if field == "card_id"@ {
            "ORDER BY m.card_id "@ + dir
        } else if field == "membership_status"@ {
            "ORDER BY ms.status "@ + dir
        } else {
            "ORDER BY m.last_name ASC, m.first_name ASC"@
        },
        None => "ORDER BY m.last_name ASC, m.first_name ASC"@,
    }
}

/// Builds the ordering clause of the member listing.
pub fn member_order_clause(payload: &GetMembersPaginatedPayload) -> (clause: String)
    ensures
        clause@ == member_order_of(
            text_view(payload.order_by),
            text_view(payload.order_direction),
        ),
{
    let dir = match &payload.order_direction {
        Some(d) => uppercase(d.as_str()),
        None => String::from_str("ASC"),
    };
    member_order_for(&payload.order_by, &dir)
}

/// Builds the ordering clause of the member listing for a field and the
/// keyword of a direction.
pub fn member_order_for(order_by: &Option<String>, dir: &String) -> (clause: String)
    ensures
        clause@ == member_order_with(text_view(*order_by), dir@),
{
    match order_by {
        Some(field) => {
            if *field == String::from_str("name") {
                let mut clause = String::from_str("ORDER BY m.first_name ");
                clause.append(dir.as_str());
                clause.append(", m.last_name ");
                clause.append(dir.as_str());
                clause
            } else if *field == String::from_str("card_id") {
                prefixed("ORDER BY m.card_id ", dir)
            } else if *field == String::from_str("membership_status") {
                prefixed("ORDER BY ms.status ", dir)
            } else {
                String::from_str("ORDER BY m.last_name ASC, m.first_name ASC")
            }
        },
        None => String::from_str("ORDER BY m.last_name ASC, m.first_name ASC"),
    }
}

/// The condition of one filter of the member listing: on the identifiers of
/// membership types, or on the status of the governing membership.
pub open spec fn member_filter_condition(filter: FilterField) -> Seq<char> {
    let pieces = split_commas(filter.value@);
    let values = trimmed_upto(pieces, pieces.len() as int);
    if filter.field@ == "membership_type_name"@ {
        "COALESCE(mt.id, 0) IN ("@ + joined(values, ", "@) + ")"@
    } else {
        "COALESCE(ms.status, '') IN ('"@ + joined(values, "', '"@) + "')"@
    }
}

/// The conditions of the first `n` filters of the member listing.
pub open spec fn member_conditions_upto(filters: Seq<FilterField>, n: int) -> Seq<Seq<char>>
    decreases n,
{
    if n <= 0 {
        Seq::empty()
    } else {
        member_conditions_upto(filters, n - 1).push(member_filter_condition(filters[n - 1]))
    }
}

/// The filter of the member listing as one condition: every filter's
/// condition joined by `AND`, or a condition that always holds where there is
/// no filter.
pub open spec fn member_filter_of(filters: Option<Seq<FilterField>>) -> Seq<char> {
    match filters {
        Some(list) => if list.len() == 0 {
            "TRUE"@
        } else {
            joined(member_conditions_upto(list, list.len() as int), " AND "@)
        },
        None => "TRUE"@,
    }
}

/// The search of the member listing as one condition: names and card hold
/// the term, or a condition that always holds where there is no term.
pub open spec fn member_search_of(search: Option<Seq<char>>) -> Seq<char> {
    match search_term(search) {
        Some(term) => member_search_with(term),
        None => "TRUE"@,
    }
}

/// The search of the member listing for a term as it is searched with: a
/// condition that always holds for an empty term.
pub open spec fn member_search_with(term: Seq<char>) -> Seq<char> {
    if term.len() == 0 {
        "TRUE"@
    } else {
        "(LOWER(m.first_name) LIKE '%"@ + term + "%' OR LOWER(m.last_name) LIKE '%"@ + term
            + "%' OR LOWER(m.first_name || ' ' || m.last_name) LIKE '%"@ + term
            + "%') OR m.card_id LIKE '%"@ + term + "%'"@
    }
}

/// Builds the search of the member listing for a term as it is searched
/// with.
pub fn member_search_clause(term: &String) -> (res: String)
    ensures
        res@ == member_search_with(term@),
{
    if term.as_str().unicode_len() > 0 {
        let mut condition = String::from_str("(LOWER(m.first_name) LIKE '%");
        condition.append(term.as_str());
        condition.append("%' OR LOWER(m.last_name) LIKE '%");
        condition.append(term.as_str());
        condition.append("%' OR LOWER(m.first_name || ' ' || m.last_name) LIKE '%");
        condition.append(term.as_str());
        condition.append("%') OR m.card_id LIKE '%");
        condition.append(term.as_str());
        condition.append("%'");
        condition
    } else {
        String::from_str("TRUE")
    }
}

/// Builds the condition of one filter of the member listing.
pub fn member_filter(filter: &FilterField) -> (res: String)
    ensures
        res@ == member_filter_condition(*filter),
{
    let pieces = split_at_commas(filter.value.as_str());
    let mut cleaned: Vec<String> = Vec::new();
    let mut k: usize = 0;
    while k < pieces.len()
        invariant
            k <= pieces@.len(),
            texts(cleaned@) == trimmed_upto(texts(pieces@), k as int),
        decreases pieces@.len() - k,
    {
        let piece = trim(pieces[k].as_str());
        let ghost before = cleaned@;
        cleaned.push(piece);
        assert(texts(cleaned@) =~= texts(before).push(piece@));
        assert(texts(pieces@)[k as int] == pieces@[k as int]@);
        k = k + 1;
    }
    assert(texts(pieces@).len() == pieces@.len());
    if filter.field == String::from_str("membership_type_name") {
        let mut res = String::from_str("COALESCE(mt.id, 0) IN (");
        res.append(join_texts(&cleaned, ", ").as_str());
        res.append(")");
        res
    } else {
        let mut res = String::from_str("COALESCE(ms.status, '') IN ('");
        res.append(join_texts(&cleaned, "', '").as_str());
        res.append("')");
        res
    }
}

/// Builds the filter and the search of the member listing, for a request
/// that `validate_member_listing` accepts.
pub fn member_conditions(payload: &GetMembersPaginatedPayload) -> (res: (String, String))
    ensures
        res.0@ == member_filter_of(filters_view(payload.filter_fields)),
        res.1@ == member_search_of(text_view(payload.search_string)),
{
    let filter_query = match &payload.filter_fields {
        Some(filters) => {
            let mut found: Vec<String> = Vec::new();
            let mut k: usize = 0;
            while k < filters.len()
                invariant
                    k <= filters@.len(),
                    texts(found@) == member_conditions_upto(filters@, k as int),
                decreases filters@.len() - k,
            {
                let condition = member_filter(&filters[k]);
                let ghost before = found@;
                found.push(condition);
                assert(texts(found@) =~= texts(before).push(condition@));
                k = k + 1;
            }
            if found.len() == 0 {
                String::from_str("TRUE")
            } else {
                join_texts(&found, " AND ")
            }
        },
        None => String::from_str("TRUE"),
    };
    let search_query = match &payload.search_string {
        Some(text) => {
            member_search_clause(&lowercase(trim(text.as_str()).as_str()))
        },
        None => String::from_str("TRUE"),
    };
    (filter_query, search_query)
}

/// Once a bad filter is found among the first `n`, it is the one found among
/// any more.
pub proof fn lemma_bad_filter_stays(filters: Seq<FilterField>, n: int, m: int)
    requires
        0 <= n <= m,
        bad_filter_upto(filters, n) is Some,
    ensures
        bad_filter_upto(filters, m) == bad_filter_upto(filters, n),
    decreases m - n,
{
    if n < m {
        lemma_bad_filter_stays(filters, n, m - 1);
    }
}

} // verus!
