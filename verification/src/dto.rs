use crate::text::text_view;
use vstd::prelude::*;

verus! {

/// The outcome of an admission attempt as the caller sees it.
#[derive(Clone, Copy, Debug, PartialEq, Eq, Structural)]
pub enum EntryStatus {
    Allowed,
    AllowedSingle,
    DeniedNoMembership,
    DeniedMembershipExpired,
    DeniedNoVisitsLeft,
    DeniedAlreadyCheckedIn,
    DeniedAfterHours,
    DeniedMembershipNotActiveYet,
    DeniedMembershipSuspended,
    DeniedMembershipInactive,
    DeniedMemberNotFound,
    DeniedCardNotAssigned,
    Error,
}

/// What a scan returns to its caller.
#[derive(Clone, Debug)]
pub struct ScanProcessingResult {
    pub status: EntryStatus,
    pub message: String,
    pub member_name: Option<String>,
    pub card_id: Option<String>,
    pub membership_type_name: Option<String>,
    pub membership_end_date: Option<i32>,
    pub remaining_visits: Option<i64>,
}

/// The mathematical content of a `ScanProcessingResult`.
pub struct ScanResultView {
    pub status: EntryStatus,
    pub message: Seq<char>,
    pub member_name: Option<Seq<char>>,
    pub card_id: Option<Seq<char>>,
    pub membership_type_name: Option<Seq<char>>,
    pub membership_end_date: Option<i32>,
    pub remaining_visits: Option<i64>,
}

impl View for ScanProcessingResult {
    type V = ScanResultView;

    open spec fn view(&self) -> ScanResultView {
        ScanResultView {
            status: self.status,
            message: self.message@,
            member_name: text_view(self.member_name),
            card_id: text_view(self.card_id),
            membership_type_name: text_view(self.membership_type_name),
            membership_end_date: self.membership_end_date,
            remaining_visits: self.remaining_visits,
        }
    }
}

/// The result of a scan that was refused before anything was looked up.
pub open spec fn invalid_input_result() -> ScanResultView {
    ScanResultView {
        status: EntryStatus::Error,
        message: "card_invalid"@,
        member_name: None,
        card_id: None,
        membership_type_name: None,
        membership_end_date: None,
        remaining_visits: None,
    }
}

/// A scanned credential.
#[derive(Clone, Debug)]
pub struct ScanPayload {
    pub card_id: String,
}

/// A manual admission: a credential, or the name of a walk-in.
#[derive(Clone, Debug)]
pub struct ScanPayloadSingle {
    pub card_id: Option<String>,
    pub first_name: Option<String>,
    pub last_name: Option<String>,
}

/// The mathematical content of a `ScanPayloadSingle`.
pub struct ManualEntry {
    pub card_id: Option<Seq<char>>,
    pub first_name: Option<Seq<char>>,
    pub last_name: Option<Seq<char>>,
}

impl View for ScanPayloadSingle {
    type V = ManualEntry;

    open spec fn view(&self) -> ManualEntry {
        ManualEntry {
            card_id: text_view(self.card_id),
            first_name: text_view(self.first_name),
            last_name: text_view(self.last_name),
        }
    }
}

/// One filter of a listing: a field's name and the value to keep.
#[derive(Clone, Debug)]
pub struct FilterField {
    pub field: String,
    pub value: String,
}

/// What a listing of the members is asked for.
#[derive(Clone, Debug)]
pub struct GetMembersPaginatedPayload {
    pub page: Option<i32>,
    pub per_page: Option<i32>,
    pub order_by: Option<String>,
    pub order_direction: Option<String>,
    pub search_string: Option<String>,
    pub filter_fields: Option<Vec<FilterField>>,
}

/// The page a caller asks for.
#[derive(Clone, Copy, Debug)]
pub struct PaginationPayload {
    pub page: Option<i32>,
    pub per_page: Option<i32>,
}

/// One page of a listing, with the totals of the whole listing.
#[derive(Debug)]
pub struct PaginatedResponse<T> {
    pub data: Vec<T>,
    pub total: i64,
    pub total_pages: i64,
    pub page: i32,
    pub per_page: i32,
}

/// The identifier of the member to fetch.
#[derive(Clone, Copy, Debug)]
pub struct GetMemberByIdPayload {
    pub id: i64,
}

/// What a listing of the audit ledger is asked for. Dates are day numbers.
#[derive(Clone, Debug)]
pub struct EntryLogQueryParams {
    pub date_from: Option<i32>,
    pub date_to: Option<i32>,
    pub page: Option<i32>,
    pub per_page: Option<i32>,
    pub order_by: Option<String>,
    pub order_direction: Option<String>,
    pub search_string: Option<String>,
    pub filter_fields: Option<Vec<FilterField>>,
}

impl Default for EntryLogQueryParams {
    /// The first page of fifty lines, newest entry first, with no search, no
    /// filter and no dates.
    fn default() -> (params: Self)
        ensures
            params.search_string is None,
            params.filter_fields is None,
            params.date_from is None,
            params.date_to is None,
            params.page == Some(1i32),
            params.per_page == Some(50i32),
            text_view(params.order_by) == Some("entry_time"@),
            text_view(params.order_direction) == Some("desc"@),
    {
        EntryLogQueryParams {
            search_string: None,
            filter_fields: None,
            date_from: None,
            date_to: None,
            page: Some(1),
            per_page: Some(50),
            order_by: Some(String::from_str("entry_time")),
            order_direction: Some(String::from_str("desc")),
        }
    }
}

/// One line of a ledger listing.
#[derive(Clone, Debug)]
pub struct EntryLogDisplay {
    pub id: i64,
    pub member_id: Option<i64>,
    pub membership_id: Option<i64>,
    pub member_name: Option<String>,
    pub visits_left: Option<i64>,
    pub membership_type_name: Option<String>,
    pub card_id: Option<String>,
    pub entry_time: i64,
    pub status: Option<String>,
    pub notes: Option<String>,
}

} // verus!
