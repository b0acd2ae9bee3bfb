use crate::clock::valid_day;
use crate::lifecycle::MembershipStatus;
use vstd::prelude::*;

verus! {

/// The identity record of a person. Dates of birth are day numbers, instants
/// are seconds since the Unix epoch.
#[derive(Clone, Debug)]
pub struct Member {
    pub id: i64,
    pub card_id: Option<String>,
    pub short_card_id: Option<String>,
    pub first_name: String,
    pub last_name: String,
    pub email: Option<String>,
    pub phone: Option<String>,
    pub date_of_birth: Option<i32>,
    pub created_at: i64,
    pub updated_at: i64,
    pub is_deleted: bool,
}

/// A template from which memberships are made. The price is kept in the
/// smallest unit of the currency.
#[derive(Clone, Debug)]
pub struct MembershipType {
    pub id: i64,
    pub name: String,
    pub duration_days: Option<i64>,
    pub visit_limit: Option<i64>,
    pub enter_by: Option<i64>,
    pub price_minor: i64,
    pub description: Option<String>,
    pub created_at: i64,
    pub updated_at: i64,
    pub is_deleted: bool,
}

/// One access window of a member.
#[derive(Clone, Copy, Debug)]
pub struct Membership {
    pub id: i64,
    pub member_id: i64,
    pub membership_type_id: i64,
    pub start_date: i32,
    pub end_date: Option<i32>,
    pub remaining_visits: Option<i64>,
    pub status: MembershipStatus,
    pub purchase_date: i64,
    pub created_at: i64,
    pub updated_at: i64,
    pub is_deleted: bool,
}

impl Membership {
    /// The dates of a membership are calendar dates of the years 1 to 9999.
    pub open spec fn wf(&self) -> bool {
        &&& valid_day(self.start_date)
        &&& self.end_date matches Some(end) ==> valid_day(end)
    }
}

/// The outcome under which an admission attempt is written to the ledger.
#[derive(Clone, Copy, Debug, PartialEq, Eq, Structural)]
pub enum LogStatus {
    Allowed,
    AllowedSingle,
    DeniedMemberNotFound,
    DeniedNoMembership,
    DeniedMembershipExpired,
    DeniedNoVisitsLeft,
    DeniedMembershipNotActiveYet,
    DeniedMembershipInactive,
    DeniedMembershipSuspended,
    DeniedAfterHours,
    DeniedAlreadyCheckedIn,
}

/// The text under which a ledger outcome is stored.
pub open spec fn log_status_text(status: LogStatus) -> Seq<char> {
    match status {
        LogStatus::Allowed => "allowed"@,
        LogStatus::AllowedSingle => "allowed_single"@,
        LogStatus::DeniedMemberNotFound => "denied_member_not_found"@,
        LogStatus::DeniedNoMembership => "denied_no_membership"@,
        LogStatus::DeniedMembershipExpired => "denied_membership_expired"@,
        LogStatus::DeniedNoVisitsLeft => "denied_no_visits_left"@,
        LogStatus::DeniedMembershipNotActiveYet => "denied_membership_not_active_yet"@,
        LogStatus::DeniedMembershipInactive => "denied_membership_inactive"@,
        LogStatus::DeniedMembershipSuspended => "denied_membership_suspended"@,
        LogStatus::DeniedAfterHours => "denied_after_hours"@,
        LogStatus::DeniedAlreadyCheckedIn => "denied_already_checked_in"@,
    }
}

impl LogStatus {
    /// The stored text of the outcome.
    pub fn as_text(&self) -> (text: String)
        ensures
            text@ == log_status_text(*self),
    {
        match self {
            LogStatus::Allowed => String::from_str("allowed"),
            LogStatus::AllowedSingle => String::from_str("allowed_single"),
            LogStatus::DeniedMemberNotFound => String::from_str("denied_member_not_found"),
            LogStatus::DeniedNoMembership => String::from_str("denied_no_membership"),
            LogStatus::DeniedMembershipExpired => String::from_str("denied_membership_expired"),
            LogStatus::DeniedNoVisitsLeft => String::from_str("denied_no_visits_left"),
            LogStatus::DeniedMembershipNotActiveYet => String::from_str(
                "denied_membership_not_active_yet",
            ),
            LogStatus::DeniedMembershipInactive => String::from_str("denied_membership_inactive"),
            LogStatus::DeniedMembershipSuspended => String::from_str(
                "denied_membership_suspended",
            ),
            LogStatus::DeniedAfterHours => String::from_str("denied_after_hours"),
            LogStatus::DeniedAlreadyCheckedIn => String::from_str("denied_already_checked_in"),
        }
    }

    /// Whether the outcome refuses entry.
    pub fn is_denial(&self) -> (denied: bool)
        ensures
            denied == (*self != LogStatus::Allowed && *self != LogStatus::AllowedSingle),
    {
        match self {
            LogStatus::Allowed => false,
            LogStatus::AllowedSingle => false,
            _ => true,
        }
    }
}

/// One fact of the audit ledger: an admission attempt and how it ended.
#[derive(Clone, Debug)]
pub struct EntryLog {
    pub id: i64,
    pub member_id: Option<i64>,
    pub membership_id: Option<i64>,
    pub member_name: Option<String>,
    pub card_id: String,
    pub entry_time: i64,
    pub status: LogStatus,
    pub notes: String,
    pub local_date: i32,
}

/// How a reconciliation pass ended.
#[derive(Clone, Copy, Debug, PartialEq, Eq, Structural)]
pub enum CheckOutcome {
    Success,
    Failure,
    NoChanges,
}

/// The record of the last reconciliation pass: when it ran, on which local
/// day, how it ended and how many memberships it moved.
#[derive(Clone, Copy, Debug)]
pub struct CronCheck {
    pub last_check_time: i64,
    pub last_check_day: i32,
    pub status: CheckOutcome,
    pub pending_to_active: usize,
    pub active_to_expired: usize,
}

} // verus!
