use gym_manager::dto::{FilterField, GetMembersPaginatedPayload};
use gym_manager::error::{AppError, ErrorCodes, TranslatableError};
use gym_manager::ledger::PageWindow;
use gym_manager::members::{
    members_window, short_card_id, validate_member, validate_member_listing, MemberPayload,
};
use gym_manager::models::LogStatus;
use gym_manager::library_setup_function;

fn payload(id: Option<i64>, card: &str, first: &str, last: &str) -> MemberPayload {
    MemberPayload {
        id,
        card_id: card.to_string(),
        first_name: first.to_string(),
        last_name: last.to_string(),
        email: None,
        phone: None,
        date_of_birth: None,
    }
}

fn refusal(payload: &MemberPayload, updating: bool) -> String {
    match validate_member(payload, updating) {
        Err(AppError::Validation(text)) => text,
        other => panic!("expected a validation error, got {:?}", other),
    }
}

fn listing() -> GetMembersPaginatedPayload {
    GetMembersPaginatedPayload {
        page: None,
        per_page: None,
        order_by: None,
        order_direction: None,
        search_string: None,
        filter_fields: None,
    }
}

#[test]
fn new_member_needs_card_and_names() {
    assert!(validate_member(&payload(None, "CARD0001", "Ana", "Ilic"), false).is_ok());
    assert_eq!(refusal(&payload(None, "  ", "", ""), false), "Card id must not be empty!");
    assert_eq!(refusal(&payload(None, "C", " ", "Ilic"), false), "Required first and last name!");
    assert_eq!(refusal(&payload(None, "C", "Ana", "\n"), false), "Required first and last name!");
}

#[test]
fn changed_member_needs_its_identifier_first() {
    assert!(validate_member(&payload(Some(3), "CARD0001", "Ana", "Ilic"), true).is_ok());
    assert_eq!(refusal(&payload(None, "", "", ""), true), "Member ID is required for updates.");
    assert_eq!(refusal(&payload(Some(3), "", "", "Ilic"), true), "First and last name are required.");
    assert_eq!(refusal(&payload(Some(3), " ", "Ana", "Ilic"), true), "Card id must not be empty!");
}

#[test]
fn short_card_identifier_is_the_first_four_characters() {
    assert_eq!(short_card_id("CARD0001"), "CARD");
    assert_eq!(short_card_id("CARD"), "CARD");
    assert_eq!(short_card_id("AB"), "AB");
    assert_eq!(short_card_id(""), "");
    assert_eq!(short_card_id("žćčšđ9"), "žćčš");
}

#[test]
fn member_listing_window_has_no_upper_bound() {
    let mut asked = listing();
    assert_eq!(members_window(&asked), PageWindow { page: 1, per_page: 20, offset: 0 });
    asked.page = Some(4);
    asked.per_page = Some(5000);
    assert_eq!(members_window(&asked), PageWindow { page: 4, per_page: 5000, offset: 15000 });
    asked.per_page = Some(0);
    assert_eq!(members_window(&asked), PageWindow { page: 4, per_page: 1, offset: 3 });
}

#[test]
fn member_listing_request_is_checked() {
    let mut asked = listing();
    assert!(validate_member_listing(&asked).is_ok());
    asked.order_by = Some("card_id".to_string());
    asked.order_direction = Some("desc".to_string());
    asked.filter_fields = Some(vec![
        FilterField { field: "membership_status".to_string(), value: "active".to_string() },
        FilterField { field: "membership_type_name".to_string(), value: "1,2".to_string() },
    ]);
    assert!(validate_member_listing(&asked).is_ok());
    asked.filter_fields = Some(vec![
        FilterField { field: "membership_status".to_string(), value: "active".to_string() },
        FilterField { field: "email".to_string(), value: "x".to_string() },
        FilterField { field: "phone".to_string(), value: "y".to_string() },
    ]);
    assert!(matches!(
        validate_member_listing(&asked),
        Err(AppError::Validation(ref text)) if text == "Invalid filter field: email. Allowed values are: membership_type_name, membership_status."
    ));
    asked.order_direction = Some("DESC".to_string());
    assert!(matches!(
        validate_member_listing(&asked),
        Err(AppError::Validation(ref text)) if text == "Invalid order_direction: DESC. Allowed values are: asc, desc."
    ));
    asked.order_by = Some("email".to_string());
    assert!(matches!(
        validate_member_listing(&asked),
        Err(AppError::Validation(ref text)) if text == "Invalid order_by field: email. Allowed values are: name, card_id, membership_status."
    ));
}

#[test]
fn error_codes_and_translatable_errors() {
    assert_eq!(ErrorCodes::membership_type_name_exists(), "error.membership_type_name_exists");
    assert_eq!(ErrorCodes::card_already_exists(), "error.card_already_exists");
    assert_eq!(ErrorCodes::overlapping_membership(), "error.overlapping_membership");
    assert_eq!(ErrorCodes::username_already_exists(), "error.username_already_exists");
    let plain = TranslatableError::new("error.card_already_exists", "card exists");
    assert_eq!(plain.error_code, "error.card_already_exists");
    assert_eq!(plain.params, None);
    assert_eq!(plain.message(), "card exists");
    let with = TranslatableError::with_params(
        "error.card_already_exists",
        vec![("card_id".to_string(), "C1".to_string())],
        "card exists",
    );
    assert_eq!(with.params, Some(vec![("card_id".to_string(), "C1".to_string())]));
}

#[test]
fn ledger_outcomes_have_their_stored_text() {
    assert_eq!(LogStatus::Allowed.as_text(), "allowed");
    assert_eq!(LogStatus::AllowedSingle.as_text(), "allowed_single");
    assert_eq!(LogStatus::DeniedMemberNotFound.as_text(), "denied_member_not_found");
    assert_eq!(LogStatus::DeniedNoMembership.as_text(), "denied_no_membership");
    assert_eq!(LogStatus::DeniedMembershipExpired.as_text(), "denied_membership_expired");
    assert_eq!(LogStatus::DeniedNoVisitsLeft.as_text(), "denied_no_visits_left");
    assert_eq!(
        LogStatus::DeniedMembershipNotActiveYet.as_text(),
        "denied_membership_not_active_yet"
    );
    assert_eq!(LogStatus::DeniedMembershipInactive.as_text(), "denied_membership_inactive");
    assert_eq!(LogStatus::DeniedMembershipSuspended.as_text(), "denied_membership_suspended");
    assert_eq!(LogStatus::DeniedAfterHours.as_text(), "denied_after_hours");
    assert_eq!(LogStatus::DeniedAlreadyCheckedIn.as_text(), "denied_already_checked_in");
    assert!(!LogStatus::Allowed.is_denial());
    assert!(!LogStatus::AllowedSingle.is_denial());
    assert!(LogStatus::DeniedAfterHours.is_denial());
}

#[test]
fn library_setup_does_nothing_and_returns() {
    library_setup_function();
}
