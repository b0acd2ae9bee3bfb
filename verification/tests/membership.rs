use gym_manager::clock::Clock;
use gym_manager::error::AppError;
use gym_manager::lifecycle::MembershipStatus;
use gym_manager::membership::{
    find_membership, find_overlap, has_member, validate_membership_type, MembershipPayload,
    NewMembershipTypePayload,
};
use gym_manager::models::{Member, Membership, MembershipType};
use gym_manager::state::Store;

const TODAY: i32 = 739_052;

fn clock() -> Clock {
    Clock { now: 1_718_445_600, today: TODAY, hour: 12 }
}

fn member(id: i64, deleted: bool) -> Member {
    Member {
        id,
        card_id: Some(format!("CARD{:04}", id)),
        short_card_id: Some("CARD".to_string()),
        first_name: "Ana".to_string(),
        last_name: "Ilic".to_string(),
        email: None,
        phone: None,
        date_of_birth: None,
        created_at: 0,
        updated_at: 0,
        is_deleted: deleted,
    }
}

fn payload(member_id: i64, start: i32, end: i32, visits: i64) -> MembershipPayload {
    MembershipPayload {
        member_id,
        membership_id: None,
        membership_type_id: Some(1),
        membership_start_date: Some(start),
        membership_end_date: Some(end),
        membership_remaining_visits: Some(visits),
        membership_suspended: None,
    }
}

fn store() -> Store {
    let mut store = Store::new();
    store.members = vec![member(1, false), member(2, true)];
    store.membership_types = vec![MembershipType {
        id: 1,
        name: "Monthly".to_string(),
        duration_days: Some(30),
        visit_limit: Some(12),
        enter_by: None,
        price_minor: 3000,
        description: Some("Thirty days".to_string()),
        created_at: 5,
        updated_at: 5,
        is_deleted: false,
    }];
    store
}

fn validation(result: Result<Membership, AppError>) -> String {
    match result {
        Err(AppError::Validation(text)) => text,
        other => panic!("expected a validation error, got {:?}", other),
    }
}

#[test]
fn new_membership_is_made_with_its_initial_status() {
    let mut store = store();
    let made = store.save_membership(payload(1, TODAY, TODAY + 30, 12), &clock()).unwrap();
    assert_eq!(made.id, 1);
    assert_eq!(made.status, MembershipStatus::Active);
    assert_eq!(made.purchase_date, 1_718_445_600);
    assert_eq!(made.end_date, Some(TODAY + 30));
    assert_eq!(made.remaining_visits, Some(12));
    assert_eq!(store.memberships.len(), 1);
    assert_eq!(store.next_membership_id, 2);
    let later = store.save_membership(payload(1, TODAY + 31, TODAY + 61, 12), &clock()).unwrap();
    assert_eq!(later.id, 2);
    assert_eq!(later.status, MembershipStatus::Pending);
}

#[test]
fn suspended_flag_wins_over_the_dates() {
    let mut store = store();
    let mut asked = payload(1, TODAY, TODAY + 30, 12);
    asked.membership_suspended = Some(true);
    assert_eq!(store.save_membership(asked, &clock()).unwrap().status, MembershipStatus::Suspended);
    let mut store = self::store();
    asked.membership_suspended = Some(false);
    assert_eq!(store.save_membership(asked, &clock()).unwrap().status, MembershipStatus::Active);
}

#[test]
fn overlapping_membership_is_refused_at_creation() {
    let mut store = store();
    store.save_membership(payload(1, TODAY, TODAY + 30, 12), &clock()).unwrap();
    let result = store.save_membership(payload(1, TODAY + 30, TODAY + 60, 12), &clock());
    match result {
        Err(AppError::Translatable(e)) => {
            assert_eq!(e.error_code, "error.overlapping_membership");
            assert_eq!(
                e.fallback_message,
                "failed to add membership:Member already has overlapping membership"
            );
            assert_eq!(e.params, Some(vec![("id".to_string(), "1".to_string())]));
            assert_eq!(e.message(), e.fallback_message);
        }
        other => panic!("expected an overlap, got {:?}", other),
    }
    assert_eq!(store.memberships.len(), 1);
    assert_eq!(store.next_membership_id, 2);
    assert!(find_overlap(&store.memberships, 1, TODAY - 10, TODAY));
    assert!(!find_overlap(&store.memberships, 1, TODAY - 10, TODAY - 1));
    assert!(!find_overlap(&store.memberships, 1, TODAY + 31, TODAY + 40));
    assert!(!find_overlap(&store.memberships, 3, TODAY, TODAY + 30));
}

#[test]
fn expired_membership_does_not_block_a_new_one() {
    let mut store = store();
    store.save_membership(payload(1, TODAY - 60, TODAY - 30, 12), &clock()).unwrap();
    assert_eq!(store.memberships[0].status, MembershipStatus::Expired);
    let made = store.save_membership(payload(1, TODAY - 40, TODAY + 30, 12), &clock()).unwrap();
    assert_eq!(made.status, MembershipStatus::Active);
}

#[test]
fn save_checks_come_in_order() {
    let mut store = store();
    let missing_member = store.save_membership(payload(9, TODAY, TODAY + 30, 12), &clock());
    assert!(matches!(
        missing_member,
        Err(AppError::NotFound(ref text)) if text == "Member with ID 9 not found."
    ));
    let deleted_member = store.save_membership(payload(2, TODAY, TODAY + 30, 12), &clock());
    assert!(matches!(deleted_member, Err(AppError::NotFound(_))));
    assert!(has_member(&store.members, 1));
    assert!(!has_member(&store.members, 2));

    let mut asked = payload(1, TODAY, TODAY + 30, 12);
    asked.membership_start_date = None;
    assert_eq!(
        validation(store.save_membership(asked, &clock())),
        "Start date and end date are required for a membership."
    );
    let mut asked = payload(1, TODAY, TODAY + 30, 12);
    asked.membership_end_date = None;
    assert_eq!(
        validation(store.save_membership(asked, &clock())),
        "End date cannot be before start date."
    );
    assert_eq!(
        validation(store.save_membership(payload(1, TODAY, TODAY, 12), &clock())),
        "End date cannot be before start date."
    );
    assert_eq!(
        validation(store.save_membership(payload(1, 0, TODAY, 12), &clock())),
        "Membership dates must be calendar dates."
    );
    assert_eq!(
        validation(store.save_membership(payload(1, TODAY, 3_652_060, 12), &clock())),
        "Membership dates must be calendar dates."
    );
    let mut asked = payload(1, TODAY, TODAY + 30, 12);
    asked.membership_remaining_visits = None;
    assert_eq!(
        validation(store.save_membership(asked, &clock())),
        "Remaining visits must be specified for a membership."
    );
    let mut asked = payload(1, TODAY, TODAY + 30, 12);
    asked.membership_type_id = None;
    assert_eq!(
        validation(store.save_membership(asked, &clock())),
        "Membership_type_id must be provided."
    );
    assert!(store.memberships.is_empty());
}

#[test]
fn existing_membership_is_changed_in_place() {
    let mut store = store();
    store.save_membership(payload(1, TODAY, TODAY + 30, 12), &clock()).unwrap();
    let mut asked = payload(1, TODAY + 5, TODAY + 40, 3);
    asked.membership_id = Some(1);
    asked.membership_type_id = Some(4);
    let later = Clock { now: 1_718_449_200, today: TODAY, hour: 13 };
    let changed = store.save_membership(asked, &later).unwrap();
    assert_eq!(changed.status, MembershipStatus::Pending);
    assert_eq!(changed.start_date, TODAY + 5);
    assert_eq!(changed.remaining_visits, Some(3));
    assert_eq!(changed.membership_type_id, 4);
    assert_eq!(changed.purchase_date, 1_718_445_600);
    assert_eq!(changed.updated_at, 1_718_449_200);
    assert_eq!(store.memberships.len(), 1);
    assert_eq!(store.memberships[0].start_date, TODAY + 5);
    assert_eq!(store.next_membership_id, 2);
    asked.membership_id = Some(77);
    let missing = store.save_membership(asked, &later);
    assert!(matches!(
        missing,
        Err(AppError::NotFound(ref text)) if text == "Membership with ID Some(77) not found after save."
    ));
}

#[test]
fn exhausted_identifiers_refuse_a_new_membership() {
    let mut store = store();
    store.next_membership_id = i64::MAX;
    let result = store.save_membership(payload(1, TODAY, TODAY + 30, 12), &clock());
    assert!(matches!(result, Err(AppError::Database(_))));
    assert!(store.memberships.is_empty());
}

#[test]
fn deleted_membership_is_flagged_and_kept() {
    let mut store = store();
    store.save_membership(payload(1, TODAY, TODAY + 30, 12), &clock()).unwrap();
    store.delete_membership(1, 77);
    assert_eq!(store.memberships.len(), 1);
    assert!(store.memberships[0].is_deleted);
    assert_eq!(store.memberships[0].updated_at, 77);
    assert_eq!(find_membership(&store.memberships, 1), None);
    store.delete_membership(1, 99);
    assert_eq!(store.memberships[0].updated_at, 77);
    let again = store.save_membership(payload(1, TODAY, TODAY + 30, 12), &clock()).unwrap();
    assert_eq!(again.id, 2);
}

#[test]
fn retired_type_is_renamed_and_its_memberships_made_inactive() {
    let mut store = store();
    store.save_membership(payload(1, TODAY, TODAY + 30, 12), &clock()).unwrap();
    let mut other = payload(1, TODAY + 40, TODAY + 70, 12);
    other.membership_type_id = Some(2);
    store.save_membership(other, &clock()).unwrap();
    store.delete_membership_type(1, 1_718_445_600).unwrap();
    assert_eq!(store.membership_types[0].name, "Monthly_deleted_1718445600");
    assert!(store.membership_types[0].is_deleted);
    assert_eq!(store.membership_types[0].updated_at, 1_718_445_600);
    assert_eq!(store.membership_types[0].created_at, 5);
    assert_eq!(store.membership_types[0].description, Some("Thirty days".to_string()));
    assert_eq!(store.membership_types[0].price_minor, 3000);
    assert_eq!(store.memberships[0].status, MembershipStatus::Inactive);
    assert_eq!(store.memberships[1].status, MembershipStatus::Pending);
    let again = store.delete_membership_type(1, 1_718_445_700);
    assert!(matches!(
        again,
        Err(AppError::NotFound(ref text)) if text == "Membership type with id 1 not found."
    ));
    assert_eq!(store.membership_types[0].name, "Monthly_deleted_1718445600");
    assert!(matches!(store.delete_membership_type(-8, 1), Err(AppError::NotFound(ref text)) if text == "Membership type with id -8 not found."));
}

fn kind(name: &str) -> NewMembershipTypePayload {
    NewMembershipTypePayload {
        name: name.to_string(),
        duration_days: Some(30),
        visit_limit: Some(12),
        enter_by: Some(20),
        price_minor: 3000,
        description: None,
        is_active: None,
    }
}

fn refusal(payload: &NewMembershipTypePayload, updating: bool) -> String {
    match validate_membership_type(payload, updating) {
        Err(AppError::Validation(text)) => text,
        other => panic!("expected a validation error, got {:?}", other),
    }
}

#[test]
fn membership_type_is_checked_field_by_field() {
    assert!(validate_membership_type(&kind("Monthly"), false).is_ok());
    assert!(validate_membership_type(&kind("Monthly"), true).is_ok());
    assert_eq!(refusal(&kind("  \t"), false), "Membership type name cannot be empty.");
    let mut asked = kind("Monthly");
    asked.price_minor = -1;
    assert_eq!(refusal(&asked, false), "Price cannot be negative.");
    let mut asked = kind("Monthly");
    asked.duration_days = Some(0);
    assert_eq!(refusal(&asked, true), "Duration days must be positive if provided.");
    let mut asked = kind("Monthly");
    asked.visit_limit = Some(0);
    assert_eq!(refusal(&asked, false), "Visit limit must be positive if provided.");
    assert!(validate_membership_type(&asked, true).is_ok());
    asked.visit_limit = Some(-1);
    assert_eq!(refusal(&asked, true), "Visit limit must be positive or 0 if provided.");
    asked.visit_limit = Some(31);
    assert_eq!(refusal(&asked, false), "Visit limit cannot exceed duration days.");
    asked.duration_days = None;
    asked.visit_limit = Some(1);
    assert_eq!(refusal(&asked, true), "Visit limit cannot exceed duration days.");
    let mut asked = kind("Monthly");
    asked.enter_by = Some(24);
    assert_eq!(refusal(&asked, false), "Enter by must valid hours.");
    asked.enter_by = Some(-1);
    assert_eq!(refusal(&asked, true), "Enter by must valid hours.");
    asked.enter_by = Some(0);
    assert!(validate_membership_type(&asked, false).is_ok());
    asked.enter_by = None;
    asked.visit_limit = None;
    asked.duration_days = None;
    assert!(validate_membership_type(&asked, false).is_ok());
}
