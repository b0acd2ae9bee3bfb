use chrono::{Datelike, NaiveDate, TimeZone, Utc};
use gym_manager::admission::{
    already_checked_in, decide_admission, find_member, find_type, is_more_relevant, process_scan,
    process_scan_single, select_membership,
};
use gym_manager::clock::{read_clock, Clock};
use gym_manager::dto::{EntryStatus, ScanPayload, ScanPayloadSingle};
use gym_manager::error::AppError;
use gym_manager::lifecycle::MembershipStatus;
use gym_manager::models::{LogStatus, Member, Membership, MembershipType};
use gym_manager::state::{AppSettings, AppState, Store};
use gym_manager::sweeper::{check_membership_statuses, SweepReport};

fn day(year: i32, month: u32, dom: u32) -> i32 {
    NaiveDate::from_ymd_opt(year, month, dom).unwrap().num_days_from_ce()
}

fn instant(year: i32, month: u32, dom: u32, hour: u32, minute: u32) -> i64 {
    Utc.with_ymd_and_hms(year, month, dom, hour, minute, 0).unwrap().timestamp()
}

fn member(id: i64, card: &str, first: &str, last: &str) -> Member {
    Member {
        id,
        card_id: Some(card.to_string()),
        short_card_id: Some(card.chars().take(4).collect()),
        first_name: first.to_string(),
        last_name: last.to_string(),
        email: None,
        phone: None,
        date_of_birth: None,
        created_at: 0,
        updated_at: 0,
        is_deleted: false,
    }
}

fn membership(
    id: i64,
    member_id: i64,
    start: i32,
    end: Option<i32>,
    visits: Option<i64>,
    status: MembershipStatus,
) -> Membership {
    Membership {
        id,
        member_id,
        membership_type_id: 1,
        start_date: start,
        end_date: end,
        remaining_visits: visits,
        status,
        purchase_date: 0,
        created_at: 0,
        updated_at: 0,
        is_deleted: false,
    }
}

fn kind(id: i64, name: &str, enter_by: Option<i64>) -> MembershipType {
    MembershipType {
        id,
        name: name.to_string(),
        duration_days: Some(30),
        visit_limit: Some(12),
        enter_by,
        price_minor: 3000,
        description: None,
        created_at: 0,
        updated_at: 0,
        is_deleted: false,
    }
}

fn settings(timezone: &str) -> AppSettings {
    AppSettings {
        backup_url: None,
        backup_period_hours: Some(12),
        language: "en".to_string(),
        theme: "light".to_string(),
        timezone: timezone.to_string(),
        backup_enabled: false,
        gym_name: "Gym".to_string(),
        gym_code: "ABCDEFGHIJ".to_string(),
    }
}

fn store_with(members: Vec<Member>, memberships: Vec<Membership>) -> Store {
    let mut store = Store::new();
    store.members = members;
    store.memberships = memberships;
    store.membership_types = vec![kind(1, "Monthly", None)];
    store
}

fn noon(today: i32) -> Clock {
    Clock { now: 1_718_445_600, today, hour: 12 }
}

fn card(text: &str) -> String {
    text.to_string()
}

#[test]
fn unknown_credential_twice_writes_two_denials_and_changes_nothing() {
    let today = day(2024, 6, 15);
    let mut store = store_with(
        vec![member(1, "CARD0001", "Ana", "Ilic")],
        vec![membership(1, 1, today - 5, Some(today + 25), Some(8), MembershipStatus::Active)],
    );
    let first = store.scan(&card("NOBODY"), &noon(today)).unwrap();
    let second = store.scan(&card("NOBODY"), &noon(today)).unwrap();
    assert_eq!(first.status, EntryStatus::DeniedMemberNotFound);
    assert_eq!(second.status, EntryStatus::DeniedMemberNotFound);
    assert_eq!(first.message, "member_not_found");
    assert_eq!(first.card_id, Some("NOBODY".to_string()));
    assert_eq!(first.member_name, None);
    assert_eq!(store.entry_logs.len(), 2);
    assert_eq!(store.entry_logs[0].status, LogStatus::DeniedMemberNotFound);
    assert_eq!(store.entry_logs[1].status, LogStatus::DeniedMemberNotFound);
    assert_eq!(store.entry_logs[0].id, 1);
    assert_eq!(store.entry_logs[1].id, 2);
    assert_eq!(store.entry_logs[0].member_id, None);
    assert_eq!(store.entry_logs[0].card_id, "NOBODY");
    assert_eq!(store.entry_logs[0].notes, "member_not_found");
    assert_eq!(store.memberships[0].remaining_visits, Some(8));
    assert_eq!(store.memberships[0].status, MembershipStatus::Active);
    assert_eq!(store.memberships[0].updated_at, 0);
}

#[test]
fn last_visit_expires_and_next_scan_has_no_visits_left() {
    let today = day(2024, 6, 15);
    let mut store = store_with(
        vec![member(1, "CARD0001", "Ana", "Ilic")],
        vec![membership(7, 1, today - 5, Some(today + 25), Some(1), MembershipStatus::Active)],
    );
    let first = store.scan(&card("CARD0001"), &noon(today)).unwrap();
    assert_eq!(first.status, EntryStatus::Allowed);
    assert_eq!(first.message, "allowed");
    assert_eq!(first.remaining_visits, Some(0));
    assert_eq!(first.member_name, Some("Ana Ilic".to_string()));
    assert_eq!(first.membership_type_name, Some("Monthly".to_string()));
    assert_eq!(first.membership_end_date, Some(today + 25));
    assert_eq!(store.memberships[0].remaining_visits, Some(0));
    assert_eq!(store.memberships[0].status, MembershipStatus::Expired);
    assert_eq!(store.memberships[0].updated_at, 1_718_445_600);
    let second = store.scan(&card("CARD0001"), &noon(today)).unwrap();
    assert_eq!(second.status, EntryStatus::DeniedNoVisitsLeft);
    assert_eq!(second.message, "no_visits_left");
    assert_eq!(store.entry_logs.len(), 2);
    assert_eq!(store.entry_logs[0].status, LogStatus::Allowed);
    assert_eq!(store.entry_logs[0].membership_id, Some(7));
    assert_eq!(store.entry_logs[0].local_date, today);
    assert_eq!(store.entry_logs[1].status, LogStatus::DeniedNoVisitsLeft);
}

#[test]
fn second_scan_on_the_same_day_is_already_checked_in() {
    let today = day(2024, 6, 15);
    let mut store = store_with(
        vec![member(1, "CARD0001", "Ana", "Ilic")],
        vec![membership(7, 1, today - 5, Some(today + 25), Some(5), MembershipStatus::Active)],
    );
    let first = store.scan(&card("CARD0001"), &noon(today)).unwrap();
    assert_eq!(first.status, EntryStatus::Allowed);
    assert_eq!(first.remaining_visits, Some(4));
    let later = Clock { now: 1_718_449_200, today, hour: 13 };
    let second = store.scan(&card("CARD0001"), &later).unwrap();
    assert_eq!(second.status, EntryStatus::DeniedAlreadyCheckedIn);
    assert_eq!(second.message, "already_checked");
    assert_eq!(second.remaining_visits, Some(4));
    assert_eq!(store.memberships[0].remaining_visits, Some(4));
    assert_eq!(store.memberships[0].status, MembershipStatus::Active);
    let tomorrow = Clock { now: 1_718_532_000, today: today + 1, hour: 12 };
    let third = store.scan(&card("CARD0001"), &tomorrow).unwrap();
    assert_eq!(third.status, EntryStatus::Allowed);
    assert_eq!(third.remaining_visits, Some(3));
}

#[test]
fn scan_after_the_cutoff_hour_is_denied() {
    let today = day(2024, 6, 15);
    let mut store = store_with(
        vec![member(1, "CARD0001", "Ana", "Ilic")],
        vec![membership(7, 1, today - 5, Some(today + 25), Some(5), MembershipStatus::Active)],
    );
    store.membership_types = vec![kind(1, "Daytime", Some(20))];
    let mut state = AppState::new(store, settings("Europe/Belgrade"));
    let result = process_scan(
        ScanPayload { card_id: "CARD0001".to_string() },
        &mut state,
        instant(2024, 6, 15, 18, 5),
    )
    .unwrap();
    assert_eq!(result.status, EntryStatus::DeniedAfterHours);
    assert_eq!(result.message, "after_hours|20");
    assert_eq!(result.remaining_visits, Some(5));
    assert_eq!(state.store.memberships[0].remaining_visits, Some(5));
    assert_eq!(state.store.memberships[0].status, MembershipStatus::Active);
    assert_eq!(state.store.entry_logs.len(), 1);
    assert_eq!(state.store.entry_logs[0].status, LogStatus::DeniedAfterHours);
    assert_eq!(state.store.entry_logs[0].local_date, today);
    assert_eq!(state.store.entry_logs[0].entry_time, instant(2024, 6, 15, 18, 5));
}

#[test]
fn scan_before_the_cutoff_hour_is_allowed() {
    let today = day(2024, 6, 15);
    let mut store = store_with(
        vec![member(1, "CARD0001", "Ana", "Ilic")],
        vec![membership(7, 1, today - 5, Some(today + 25), Some(5), MembershipStatus::Active)],
    );
    store.membership_types = vec![kind(1, "Daytime", Some(20))];
    let mut state = AppState::new(store, settings("Europe/Belgrade"));
    let result = process_scan(
        ScanPayload { card_id: "  CARD0001\n".to_string() },
        &mut state,
        instant(2024, 6, 15, 17, 59),
    )
    .unwrap();
    assert_eq!(result.status, EntryStatus::Allowed);
    assert_eq!(result.card_id, Some("CARD0001".to_string()));
    assert_eq!(result.remaining_visits, Some(4));
    assert_eq!(state.last_membership_check, None);
}

#[test]
fn local_day_follows_the_configured_zone() {
    let late = instant(2024, 6, 15, 23, 30);
    let belgrade = read_clock(late, "Europe/Belgrade").unwrap();
    assert_eq!(belgrade.today, day(2024, 6, 16));
    assert_eq!(belgrade.hour, 1);
    assert_eq!(belgrade.now, late);
    let new_york = read_clock(late, "America/New_York").unwrap();
    assert_eq!(new_york.today, day(2024, 6, 15));
    assert_eq!(new_york.hour, 19);
    let winter = read_clock(instant(2024, 1, 10, 8, 0), "Europe/Belgrade").unwrap();
    assert_eq!(winter.hour, 9);
    assert_eq!(winter.today, day(2024, 1, 10));
}

#[test]
fn unknown_time_zone_is_a_configuration_error() {
    let result = read_clock(0, "Mars/Olympus");
    assert!(matches!(result, Err(AppError::Config(ref text)) if text == "Invalid gym timezone configuration."));
    let today = day(2024, 6, 15);
    let store = store_with(
        vec![member(1, "CARD0001", "Ana", "Ilic")],
        vec![membership(7, 1, today - 5, Some(today + 25), Some(5), MembershipStatus::Active)],
    );
    let mut state = AppState::new(store, settings("Nowhere"));
    let result = process_scan(
        ScanPayload { card_id: "CARD0001".to_string() },
        &mut state,
        instant(2024, 6, 15, 10, 0),
    );
    assert!(matches!(result, Err(AppError::Config(_))));
    assert_eq!(state.store.entry_logs.len(), 0);
    assert_eq!(state.store.memberships[0].remaining_visits, Some(5));
}

#[test]
fn empty_credential_is_invalid_input_and_writes_nothing() {
    let mut state = AppState::new(store_with(vec![], vec![]), settings("Europe/Belgrade"));
    for text in ["", "   ", "\t\n", "\u{3000}\u{a0}"] {
        let result = process_scan(ScanPayload { card_id: text.to_string() }, &mut state, 1_000)
            .unwrap();
        assert_eq!(result.status, EntryStatus::Error);
        assert_eq!(result.message, "card_invalid");
        assert_eq!(result.card_id, None);
    }
    assert_eq!(state.store.entry_logs.len(), 0);
    assert_eq!(state.store.next_entry_log_id, 1);
}

#[test]
fn empty_credential_is_refused_before_the_zone_is_read() {
    let mut state = AppState::new(store_with(vec![], vec![]), settings("Nowhere"));
    let result = process_scan(ScanPayload { card_id: " ".to_string() }, &mut state, 1_000).unwrap();
    assert_eq!(result.status, EntryStatus::Error);
}

#[test]
fn short_card_identifier_resolves_the_member() {
    let today = day(2024, 6, 15);
    let mut store = store_with(
        vec![member(1, "CARD0001", "Ana", "Ilic"), member(2, "XYZW7777", "Bo", "Peric")],
        vec![membership(7, 2, today - 5, Some(today + 25), Some(5), MembershipStatus::Active)],
    );
    let result = store.scan(&card("XYZW"), &noon(today)).unwrap();
    assert_eq!(result.status, EntryStatus::Allowed);
    assert_eq!(result.member_name, Some("Bo Peric".to_string()));
    assert_eq!(result.card_id, Some("XYZW7777".to_string()));
    assert_eq!(store.entry_logs[0].card_id, "XYZW7777");
    assert_eq!(store.entry_logs[0].member_id, Some(2));
    assert_eq!(store.entry_logs[0].member_name, Some("Bo Peric".to_string()));
}

#[test]
fn deleted_member_is_not_found() {
    let today = day(2024, 6, 15);
    let mut gone = member(1, "CARD0001", "Ana", "Ilic");
    gone.is_deleted = true;
    let mut store = store_with(
        vec![gone],
        vec![membership(7, 1, today - 5, Some(today + 25), Some(5), MembershipStatus::Active)],
    );
    let result = store.scan(&card("CARD0001"), &noon(today)).unwrap();
    assert_eq!(result.status, EntryStatus::DeniedMemberNotFound);
    assert_eq!(find_member(&store.members, &card("CARD0001")), None);
}

#[test]
fn first_matching_member_is_resolved() {
    let members = vec![
        member(1, "AAAA1111", "Ana", "Ilic"),
        member(2, "AAAA2222", "Bo", "Peric"),
        member(3, "CCCC3333", "Cy", "Sam"),
    ];
    assert_eq!(find_member(&members, &card("AAAA")), Some(0));
    assert_eq!(find_member(&members, &card("AAAA2222")), Some(1));
    assert_eq!(find_member(&members, &card("CCCC")), Some(2));
    assert_eq!(find_member(&members, &card("cccc")), None);
}

#[test]
fn member_without_membership_is_denied() {
    let today = day(2024, 6, 15);
    let mut deleted = membership(7, 1, today - 5, Some(today + 25), Some(5), MembershipStatus::Active);
    deleted.is_deleted = true;
    let mut store = store_with(
        vec![member(1, "CARD0001", "Ana", "Ilic")],
        vec![
            deleted,
            membership(8, 2, today - 5, Some(today + 25), Some(5), MembershipStatus::Active),
        ],
    );
    let result = store.scan(&card("CARD0001"), &noon(today)).unwrap();
    assert_eq!(result.status, EntryStatus::DeniedNoMembership);
    assert_eq!(result.message, "no_membership");
    assert_eq!(result.member_name, Some("Ana Ilic".to_string()));
    assert_eq!(store.entry_logs[0].status, LogStatus::DeniedNoMembership);
    assert_eq!(store.entry_logs[0].membership_id, None);
    assert_eq!(store.entry_logs[0].member_id, Some(1));
}

#[test]
fn membership_without_visit_count_is_invalid() {
    let today = day(2024, 6, 15);
    let mut store = store_with(
        vec![member(1, "CARD0001", "Ana", "Ilic")],
        vec![membership(7, 1, today - 5, Some(today + 25), None, MembershipStatus::Active)],
    );
    let result = store.scan(&card("CARD0001"), &noon(today)).unwrap();
    assert_eq!(result.status, EntryStatus::DeniedNoMembership);
    assert_eq!(result.message, "invalid_membership");
    assert_eq!(store.entry_logs[0].membership_id, Some(7));
    assert_eq!(store.memberships[0].status, MembershipStatus::Active);
}

#[test]
fn pending_membership_is_not_active_yet() {
    let today = day(2024, 6, 15);
    let start = day(2024, 7, 1);
    let mut store = store_with(
        vec![member(1, "CARD0001", "Ana", "Ilic")],
        vec![membership(7, 1, start, Some(start + 30), Some(5), MembershipStatus::Pending)],
    );
    let result = store.scan(&card("CARD0001"), &noon(today)).unwrap();
    assert_eq!(result.status, EntryStatus::DeniedMembershipNotActiveYet);
    assert_eq!(result.message, "pending|2024-07-01.");
    assert_eq!(store.entry_logs[0].status, LogStatus::DeniedMembershipNotActiveYet);
    assert_eq!(store.entry_logs[0].notes, "pending|2024-07-01.");
    assert_eq!(store.memberships[0].status, MembershipStatus::Pending);
}

#[test]
fn pending_membership_is_activated_by_the_scan_on_its_start_date() {
    let today = day(2024, 6, 15);
    let mut store = store_with(
        vec![member(1, "CARD0001", "Ana", "Ilic")],
        vec![membership(7, 1, today, Some(today + 30), Some(5), MembershipStatus::Pending)],
    );
    let result = store.scan(&card("CARD0001"), &noon(today)).unwrap();
    assert_eq!(result.status, EntryStatus::Allowed);
    assert_eq!(store.memberships[0].status, MembershipStatus::Active);
    assert_eq!(store.memberships[0].remaining_visits, Some(4));
}

#[test]
fn pending_membership_without_end_date_becomes_inactive() {
    let today = day(2024, 6, 15);
    let mut store = store_with(
        vec![member(1, "CARD0001", "Ana", "Ilic")],
        vec![membership(7, 1, today - 1, None, Some(5), MembershipStatus::Pending)],
    );
    let result = store.scan(&card("CARD0001"), &noon(today)).unwrap();
    assert_eq!(result.status, EntryStatus::DeniedMembershipInactive);
    assert_eq!(result.message, "inactive");
    assert_eq!(store.entry_logs[0].status, LogStatus::DeniedMembershipInactive);
    assert_eq!(store.memberships[0].status, MembershipStatus::Inactive);
    assert_eq!(store.memberships[0].updated_at, 1_718_445_600);
    assert_eq!(store.memberships[0].remaining_visits, Some(5));
}

#[test]
fn membership_past_its_end_date_is_expired_and_stored_so() {
    let today = day(2024, 6, 15);
    let end = day(2024, 5, 31);
    let mut store = store_with(
        vec![member(1, "CARD0001", "Ana", "Ilic")],
        vec![membership(7, 1, end - 30, Some(end), Some(5), MembershipStatus::Active)],
    );
    let result = store.scan(&card("CARD0001"), &noon(today)).unwrap();
    assert_eq!(result.status, EntryStatus::DeniedMembershipExpired);
    assert_eq!(result.message, "expired_on|2024-05-31");
    assert_eq!(store.memberships[0].status, MembershipStatus::Expired);
    assert_eq!(store.memberships[0].remaining_visits, Some(5));
    assert_eq!(store.entry_logs[0].status, LogStatus::DeniedMembershipExpired);
}

#[test]
fn suspended_membership_is_denied_and_left_alone() {
    let today = day(2024, 6, 15);
    let mut store = store_with(
        vec![member(1, "CARD0001", "Ana", "Ilic")],
        vec![membership(7, 1, today - 60, Some(today - 30), Some(0), MembershipStatus::Suspended)],
    );
    let result = store.scan(&card("CARD0001"), &noon(today)).unwrap();
    assert_eq!(result.status, EntryStatus::DeniedMembershipSuspended);
    assert_eq!(result.message, "suspended");
    assert_eq!(store.memberships[0].status, MembershipStatus::Suspended);
    assert_eq!(store.memberships[0].updated_at, 0);
}

#[test]
fn active_membership_governs_before_pending_and_others() {
    let today = day(2024, 6, 15);
    let list = vec![
        membership(1, 1, today - 400, Some(today - 300), Some(0), MembershipStatus::Expired),
        membership(2, 1, today + 40, Some(today + 70), Some(9), MembershipStatus::Pending),
        membership(3, 1, today - 10, Some(today + 20), Some(9), MembershipStatus::Active),
        membership(4, 1, today + 10, Some(today + 40), Some(9), MembershipStatus::Pending),
        membership(5, 2, today - 1, Some(today + 40), Some(9), MembershipStatus::Active),
    ];
    assert_eq!(select_membership(&list, 1), Some(2));
    assert_eq!(select_membership(&list, 2), Some(4));
    assert_eq!(select_membership(&list, 3), None);
}

#[test]
fn soonest_pending_membership_governs_when_none_is_active() {
    let today = day(2024, 6, 15);
    let list = vec![
        membership(1, 1, today - 400, Some(today - 300), Some(0), MembershipStatus::Expired),
        membership(2, 1, today + 40, Some(today + 70), Some(9), MembershipStatus::Pending),
        membership(4, 1, today + 10, Some(today + 40), Some(9), MembershipStatus::Pending),
        membership(6, 1, today + 10, Some(today + 50), Some(9), MembershipStatus::Pending),
    ];
    assert_eq!(select_membership(&list, 1), Some(2));
}

#[test]
fn most_recent_membership_governs_among_other_statuses() {
    let today = day(2024, 6, 15);
    let list = vec![
        membership(1, 1, today - 400, Some(today - 300), Some(0), MembershipStatus::Expired),
        membership(2, 1, today - 100, Some(today - 70), Some(9), MembershipStatus::Suspended),
        membership(3, 1, today - 200, Some(today - 170), Some(9), MembershipStatus::Inactive),
    ];
    assert_eq!(select_membership(&list, 1), Some(1));
    assert!(is_more_relevant(&list[1], &list[0]));
    assert!(!is_more_relevant(&list[0], &list[1]));
    assert!(!is_more_relevant(&list[0], &list[0]));
}

#[test]
fn latest_active_membership_governs_among_active_ones() {
    let today = day(2024, 6, 15);
    let list = vec![
        membership(1, 1, today - 20, Some(today + 10), Some(3), MembershipStatus::Active),
        membership(2, 1, today - 5, Some(today + 25), Some(9), MembershipStatus::Active),
    ];
    assert_eq!(select_membership(&list, 1), Some(1));
}

#[test]
fn cutoff_hour_is_read_from_the_type_of_the_membership() {
    let types = vec![kind(4, "Evening", None), kind(9, "Morning", Some(11)), kind(9, "Twin", None)];
    assert_eq!(find_type(&types, 9), Some(1));
    assert_eq!(find_type(&types, 4), Some(0));
    assert_eq!(find_type(&types, 5), None);
}

#[test]
fn decision_at_the_cutoff_hour_itself_is_a_denial() {
    let today = day(2024, 6, 15);
    let m = membership(7, 1, today - 5, Some(today + 25), Some(5), MembershipStatus::Active);
    let at = decide_admission(&m, Some(20), false, &Clock { now: 5, today, hour: 20 });
    assert_eq!(at.status, EntryStatus::DeniedAfterHours);
    assert_eq!(at.message, "after_hours|20");
    assert_eq!(at.remaining_visits, Some(5));
    let before = decide_admission(&m, Some(20), false, &Clock { now: 5, today, hour: 19 });
    assert_eq!(before.status, EntryStatus::Allowed);
    assert_eq!(before.remaining_visits, Some(4));
    assert_eq!(before.membership_status, MembershipStatus::Active);
    let both = decide_admission(&m, Some(20), true, &Clock { now: 5, today, hour: 21 });
    assert_eq!(both.status, EntryStatus::DeniedAfterHours);
}

#[test]
fn expired_membership_without_end_date_has_a_plain_reason() {
    let today = day(2024, 6, 15);
    let m = membership(7, 1, today - 5, None, Some(5), MembershipStatus::Expired);
    let decision = decide_admission(&m, None, false, &noon(today));
    assert_eq!(decision.status, EntryStatus::DeniedMembershipExpired);
    assert_eq!(decision.message, "expired");
}

#[test]
fn admissions_of_other_days_and_members_do_not_count() {
    let today = day(2024, 6, 15);
    let mut store = store_with(
        vec![member(1, "CARD0001", "Ana", "Ilic"), member(2, "CARD0002", "Bo", "Peric")],
        vec![
            membership(7, 1, today - 5, Some(today + 25), Some(5), MembershipStatus::Active),
            membership(8, 2, today - 5, Some(today + 25), Some(5), MembershipStatus::Active),
        ],
    );
    store.scan(&card("CARD0001"), &noon(today - 1)).unwrap();
    store.scan(&card("NOBODY"), &noon(today)).unwrap();
    assert!(!already_checked_in(&store.entry_logs, 1, today));
    assert!(already_checked_in(&store.entry_logs, 1, today - 1));
    assert!(!already_checked_in(&store.entry_logs, 2, today - 1));
    let result = store.scan(&card("CARD0002"), &noon(today)).unwrap();
    assert_eq!(result.status, EntryStatus::Allowed);
    assert!(already_checked_in(&store.entry_logs, 2, today));
}

#[test]
fn full_ledger_fails_the_scan_and_changes_nothing() {
    let today = day(2024, 6, 15);
    let mut store = store_with(
        vec![member(1, "CARD0001", "Ana", "Ilic")],
        vec![membership(7, 1, today - 5, Some(today + 25), Some(1), MembershipStatus::Pending)],
    );
    store.next_entry_log_id = i64::MAX;
    let result = store.scan(&card("CARD0001"), &noon(today));
    assert!(matches!(result, Err(AppError::Database(ref text)) if text == "Entry log identifiers are exhausted"));
    assert_eq!(store.entry_logs.len(), 0);
    assert_eq!(store.memberships[0].remaining_visits, Some(1));
    assert_eq!(store.memberships[0].status, MembershipStatus::Pending);
    assert_eq!(store.next_entry_log_id, i64::MAX);
}

#[test]
fn manual_admission_with_a_known_card_is_recorded_for_the_member() {
    let today = day(2024, 6, 15);
    let store = store_with(
        vec![member(1, "CARD0001", "Ana", "Ilic")],
        vec![membership(7, 1, today - 5, Some(today + 25), Some(1), MembershipStatus::Active)],
    );
    let mut state = AppState::new(store, settings("Europe/Belgrade"));
    let result = process_scan_single(
        ScanPayloadSingle { card_id: Some("CARD".to_string()), first_name: None, last_name: None },
        &mut state,
        instant(2024, 6, 15, 21, 0),
    )
    .unwrap();
    assert_eq!(result.status, EntryStatus::AllowedSingle);
    assert_eq!(result.message, "allowed_single");
    assert_eq!(result.member_name, Some("Ana Ilic".to_string()));
    assert_eq!(result.card_id, Some("CARD0001".to_string()));
    assert_eq!(result.remaining_visits, None);
    assert_eq!(state.store.memberships[0].remaining_visits, Some(1));
    assert_eq!(state.store.memberships[0].status, MembershipStatus::Active);
    assert_eq!(state.store.entry_logs.len(), 1);
    assert_eq!(state.store.entry_logs[0].status, LogStatus::AllowedSingle);
    assert_eq!(state.store.entry_logs[0].membership_id, None);
    assert_eq!(state.store.entry_logs[0].member_id, Some(1));
    assert_eq!(state.store.entry_logs[0].local_date, today);
    let scan = process_scan(
        ScanPayload { card_id: "CARD0001".to_string() },
        &mut state,
        instant(2024, 6, 15, 21, 5),
    )
    .unwrap();
    assert_eq!(scan.status, EntryStatus::Allowed);
}

#[test]
fn manual_admission_with_an_unknown_card_is_denied() {
    let mut store = store_with(vec![member(1, "CARD0001", "Ana", "Ilic")], vec![]);
    let result = store
        .scan_single(
            &ScanPayloadSingle {
                card_id: Some("OTHER".to_string()),
                first_name: Some("Zed".to_string()),
                last_name: None,
            },
            &noon(739_000),
        )
        .unwrap();
    assert_eq!(result.status, EntryStatus::DeniedMemberNotFound);
    assert_eq!(result.card_id, Some("OTHER".to_string()));
    assert_eq!(store.entry_logs[0].status, LogStatus::DeniedMemberNotFound);
}

#[test]
fn manual_admission_by_name_is_recorded_without_a_member() {
    let mut store = store_with(vec![member(1, "CARD0001", "Ana", "Ilic")], vec![]);
    let result = store
        .scan_single(
            &ScanPayloadSingle {
                card_id: Some(String::new()),
                first_name: Some("Zed".to_string()),
                last_name: None,
            },
            &noon(739_000),
        )
        .unwrap();
    assert_eq!(result.status, EntryStatus::AllowedSingle);
    assert_eq!(result.member_name, Some("Zed ".to_string()));
    assert_eq!(result.card_id, None);
    assert_eq!(store.entry_logs[0].member_id, None);
    assert_eq!(store.entry_logs[0].member_name, Some("Zed ".to_string()));
    assert_eq!(store.entry_logs[0].card_id, "");
    assert_eq!(store.entry_logs[0].notes, "allowed_single");
}

#[test]
fn manual_admission_without_card_and_name_is_invalid_input() {
    let mut store = store_with(vec![], vec![]);
    let result = store
        .scan_single(
            &ScanPayloadSingle { card_id: None, first_name: None, last_name: None },
            &noon(739_000),
        )
        .unwrap();
    assert_eq!(result.status, EntryStatus::Error);
    assert_eq!(result.message, "card_invalid");
    assert_eq!(store.entry_logs.len(), 0);
}

#[test]
fn member_without_card_is_logged_under_the_scanned_credential() {
    let today = day(2024, 6, 15);
    let mut walk = member(1, "CARD0001", "Ana", "Ilic");
    walk.card_id = None;
    walk.short_card_id = Some("QQ".to_string());
    let mut store = store_with(
        vec![walk],
        vec![membership(7, 1, today - 5, Some(today + 25), Some(2), MembershipStatus::Active)],
    );
    let result = store.scan(&card("QQ"), &noon(today)).unwrap();
    assert_eq!(result.status, EntryStatus::Allowed);
    assert_eq!(result.card_id, None);
    assert_eq!(store.entry_logs[0].card_id, "QQ");
}

#[test]
fn inactive_membership_has_a_denial_of_its_own() {
    let today = day(2024, 6, 15);
    let store = store_with(
        vec![member(1, "CARD0001", "Ana", "Ilic")],
        vec![membership(7, 1, today - 9, Some(today + 20), Some(5), MembershipStatus::Inactive)],
    );
    let mut state = AppState::new(store, settings("Europe/Belgrade"));
    let result = process_scan(
        ScanPayload { card_id: "CARD0001".to_string() },
        &mut state,
        instant(2024, 6, 15, 10, 0),
    )
    .unwrap();
    assert_eq!(result.status, EntryStatus::DeniedMembershipInactive);
    assert_ne!(result.status, EntryStatus::DeniedNoMembership);
    assert_eq!(result.message, "inactive");
    assert_eq!(result.remaining_visits, Some(5));
    assert_eq!(state.store.memberships[0].remaining_visits, Some(5));
    assert_eq!(state.store.memberships[0].status, MembershipStatus::Inactive);
    assert_eq!(state.store.entry_logs.len(), 1);
    assert_eq!(state.store.entry_logs[0].status, LogStatus::DeniedMembershipInactive);
}

#[test]
fn unknown_credential_processed_twice_leaves_two_separate_records() {
    let today = day(2024, 6, 15);
    let store = store_with(
        vec![member(1, "CARD0001", "Ana", "Ilic")],
        vec![membership(7, 1, today - 5, Some(today + 25), Some(8), MembershipStatus::Active)],
    );
    let mut state = AppState::new(store, settings("Europe/Belgrade"));
    for minute in [0, 1] {
        let result = process_scan(
            ScanPayload { card_id: " GHOST ".to_string() },
            &mut state,
            instant(2024, 6, 15, 10, minute),
        )
        .unwrap();
        assert_eq!(result.status, EntryStatus::DeniedMemberNotFound);
    }
    assert_eq!(state.store.entry_logs.len(), 2);
    assert_ne!(state.store.entry_logs[0].id, state.store.entry_logs[1].id);
    for log in &state.store.entry_logs {
        assert_eq!(log.status, LogStatus::DeniedMemberNotFound);
        assert_eq!(log.card_id, "GHOST");
        assert_eq!(log.member_id, None);
        assert_eq!(log.membership_id, None);
    }
    assert_eq!(state.store.members.len(), 1);
    assert_eq!(state.store.memberships[0].remaining_visits, Some(8));
    assert_eq!(state.store.memberships[0].status, MembershipStatus::Active);
    assert_eq!(state.store.membership_types.len(), 1);
}

#[test]
fn reconciliation_between_two_scans_brings_no_second_admission() {
    let today = day(2024, 6, 15);
    let store = store_with(
        vec![member(1, "CARD0001", "Ana", "Ilic")],
        vec![
            membership(7, 1, today - 5, Some(today + 25), Some(5), MembershipStatus::Active),
            membership(8, 1, today - 90, Some(today - 60), Some(3), MembershipStatus::Active),
        ],
    );
    let mut state = AppState::new(store, settings("Europe/Belgrade"));
    let first = process_scan(
        ScanPayload { card_id: "CARD0001".to_string() },
        &mut state,
        instant(2024, 6, 15, 8, 0),
    )
    .unwrap();
    assert_eq!(first.status, EntryStatus::Allowed);
    assert_eq!(first.remaining_visits, Some(4));
    let report = check_membership_statuses(&mut state, instant(2024, 6, 15, 9, 0)).unwrap();
    assert_eq!(report, SweepReport { pending_to_active: 0, active_to_expired: 1 });
    let second = process_scan(
        ScanPayload { card_id: "CARD0001".to_string() },
        &mut state,
        instant(2024, 6, 15, 10, 0),
    )
    .unwrap();
    assert_eq!(second.status, EntryStatus::DeniedAlreadyCheckedIn);
    assert_eq!(state.store.memberships[0].remaining_visits, Some(4));
    assert_eq!(state.store.memberships[0].status, MembershipStatus::Active);
    assert_eq!(state.store.entry_logs.len(), 2);
    assert_eq!(state.store.entry_logs[1].status, LogStatus::DeniedAlreadyCheckedIn);
}

#[test]
fn membership_activated_by_the_pass_may_govern_but_admits_nobody_twice() {
    let today = day(2024, 6, 15);
    let store = store_with(
        vec![member(1, "CARD0001", "Ana", "Ilic")],
        vec![
            membership(7, 1, today - 5, Some(today + 25), Some(5), MembershipStatus::Active),
            membership(8, 1, today - 1, Some(today + 29), Some(0), MembershipStatus::Pending),
        ],
    );
    let mut state = AppState::new(store, settings("Europe/Belgrade"));
    let first = process_scan(
        ScanPayload { card_id: "CARD0001".to_string() },
        &mut state,
        instant(2024, 6, 15, 8, 0),
    )
    .unwrap();
    assert_eq!(first.status, EntryStatus::Allowed);
    check_membership_statuses(&mut state, instant(2024, 6, 15, 9, 0)).unwrap();
    assert_eq!(state.store.memberships[1].status, MembershipStatus::Active);
    let second = process_scan(
        ScanPayload { card_id: "CARD0001".to_string() },
        &mut state,
        instant(2024, 6, 15, 10, 0),
    )
    .unwrap();
    assert_eq!(second.status, EntryStatus::DeniedNoVisitsLeft);
    assert_eq!(state.store.memberships[0].remaining_visits, Some(4));
    assert_eq!(state.store.memberships[0].status, MembershipStatus::Active);
}

#[test]
fn active_member_with_visits_is_admitted_once() {
    let today = day(2024, 6, 15);
    for visits in [2i64, 3, 40] {
        let mut store = store_with(
            vec![member(1, "CARD0001", "Ana", "Ilic")],
            vec![membership(7, 1, today - 5, Some(today), Some(visits), MembershipStatus::Active)],
        );
        store.membership_types = vec![kind(1, "Daytime", Some(13))];
        let result = store.scan(&card("CARD0001"), &noon(today)).unwrap();
        assert_eq!(result.status, EntryStatus::Allowed);
        assert_eq!(result.remaining_visits, Some(visits - 1));
        assert_eq!(store.memberships[0].remaining_visits, Some(visits - 1));
        assert_eq!(store.memberships[0].status, MembershipStatus::Active);
        assert_eq!(store.entry_logs.len(), 1);
        assert_eq!(store.entry_logs[0].status, LogStatus::Allowed);
        assert_eq!(store.entry_logs[0].member_id, Some(1));
        assert_eq!(store.entry_logs[0].local_date, today);
    }
}
