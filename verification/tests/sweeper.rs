use gym_manager::clock::Clock;
use gym_manager::lifecycle::MembershipStatus;
use gym_manager::models::{CheckOutcome, Membership};
use gym_manager::state::{AppSettings, AppState, Store};
use gym_manager::sweeper::{check_membership_statuses, is_pass_due, make_checkpoint, SweepReport};

const TODAY: i32 = 739_052;

fn row(id: i64, start: i32, end: Option<i32>, status: MembershipStatus) -> Membership {
    Membership {
        id,
        member_id: id,
        membership_type_id: 1,
        start_date: start,
        end_date: end,
        remaining_visits: Some(5),
        status,
        purchase_date: 0,
        created_at: 0,
        updated_at: 0,
        is_deleted: false,
    }
}

fn at(today: i32, now: i64) -> Clock {
    Clock { now, today, hour: 3 }
}

#[test]
fn reconciliation_moves_yesterdays_memberships_once() {
    let mut store = Store::new();
    store.memberships = vec![
        row(1, TODAY - 1, Some(TODAY + 29), MembershipStatus::Pending),
        row(2, TODAY - 31, Some(TODAY - 1), MembershipStatus::Active),
    ];
    let report = store.run_reconciliation_once(&at(TODAY, 100));
    assert_eq!(report, SweepReport { pending_to_active: 1, active_to_expired: 1 });
    assert_eq!(store.memberships[0].status, MembershipStatus::Active);
    assert_eq!(store.memberships[0].updated_at, 100);
    assert_eq!(store.memberships[1].status, MembershipStatus::Expired);
    let check = store.checkpoint.unwrap();
    assert_eq!(check.status, CheckOutcome::Success);
    assert_eq!(check.last_check_day, TODAY);
    assert_eq!(check.last_check_time, 100);
    assert_eq!(check.pending_to_active, 1);
    assert_eq!(check.active_to_expired, 1);
    let again = store.run_reconciliation_once(&at(TODAY, 200));
    assert_eq!(again, SweepReport { pending_to_active: 0, active_to_expired: 0 });
    assert_eq!(store.memberships[0].updated_at, 100);
    let check = store.checkpoint.unwrap();
    assert_eq!(check.status, CheckOutcome::NoChanges);
    assert_eq!(check.last_check_time, 200);
}

#[test]
fn sweep_itself_finds_nothing_the_second_time() {
    let mut store = Store::new();
    store.memberships = vec![
        row(1, TODAY - 1, Some(TODAY + 29), MembershipStatus::Pending),
        row(2, TODAY - 31, Some(TODAY - 1), MembershipStatus::Active),
        row(3, TODAY - 31, Some(TODAY - 1), MembershipStatus::Pending),
    ];
    let first = store.update_membership_statuses(&at(TODAY, 100));
    assert_eq!(first, SweepReport { pending_to_active: 2, active_to_expired: 2 });
    assert_eq!(store.memberships[2].status, MembershipStatus::Expired);
    let second = store.update_membership_statuses(&at(TODAY, 200));
    assert_eq!(second, SweepReport { pending_to_active: 0, active_to_expired: 0 });
    assert_eq!(store.memberships[2].updated_at, 100);
    assert!(store.checkpoint.is_none());
}

#[test]
fn sweep_leaves_suspended_deleted_and_current_memberships() {
    let mut deleted = row(4, TODAY - 9, Some(TODAY - 1), MembershipStatus::Active);
    deleted.is_deleted = true;
    let mut store = Store::new();
    store.memberships = vec![
        row(1, TODAY - 9, Some(TODAY - 1), MembershipStatus::Suspended),
        row(2, TODAY + 1, Some(TODAY + 30), MembershipStatus::Pending),
        row(3, TODAY - 9, Some(TODAY), MembershipStatus::Active),
        deleted,
        row(5, TODAY - 9, None, MembershipStatus::Active),
        row(6, TODAY, None, MembershipStatus::Pending),
    ];
    let report = store.update_membership_statuses(&at(TODAY, 100));
    assert_eq!(report, SweepReport { pending_to_active: 1, active_to_expired: 0 });
    assert_eq!(store.memberships[0].status, MembershipStatus::Suspended);
    assert_eq!(store.memberships[1].status, MembershipStatus::Pending);
    assert_eq!(store.memberships[2].status, MembershipStatus::Active);
    assert_eq!(store.memberships[3].status, MembershipStatus::Active);
    assert_eq!(store.memberships[4].status, MembershipStatus::Active);
    assert_eq!(store.memberships[5].status, MembershipStatus::Active);
}

#[test]
fn pass_is_due_on_a_new_day_and_after_a_failure() {
    let clock = at(TODAY, 50);
    assert!(is_pass_due(&None, TODAY));
    let done = make_checkpoint(
        Some(SweepReport { pending_to_active: 2, active_to_expired: 0 }),
        true,
        &clock,
    );
    assert_eq!(done.status, CheckOutcome::Success);
    assert_eq!(done.pending_to_active, 2);
    assert!(!is_pass_due(&Some(done), TODAY));
    assert!(is_pass_due(&Some(done), TODAY + 1));
    let failed = make_checkpoint(None, true, &clock);
    assert_eq!(failed.status, CheckOutcome::Failure);
    assert!(is_pass_due(&Some(failed), TODAY));
    let skipped = make_checkpoint(None, false, &clock);
    assert_eq!(skipped.status, CheckOutcome::NoChanges);
    assert!(!is_pass_due(&Some(skipped), TODAY));
}

#[test]
fn application_pass_reads_the_zone_and_remembers_the_instant() {
    let mut store = Store::new();
    store.memberships = vec![row(1, 738_000, Some(738_030), MembershipStatus::Active)];
    let settings = AppSettings {
        backup_url: None,
        backup_period_hours: None,
        language: "en".to_string(),
        theme: "light".to_string(),
        timezone: "Europe/Belgrade".to_string(),
        backup_enabled: false,
        gym_name: "Gym".to_string(),
        gym_code: "0123456789".to_string(),
    };
    let mut state = AppState::new(store, settings);
    assert_eq!(state.last_check_time(), None);
    let report = check_membership_statuses(&mut state, 1_718_445_600).unwrap();
    assert_eq!(state.last_check_time(), Some(1_718_445_600));
    state.last_membership_check = None;
    assert_eq!(state.last_check_time(), Some(1_718_445_600));
    state.last_membership_check = Some(1_718_445_600);
    assert_eq!(report, SweepReport { pending_to_active: 0, active_to_expired: 1 });
    assert_eq!(state.last_membership_check, Some(1_718_445_600));
    assert_eq!(state.store.checkpoint.unwrap().last_check_day, 739_052);
    state.settings.timezone = "Atlantis".to_string();
    assert!(check_membership_statuses(&mut state, 1_718_445_700).is_err());
    assert_eq!(state.last_membership_check, Some(1_718_445_600));
}
