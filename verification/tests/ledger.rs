use gym_manager::dto::{EntryLogQueryParams, PaginationPayload};
use gym_manager::error::AppError;
use gym_manager::ledger::{
    build_order_clause, clamp_limit, entry_log_window, memberships_window, page_window, paginate,
    plan_purge, total_pages, PageWindow, Purge,
};
use gym_manager::models::{EntryLog, LogStatus};
use gym_manager::state::Store;

fn query(page: Option<i32>, per_page: Option<i32>) -> EntryLogQueryParams {
    EntryLogQueryParams {
        date_from: None,
        date_to: None,
        page,
        per_page,
        order_by: None,
        order_direction: None,
        search_string: None,
        filter_fields: None,
    }
}

fn log(id: i64, entry_time: i64) -> EntryLog {
    EntryLog {
        id,
        member_id: Some(1),
        membership_id: None,
        member_name: Some("Ana Ilic".to_string()),
        card_id: "CARD0001".to_string(),
        entry_time,
        status: LogStatus::Allowed,
        notes: "allowed".to_string(),
        local_date: 739_000,
    }
}

#[test]
fn page_window_defaults_and_bounds() {
    assert_eq!(entry_log_window(&query(None, None)), PageWindow { page: 1, per_page: 50, offset: 0 });
    assert_eq!(
        entry_log_window(&query(Some(3), Some(20))),
        PageWindow { page: 3, per_page: 20, offset: 40 }
    );
    assert_eq!(
        entry_log_window(&query(Some(0), Some(1000))),
        PageWindow { page: 1, per_page: 100, offset: 0 }
    );
    assert_eq!(
        entry_log_window(&query(Some(-4), Some(-4))),
        PageWindow { page: 1, per_page: 1, offset: 0 }
    );
    assert_eq!(
        page_window(Some(i32::MAX), Some(i32::MAX), 20, i32::MAX),
        PageWindow { page: i32::MAX, per_page: i32::MAX, offset: 4_611_686_011_984_936_962 }
    );
}

#[test]
fn total_pages_rounds_up() {
    assert_eq!(total_pages(0, 50), 0);
    assert_eq!(total_pages(1, 50), 1);
    assert_eq!(total_pages(50, 50), 1);
    assert_eq!(total_pages(51, 50), 2);
    assert_eq!(total_pages(101, 10), 11);
    assert_eq!(total_pages(-3, 10), 0);
    assert_eq!(total_pages(10, 0), 0);
    assert_eq!(total_pages(i64::MAX, 1), i64::MAX);
}

#[test]
fn listing_limits_are_clamped() {
    assert_eq!(clamp_limit(None, 100, 500), 100);
    assert_eq!(clamp_limit(Some(0), 100, 500), 1);
    assert_eq!(clamp_limit(Some(7), 100, 500), 7);
    assert_eq!(clamp_limit(Some(501), 100, 500), 500);
    assert_eq!(clamp_limit(None, 50, 200), 50);
    assert_eq!(clamp_limit(Some(u32::MAX), 50, 200), 200);
}

#[test]
fn order_clause_accepts_only_known_columns() {
    let mut params = query(None, None);
    assert_eq!(build_order_clause(&params), "ORDER BY el.entry_time DESC");
    params.order_by = Some("member_name".to_string());
    params.order_direction = Some("ASC".to_string());
    assert_eq!(build_order_clause(&params), "ORDER BY el.member_name ASC");
    params.order_by = Some("status".to_string());
    params.order_direction = Some("asc".to_string());
    assert_eq!(build_order_clause(&params), "ORDER BY el.status ASC");
    params.order_by = Some("card_id".to_string());
    params.order_direction = Some("down".to_string());
    assert_eq!(build_order_clause(&params), "ORDER BY el.card_id DESC");
    params.order_by = Some("notes; DROP TABLE entry_logs".to_string());
    params.order_direction = Some("desc".to_string());
    assert_eq!(build_order_clause(&params), "ORDER BY el.entry_time DESC");
    params.order_by = Some("entry_time".to_string());
    params.order_direction = None;
    assert_eq!(build_order_clause(&params), "ORDER BY el.entry_time DESC");
}

#[test]
fn purge_age_is_checked() {
    assert!(matches!(
        plan_purge(None, 1_000),
        Err(AppError::Validation(ref text)) if text == "Period must be specified"
    ));
    assert!(matches!(
        plan_purge(Some(-1), 1_000),
        Err(AppError::Validation(ref text)) if text == "Period must be between 0 and 60 months"
    ));
    assert!(matches!(
        plan_purge(Some(61), 1_000),
        Err(AppError::Validation(ref text)) if text == "Period must be between 0 and 60 months"
    ));
    assert!(matches!(
        plan_purge(Some(1), i64::MIN + 5),
        Err(AppError::Validation(ref text)) if text == "Invalid period"
    ));
    assert_eq!(plan_purge(Some(0), 1_000).unwrap(), Purge::Everything);
    assert_eq!(plan_purge(Some(1), 10_000_000).unwrap(), Purge::Before(7_408_000));
    assert_eq!(
        plan_purge(Some(60), 1_718_445_600).unwrap(),
        Purge::Before(1_718_445_600 - 155_520_000)
    );
}

#[test]
fn purge_removes_only_older_records() {
    let mut store = Store::new();
    store.entry_logs = vec![log(1, 100), log(2, 7_408_000), log(3, 7_407_999), log(4, 9_000_000)];
    store.next_entry_log_id = 5;
    store.delete_entry_logs(Some(1), 10_000_000).unwrap();
    let kept: Vec<i64> = store.entry_logs.iter().map(|l| l.id).collect();
    assert_eq!(kept, vec![2, 4]);
    assert_eq!(store.entry_logs[0].member_name, Some("Ana Ilic".to_string()));
    assert_eq!(store.entry_logs[0].card_id, "CARD0001");
    assert_eq!(store.next_entry_log_id, 5);
    assert!(store.delete_entry_logs(Some(99), 10_000_000).is_err());
    assert!(store.delete_entry_logs(None, 10_000_000).is_err());
    assert_eq!(store.entry_logs.len(), 2);
    store.delete_entry_logs(Some(0), 10_000_000).unwrap();
    assert!(store.entry_logs.is_empty());
}

#[test]
fn single_record_is_removed_by_identifier() {
    let mut store = Store::new();
    store.entry_logs = vec![log(1, 100), log(2, 200), log(3, 300)];
    store.delete_entry_log(2);
    let kept: Vec<i64> = store.entry_logs.iter().map(|l| l.id).collect();
    assert_eq!(kept, vec![1, 3]);
    store.delete_entry_log(9);
    assert_eq!(store.entry_logs.len(), 2);
}

#[test]
fn page_is_put_together_with_its_totals() {
    let window = memberships_window(&PaginationPayload { page: Some(2), per_page: None });
    assert_eq!(window, PageWindow { page: 2, per_page: 10, offset: 10 });
    let response = paginate(vec!["k", "l", "m"], 13, window);
    assert_eq!(response.data, vec!["k", "l", "m"]);
    assert_eq!(response.total, 13);
    assert_eq!(response.total_pages, 2);
    assert_eq!(response.page, 2);
    assert_eq!(response.per_page, 10);
    let empty = paginate(Vec::<i64>::new(), 0, window);
    assert_eq!(empty.total_pages, 0);
}
