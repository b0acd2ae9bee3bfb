use gym_manager::dto::{EntryLogQueryParams, FilterField};
use gym_manager::query::{build_where_clause_and_params, join_texts, split_at_commas, status_filter};

fn query() -> EntryLogQueryParams {
    EntryLogQueryParams {
        date_from: None,
        date_to: None,
        page: None,
        per_page: None,
        order_by: None,
        order_direction: None,
        search_string: None,
        filter_fields: None,
    }
}

fn filter(field: &str, value: &str) -> FilterField {
    FilterField { field: field.to_string(), value: value.to_string() }
}

fn strings(items: &[&str]) -> Vec<String> {
    items.iter().map(|s| s.to_string()).collect()
}

#[test]
fn text_is_split_at_every_comma() {
    assert_eq!(split_at_commas("a,b"), strings(&["a", "b"]));
    assert_eq!(split_at_commas(""), strings(&[""]));
    assert_eq!(split_at_commas("abc"), strings(&["abc"]));
    assert_eq!(split_at_commas(","), strings(&["", ""]));
    assert_eq!(split_at_commas("a,,b,"), strings(&["a", "", "b", ""]));
    assert_eq!(split_at_commas(" allowed , denied_šć "), strings(&[" allowed ", " denied_šć "]));
    for text in ["", "x", ",x", "x,y,z", ",,", "é,ü"] {
        let expected: Vec<String> = text.split(',').map(|s| s.to_string()).collect();
        assert_eq!(split_at_commas(text), expected);
    }
}

#[test]
fn texts_are_joined_with_the_separator_between_them() {
    assert_eq!(join_texts(&strings(&[]), ", "), "");
    assert_eq!(join_texts(&strings(&["a"]), ", "), "a");
    assert_eq!(join_texts(&strings(&["a", "b", "c"]), " AND "), "a AND b AND c");
    assert_eq!(join_texts(&strings(&["", ""]), "-"), "-");
}

#[test]
fn status_filter_lists_the_trimmed_values() {
    assert_eq!(status_filter("allowed"), "COALESCE(el.status, '') IN ('allowed')");
    assert_eq!(
        status_filter(" allowed, denied_after_hours ,x"),
        "COALESCE(el.status, '') IN ('allowed', 'denied_after_hours', 'x')"
    );
    assert_eq!(status_filter(""), "COALESCE(el.status, '') IN ('')");
}

#[test]
fn query_without_conditions_matches_everything() {
    let (clause, values) = build_where_clause_and_params(&query());
    assert_eq!(clause, "1=1");
    assert!(values.is_empty());
    let mut blank = query();
    blank.search_string = Some("   ".to_string());
    blank.filter_fields = Some(vec![filter("member", "x")]);
    let (clause, values) = build_where_clause_and_params(&blank);
    assert_eq!(clause, "1=1");
    assert!(values.is_empty());
}

#[test]
fn query_conditions_come_in_order() {
    let mut asked = query();
    asked.search_string = Some("  Ana ILIC ".to_string());
    asked.filter_fields = Some(vec![
        filter("status", "allowed, denied_no_membership"),
        filter("other", "ignored"),
        filter("status", "allowed_single"),
    ]);
    asked.date_from = Some(738_887);
    asked.date_to = Some(739_052);
    let (clause, values) = build_where_clause_and_params(&asked);
    assert_eq!(
        clause,
        "LOWER(el.member_name) LIKE '%ana ilic%' OR el.card_id LIKE '%ana ilic%' AND \
         COALESCE(el.status, '') IN ('allowed', 'denied_no_membership') AND \
         COALESCE(el.status, '') IN ('allowed_single') AND \
         DATE(el.entry_time) >= ? AND DATE(el.entry_time) <= ?"
    );
    assert_eq!(values, strings(&["2024-01-02", "2024-06-15"]));
}

#[test]
fn query_with_only_a_last_day_has_one_value() {
    let mut asked = query();
    asked.date_to = Some(1);
    let (clause, values) = build_where_clause_and_params(&asked);
    assert_eq!(clause, "DATE(el.entry_time) <= ?");
    assert_eq!(values, strings(&["0001-01-01"]));
    asked.date_to = None;
    asked.date_from = Some(3_652_059);
    let (clause, values) = build_where_clause_and_params(&asked);
    assert_eq!(clause, "DATE(el.entry_time) >= ?");
    assert_eq!(values, strings(&["9999-12-31"]));
}
