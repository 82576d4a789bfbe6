use chrono::Datelike;
use ri_utilization::calendar::DateRange;
use ri_utilization::query::{build_filter, build_query_on, push_filter, DimensionPredicate};
use ri_utilization::request::{copy_text, InvocationRequest};

fn text(s: &str) -> Option<String> {
    Some(s.to_string())
}

fn request(
    region: Option<String>,
    service: Option<String>,
    linked_account: Option<String>,
) -> InvocationRequest {
    InvocationRequest {
        region,
        service,
        linked_account,
        granularity: None,
        namespace: "Custom/Reservations".to_string(),
        metric_name: "UtilizationPct".to_string(),
    }
}

fn predicate(key: &str, value: &str) -> DimensionPredicate {
    DimensionPredicate { key: key.to_string(), value: value.to_string() }
}

fn day_number(year: i32, month: u32, day: u32) -> i32 {
    chrono::NaiveDate::from_ymd_opt(year, month, day).unwrap().num_days_from_ce()
}

#[test]
fn filter_is_empty_when_no_field_is_present() {
    let filter = build_filter(&request(None, None, None));
    assert!(filter.and.is_empty());
}

#[test]
fn filter_holds_one_predicate_per_present_field() {
    let values = [text("eu-west-1"), text("AmazonEC2"), text("123456789012")];
    for mask in 0..8u32 {
        let region = if mask & 1 != 0 { values[0].clone() } else { None };
        let service = if mask & 2 != 0 { values[1].clone() } else { None };
        let account = if mask & 4 != 0 { values[2].clone() } else { None };
        let mut expected = vec![];
        if mask & 1 != 0 {
            expected.push(predicate("REGION", "eu-west-1"));
        }
        if mask & 2 != 0 {
            expected.push(predicate("SERVICE", "AmazonEC2"));
        }
        if mask & 4 != 0 {
            expected.push(predicate("LINKED_ACCOUNT", "123456789012"));
        }
        let filter = build_filter(&request(region, service, account));
        assert_eq!(filter.and, expected);
        assert_eq!(filter.and.len(), mask.count_ones() as usize);
        assert_eq!(filter.and.is_empty(), mask == 0);
    }
}

#[test]
fn filter_keeps_the_fixed_order() {
    let filter = build_filter(&request(text("us-east-1"), text("AmazonRDS"), text("42")));
    let keys: Vec<&str> = filter.and.iter().map(|p| p.key.as_str()).collect();
    assert_eq!(keys, vec!["REGION", "SERVICE", "LINKED_ACCOUNT"]);
}

#[test]
fn push_filter_appends_a_present_element() {
    let mut predicates = vec![predicate("REGION", "us-east-1")];
    push_filter(&text("AmazonEC2"), &mut predicates, "SERVICE".to_string());
    assert_eq!(
        predicates,
        vec![predicate("REGION", "us-east-1"), predicate("SERVICE", "AmazonEC2")]
    );
}

#[test]
fn push_filter_skips_an_absent_element() {
    let mut predicates = vec![predicate("REGION", "us-east-1")];
    push_filter(&None, &mut predicates, "SERVICE".to_string());
    assert_eq!(predicates, vec![predicate("REGION", "us-east-1")]);
}

#[test]
fn copy_text_keeps_the_text() {
    assert_eq!(copy_text(&text("DAILY")), text("DAILY"));
    assert_eq!(copy_text(&None), None);
}

#[test]
fn window_crosses_a_year_boundary() {
    let range = DateRange::ending(day_number(2024, 1, 3)).unwrap();
    assert_eq!(range.start, "2023-12-27");
    assert_eq!(range.end, "2024-01-03");
}

#[test]
fn window_crosses_a_leap_day() {
    let range = DateRange::ending(day_number(2024, 3, 5)).unwrap();
    assert_eq!(range.start, "2024-02-27");
    assert_eq!(range.end, "2024-03-05");
}

#[test]
fn window_within_a_month() {
    let range = DateRange::ending(day_number(2019, 1, 20)).unwrap();
    assert_eq!(range.start, "2019-01-13");
    assert_eq!(range.end, "2019-01-20");
}

#[test]
fn window_of_day_one() {
    let range = DateRange::ending(1).unwrap();
    assert_eq!(range.start, "0000-12-25");
    assert_eq!(range.end, "0001-01-01");
}

#[test]
fn window_outside_the_calendar_is_none() {
    assert_eq!(DateRange::ending(i32::MAX), None);
    assert_eq!(DateRange::ending(i32::MIN), None);
    assert_eq!(DateRange::ending(i32::MIN + 7), None);
    assert_eq!(DateRange::ending(100_000_000), None);
}

#[test]
fn window_that_starts_before_the_first_date_is_none() {
    let first = chrono::NaiveDate::MIN.num_days_from_ce();
    assert_eq!(DateRange::ending(first + 6), None);
    assert!(DateRange::ending(first + 7).is_some());
}

#[test]
fn window_of_the_clock_day_ends_on_it() {
    let today = chrono::Utc::now().date_naive();
    let range = DateRange::ending(today.num_days_from_ce()).unwrap();
    assert_eq!(range.end, today.format("%Y-%m-%d").to_string());
    let end = chrono::NaiveDate::parse_from_str(&range.end, "%Y-%m-%d").unwrap();
    let start = chrono::NaiveDate::parse_from_str(&range.start, "%Y-%m-%d").unwrap();
    assert_eq!(end, today);
    assert_eq!((end - start).num_days(), 7);
}

#[test]
fn window_is_seven_days_on_every_day_of_a_leap_year() {
    let first = day_number(2024, 1, 1);
    for offset in 0..366 {
        let range = DateRange::ending(first + offset).unwrap();
        let end = chrono::NaiveDate::parse_from_str(&range.end, "%Y-%m-%d").unwrap();
        let start = chrono::NaiveDate::parse_from_str(&range.start, "%Y-%m-%d").unwrap();
        assert_eq!(end.num_days_from_ce(), first + offset);
        assert_eq!((end - start).num_days(), 7);
        assert_eq!(range.end.len(), 10);
        assert_eq!(range.start.len(), 10);
    }
}

#[test]
fn query_carries_filter_granularity_and_window() {
    let mut req = request(None, text("AmazonEC2"), None);
    req.granularity = text("DAILY");
    let query = build_query_on(&req, day_number(2024, 1, 3)).unwrap();
    assert_eq!(query.filter.and, vec![predicate("SERVICE", "AmazonEC2")]);
    assert_eq!(query.granularity, text("DAILY"));
    assert_eq!(query.time_period.start, "2023-12-27");
    assert_eq!(query.time_period.end, "2024-01-03");
}

#[test]
fn query_leaves_an_absent_granularity_absent() {
    let query = build_query_on(&request(None, None, None), day_number(2024, 7, 1)).unwrap();
    assert_eq!(query.granularity, None);
    assert!(query.filter.and.is_empty());
}

#[test]
fn query_outside_the_calendar_is_none() {
    assert_eq!(build_query_on(&request(text("us-east-1"), None, None), i32::MAX), None);
}

#[test]
fn query_for_the_clock_day_covers_seven_days() {
    let mut req = request(text("us-east-1"), None, None);
    req.granularity = text("MONTHLY");
    let today = chrono::Utc::now().date_naive();
    let query = build_query_on(&req, today.num_days_from_ce()).unwrap();
    assert_eq!(query.filter.and, vec![predicate("REGION", "us-east-1")]);
    assert_eq!(query.granularity, text("MONTHLY"));
    assert_eq!(query.time_period.end, today.format("%Y-%m-%d").to_string());
    let start = chrono::NaiveDate::parse_from_str(&query.time_period.start, "%Y-%m-%d").unwrap();
    assert_eq!((today - start).num_days(), 7);
}
