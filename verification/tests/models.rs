use spinexus::app_config::AppConfig;
use spinexus::models::{
    chart_endpoint, i32_decimal, monthly_hot_charts_endpoint, new_charts_endpoint,
    search_endpoint, updated_charts_endpoint, user_charts_endpoint, user_endpoint,
    weekly_hot_charts_endpoint, SearchChartBody,
};

#[test]
fn decimal_rendering() {
    assert_eq!(i32_decimal(0), "0");
    assert_eq!(i32_decimal(7), "7");
    assert_eq!(i32_decimal(105), "105");
    assert_eq!(i32_decimal(-1), "-1");
    assert_eq!(i32_decimal(i32::MAX), "2147483647");
    assert_eq!(i32_decimal(i32::MIN), "-2147483648");
}

#[test]
fn chart_endpoints() {
    assert_eq!(chart_endpoint(123), "https://spinsha.re/api/song/123");
    assert_eq!(new_charts_endpoint(0), "https://spinsha.re/api/songs/new/0");
    assert_eq!(updated_charts_endpoint(2), "https://spinsha.re/api/songs/updated/2");
    assert_eq!(weekly_hot_charts_endpoint(1), "https://spinsha.re/api/songs/hotThisWeek/1");
    assert_eq!(monthly_hot_charts_endpoint(3), "https://spinsha.re/api/songs/hotThisMonth/3");
}

#[test]
fn user_endpoints() {
    assert_eq!(user_endpoint(42), "https://spinsha.re/api/user/42");
    assert_eq!(user_charts_endpoint(42), "https://spinsha.re/api/user/42/charts");
}

#[test]
fn search_endpoint_is_fixed() {
    assert_eq!(search_endpoint(), "https://spinsha.re/api/searchCharts");
}

#[test]
fn search_body_defaults() {
    let b = SearchChartBody::default();
    assert_eq!(b.search_query, "");
    assert!(b.diff_easy && b.diff_normal && b.diff_hard && b.diff_expert && b.diff_xd);
    assert_eq!(b.diff_rating_from, 0);
    assert_eq!(b.diff_rating_to, 100);
    assert!(!b.show_explicit);
}

#[test]
fn app_config_default_is_empty() {
    let c = AppConfig::default();
    assert_eq!(c.customs_path, "");
}
