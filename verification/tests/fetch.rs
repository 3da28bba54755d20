use dinkleberg::counts::{Approximation, BulkCounts, FetchError};
use dinkleberg::handler::Handler;
use dinkleberg::settings::Settings;

fn handler_with_widget(use_widget: bool) -> Handler {
    let settings = Settings { use_widget, sleep_time: 0, include_only: vec![] };
    Handler::new(7, &settings)
}

fn bulk(online: Option<u64>, total: Option<u64>) -> Option<BulkCounts> {
    Some(BulkCounts { online, total })
}

#[test]
fn bulk_counts_supply_both_numbers() {
    let h = handler_with_widget(false);
    let r = h.get_approximate_user_counts(bulk(Some(10), Some(50)), None);
    assert_eq!(r, Ok(Approximation { online: 10, total: 50 }));
}

#[test]
fn widget_supplies_the_online_number() {
    let h = handler_with_widget(true);
    let r = h.get_approximate_user_counts(bulk(Some(10), Some(50)), Some(12));
    assert_eq!(r, Ok(Approximation { online: 12, total: 50 }));
}

#[test]
fn failed_bulk_query_is_an_error_not_zeroes() {
    let h = handler_with_widget(false);
    let r = h.get_approximate_user_counts(None, Some(12));
    assert_eq!(r, Err(FetchError::BulkUnavailable));
}

#[test]
fn missing_online_count_is_an_error() {
    let h = handler_with_widget(false);
    let r = h.get_approximate_user_counts(bulk(None, Some(50)), None);
    assert_eq!(r, Err(FetchError::OnlineCountMissing));
}

#[test]
fn missing_total_count_is_an_error() {
    let h = handler_with_widget(false);
    let r = h.get_approximate_user_counts(bulk(Some(10), None), None);
    assert_eq!(r, Err(FetchError::TotalCountMissing));
}

#[test]
fn failed_widget_query_is_an_error() {
    let h = handler_with_widget(true);
    let r = h.get_approximate_user_counts(bulk(Some(10), Some(50)), None);
    assert_eq!(r, Err(FetchError::WidgetUnavailable));
}

#[test]
fn widget_mode_ignores_missing_bulk_online_count() {
    let h = handler_with_widget(true);
    let r = h.get_approximate_user_counts(bulk(None, Some(50)), Some(12));
    assert_eq!(r, Ok(Approximation { online: 12, total: 50 }));
}
