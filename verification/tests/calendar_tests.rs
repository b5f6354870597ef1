use expense_tracker::calendar::window_start;
use expense_tracker::calendar::ReportWindow;

// 2024-03-15 12:34:56 UTC
const NOW: i64 = 1_710_506_096;

#[test]
fn start_of_today_is_midnight_utc() {
    assert_eq!(window_start(NOW, 500, &ReportWindow::StartOfToday), Some((1_710_460_800, 0)));
    assert_eq!(window_start(0, 0, &ReportWindow::StartOfToday), Some((0, 0)));
    assert_eq!(window_start(86_399, 0, &ReportWindow::StartOfToday), Some((0, 0)));
    assert_eq!(window_start(-1, 0, &ReportWindow::StartOfToday), Some((-86_400, 0)));
}

#[test]
fn start_of_month_is_the_first_at_midnight_utc() {
    assert_eq!(window_start(NOW, 500, &ReportWindow::StartOfMonth), Some((1_709_251_200, 0)));
    // 2024-02-29 23:59:59 UTC, a leap day
    assert_eq!(window_start(1_709_251_199, 0, &ReportWindow::StartOfMonth), Some((1_706_745_600, 0)));
}

#[test]
fn last_days_go_back_whole_days_keeping_the_time() {
    assert_eq!(window_start(NOW, 500, &ReportWindow::LastDays(1)), Some((NOW - 86_400, 500)));
    assert_eq!(window_start(NOW, 500, &ReportWindow::LastDays(7)), Some((NOW - 604_800, 500)));
    assert_eq!(window_start(NOW, 0, &ReportWindow::LastDays(30)), Some((NOW - 2_592_000, 0)));
    assert_eq!(window_start(NOW, 0, &ReportWindow::LastDays(0)), Some((NOW, 0)));
}

#[test]
fn instants_out_of_range_have_no_window() {
    assert_eq!(window_start(i64::MAX, 0, &ReportWindow::StartOfToday), None);
    assert_eq!(window_start(i64::MIN, 0, &ReportWindow::StartOfMonth), None);
    assert_eq!(window_start(i64::MIN, 0, &ReportWindow::LastDays(1)), None);
}

#[test]
fn going_back_from_a_leap_second_leaves_it_first() {
    assert_eq!(window_start(59, 1_500_000_000, &ReportWindow::LastDays(1)), Some((-86_340, 500_000_000)));
    assert_eq!(window_start(59, 1_500_000_000, &ReportWindow::LastDays(7)), Some((59 + 1 - 604_800, 500_000_000)));
    assert_eq!(window_start(59, 1_500_000_000, &ReportWindow::LastDays(0)), Some((59, 1_500_000_000)));
    assert_eq!(window_start(60, 1_500_000_000, &ReportWindow::LastDays(1)), None);
}

// Midnight at the start of -262143-01-01 and the last second of 262142-12-31: the ends of
// chrono's dates.
const FIRST: i64 = -8_334_601_228_800;
const LAST: i64 = 8_210_266_876_799;

#[test]
fn windows_reach_exactly_the_ends_of_the_calendar() {
    assert_eq!(window_start(FIRST, 0, &ReportWindow::StartOfToday), Some((FIRST, 0)));
    assert_eq!(window_start(FIRST - 1, 0, &ReportWindow::StartOfToday), None);
    assert_eq!(window_start(FIRST + 86_400 * 40, 0, &ReportWindow::StartOfMonth), Some((FIRST + 86_400 * 31, 0)));
    assert_eq!(window_start(LAST, 0, &ReportWindow::StartOfToday), Some((LAST - 86_399, 0)));
    assert_eq!(window_start(LAST + 1, 0, &ReportWindow::StartOfToday), None);
    assert_eq!(window_start(LAST, 0, &ReportWindow::StartOfMonth), Some((LAST + 1 - 86_400 * 31, 0)));
    assert_eq!(window_start(FIRST + 86_400, 7, &ReportWindow::LastDays(1)), Some((FIRST, 7)));
    assert_eq!(window_start(FIRST + 86_399, 7, &ReportWindow::LastDays(1)), None);
}

#[test]
fn start_of_month_crosses_no_year_boundary() {
    // 2023-12-31 23:59:59 UTC and 2024-01-01 00:00:00 UTC
    assert_eq!(window_start(1_704_067_199, 0, &ReportWindow::StartOfMonth), Some((1_701_388_800, 0)));
    assert_eq!(window_start(1_704_067_200, 0, &ReportWindow::StartOfMonth), Some((1_704_067_200, 0)));
}

#[test]
fn a_leap_nanosecond_count_outside_a_minute_end_is_no_instant() {
    assert_eq!(window_start(58, 1_000_000_000, &ReportWindow::LastDays(0)), None);
    assert_eq!(window_start(59, 2_000_000_000, &ReportWindow::LastDays(0)), None);
    assert_eq!(window_start(-1, 1_999_999_999, &ReportWindow::LastDays(0)), Some((-1, 1_999_999_999)));
}
