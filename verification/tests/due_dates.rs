use taskflow::calendar::{can_shift, CalendarDate};
use taskflow::due::{
    calculate_default_due_date, calculate_default_due_date_on, due_date_derivable_on, due_date_with,
    needs_calendar_shift,
};

fn date(year: i32, month: u32, day: u32) -> CalendarDate {
    CalendarDate { year, month, day }
}

#[test]
fn custom_due_date_is_kept_for_every_type() {
    for t in ["daily", "weekly", "monthly", "yearly", "other"] {
        let due = calculate_default_due_date_on(t, Some("2030-01-02 10:00:00"), date(2024, 3, 5));
        assert_eq!(due, Some("2030-01-02 10:00:00".to_string()));
    }
}

#[test]
fn empty_custom_due_date_is_derived() {
    let due = calculate_default_due_date_on("daily", Some(""), date(2024, 3, 5));
    assert_eq!(due, Some("2024-03-05 23:59:59".to_string()));
}

#[test]
fn daily_task_is_due_tonight() {
    let due = calculate_default_due_date_on("daily", None, date(2024, 3, 5));
    assert_eq!(due, Some("2024-03-05 23:59:59".to_string()));
}

#[test]
fn weekly_task_is_due_a_week_later_across_the_year() {
    let due = calculate_default_due_date_on("weekly", None, date(2024, 12, 28));
    assert_eq!(due, Some("2025-01-04 23:59:59".to_string()));
}

#[test]
fn monthly_task_is_due_thirty_days_later_in_a_leap_year() {
    let due = calculate_default_due_date_on("monthly", None, date(2024, 2, 15));
    assert_eq!(due, Some("2024-03-16 23:59:59".to_string()));
    let due = calculate_default_due_date_on("monthly", None, date(2023, 2, 15));
    assert_eq!(due, Some("2023-03-17 23:59:59".to_string()));
}

#[test]
fn yearly_task_is_due_on_new_years_eve() {
    let due = calculate_default_due_date_on("yearly", None, date(2024, 3, 5));
    assert_eq!(due, Some("2024-12-31 23:59:59".to_string()));
}

#[test]
fn unknown_type_is_due_a_week_later() {
    let due = calculate_default_due_date_on("custom", None, date(2024, 3, 5));
    assert_eq!(due, Some("2024-03-12 23:59:59".to_string()));
}

#[test]
fn due_date_with_uses_the_given_dates() {
    let today = date(2024, 3, 5);
    let week = date(2024, 3, 12);
    let month = date(2024, 4, 4);
    assert_eq!(due_date_with("daily", None, today, week, month), Some("2024-03-05 23:59:59".to_string()));
    assert_eq!(due_date_with("weekly", None, today, week, month), Some("2024-03-12 23:59:59".to_string()));
    assert_eq!(due_date_with("monthly", None, today, week, month), Some("2024-04-04 23:59:59".to_string()));
    assert_eq!(due_date_with("yearly", None, today, week, month), Some("2024-12-31 23:59:59".to_string()));
    assert_eq!(due_date_with("x", None, today, week, month), Some("2024-03-12 23:59:59".to_string()));
}

#[test]
fn years_are_written_as_chrono_writes_them() {
    let far = date(12345, 6, 7);
    assert_eq!(due_date_with("daily", None, far, far, far), Some("+12345-06-07 23:59:59".to_string()));
    let early = date(5, 1, 9);
    assert_eq!(due_date_with("daily", None, early, early, early), Some("0005-01-09 23:59:59".to_string()));
    let bc = date(-44, 3, 15);
    assert_eq!(due_date_with("daily", None, bc, bc, bc), Some("-0044-03-15 23:59:59".to_string()));
}

#[test]
fn due_date_by_the_clock_matches_todays_date() {
    let before = chrono::Local::now().format("%Y-%m-%d 23:59:59").to_string();
    let due = calculate_default_due_date("daily", None).unwrap();
    let after = chrono::Local::now().format("%Y-%m-%d 23:59:59").to_string();
    assert!(due == before || due == after);
    assert_eq!(calculate_default_due_date("weekly", Some("2031-05-06")), Some("2031-05-06".to_string()));
}

#[test]
fn only_dates_days_ahead_need_the_calendar() {
    assert!(!needs_calendar_shift("daily", None));
    assert!(!needs_calendar_shift("yearly", Some("")));
    assert!(needs_calendar_shift("weekly", None));
    assert!(needs_calendar_shift("monthly", Some("")));
    assert!(needs_calendar_shift("other", None));
    assert!(!needs_calendar_shift("weekly", Some("2024-01-01")));
}

#[test]
fn daily_and_yearly_work_at_the_end_of_the_calendar() {
    let last = date(262142, 12, 31);
    assert_eq!(calculate_default_due_date_on("daily", None, last), Some("+262142-12-31 23:59:59".to_string()));
    assert_eq!(calculate_default_due_date_on("yearly", None, last), Some("+262142-12-31 23:59:59".to_string()));
}

#[test]
fn dates_shift_up_to_the_ends_of_the_calendar() {
    assert!(can_shift(date(262142, 12, 24), 7));
    assert!(!can_shift(date(262142, 12, 25), 7));
    assert!(can_shift(date(262142, 1, 1), 30));
    assert!(can_shift(date(-262143, 12, 31), -364));
    assert!(!can_shift(date(-262143, 12, 31), -365));
    assert!(can_shift(date(2024, 3, 1), -365));
}

#[test]
fn due_dates_derive_on_the_edge_years_until_the_range_ends() {
    assert_eq!(
        calculate_default_due_date_on("weekly", None, date(262142, 1, 1)),
        Some("+262142-01-08 23:59:59".to_string())
    );
    assert_eq!(
        calculate_default_due_date_on("monthly", None, date(262142, 12, 1)),
        Some("+262142-12-31 23:59:59".to_string())
    );
    assert!(due_date_derivable_on("monthly", None, date(262142, 12, 1)));
    assert!(!due_date_derivable_on("monthly", None, date(262142, 12, 2)));
    assert!(due_date_derivable_on("monthly", Some("2030-01-01"), date(262142, 12, 31)));
    assert!(due_date_derivable_on("daily", None, date(262142, 12, 31)));
    assert!(!due_date_derivable_on("other", None, date(262142, 12, 31)));
}
