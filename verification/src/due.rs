//! Due dates: a non-empty date given by the user is kept, otherwise one is
//! derived from the task type and today's date.
use vstd::prelude::*;

use crate::calendar::{
    date_text, day_number, year_text, format_date, read_clock, shift_date, shift_in_range, shifted,
    CalendarDate, LocalDateTime,
};
use crate::text::{concat, str_equal};

verus! {

/// The time of day at which a derived due date ends.
pub const END_OF_DAY: &'static str = " 23:59:59";

/// A custom due date is given when it is present and not empty.
pub open spec fn has_custom(custom: Option<Seq<char>>) -> bool {
    custom is Some && custom->0.len() > 0
}

/// The due date that a task of type `task_type` gets on day `today`, where
/// `week_later` and `month_later` are the dates 7 and 30 days after `today`:
/// a non-empty `custom` date is kept as it is; a daily task is due at the end
/// of today, a weekly one a week later, a monthly one 30 days later, a yearly
/// one on the 31st of December of this year, and any other a week later.
pub open spec fn due_date_spec(
    task_type: Seq<char>,
    custom: Option<Seq<char>>,
    today: CalendarDate,
    week_later: CalendarDate,
    month_later: CalendarDate,
) -> Option<Seq<char>> {
    if has_custom(custom) {
        custom
    } else if task_type == "daily"@ {
        Some(date_text(today) + END_OF_DAY@)
    } else if task_type == "weekly"@ {
        Some(date_text(week_later) + END_OF_DAY@)
    } else if task_type == "monthly"@ {
        Some(date_text(month_later) + END_OF_DAY@)
    } else if task_type == "yearly"@ {
        Some(date_text(CalendarDate { year: today.year, month: 12, day: 31 }) + END_OF_DAY@)
    } else {
        Some(date_text(week_later) + END_OF_DAY@)
    }
}

/// The due date on day `today`, in terms of the dates that chrono reaches
/// 7 and 30 days later.
pub open spec fn due_date_on(
    task_type: Seq<char>,
    custom: Option<Seq<char>>,
    today: CalendarDate,
) -> Option<Seq<char>> {
    due_date_spec(
        task_type,
        custom,
        today,
        shifted(today, 7),
        shifted(today, 30),
    )
}

/// The due date of a task, given today's date and the dates 7 and 30 days
/// later.
pub fn due_date_with(
    task_type: &str,
    custom_due_date: Option<&str>,
    today: CalendarDate,
    week_later: CalendarDate,
    month_later: CalendarDate,
) -> (due: Option<String>)
    requires
        today.valid(),
        week_later.valid(),
        month_later.valid(),
    ensures
        due.deep_view() == due_date_spec(
            task_type@,
            custom_due_date.deep_view(),
            today,
            week_later,
            month_later,
        ),
{
    if let Some(due_date) = custom_due_date {
        if !due_date.is_empty() {
            return Some(due_date.to_string());
        }
    }
    let day = if str_equal(task_type, "daily") {
        today
    } else if str_equal(task_type, "weekly") {
        week_later
    } else if str_equal(task_type, "monthly") {
        month_later
    } else if str_equal(task_type, "yearly") {
        CalendarDate { year: today.year, month: 12, day: 31 }
    } else {
        week_later
    };
    let text = format_date(day);
    Some(concat(text.as_str(), END_OF_DAY))
}

/// A derived due date lies some days after today (for every type but daily
/// and yearly tasks).
pub open spec fn shifts_date(task_type: Seq<char>) -> bool {
    task_type != "daily"@ && task_type != "yearly"@
}

/// Deriving the due date adds days to today's date.
pub open spec fn needs_date_shift(task_type: Seq<char>, custom: Option<Seq<char>>) -> bool {
    !has_custom(custom) && shifts_date(task_type)
}

/// Whether deriving the due date adds days to today's date.
pub fn needs_calendar_shift(task_type: &str, custom_due_date: Option<&str>) -> (r: bool)
    ensures
        r == needs_date_shift(task_type@, custom_due_date.deep_view()),
{
    let custom = match custom_due_date {
        Some(d) => !d.is_empty(),
        None => false,
    };
    !custom && !str_equal(task_type, "daily") && !str_equal(task_type, "yearly")
}

pub proof fn lemma_type_names_differ()
    ensures
        "daily"@ != "weekly"@,
        "daily"@ != "monthly"@,
        "daily"@ != "yearly"@,
        "weekly"@ != "monthly"@,
        "weekly"@ != "yearly"@,
        "monthly"@ != "yearly"@,
{
    reveal_strlit("daily");
    reveal_strlit("weekly");
    reveal_strlit("monthly");
    reveal_strlit("yearly");
    assert("daily"@[0] != "weekly"@[0]);
    assert("daily"@[0] != "monthly"@[0]);
    assert("daily"@[0] != "yearly"@[0]);
    assert("weekly"@[0] != "monthly"@[0]);
    assert("weekly"@[0] != "yearly"@[0]);
    assert("monthly"@[0] != "yearly"@[0]);
}

/// The number of days ahead that a derived due date lies: 30 for a monthly
/// task, 7 for a weekly one or one of another type.
pub open spec fn due_offset(task_type: Seq<char>) -> int {
    if task_type == "monthly"@ { 30 } else { 7 }
}

/// The due date can be derived on day `today`: no days are to be added, or
/// the day they lead to is one that chrono represents.
pub open spec fn due_date_derivable(
    task_type: Seq<char>,
    custom: Option<Seq<char>>,
    today: CalendarDate,
) -> bool {
    needs_date_shift(task_type, custom) ==> shift_in_range(today, due_offset(task_type))
}

/// Whether the due date can be derived on day `today`.
pub fn due_date_derivable_on(task_type: &str, custom_due_date: Option<&str>, today: CalendarDate) -> (r:
    bool)
    requires
        today.valid(),
    ensures
        r == due_date_derivable(task_type@, custom_due_date.deep_view(), today),
{
    if !needs_calendar_shift(task_type, custom_due_date) {
        true
    } else if str_equal(task_type, "monthly") {
        shift_date(today, 30).is_some()
    } else {
        shift_date(today, 7).is_some()
    }
}

/// The due date of a task created on day `today`. Days are added to today's
/// date only for the types whose due date lies days ahead; the date reached
/// is `due_offset` days after today.
pub fn calculate_default_due_date_on(
    task_type: &str,
    custom_due_date: Option<&str>,
    today: CalendarDate,
) -> (due: Option<String>)
    requires
        today.valid(),
        due_date_derivable(task_type@, custom_due_date.deep_view(), today),
    ensures
        due.deep_view() == due_date_on(task_type@, custom_due_date.deep_view(), today),
        custom_due_date is Some && custom_due_date->0@.len() > 0 ==> due.deep_view() == Some(
            custom_due_date->0@,
        ),
        !(custom_due_date is Some && custom_due_date->0@.len() > 0) && task_type@ == "daily"@
            ==> due.deep_view() == Some(date_text(today) + " 23:59:59"@),
        !(custom_due_date is Some && custom_due_date->0@.len() > 0) && task_type@ == "yearly"@
            ==> due.deep_view() == Some(year_text(today.year as int) + "-12-31"@ + " 23:59:59"@),
        !(custom_due_date is Some && custom_due_date->0@.len() > 0) && task_type@ != "daily"@ && task_type@
            != "yearly"@ ==> exists|target: CalendarDate|
            {
                &&& target.valid()
                &&& day_number(target) == day_number(today) + if task_type@ == "monthly"@ {
                    30int
                } else {
                    7int
                }
                &&& due.deep_view() == Some(date_text(target) + " 23:59:59"@)
            },
{
    proof {
        lemma_type_names_differ();
        if !has_custom(custom_due_date.deep_view()) {
            crate::laws::law_yearly_tasks_are_due_on_new_years_eve(
                custom_due_date.deep_view(),
                today,
                today,
                today,
            );
        }
    }
    if let Some(due_date) = custom_due_date {
        if !due_date.is_empty() {
            return Some(due_date.to_string());
        }
    }
    if str_equal(task_type, "daily") || str_equal(task_type, "yearly") {
        due_date_with(task_type, custom_due_date, today, today, today)
    } else if str_equal(task_type, "monthly") {
        match shift_date(today, 30) {
            Some(month_later) => {
                let due = due_date_with(task_type, custom_due_date, today, today, month_later);
                assert(due.deep_view() == Some(date_text(month_later) + END_OF_DAY@));
                due
            },
            None => {
                assert(false);
                None
            },
        }
    } else {
        match shift_date(today, 7) {
            Some(week_later) => {
                let due = due_date_with(task_type, custom_due_date, today, week_later, today);
                assert(due.deep_view() == Some(date_text(week_later) + END_OF_DAY@));
                due
            },
            None => {
                assert(false);
                None
            },
        }
    }
}

/// The due date of a task created now, by the local clock. A non-empty custom
/// date is kept without reading the clock; otherwise the clock is read once
/// with [`read_clock`] and the due date is taken from the date of that
/// reading: the end of that day for a daily task, the 31st of December of its
/// year for a yearly one, and the end of the day 30 (monthly) or 7 (any other
/// type) days later, `None` only when those days lead past the end of
/// chrono's range.
pub fn calculate_default_due_date(task_type: &str, custom_due_date: Option<&str>) -> (due:
    Option<String>)
    ensures
        has_custom(custom_due_date.deep_view()) ==> due.deep_view() == custom_due_date.deep_view(),
        due is None ==> needs_date_shift(task_type@, custom_due_date.deep_view()),
        due is None ==> exists|today: CalendarDate|
            today.valid() && !due_date_derivable(task_type@, custom_due_date.deep_view(), today),
        due is Some ==> exists|today: CalendarDate|
            today.valid() && due.deep_view() == #[trigger] due_date_on(
                task_type@,
                custom_due_date.deep_view(),
                today,
            ),
        !has_custom(custom_due_date.deep_view()) ==> exists|now: LocalDateTime|
            {
                &&& #[trigger] call_ensures(read_clock, (), now)
                &&& task_type@ == "daily"@ ==> due.deep_view() == Some(
                    date_text(now.date) + " 23:59:59"@,
                )
                &&& task_type@ == "yearly"@ ==> due.deep_view() == Some(
                    year_text(now.date.year as int) + "-12-31"@ + " 23:59:59"@,
                )
                &&& task_type@ != "daily"@ && task_type@ != "yearly"@ ==> {
                    &&& (due is None <==> !shift_in_range(now.date, due_offset(task_type@)))
                    &&& due is Some ==> exists|target: CalendarDate|
                        {
                            &&& target.valid()
                            &&& day_number(target) == day_number(now.date) + if task_type@
                                == "monthly"@ {
                                30int
                            } else {
                                7int
                            }
                            &&& due.deep_view() == Some(date_text(target) + " 23:59:59"@)
                        }
                }
            },
{
    if let Some(due_date) = custom_due_date {
        if !due_date.is_empty() {
            let due = Some(due_date.to_string());
            proof {
                let any_day = CalendarDate { year: 2000, month: 1, day: 1 };
                assert(any_day.valid());
                assert(due.deep_view() == due_date_on(
                    task_type@,
                    custom_due_date.deep_view(),
                    any_day,
                ));
            }
            return due;
        }
    }
    let now = read_clock();
    if due_date_derivable_on(task_type, custom_due_date, now.date) {
        calculate_default_due_date_on(task_type, custom_due_date, now.date)
    } else {
        None
    }
}

} // verus!
