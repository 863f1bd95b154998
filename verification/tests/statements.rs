use taskflow::calendar::{CalendarDate, LocalDateTime};
use taskflow::model::{PageFilter, QueryFilter, SqlQuery, SqlValue};
use taskflow::query::{
    complete_statement, contribution_query, contribution_query_between, delete_statement,
    expired_query, export_query, history_export_query, history_query, parent_due_date_query,
    parent_type_query, stats_query, task_by_id_query, task_list_query, task_point_stats_query,
    task_points_query, HistoryKind,
};

const SELECT: &str = "SELECT id, title, task_type, created_at, due_date, completed, completed_at, parent_id FROM tasks";

fn text(s: &str) -> SqlValue {
    SqlValue::Text(s.to_string())
}

fn placeholders(q: &SqlQuery) -> usize {
    q.sql.chars().filter(|c| *c == '?').count()
}

fn filter(
    task_type: Option<&str>,
    completed: Option<bool>,
    start: Option<&str>,
    end: Option<&str>,
    field: Option<&str>,
) -> Option<QueryFilter> {
    Some(QueryFilter {
        task_type: task_type.map(|s| s.to_string()),
        completed,
        start_date: start.map(|s| s.to_string()),
        end_date: end.map(|s| s.to_string()),
        date_field: field.map(|s| s.to_string()),
    })
}

fn now() -> LocalDateTime {
    LocalDateTime { date: CalendarDate { year: 2024, month: 3, day: 5 }, hour: 9, minute: 7, second: 3 }
}

#[test]
fn task_list_without_filter() {
    let q = task_list_query(&None);
    assert_eq!(
        q.sql,
        format!("{} WHERE (parent_id IS NULL OR parent_id = 0) ORDER BY created_at DESC", SELECT)
    );
    assert!(q.params.is_empty());
}

#[test]
fn task_list_with_every_condition() {
    let q = task_list_query(&filter(Some("weekly"), Some(true), Some("2024-01-01"), Some("2024-02-01"), None));
    assert_eq!(
        q.sql,
        format!(
            "{} WHERE (parent_id IS NULL OR parent_id = 0) AND task_type = ? AND completed = ? AND created_at BETWEEN ? AND ? ORDER BY created_at DESC",
            SELECT
        )
    );
    assert_eq!(
        q.params,
        vec![text("weekly"), SqlValue::Integer(1), text("2024-01-01"), text("2024-02-01")]
    );
    assert_eq!(placeholders(&q), q.params.len());
}

#[test]
fn task_list_all_type_and_single_day() {
    let q = task_list_query(&filter(Some("all"), Some(false), Some("2024-01-01"), Some(""), Some("due_date")));
    assert_eq!(
        q.sql,
        format!(
            "{} WHERE (parent_id IS NULL OR parent_id = 0) AND completed = ? AND date(due_date) = date(?) ORDER BY created_at DESC",
            SELECT
        )
    );
    assert_eq!(q.params, vec![SqlValue::Integer(0), text("2024-01-01")]);
}

#[test]
fn task_list_start_without_end_selects_nothing_more() {
    let q = task_list_query(&filter(Some(""), None, Some("2024-01-01"), None, None));
    assert_eq!(
        q.sql,
        format!("{} WHERE (parent_id IS NULL OR parent_id = 0) ORDER BY created_at DESC", SELECT)
    );
    assert!(q.params.is_empty());
}

#[test]
fn completed_history_with_range_and_page() {
    let p = history_query(
        HistoryKind::Completed,
        &filter(Some("daily"), Some(false), Some("2024-01-01"), Some("2024-01-31"), None),
        &Some(PageFilter { page: Some(2), page_size: Some(10) }),
    );
    let clause = "WHERE completed = 1 AND task_type = ? AND completed_at BETWEEN ? AND ?";
    assert_eq!(p.count.sql, format!("SELECT COUNT(*) FROM tasks {}", clause));
    assert_eq!(p.count.params, vec![text("daily"), text("2024-01-01"), text("2024-01-31")]);
    assert_eq!(
        p.rows.sql,
        format!("{} {} ORDER BY completed_at DESC LIMIT ? OFFSET ?", SELECT, clause)
    );
    assert_eq!(
        p.rows.params,
        vec![
            text("daily"),
            text("2024-01-01"),
            text("2024-01-31"),
            SqlValue::Integer(10),
            SqlValue::Integer(10)
        ]
    );
    assert_eq!(placeholders(&p.count), p.count.params.len());
    assert_eq!(placeholders(&p.rows), p.rows.params.len());
}

#[test]
fn uncompleted_history_defaults() {
    let p = history_query(HistoryKind::Uncompleted, &filter(None, None, Some("2024-05-01"), Some(""), None), &None);
    assert_eq!(p.count.sql, "SELECT COUNT(*) FROM tasks WHERE completed = 0 AND date(created_at) = date(?)");
    assert_eq!(
        p.rows.sql,
        format!(
            "{} WHERE completed = 0 AND date(created_at) = date(?) ORDER BY created_at DESC LIMIT ? OFFSET ?",
            SELECT
        )
    );
    assert_eq!(p.rows.params, vec![text("2024-05-01"), SqlValue::Integer(20), SqlValue::Integer(0)]);
    assert_eq!(p.window.page, 1);
}

#[test]
fn expired_listing_compares_with_now() {
    let p = expired_query(now(), &Some("monthly".to_string()), &None);
    let clause = "WHERE completed = 0 AND due_date IS NOT NULL AND due_date < ? AND task_type = ?";
    assert_eq!(p.count.sql, format!("SELECT COUNT(*) FROM tasks {}", clause));
    assert_eq!(p.count.params, vec![text("2024-03-05 09:07:03"), text("monthly")]);
    assert_eq!(p.rows.sql, format!("{} {} ORDER BY due_date ASC LIMIT ? OFFSET ?", SELECT, clause));
    assert_eq!(placeholders(&p.rows), p.rows.params.len());
}

#[test]
fn stats_over_all_or_one_type() {
    let all = stats_query(&Some("all".to_string()));
    assert_eq!(all.sql, "SELECT COUNT(*), SUM(CASE WHEN completed = 1 THEN 1 ELSE 0 END) FROM tasks");
    assert!(all.params.is_empty());
    let one = stats_query(&Some("yearly".to_string()));
    assert_eq!(
        one.sql,
        "SELECT COUNT(*), SUM(CASE WHEN completed = 1 THEN 1 ELSE 0 END) FROM tasks WHERE task_type = ?"
    );
    assert_eq!(one.params, vec![text("yearly")]);
}

#[test]
fn single_task_statements() {
    let q = task_by_id_query(7);
    assert_eq!(q.sql, format!("{} WHERE id = ?1", SELECT));
    assert_eq!(q.params, vec![SqlValue::Integer(7)]);
    let q = complete_statement(7, now());
    assert_eq!(q.sql, "UPDATE tasks SET completed = 1, completed_at = ?1 WHERE id = ?2");
    assert_eq!(q.params, vec![text("2024-03-05 09:07:03"), SqlValue::Integer(7)]);
    let q = delete_statement(9);
    assert_eq!(q.sql, "DELETE FROM tasks WHERE id = ?1");
    assert_eq!(q.params, vec![SqlValue::Integer(9)]);
}

#[test]
fn sub_task_statements() {
    let q = task_points_query(3);
    assert_eq!(q.sql, format!("{} WHERE parent_id = ?1 ORDER BY created_at ASC", SELECT));
    assert_eq!(q.params, vec![SqlValue::Integer(3)]);
    assert_eq!(parent_type_query(3).sql, "SELECT task_type FROM tasks WHERE id = ?1");
    assert_eq!(parent_due_date_query(3).sql, "SELECT due_date FROM tasks WHERE id = ?1");
    let q = task_point_stats_query(3);
    assert_eq!(
        q.sql,
        "SELECT COUNT(*), SUM(CASE WHEN completed = 1 THEN 1 ELSE 0 END) FROM tasks WHERE parent_id = ?1"
    );
    assert_eq!(q.params, vec![SqlValue::Integer(3)]);
}

#[test]
fn export_statements() {
    assert_eq!(export_query(true).sql, format!("{} ORDER BY created_at DESC", SELECT));
    assert_eq!(export_query(false).sql, format!("{} WHERE completed = 0 ORDER BY created_at DESC", SELECT));
    let q = history_export_query(now());
    assert_eq!(q.params, vec![text("2024-03-05 09:07:03")]);
    assert_eq!(placeholders(&q), 1);
}

#[test]
fn contribution_window_is_a_year() {
    let q = contribution_query(CalendarDate { year: 2024, month: 3, day: 1 });
    assert_eq!(q.params, vec![text("2023-03-02"), text("2024-03-01")]);
    assert_eq!(placeholders(&q), 2);
    let q = contribution_query_between(
        CalendarDate { year: 2023, month: 1, day: 1 },
        CalendarDate { year: 2023, month: 12, day: 31 },
    );
    assert_eq!(q.params, vec![text("2023-01-01"), text("2023-12-31")]);
}
