use rusqlite::types::Value;
use rusqlite::{params_from_iter, Connection};
use taskflow::calendar::{CalendarDate, LocalDateTime};
use taskflow::model::{tasks_from_rows, NewTask, PageFilter, QueryFilter, SqlQuery, SqlValue, Task, TaskRow};
use taskflow::paging::paginate;
use taskflow::query::{
    complete_statement, contribution_query_between, delete_statement, expired_query, export_query,
    history_query, parent_due_date_query, parent_type_query, stats_query, task_by_id_query,
    task_list_query, task_point_stats_query, task_points_query, HistoryKind,
};
use taskflow::records::{export_list, insert_statement, plan_import_entry, plan_new_task, plan_task_point, tally, PendingTask};

fn open() -> Connection {
    let conn = Connection::open_in_memory().unwrap();
    conn.execute(
        "CREATE TABLE tasks (
            id INTEGER PRIMARY KEY AUTOINCREMENT,
            title TEXT NOT NULL,
            task_type TEXT NOT NULL,
            created_at TEXT NOT NULL,
            due_date TEXT,
            completed INTEGER NOT NULL DEFAULT 0,
            completed_at TEXT,
            parent_id INTEGER REFERENCES tasks(id)
        )",
        [],
    )
    .unwrap();
    conn
}

fn values(q: &SqlQuery) -> Vec<Value> {
    q.params
        .iter()
        .map(|v| match v {
            SqlValue::Text(s) => Value::Text(s.clone()),
            SqlValue::Integer(i) => Value::Integer(*i),
            SqlValue::Null => Value::Null,
        })
        .collect()
}

fn execute(conn: &Connection, q: &SqlQuery) {
    conn.execute(&q.sql, params_from_iter(values(q))).unwrap();
}

fn rows(conn: &Connection, q: &SqlQuery) -> Vec<Task> {
    let mut stmt = conn.prepare(&q.sql).unwrap();
    let rows = stmt
        .query_map(params_from_iter(values(q)), |row| {
            Ok(TaskRow {
                id: row.get(0)?,
                title: row.get(1)?,
                task_type: row.get(2)?,
                created_at: row.get(3)?,
                due_date: row.get(4)?,
                completed: row.get::<_, i32>(5)?,
                completed_at: row.get(6)?,
                parent_id: row.get(7)?,
            })
        })
        .unwrap()
        .collect::<Result<Vec<_>, _>>()
        .unwrap();
    tasks_from_rows(rows)
}

fn single<T: rusqlite::types::FromSql>(conn: &Connection, q: &SqlQuery) -> T {
    conn.query_row(&q.sql, params_from_iter(values(q)), |row| row.get(0)).unwrap()
}

fn counts(conn: &Connection, q: &SqlQuery) -> (i64, Option<i64>) {
    conn.query_row(&q.sql, params_from_iter(values(q)), |row| Ok((row.get(0)?, row.get(1)?))).unwrap()
}

fn insert(conn: &Connection, p: PendingTask) -> Task {
    execute(conn, &insert_statement(&p));
    p.into_task(conn.last_insert_rowid())
}

fn at(day: u32, hour: u32) -> LocalDateTime {
    LocalDateTime { date: CalendarDate { year: 2024, month: 3, day }, hour, minute: 0, second: 0 }
}

fn new(title: &str, task_type: &str) -> NewTask {
    NewTask { title: title.to_string(), task_type: task_type.to_string(), due_date: None, parent_id: None }
}

#[test]
fn created_task_reads_back_and_completes() {
    let conn = open();
    let created = insert(&conn, plan_new_task(new("Read", "weekly"), at(5, 9)));
    let read = rows(&conn, &task_by_id_query(created.id));
    assert_eq!(read, vec![created.clone()]);
    execute(&conn, &complete_statement(created.id, at(6, 10)));
    let done = rows(&conn, &task_by_id_query(created.id));
    assert!(done[0].completed);
    assert_eq!(done[0].completed_at, Some("2024-03-06 10:00:00".to_string()));
    execute(&conn, &delete_statement(created.id));
    assert!(rows(&conn, &task_by_id_query(created.id)).is_empty());
}

#[test]
fn main_list_leaves_sub_tasks_out_and_filters() {
    let conn = open();
    let a = insert(&conn, plan_new_task(new("a", "daily"), at(1, 8)));
    let b = insert(&conn, plan_new_task(new("b", "weekly"), at(2, 8)));
    let parent_type: String = single(&conn, &parent_type_query(a.id));
    let parent_due: Option<String> = single(&conn, &parent_due_date_query(a.id));
    let step = insert(&conn, plan_task_point(a.id, "step".to_string(), parent_type, parent_due, at(3, 8)));
    assert_eq!(step.task_type, "daily");
    assert_eq!(step.due_date, a.due_date);

    let all = rows(&conn, &task_list_query(&None));
    assert_eq!(all.iter().map(|t| t.id).collect::<Vec<_>>(), vec![b.id, a.id]);

    let weekly = rows(
        &conn,
        &task_list_query(&Some(QueryFilter {
            task_type: Some("weekly".to_string()),
            completed: Some(false),
            start_date: Some("2024-03-02".to_string()),
            end_date: Some("".to_string()),
            date_field: None,
        })),
    );
    assert_eq!(weekly.iter().map(|t| t.id).collect::<Vec<_>>(), vec![b.id]);

    let points = rows(&conn, &task_points_query(a.id));
    assert_eq!(points, vec![step.clone()]);
    execute(&conn, &complete_statement(step.id, at(4, 8)));
    let s = counts(&conn, &task_point_stats_query(a.id));
    let t = tally(s.0, s.1);
    assert_eq!((t.total, t.completed, t.pending), (1, 1, 0));
}

#[test]
fn histories_page_through_tasks() {
    let conn = open();
    let mut ids = Vec::new();
    for day in 1..=5u32 {
        ids.push(insert(&conn, plan_new_task(new(&format!("t{}", day), "daily"), at(day, 8))).id);
    }
    execute(&conn, &complete_statement(ids[0], at(10, 8)));
    execute(&conn, &complete_statement(ids[1], at(11, 8)));

    let page = Some(PageFilter { page: Some(2), page_size: Some(2) });
    let q = history_query(HistoryKind::Uncompleted, &None, &page);
    let total: i64 = single(&conn, &q.count);
    let listed = paginate(rows(&conn, &q.rows), total, q.window);
    assert_eq!(listed.total, 3);
    assert_eq!(listed.total_pages, 2);
    assert_eq!(listed.tasks.iter().map(|t| t.id).collect::<Vec<_>>(), vec![ids[2]]);

    let q = history_query(HistoryKind::Completed, &None, &None);
    let done = rows(&conn, &q.rows);
    assert_eq!(done.iter().map(|t| t.id).collect::<Vec<_>>(), vec![ids[1], ids[0]]);

    let q = expired_query(at(4, 0), &Some("all".to_string()), &None);
    let total: i64 = single(&conn, &q.count);
    let expired = rows(&conn, &q.rows);
    assert_eq!(total, 1);
    assert_eq!(expired.iter().map(|t| t.id).collect::<Vec<_>>(), vec![ids[2]]);

    let (total, completed) = counts(&conn, &stats_query(&Some("daily".to_string())));
    let t = tally(total, completed);
    assert_eq!((t.total, t.completed, t.pending), (5, 2, 3));

    let q = contribution_query_between(CalendarDate { year: 2024, month: 3, day: 1 }, CalendarDate { year: 2024, month: 3, day: 31 });
    let mut stmt = conn.prepare(&q.sql).unwrap();
    let days: Vec<(String, i64)> = stmt
        .query_map(params_from_iter(values(&q)), |row| Ok((row.get(0)?, row.get(1)?)))
        .unwrap()
        .collect::<Result<Vec<_>, _>>()
        .unwrap();
    assert_eq!(days, vec![("2024-03-10".to_string(), 1), ("2024-03-11".to_string(), 1)]);
}

#[test]
fn export_then_import_through_the_store() {
    let conn = open();
    let a = insert(&conn, plan_new_task(new("a", "monthly"), at(1, 8)));
    insert(&conn, plan_task_point(a.id, "sub".to_string(), "monthly".to_string(), a.due_date.clone(), at(2, 8)));
    let exported = export_list(&rows(&conn, &export_query(true)));
    assert_eq!(exported.tasks.len(), 1);
    let imported: Vec<Task> = exported.tasks.into_iter().map(|e| insert(&conn, plan_import_entry(e, at(9, 9)))).collect();
    assert_eq!(imported.len(), 1);
    assert_eq!(imported[0].title, "a");
    assert_eq!(imported[0].due_date, a.due_date);
    assert_eq!(imported[0].due_date, Some("2024-03-31 23:59:59".to_string()));
    assert_eq!(rows(&conn, &export_query(false)).len(), 3);
}

#[test]
fn sub_task_created_as_a_task_gets_no_due_date() {
    let conn = open();
    let parent = insert(&conn, plan_new_task(new("p", "monthly"), at(1, 8)));
    let sub = NewTask { title: "s".to_string(), task_type: "daily".to_string(), due_date: None, parent_id: Some(parent.id) };
    let child = insert(&conn, plan_new_task(sub, at(2, 8)));
    assert_eq!(child.due_date, None);
    assert_eq!(rows(&conn, &task_points_query(parent.id)), vec![child]);
}

#[test]
fn completed_and_uncompleted_histories_split_all_tasks() {
    let conn = open();
    let a = insert(&conn, plan_new_task(new("a", "daily"), at(1, 8)));
    insert(&conn, plan_new_task(new("b", "daily"), at(1, 9)));
    let sub = NewTask { title: "s".to_string(), task_type: "daily".to_string(), due_date: None, parent_id: Some(a.id) };
    let s = insert(&conn, plan_new_task(sub, at(1, 10)));
    execute(&conn, &complete_statement(s.id, at(2, 8)));
    let done: i64 = single(&conn, &history_query(HistoryKind::Completed, &None, &None).count);
    let open_: i64 = single(&conn, &history_query(HistoryKind::Uncompleted, &None, &None).count);
    let (total, _) = counts(&conn, &stats_query(&None));
    assert_eq!(done + open_, total);
    assert_eq!((done, open_, total), (1, 2, 3));
}

#[test]
fn completed_task_never_expires() {
    let conn = open();
    let a = insert(&conn, plan_new_task(new("a", "daily"), at(1, 8)));
    let expired = rows(&conn, &expired_query(at(20, 0), &None, &None).rows);
    assert_eq!(expired.iter().map(|t| t.id).collect::<Vec<_>>(), vec![a.id]);
    execute(&conn, &complete_statement(a.id, at(21, 0)));
    assert!(rows(&conn, &expired_query(at(25, 0), &None, &None).rows).is_empty());
}

#[test]
fn deleting_twice_changes_nothing_more() {
    let conn = open();
    let a = insert(&conn, plan_new_task(new("a", "daily"), at(1, 8)));
    let b = insert(&conn, plan_new_task(new("b", "daily"), at(1, 9)));
    execute(&conn, &delete_statement(a.id));
    let after_first = rows(&conn, &export_query(true));
    execute(&conn, &delete_statement(a.id));
    assert_eq!(rows(&conn, &export_query(true)), after_first);
    assert_eq!(after_first, vec![b]);
}

#[test]
fn sub_task_counts_grow_with_each_new_point() {
    let conn = open();
    let p = insert(&conn, plan_new_task(new("p", "weekly"), at(1, 8)));
    let before = counts(&conn, &task_point_stats_query(p.id));
    let a = tally(before.0, before.1);
    insert(&conn, plan_task_point(p.id, "x".to_string(), p.task_type.clone(), p.due_date.clone(), at(2, 8)));
    let after = counts(&conn, &task_point_stats_query(p.id));
    let b = tally(after.0, after.1);
    assert_eq!((b.total, b.completed, b.pending), (a.total + 1, a.completed, a.pending + 1));
    assert_eq!(rows(&conn, &task_points_query(p.id)).len() as i64, b.total);
}

#[test]
fn export_of_open_tasks_is_part_of_the_full_export() {
    let conn = open();
    let a = insert(&conn, plan_new_task(new("a", "daily"), at(1, 8)));
    insert(&conn, plan_new_task(new("b", "weekly"), at(2, 8)));
    execute(&conn, &complete_statement(a.id, at(3, 8)));
    let open_only = export_list(&rows(&conn, &export_query(false)));
    let all = export_list(&rows(&conn, &export_query(true)));
    assert_eq!(open_only.tasks.len(), 1);
    assert_eq!(all.tasks.len(), 2);
    assert!(all.tasks.contains(&open_only.tasks[0]));
}
