use taskflow::calendar::{CalendarDate, LocalDateTime};
use taskflow::model::{task_from_row, tasks_from_rows, JsonTask, JsonTaskList, NewTask, SqlValue, Task, TaskRow};
use taskflow::records::{
    export_list, insert_statement, plan_import_entry, plan_new_task, plan_task_point, tally,
};

fn now() -> LocalDateTime {
    LocalDateTime { date: CalendarDate { year: 2024, month: 3, day: 5 }, hour: 14, minute: 30, second: 0 }
}

fn new_task(title: &str, task_type: &str, due: Option<&str>, parent: Option<i64>) -> NewTask {
    NewTask {
        title: title.to_string(),
        task_type: task_type.to_string(),
        due_date: due.map(|s| s.to_string()),
        parent_id: parent,
    }
}

fn task(id: i64, title: &str, parent: Option<i64>) -> Task {
    Task {
        id,
        title: title.to_string(),
        task_type: "weekly".to_string(),
        created_at: format!("2024-01-0{} 08:00:00", id),
        due_date: Some("2024-02-01 23:59:59".to_string()),
        completed: false,
        completed_at: None,
        parent_id: parent,
    }
}

#[test]
fn new_task_gets_creation_time_and_due_date() {
    let p = plan_new_task(new_task("Read", "weekly", None, None), now());
    assert_eq!(p.created_at, "2024-03-05 14:30:00");
    assert_eq!(p.due_date, Some("2024-03-12 23:59:59".to_string()));
    let stored = p.into_task(42);
    assert_eq!(stored.id, 42);
    assert!(!stored.completed);
    assert_eq!(stored.completed_at, None);
    assert_eq!(stored.title, "Read");
}

#[test]
fn sub_task_gets_no_due_date() {
    let p = plan_new_task(new_task("Step", "daily", Some("2024-09-09"), Some(4)), now());
    assert_eq!(p.due_date, None);
    assert_eq!(p.parent_id, Some(4));
}

#[test]
fn custom_due_date_is_kept_when_planning() {
    let p = plan_new_task(new_task("b", "yearly", Some("x"), None), now());
    assert_eq!(p.due_date, Some("x".to_string()));
}

#[test]
fn insert_binds_nulls() {
    let p = plan_new_task(new_task("Step", "daily", None, Some(4)), now());
    let q = insert_statement(&p);
    assert_eq!(
        q.sql,
        "INSERT INTO tasks (title, task_type, created_at, due_date, completed, parent_id) VALUES (?1, ?2, ?3, ?4, 0, ?5)"
    );
    assert_eq!(
        q.params,
        vec![
            SqlValue::Text("Step".to_string()),
            SqlValue::Text("daily".to_string()),
            SqlValue::Text("2024-03-05 14:30:00".to_string()),
            SqlValue::Null,
            SqlValue::Integer(4)
        ]
    );
}

#[test]
fn task_point_inherits_type_and_due_date() {
    let p = plan_task_point(8, "part".to_string(), "monthly".to_string(), Some("2024-04-04 23:59:59".to_string()), now());
    assert_eq!(p.task_type, "monthly");
    assert_eq!(p.due_date, Some("2024-04-04 23:59:59".to_string()));
    assert_eq!(p.parent_id, Some(8));
    assert_eq!(p.created_at, "2024-03-05 14:30:00");
}

#[test]
fn export_keeps_main_tasks_in_order() {
    let list = export_list(&vec![task(1, "one", None), task(2, "sub", Some(1)), task(3, "three", None)]);
    assert_eq!(list.tasks.len(), 2);
    assert_eq!(list.tasks[0].title, "one");
    assert_eq!(list.tasks[0].created_at, Some("2024-01-01 08:00:00".to_string()));
    assert_eq!(list.tasks[1].title, "three");
    assert_eq!(list.tasks[1].due_date, Some("2024-02-01 23:59:59".to_string()));
}

#[test]
fn export_then_import_round_trip() {
    let list = export_list(&vec![task(1, "one", None), task(2, "sub", Some(1))]);
    let planned: Vec<_> = list.tasks.into_iter().map(|e| plan_import_entry(e, now())).collect();
    assert_eq!(planned.len(), 1);
    assert_eq!(planned[0].title, "one");
    assert_eq!(planned[0].task_type, "weekly");
    assert_eq!(planned[0].due_date, Some("2024-02-01 23:59:59".to_string()));
    assert_eq!(planned[0].parent_id, None);
    assert_eq!(planned[0].created_at, "2024-03-05 14:30:00");
}

#[test]
fn import_derives_missing_due_dates() {
    let list = JsonTaskList {
        tasks: vec![
            JsonTask { title: "a".to_string(), task_type: "daily".to_string(), due_date: None, created_at: None },
            JsonTask {
                title: "b".to_string(),
                task_type: "monthly".to_string(),
                due_date: Some(String::new()),
                created_at: Some("2020-01-01 00:00:00".to_string()),
            },
        ],
    };
    let planned: Vec<_> = list.tasks.into_iter().map(|e| plan_import_entry(e, now())).collect();
    assert_eq!(planned[0].due_date, Some("2024-03-05 23:59:59".to_string()));
    assert_eq!(planned[1].due_date, Some("2024-04-04 23:59:59".to_string()));
    assert_eq!(planned[1].created_at, "2024-03-05 14:30:00");
}

#[test]
fn counts_add_up() {
    let s = tally(10, Some(4));
    assert_eq!((s.total, s.completed, s.pending), (10, 4, 6));
    let s = tally(0, None);
    assert_eq!((s.total, s.completed, s.pending), (0, 0, 0));
}

#[test]
fn rows_read_as_tasks() {
    let row = |flag: i32| TaskRow {
        id: 5,
        title: "t".to_string(),
        task_type: "daily".to_string(),
        created_at: "2024-01-01 00:00:00".to_string(),
        due_date: None,
        completed: flag,
        completed_at: None,
        parent_id: Some(0),
    };
    assert!(task_from_row(row(1)).completed);
    assert!(!task_from_row(row(0)).completed);
    assert!(!task_from_row(row(2)).completed);
    let tasks = tasks_from_rows(vec![row(1), row(0)]);
    assert_eq!(tasks.len(), 2);
    assert!(tasks[0].completed && !tasks[1].completed);
    assert_eq!(tasks[1].parent_id, Some(0));
}
