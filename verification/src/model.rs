//! The records of the task store and their mathematical models.
use vstd::prelude::*;

verus! {

/// Paging request: 1-based page number and page size, both optional.
#[derive(Clone, Debug, PartialEq)]
pub struct PageFilter {
    pub page: Option<i64>,
    pub page_size: Option<i64>,
}

/// One stored task (a main task or, when `parent_id` is set, a sub-task).
#[derive(Clone, Debug, PartialEq)]
pub struct Task {
    pub id: i64,
    pub title: String,
    /// `daily`, `weekly`, `monthly`, `yearly` or any other label.
    pub task_type: String,
    pub created_at: String,
    pub due_date: Option<String>,
    pub completed: bool,
    pub completed_at: Option<String>,
    pub parent_id: Option<i64>,
}

/// The mathematical value of a [`Task`]: its strings as character sequences.
pub struct TaskModel {
    pub id: i64,
    pub title: Seq<char>,
    pub task_type: Seq<char>,
    pub created_at: Seq<char>,
    pub due_date: Option<Seq<char>>,
    pub completed: bool,
    pub completed_at: Option<Seq<char>>,
    pub parent_id: Option<i64>,
}

impl View for Task {
    type V = TaskModel;

    open spec fn view(&self) -> TaskModel {
        TaskModel {
            id: self.id,
            title: self.title@,
            task_type: self.task_type@,
            created_at: self.created_at@,
            due_date: self.due_date.deep_view(),
            completed: self.completed,
            completed_at: self.completed_at.deep_view(),
            parent_id: self.parent_id,
        }
    }
}

/// Input for creating a task; a set `parent_id` makes it a sub-task.
#[derive(Clone, Debug, PartialEq)]
pub struct NewTask {
    pub title: String,
    pub task_type: String,
    pub due_date: Option<String>,
    pub parent_id: Option<i64>,
}

/// Selection of tasks by type, completion and a date range or a single day.
/// `date_field` names the column that the dates refer to.
#[derive(Clone, Debug, PartialEq)]
pub struct QueryFilter {
    pub task_type: Option<String>,
    pub completed: Option<bool>,
    pub start_date: Option<String>,
    pub end_date: Option<String>,
    pub date_field: Option<String>,
}

pub struct QueryFilterModel {
    pub task_type: Option<Seq<char>>,
    pub completed: Option<bool>,
    pub start_date: Option<Seq<char>>,
    pub end_date: Option<Seq<char>>,
    pub date_field: Option<Seq<char>>,
}

impl View for QueryFilter {
    type V = QueryFilterModel;

    open spec fn view(&self) -> QueryFilterModel {
        QueryFilterModel {
            task_type: self.task_type.deep_view(),
            completed: self.completed,
            start_date: self.start_date.deep_view(),
            end_date: self.end_date.deep_view(),
            date_field: self.date_field.deep_view(),
        }
    }
}

/// One page of tasks with the paging figures it was cut with.
#[derive(Clone, Debug, PartialEq)]
pub struct PaginatedTasks {
    pub tasks: Vec<Task>,
    pub total: i64,
    pub page: i64,
    pub page_size: i64,
    pub total_pages: i64,
}

/// The number of tasks completed on one day (`YYYY-MM-DD`).
#[derive(Clone, Debug, PartialEq)]
pub struct ContributionDay {
    pub date: String,
    pub count: i64,
}

/// A task as it is written to and read from a JSON export.
#[derive(Clone, Debug, PartialEq)]
pub struct JsonTask {
    pub title: String,
    pub task_type: String,
    pub due_date: Option<String>,
    pub created_at: Option<String>,
}

pub struct JsonTaskModel {
    pub title: Seq<char>,
    pub task_type: Seq<char>,
    pub due_date: Option<Seq<char>>,
    pub created_at: Option<Seq<char>>,
}

impl View for JsonTask {
    type V = JsonTaskModel;

    open spec fn view(&self) -> JsonTaskModel {
        JsonTaskModel {
            title: self.title@,
            task_type: self.task_type@,
            due_date: self.due_date.deep_view(),
            created_at: self.created_at.deep_view(),
        }
    }
}

/// The document of a JSON export: `{ "tasks": [...] }`.
#[derive(Clone, Debug, PartialEq)]
pub struct JsonTaskList {
    pub tasks: Vec<JsonTask>,
}

/// Counts of the sub-tasks of one task.
#[derive(Clone, Debug, PartialEq)]
pub struct TaskPointStats {
    pub total: i64,
    pub completed: i64,
    pub pending: i64,
}

/// A value bound to a `?` placeholder of an SQL statement.
#[derive(Clone, Debug, PartialEq)]
pub enum SqlValue {
    Text(String),
    Integer(i64),
    Null,
}

pub enum SqlValueModel {
    Text(Seq<char>),
    Integer(int),
    Null,
}

impl View for SqlValue {
    type V = SqlValueModel;

    open spec fn view(&self) -> SqlValueModel {
        match self {
            SqlValue::Text(s) => SqlValueModel::Text(s@),
            SqlValue::Integer(i) => SqlValueModel::Integer(*i as int),
            SqlValue::Null => SqlValueModel::Null,
        }
    }
}

/// An SQL statement and the values of its placeholders, in order.
#[derive(Clone, Debug, PartialEq)]
pub struct SqlQuery {
    pub sql: String,
    pub params: Vec<SqlValue>,
}

pub struct SqlQueryModel {
    pub sql: Seq<char>,
    pub params: Seq<SqlValueModel>,
}

pub open spec fn values_model(values: Seq<SqlValue>) -> Seq<SqlValueModel> {
    values.map_values(|v: SqlValue| v@)
}

impl View for SqlQuery {
    type V = SqlQueryModel;

    open spec fn view(&self) -> SqlQueryModel {
        SqlQueryModel { sql: self.sql@, params: values_model(self.params@) }
    }
}

pub open spec fn tasks_model(tasks: Seq<Task>) -> Seq<TaskModel> {
    tasks.map_values(|t: Task| t@)
}

/// A row of the `tasks` table as the database hands it out: `completed` is
/// the stored integer flag.
#[derive(Clone, Debug, PartialEq)]
pub struct TaskRow {
    pub id: i64,
    pub title: String,
    pub task_type: String,
    pub created_at: String,
    pub due_date: Option<String>,
    pub completed: i32,
    pub completed_at: Option<String>,
    pub parent_id: Option<i64>,
}

/// A task is completed exactly when its stored flag is 1.
pub fn task_from_row(row: TaskRow) -> (task: Task)
    ensures
        task@ == row_task(row),
{
    Task {
        id: row.id,
        title: row.title,
        task_type: row.task_type,
        created_at: row.created_at,
        due_date: row.due_date,
        completed: row.completed == 1,
        completed_at: row.completed_at,
        parent_id: row.parent_id,
    }
}

/// The model of the task a row reads as.
pub open spec fn row_task(row: TaskRow) -> TaskModel {
    TaskModel {
        id: row.id,
        title: row.title@,
        task_type: row.task_type@,
        created_at: row.created_at@,
        due_date: row.due_date.deep_view(),
        completed: row.completed == 1,
        completed_at: row.completed_at.deep_view(),
        parent_id: row.parent_id,
    }
}

/// The tasks that rows read as, in order.
pub fn tasks_from_rows(rows: Vec<TaskRow>) -> (tasks: Vec<Task>)
    ensures
        tasks@.len() == rows@.len(),
        forall|i: int| 0 <= i < rows@.len() ==> #[trigger] tasks@[i]@ == row_task(rows@[i]),
{
    let ghost given = rows@;
    let mut rows = rows;
    let mut reversed: Vec<Task> = Vec::new();
    while rows.len() > 0
        invariant
            rows@.len() + reversed@.len() == given.len(),
            forall|i: int| 0 <= i < rows@.len() ==> rows@[i] == given[i],
            forall|j: int|
                0 <= j < reversed@.len() ==> #[trigger] reversed@[j]@ == row_task(
                    given[given.len() - 1 - j],
                ),
        decreases rows@.len(),
    {
        let row = rows.pop().unwrap();
        assert(row == given[rows@.len() as int]);
        reversed.push(task_from_row(row));
    }
    let mut tasks: Vec<Task> = Vec::new();
    while reversed.len() > 0
        invariant
            tasks@.len() + reversed@.len() == given.len(),
            forall|j: int|
                0 <= j < reversed@.len() ==> #[trigger] reversed@[j]@ == row_task(
                    given[given.len() - 1 - j],
                ),
            forall|i: int| 0 <= i < tasks@.len() ==> #[trigger] tasks@[i]@ == row_task(given[i]),
        decreases reversed@.len(),
    {
        let t = reversed.pop().unwrap();
        tasks.push(t);
    }
    tasks
}

} // verus!
