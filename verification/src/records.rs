//! Tasks going into the store (new tasks, batches, imports, sub-tasks) and
//! coming out of it (exports and counts).
use vstd::prelude::*;

use crate::calendar::{format_timestamp, timestamp_text, CalendarDate, LocalDateTime};
use crate::due::{calculate_default_due_date_on, due_date_derivable, due_date_on};
use crate::model::{
    JsonTask, JsonTaskList, JsonTaskModel, NewTask, SqlQuery, SqlQueryModel, SqlValue,
    SqlValueModel, Task, TaskModel, TaskPointStats, tasks_model,
};
use crate::text::opt_as_str;

verus! {

pub struct NewTaskModel {
    pub title: Seq<char>,
    pub task_type: Seq<char>,
    pub due_date: Option<Seq<char>>,
    pub parent_id: Option<i64>,
}

impl View for NewTask {
    type V = NewTaskModel;

    open spec fn view(&self) -> NewTaskModel {
        NewTaskModel {
            title: self.title@,
            task_type: self.task_type@,
            due_date: self.due_date.deep_view(),
            parent_id: self.parent_id,
        }
    }
}

/// A task about to be inserted: everything but the id that the store gives
/// it. It starts out not completed.
#[derive(Clone, Debug, PartialEq)]
pub struct PendingTask {
    pub title: String,
    pub task_type: String,
    pub created_at: String,
    pub due_date: Option<String>,
    pub parent_id: Option<i64>,
}

pub struct PendingTaskModel {
    pub title: Seq<char>,
    pub task_type: Seq<char>,
    pub created_at: Seq<char>,
    pub due_date: Option<Seq<char>>,
    pub parent_id: Option<i64>,
}

impl View for PendingTask {
    type V = PendingTaskModel;

    open spec fn view(&self) -> PendingTaskModel {
        PendingTaskModel {
            title: self.title@,
            task_type: self.task_type@,
            created_at: self.created_at@,
            due_date: self.due_date.deep_view(),
            parent_id: self.parent_id,
        }
    }
}

/// The task that an inserted pending task becomes once the store gave it `id`.
pub open spec fn stored_task(p: PendingTaskModel, id: i64) -> TaskModel {
    TaskModel {
        id,
        title: p.title,
        task_type: p.task_type,
        created_at: p.created_at,
        due_date: p.due_date,
        completed: false,
        completed_at: None,
        parent_id: p.parent_id,
    }
}

pub const INSERT_TASK: &'static str =
    "INSERT INTO tasks (title, task_type, created_at, due_date, completed, parent_id) VALUES (?1, ?2, ?3, ?4, 0, ?5)";

pub open spec fn text_or_null(s: Option<Seq<char>>) -> SqlValueModel {
    match s {
        Some(t) => SqlValueModel::Text(t),
        None => SqlValueModel::Null,
    }
}

pub open spec fn integer_or_null(n: Option<i64>) -> SqlValueModel {
    match n {
        Some(i) => SqlValueModel::Integer(i as int),
        None => SqlValueModel::Null,
    }
}

/// The statement inserting `p`, not completed.
pub open spec fn insert_spec(p: PendingTaskModel) -> SqlQueryModel {
    SqlQueryModel {
        sql: INSERT_TASK@,
        params: seq![
            SqlValueModel::Text(p.title),
            SqlValueModel::Text(p.task_type),
            SqlValueModel::Text(p.created_at),
            text_or_null(p.due_date),
            integer_or_null(p.parent_id),
        ],
    }
}

/// A new main task is due on its own date, or one derived from its type; a
/// sub-task created this way gets no due date.
pub open spec fn new_task_spec(task: NewTaskModel, now: LocalDateTime) -> PendingTaskModel {
    PendingTaskModel {
        title: task.title,
        task_type: task.task_type,
        created_at: timestamp_text(now),
        due_date: if task.parent_id is Some {
            None
        } else {
            due_date_on(task.task_type, task.due_date, now.date)
        },
        parent_id: task.parent_id,
    }
}

/// A new task can be planned on the clock reading's day: it is a sub-task,
/// or its due date can be derived on that day.
pub open spec fn plannable_on(task: NewTaskModel, today: CalendarDate) -> bool {
    task.parent_id is None ==> due_date_derivable(task.task_type, task.due_date, today)
}

/// An imported task is a main task, created now, whose due date is derived
/// as for a new one.
pub open spec fn import_spec(task: JsonTaskModel, now: LocalDateTime) -> PendingTaskModel {
    PendingTaskModel {
        title: task.title,
        task_type: task.task_type,
        created_at: timestamp_text(now),
        due_date: due_date_on(task.task_type, task.due_date, now.date),
        parent_id: None,
    }
}

/// A sub-task takes the type and the due date of its parent.
pub open spec fn task_point_spec(
    parent_id: i64,
    title: Seq<char>,
    parent_type: Seq<char>,
    parent_due_date: Option<Seq<char>>,
    now: LocalDateTime,
) -> PendingTaskModel {
    PendingTaskModel {
        title,
        task_type: parent_type,
        created_at: timestamp_text(now),
        due_date: parent_due_date,
        parent_id: Some(parent_id),
    }
}

pub open spec fn json_tasks_model(tasks: Seq<JsonTask>) -> Seq<JsonTaskModel> {
    tasks.map_values(|t: JsonTask| t@)
}

/// A task as it is exported.
pub open spec fn json_of(t: TaskModel) -> JsonTaskModel {
    JsonTaskModel {
        title: t.title,
        task_type: t.task_type,
        due_date: t.due_date,
        created_at: Some(t.created_at),
    }
}

pub open spec fn is_main_task(t: TaskModel) -> bool {
    t.parent_id is None
}

/// An export holds the main tasks, in order.
pub open spec fn exported(tasks: Seq<TaskModel>) -> Seq<JsonTaskModel> {
    tasks.filter(|t: TaskModel| is_main_task(t)).map_values(|t: TaskModel| json_of(t))
}

impl PendingTask {
    /// The task that this one becomes once inserted with id `id`.
    pub fn into_task(self, id: i64) -> (task: Task)
        ensures
            task@ == stored_task(self@, id),
            task.id == id,
            task.title@ == self.title@,
            task.task_type@ == self.task_type@,
            task.created_at@ == self.created_at@,
            task.due_date.deep_view() == self.due_date.deep_view(),
            !task.completed,
            task.completed_at is None,
            task.parent_id == self.parent_id,
    {
        Task {
            id,
            title: self.title,
            task_type: self.task_type,
            created_at: self.created_at,
            due_date: self.due_date,
            completed: false,
            completed_at: None,
            parent_id: self.parent_id,
        }
    }
}

/// The statement inserting `p` (`create_task`, `create_tasks_batch`,
/// `import_tasks_from_json`, `create_task_point`).
pub fn insert_statement(p: &PendingTask) -> (q: SqlQuery)
    ensures
        q@ == insert_spec(p@),
{
    let mut q = SqlQuery::from_text(INSERT_TASK);
    q.push_value(SqlValue::Text(p.title.clone()));
    q.push_value(SqlValue::Text(p.task_type.clone()));
    q.push_value(SqlValue::Text(p.created_at.clone()));
    match &p.due_date {
        Some(d) => q.push_value(SqlValue::Text(d.clone())),
        None => q.push_value(SqlValue::Null),
    }
    match p.parent_id {
        Some(i) => q.push_value(SqlValue::Integer(i)),
        None => q.push_value(SqlValue::Null),
    }
    assert(q@.params =~= insert_spec(p@).params);
    q
}

/// Plans a new task created at clock reading `now` (`create_task`, and each
/// task of `create_tasks_batch` in turn).
pub fn plan_new_task(task: NewTask, now: LocalDateTime) -> (p: PendingTask)
    requires
        now.valid(),
        plannable_on(task@, now.date),
    ensures
        p@ == new_task_spec(task@, now),
        p.title@ == task.title@,
        p.task_type@ == task.task_type@,
        p.parent_id == task.parent_id,
        p.created_at@ == timestamp_text(now),
        task.parent_id is Some ==> p.due_date is None,
        task.parent_id is None ==> p.due_date.deep_view() == due_date_on(
            task.task_type@,
            task.due_date.deep_view(),
            now.date,
        ),
{
    let created_at = format_timestamp(now);
    let due_date = if task.parent_id.is_some() {
        None
    } else {
        calculate_default_due_date_on(
            task.task_type.as_str(),
            opt_as_str(&task.due_date),
            now.date,
        )
    };
    PendingTask {
        title: task.title,
        task_type: task.task_type,
        created_at,
        due_date,
        parent_id: task.parent_id,
    }
}

/// Plans the import of one entry of an exported list at clock reading `now`
/// (`import_tasks_from_json`, entry by entry): it becomes a main task.
pub fn plan_import_entry(entry: JsonTask, now: LocalDateTime) -> (p: PendingTask)
    requires
        now.valid(),
        due_date_derivable(entry@.task_type, entry@.due_date, now.date),
    ensures
        p@ == import_spec(entry@, now),
        p.title@ == entry.title@,
        p.task_type@ == entry.task_type@,
        p.parent_id is None,
        p.created_at@ == timestamp_text(now),
        p.due_date.deep_view() == due_date_on(entry.task_type@, entry.due_date.deep_view(), now.date),
{
    let created_at = format_timestamp(now);
    let due_date = calculate_default_due_date_on(
        entry.task_type.as_str(),
        opt_as_str(&entry.due_date),
        now.date,
    );
    PendingTask { title: entry.title, task_type: entry.task_type, created_at, due_date, parent_id: None }
}

/// Plans a sub-task of task `parent_id`, whose type and due date are
/// `parent_type` and `parent_due_date` (`create_task_point`).
pub fn plan_task_point(
    parent_id: i64,
    title: String,
    parent_type: String,
    parent_due_date: Option<String>,
    now: LocalDateTime,
) -> (p: PendingTask)
    requires
        now.valid(),
    ensures
        p@ == task_point_spec(parent_id, title@, parent_type@, parent_due_date.deep_view(), now),
        p.title@ == title@,
        p.task_type@ == parent_type@,
        p.due_date.deep_view() == parent_due_date.deep_view(),
        p.parent_id == Some(parent_id),
        p.created_at@ == timestamp_text(now),
{
    PendingTask {
        title,
        task_type: parent_type,
        created_at: format_timestamp(now),
        due_date: parent_due_date,
        parent_id: Some(parent_id),
    }
}

/// The export of `tasks` (`export_tasks_to_json`, `export_history_to_json`):
/// the main tasks, in order, each with its creation time.
pub fn export_list(tasks: &Vec<Task>) -> (list: JsonTaskList)
    ensures
        json_tasks_model(list.tasks@) == exported(tasks_model(tasks@)),
        ({
            let main = tasks@.filter(|t: Task| t.parent_id is None);
            &&& list.tasks@.len() == main.len()
            &&& forall|k: int|
                0 <= k < main.len() ==> {
                    &&& #[trigger] list.tasks@[k].title@ == main[k].title@
                    &&& list.tasks@[k].task_type@ == main[k].task_type@
                    &&& list.tasks@[k].due_date.deep_view() == main[k].due_date.deep_view()
                    &&& list.tasks@[k].created_at.deep_view() == Some(main[k].created_at@)
                }
        }),
{
    let ghost all = tasks_model(tasks@);
    let ghost main = |t: TaskModel| is_main_task(t);
    let ghost parentless = |t: Task| t.parent_id is None;
    let mut out: Vec<JsonTask> = Vec::new();
    let mut i: usize = 0;
    while i < tasks.len()
        invariant
            i <= tasks@.len(),
            all == tasks_model(tasks@),
            main == (|t: TaskModel| is_main_task(t)),
            parentless == (|t: Task| t.parent_id is None),
            json_tasks_model(out@) =~= all.take(i as int).filter(main).map_values(
                |t: TaskModel| json_of(t),
            ),
            out@.len() == tasks@.take(i as int).filter(parentless).len(),
            forall|k: int|
                0 <= k < out@.len() ==> {
                    &&& #[trigger] out@[k].title@ == tasks@.take(i as int).filter(parentless)[k].title@
                    &&& out@[k].task_type@ == tasks@.take(i as int).filter(parentless)[k].task_type@
                    &&& out@[k].due_date.deep_view() == tasks@.take(i as int).filter(
                        parentless,
                    )[k].due_date.deep_view()
                    &&& out@[k].created_at.deep_view() == Some(
                        tasks@.take(i as int).filter(parentless)[k].created_at@,
                    )
                },
        decreases tasks@.len() - i,
    {
        let t = &tasks[i];
        proof {
            reveal_with_fuel(Seq::<_>::filter, 1);
            assert(all.take(i + 1).drop_last() =~= all.take(i as int));
            assert(all.take(i + 1).last() == t@);
            assert(tasks@.take(i + 1).drop_last() =~= tasks@.take(i as int));
            assert(tasks@.take(i + 1).last() == *t);
        }
        let ghost before = out@;
        let ghost kept_before = tasks@.take(i as int).filter(parentless);
        let ghost kept = tasks@.take(i + 1).filter(parentless);
        if t.parent_id.is_none() {
            let entry = JsonTask {
                title: t.title.clone(),
                task_type: t.task_type.clone(),
                due_date: t.due_date.clone(),
                created_at: Some(t.created_at.clone()),
            };
            out.push(entry);
            assert(json_tasks_model(out@) =~= json_tasks_model(before).push(json_of(t@)));
            assert(kept == kept_before.push(*t));
        } else {
            assert(kept == kept_before);
        }
        assert forall|k: int| 0 <= k < out@.len() implies {
            &&& #[trigger] out@[k].title@ == kept[k].title@
            &&& out@[k].task_type@ == kept[k].task_type@
            &&& out@[k].due_date.deep_view() == kept[k].due_date.deep_view()
            &&& out@[k].created_at.deep_view() == Some(kept[k].created_at@)
        } by {
            if k < before.len() {
                assert(out@[k] == before[k]);
                assert(kept[k] == kept_before[k]);
                assert(before[k].title@ == kept_before[k].title@);
            } else {
                assert(kept[k] == *t);
            }
        }
        assert(kept == tasks@.take(i + 1).filter(parentless));
        i = i + 1;
    }
    assert(all.take(tasks@.len() as int) =~= all);
    assert(tasks@.take(tasks@.len() as int) =~= tasks@);
    JsonTaskList { tasks: out }
}

/// Counts `total` tasks of which `completed` are completed (`SUM` gives no
/// value over no rows).
pub open spec fn tally_spec(total: i64, completed: Option<i64>) -> (int, int, int) {
    let done = match completed {
        Some(c) => c as int,
        None => 0,
    };
    (total as int, done, total - done)
}

/// The counts of tasks: the total, the completed ones and the pending ones
/// (`get_stats`, `get_task_point_stats`).
pub fn tally(total: i64, completed: Option<i64>) -> (stats: TaskPointStats)
    requires
        i64::MIN <= tally_spec(total, completed).2 <= i64::MAX,
    ensures
        (stats.total as int, stats.completed as int, stats.pending as int) == tally_spec(
            total,
            completed,
        ),
{
    let completed = match completed {
        Some(c) => c,
        None => 0,
    };
    TaskPointStats { total, completed, pending: total - completed }
}

} // verus!
