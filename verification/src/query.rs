//! The SQL statements of the task store and the values bound to their
//! placeholders, built from the user's filters and paging requests.
use vstd::prelude::*;

use crate::calendar::{
    date_text, day_number, format_date, format_timestamp, shift_date, shift_in_range, shifted, timestamp_text,
    CalendarDate, LocalDateTime,
};
use crate::model::{
    values_model, PageFilter, QueryFilter, QueryFilterModel, SqlQuery, SqlQueryModel, SqlValue,
    SqlValueModel,
};
use crate::paging::{
    normalized_page, normalized_page_size, page_offset, page_window, window_fits, PageWindow,
};
use crate::text::str_equal;

verus! {

/// The columns of a task, in the order a [`crate::model::TaskRow`] holds them.
pub const TASK_SELECT: &'static str =
    "SELECT id, title, task_type, created_at, due_date, completed, completed_at, parent_id FROM tasks";

/// Main listings leave sub-tasks out.
pub const MAIN_TASKS_ONLY: &'static str = " WHERE (parent_id IS NULL OR parent_id = 0)";

pub const NEWEST_FIRST: &'static str = " ORDER BY created_at DESC";

pub const TYPE_CONDITION: &'static str = " AND task_type = ?";

pub const COMPLETED_CONDITION: &'static str = " AND completed = ?";

pub const AND_COLUMN: &'static str = " AND ";

pub const BETWEEN_CONDITION: &'static str = " BETWEEN ? AND ?";

pub const SAME_DAY_OPEN: &'static str = " AND date(";

pub const SAME_DAY_CLOSE: &'static str = ") = date(?)";

pub const CREATED_AT: &'static str = "created_at";

pub const COMPLETED_AT: &'static str = "completed_at";

pub const COMPLETED_WHERE: &'static str = "WHERE completed = 1";

pub const UNCOMPLETED_WHERE: &'static str = "WHERE completed = 0";

pub const EXPIRED_WHERE: &'static str =
    "WHERE completed = 0 AND due_date IS NOT NULL AND due_date < ?";

pub const COUNT_SELECT: &'static str = "SELECT COUNT(*) FROM tasks ";

pub const SPACE: &'static str = " ";

pub const COMPLETED_PAGE_ORDER: &'static str = " ORDER BY completed_at DESC LIMIT ? OFFSET ?";

pub const CREATED_PAGE_ORDER: &'static str = " ORDER BY created_at DESC LIMIT ? OFFSET ?";

pub const DUE_PAGE_ORDER: &'static str = " ORDER BY due_date ASC LIMIT ? OFFSET ?";

pub const STATS_SELECT: &'static str =
    "SELECT COUNT(*), SUM(CASE WHEN completed = 1 THEN 1 ELSE 0 END) FROM tasks";

pub const STATS_TYPE_CONDITION: &'static str = " WHERE task_type = ?";

// ----- specifications -----

pub open spec fn text_only(sql: Seq<char>) -> SqlQueryModel {
    SqlQueryModel { sql, params: seq![] }
}

/// `a` followed by `b`: the texts and the placeholder values in order.
pub open spec fn joined(a: SqlQueryModel, b: SqlQueryModel) -> SqlQueryModel {
    SqlQueryModel { sql: a.sql + b.sql, params: a.params + b.params }
}

pub open spec fn with_value(q: SqlQueryModel, v: SqlValueModel) -> SqlQueryModel {
    SqlQueryModel { sql: q.sql, params: q.params.push(v) }
}

pub open spec fn opt_filter_model(filter: Option<QueryFilter>) -> Option<QueryFilterModel> {
    match filter {
        Some(f) => Some(f@),
        None => None,
    }
}

/// A task type selects tasks unless it is missing, empty or `all`.
pub open spec fn selects_type(task_type: Option<Seq<char>>) -> bool {
    task_type is Some && task_type->0.len() > 0 && task_type->0 != "all"@
}

pub open spec fn type_condition(task_type: Option<Seq<char>>) -> SqlQueryModel {
    if selects_type(task_type) {
        SqlQueryModel {
            sql: TYPE_CONDITION@,
            params: seq![SqlValueModel::Text(task_type->0)],
        }
    } else {
        text_only(seq![])
    }
}

pub open spec fn completed_condition(completed: Option<bool>) -> SqlQueryModel {
    match completed {
        Some(c) => SqlQueryModel {
            sql: COMPLETED_CONDITION@,
            params: seq![SqlValueModel::Integer(if c { 1 } else { 0 })],
        },
        None => text_only(seq![]),
    }
}

/// The column that the dates of a filter refer to.
pub open spec fn date_column(f: QueryFilterModel, default_column: Seq<char>) -> Seq<char> {
    match f.date_field {
        Some(c) => c,
        None => default_column,
    }
}

/// With a start and an end date, both non-empty, the column lies between
/// them; with a non-empty start and an empty end, the column falls on the
/// start's day; otherwise the dates select nothing.
pub open spec fn date_condition(f: QueryFilterModel, default_column: Seq<char>) -> SqlQueryModel {
    let column = date_column(f, default_column);
    match (f.start_date, f.end_date) {
        (Some(start), Some(end)) => if start.len() > 0 && end.len() > 0 {
            SqlQueryModel {
                sql: AND_COLUMN@ + column + BETWEEN_CONDITION@,
                params: seq![SqlValueModel::Text(start), SqlValueModel::Text(end)],
            }
        } else if start.len() > 0 {
            SqlQueryModel {
                sql: SAME_DAY_OPEN@ + column + SAME_DAY_CLOSE@,
                params: seq![SqlValueModel::Text(start)],
            }
        } else {
            text_only(seq![])
        },
        _ => text_only(seq![]),
    }
}

/// The query of the main task list: main tasks only, narrowed by the filter,
/// newest first.
pub open spec fn task_list_spec(filter: Option<QueryFilterModel>) -> SqlQueryModel {
    let conditions = match filter {
        Some(f) => joined(
            joined(type_condition(f.task_type), completed_condition(f.completed)),
            date_condition(f, CREATED_AT@),
        ),
        None => text_only(seq![]),
    };
    SqlQueryModel {
        sql: TASK_SELECT@ + MAIN_TASKS_ONLY@ + conditions.sql + NEWEST_FIRST@,
        params: conditions.params,
    }
}

// ----- building -----

impl SqlValue {
    /// A copy of the value.
    pub fn copy(&self) -> (v: SqlValue)
        ensures
            v@ == self@,
    {
        match self {
            SqlValue::Text(s) => SqlValue::Text(s.clone()),
            SqlValue::Integer(i) => SqlValue::Integer(*i),
            SqlValue::Null => SqlValue::Null,
        }
    }
}

impl SqlQuery {
    /// A statement with text `text` and no values yet.
    pub fn from_text(text: &str) -> (q: SqlQuery)
        ensures
            q@ == text_only(text@),
    {
        let q = SqlQuery { sql: text.to_string(), params: Vec::new() };
        assert(q@.params =~= seq![]);
        q
    }

    /// Appends text to the statement.
    pub fn push_text(&mut self, text: &str)
        ensures
            final(self)@ == joined(old(self)@, text_only(text@)),
    {
        self.sql.append(text);
        assert(final(self)@.params =~= old(self)@.params + seq![]);
    }

    /// Binds the next placeholder.
    pub fn push_value(&mut self, v: SqlValue)
        ensures
            final(self)@ == with_value(old(self)@, v@),
    {
        self.params.push(v);
        assert(values_model(self.params@) =~= values_model(old(self).params@).push(v@));
    }

    /// Appends another statement: its text and its values.
    pub fn push_query(&mut self, other: &SqlQuery)
        ensures
            final(self)@ == joined(old(self)@, other@),
    {
        self.sql.append(other.sql.as_str());
        let n = other.params.len();
        let mut i: usize = 0;
        while i < n
            invariant
                i <= n,
                n == other.params@.len(),
                self.sql@ == old(self)@.sql + other.sql@,
                values_model(self.params@) =~= old(self)@.params + values_model(
                    other.params@,
                ).take(i as int),
            decreases n - i,
        {
            let v = other.params[i].copy();
            let ghost before = self.params@;
            self.params.push(v);
            assert(values_model(self.params@) =~= values_model(before).push(v@));
            assert(values_model(other.params@).take(i + 1) =~= values_model(other.params@).take(
                i as int,
            ).push(other.params@[i as int]@));
            i = i + 1;
        }
        assert(values_model(other.params@).take(n as int) =~= values_model(other.params@));
    }
}

/// Appends the task-type condition of `task_type`.
fn push_type_condition(q: &mut SqlQuery, task_type: &Option<String>)
    ensures
        final(q)@ == joined(old(q)@, type_condition(task_type.deep_view())),
{
    if let Some(t) = task_type {
        if !t.as_str().is_empty() && !str_equal(t.as_str(), "all") {
            q.push_text(TYPE_CONDITION);
            q.push_value(SqlValue::Text(t.clone()));
            assert(final(q)@.sql =~= old(q)@.sql + TYPE_CONDITION@);
            assert(final(q)@.params =~= old(q)@.params + seq![SqlValueModel::Text(t@)]);
            return;
        }
    }
    assert(final(q)@.sql =~= old(q)@.sql + seq![]);
    assert(final(q)@.params =~= old(q)@.params + seq![]);
}

/// Appends the completion condition of `completed`.
fn push_completed_condition(q: &mut SqlQuery, completed: Option<bool>)
    ensures
        final(q)@ == joined(old(q)@, completed_condition(completed)),
{
    match completed {
        Some(c) => {
            q.push_text(COMPLETED_CONDITION);
            q.push_value(SqlValue::Integer(if c { 1 } else { 0 }));
            assert(final(q)@.params =~= old(q)@.params + completed_condition(completed).params);
        },
        None => {
            assert(final(q)@.sql =~= old(q)@.sql + seq![]);
            assert(final(q)@.params =~= old(q)@.params + seq![]);
        },
    }
}

/// Appends the date condition of filter `f`, whose dates refer to
/// `default_column` unless the filter names a column.
fn push_date_condition(q: &mut SqlQuery, f: &QueryFilter, default_column: &str)
    ensures
        final(q)@ == joined(old(q)@, date_condition(f@, default_column@)),
{
    let column: &str = match &f.date_field {
        Some(c) => c.as_str(),
        None => default_column,
    };
    assert(column@ == date_column(f@, default_column@));
    match (&f.start_date, &f.end_date) {
        (Some(start), Some(end)) => {
            if !start.as_str().is_empty() && !end.as_str().is_empty() {
                q.push_text(AND_COLUMN);
                q.push_text(column);
                q.push_text(BETWEEN_CONDITION);
                q.push_value(SqlValue::Text(start.clone()));
                q.push_value(SqlValue::Text(end.clone()));
                assert(final(q)@.sql =~= old(q)@.sql + (AND_COLUMN@ + column@ + BETWEEN_CONDITION@));
                assert(final(q)@.params =~= old(q)@.params + seq![
                    SqlValueModel::Text(start@),
                    SqlValueModel::Text(end@),
                ]);
            } else if !start.as_str().is_empty() {
                q.push_text(SAME_DAY_OPEN);
                q.push_text(column);
                q.push_text(SAME_DAY_CLOSE);
                q.push_value(SqlValue::Text(start.clone()));
                assert(final(q)@.sql =~= old(q)@.sql + (SAME_DAY_OPEN@ + column@ + SAME_DAY_CLOSE@));
                assert(final(q)@.params =~= old(q)@.params + seq![SqlValueModel::Text(start@)]);
            } else {
                assert(final(q)@.sql =~= old(q)@.sql + seq![]);
                assert(final(q)@.params =~= old(q)@.params + seq![]);
            }
        },
        _ => {
            assert(final(q)@.sql =~= old(q)@.sql + seq![]);
            assert(final(q)@.params =~= old(q)@.params + seq![]);
        },
    }
}

/// The query of the main task list (`get_tasks`).
pub fn task_list_query(filter: &Option<QueryFilter>) -> (q: SqlQuery)
    ensures
        q@ == task_list_spec(opt_filter_model(*filter)),
{
    let mut q = SqlQuery::from_text(TASK_SELECT);
    q.push_text(MAIN_TASKS_ONLY);
    if let Some(f) = filter {
        push_type_condition(&mut q, &f.task_type);
        push_completed_condition(&mut q, f.completed);
        push_date_condition(&mut q, f, CREATED_AT);
    }
    q.push_text(NEWEST_FIRST);
    proof {
        let spec = task_list_spec(opt_filter_model(*filter));
        assert(q@.sql =~= spec.sql);
        assert(q@.params =~= spec.params);
    }
    q
}

// ----- paged listings -----

/// Which part of the history a listing shows.
#[derive(Clone, Copy, Debug, PartialEq, Eq, Structural)]
pub enum HistoryKind {
    /// Completed tasks, most recently completed first; dates refer to
    /// `completed_at` unless the filter names a column.
    Completed,
    /// Tasks not completed, newest first; dates refer to `created_at` unless
    /// the filter names a column.
    Uncompleted,
}

/// The two statements of a paged listing: one counts all matching tasks, the
/// other reads the tasks of the page shown.
#[derive(Clone, Debug, PartialEq)]
pub struct PagedQuery {
    pub count: SqlQuery,
    pub rows: SqlQuery,
    pub window: PageWindow,
}

pub struct PagedQueryModel {
    pub count: SqlQueryModel,
    pub rows: SqlQueryModel,
    pub window: PageWindow,
}

impl View for PagedQuery {
    type V = PagedQueryModel;

    open spec fn view(&self) -> PagedQueryModel {
        PagedQueryModel { count: self.count@, rows: self.rows@, window: self.window }
    }
}

pub open spec fn history_base(kind: HistoryKind) -> Seq<char> {
    match kind {
        HistoryKind::Completed => COMPLETED_WHERE@,
        HistoryKind::Uncompleted => UNCOMPLETED_WHERE@,
    }
}

pub open spec fn history_date_column(kind: HistoryKind) -> Seq<char> {
    match kind {
        HistoryKind::Completed => COMPLETED_AT@,
        HistoryKind::Uncompleted => CREATED_AT@,
    }
}

pub open spec fn history_order(kind: HistoryKind) -> Seq<char> {
    match kind {
        HistoryKind::Completed => COMPLETED_PAGE_ORDER@,
        HistoryKind::Uncompleted => CREATED_PAGE_ORDER@,
    }
}

/// The `WHERE` clause of a history listing: completed (or not), narrowed by
/// the filter's task type and dates.
pub open spec fn history_where(kind: HistoryKind, filter: Option<QueryFilterModel>) -> SqlQueryModel {
    let conditions = match filter {
        Some(f) => joined(type_condition(f.task_type), date_condition(f, history_date_column(kind))),
        None => text_only(seq![]),
    };
    joined(text_only(history_base(kind)), conditions)
}

/// The `WHERE` clause of the expired listing: not completed, with a due date
/// before `now`, narrowed by the task type.
pub open spec fn expired_where(now: Seq<char>, task_type: Option<Seq<char>>) -> SqlQueryModel {
    joined(
        SqlQueryModel { sql: EXPIRED_WHERE@, params: seq![SqlValueModel::Text(now)] },
        type_condition(task_type),
    )
}

/// The window that a paging request comes to.
pub open spec fn window_of(pagination: Option<PageFilter>) -> PageWindow {
    PageWindow {
        page: normalized_page(pagination) as i64,
        page_size: normalized_page_size(pagination) as i64,
        offset: page_offset(pagination) as i64,
    }
}

/// The statements of a paged listing with `WHERE` clause `clause`, ordered by
/// `order`, showing the page of `window`.
pub open spec fn paged_spec(clause: SqlQueryModel, order: Seq<char>, window: PageWindow) -> PagedQueryModel {
    PagedQueryModel {
        count: SqlQueryModel { sql: COUNT_SELECT@ + clause.sql, params: clause.params },
        rows: SqlQueryModel {
            sql: TASK_SELECT@ + SPACE@ + clause.sql + order,
            params: clause.params + seq![
                SqlValueModel::Integer(window.page_size as int),
                SqlValueModel::Integer(window.offset as int),
            ],
        },
        window,
    }
}

/// The statements of a paged listing from its `WHERE` clause.
fn paged_query(clause: &SqlQuery, order: &str, window: PageWindow) -> (q: PagedQuery)
    ensures
        q@ == paged_spec(clause@, order@, window),
{
    let mut count = SqlQuery::from_text(COUNT_SELECT);
    count.push_query(clause);
    let mut rows = SqlQuery::from_text(TASK_SELECT);
    rows.push_text(SPACE);
    rows.push_query(clause);
    rows.push_text(order);
    rows.push_value(SqlValue::Integer(window.page_size));
    rows.push_value(SqlValue::Integer(window.offset));
    proof {
        let spec = paged_spec(clause@, order@, window);
        assert(count@.sql =~= spec.count.sql);
        assert(count@.params =~= spec.count.params);
        assert(rows@.sql =~= spec.rows.sql);
        assert(rows@.params =~= spec.rows.params);
    }
    PagedQuery { count, rows, window }
}

/// The statements of a history listing (`get_completed_history`,
/// `get_uncompleted_history`).
pub fn history_query(
    kind: HistoryKind,
    filter: &Option<QueryFilter>,
    pagination: &Option<PageFilter>,
) -> (q: PagedQuery)
    requires
        window_fits(*pagination),
    ensures
        q@ == paged_spec(
            history_where(kind, opt_filter_model(*filter)),
            history_order(kind),
            window_of(*pagination),
        ),
{
    let window = page_window(pagination);
    let (base, column, order) = match kind {
        HistoryKind::Completed => (COMPLETED_WHERE, COMPLETED_AT, COMPLETED_PAGE_ORDER),
        HistoryKind::Uncompleted => (UNCOMPLETED_WHERE, CREATED_AT, CREATED_PAGE_ORDER),
    };
    let mut clause = SqlQuery::from_text(base);
    if let Some(f) = filter {
        push_type_condition(&mut clause, &f.task_type);
        push_date_condition(&mut clause, f, column);
    }
    proof {
        let spec = history_where(kind, opt_filter_model(*filter));
        assert(clause@.sql =~= spec.sql);
        assert(clause@.params =~= spec.params);
    }
    paged_query(&clause, order, window)
}

/// The statements of the expired listing at clock reading `now`
/// (`get_expired_tasks`): tasks not completed whose due date has passed,
/// earliest due first.
pub fn expired_query(now: LocalDateTime, task_type: &Option<String>, pagination: &Option<PageFilter>) -> (q: PagedQuery)
    requires
        now.valid(),
        window_fits(*pagination),
    ensures
        q@ == paged_spec(
            expired_where(timestamp_text(now), task_type.deep_view()),
            DUE_PAGE_ORDER@,
            window_of(*pagination),
        ),
{
    let window = page_window(pagination);
    let now_text = format_timestamp(now);
    let mut clause = SqlQuery::from_text(EXPIRED_WHERE);
    clause.push_value(SqlValue::Text(now_text));
    push_type_condition(&mut clause, task_type);
    proof {
        let spec = expired_where(timestamp_text(now), task_type.deep_view());
        assert(clause@.sql =~= spec.sql);
        assert(clause@.params =~= spec.params);
    }
    paged_query(&clause, DUE_PAGE_ORDER, window)
}

/// The statement counting tasks and completed tasks (`get_stats`), over all
/// tasks or those of one type.
pub open spec fn stats_spec(task_type: Option<Seq<char>>) -> SqlQueryModel {
    if selects_type(task_type) {
        SqlQueryModel {
            sql: STATS_SELECT@ + STATS_TYPE_CONDITION@,
            params: seq![SqlValueModel::Text(task_type->0)],
        }
    } else {
        text_only(STATS_SELECT@)
    }
}

pub fn stats_query(task_type: &Option<String>) -> (q: SqlQuery)
    ensures
        q@ == stats_spec(task_type.deep_view()),
{
    let mut q = SqlQuery::from_text(STATS_SELECT);
    if let Some(t) = task_type {
        if !t.as_str().is_empty() && !str_equal(t.as_str(), "all") {
            q.push_text(STATS_TYPE_CONDITION);
            q.push_value(SqlValue::Text(t.clone()));
            assert(q@.params =~= seq![SqlValueModel::Text(t@)]);
            return q;
        }
    }
    q
}

// ----- single statements -----

pub const TASK_BY_ID: &'static str = " WHERE id = ?1";

pub const COMPLETE_UPDATE: &'static str =
    "UPDATE tasks SET completed = 1, completed_at = ?1 WHERE id = ?2";

pub const DELETE_BY_ID: &'static str = "DELETE FROM tasks WHERE id = ?1";

pub const SUB_TASKS_OLDEST_FIRST: &'static str = " WHERE parent_id = ?1 ORDER BY created_at ASC";

pub const PARENT_TYPE_SELECT: &'static str = "SELECT task_type FROM tasks WHERE id = ?1";

pub const PARENT_DUE_DATE_SELECT: &'static str = "SELECT due_date FROM tasks WHERE id = ?1";

pub const SUB_TASK_STATS_SELECT: &'static str =
    "SELECT COUNT(*), SUM(CASE WHEN completed = 1 THEN 1 ELSE 0 END) FROM tasks WHERE parent_id = ?1";

pub const UNCOMPLETED_NEWEST_FIRST: &'static str = " WHERE completed = 0 ORDER BY created_at DESC";

pub const HISTORY_EXPORT_CONDITION: &'static str =
    " WHERE (completed = 1) OR (completed = 0 AND due_date IS NOT NULL AND due_date < ?) ORDER BY created_at DESC";

pub const CONTRIBUTION_SELECT: &'static str =
    "SELECT date(completed_at) as date, COUNT(*) as count FROM tasks WHERE completed = 1 AND completed_at IS NOT NULL AND date(completed_at) BETWEEN ? AND ? GROUP BY date(completed_at) ORDER BY date ASC";

/// A statement with one integer placeholder.
fn statement_with_id(text: &str, id: i64) -> (q: SqlQuery)
    ensures
        q@ == (SqlQueryModel { sql: text@, params: seq![SqlValueModel::Integer(id as int)] }),
{
    let mut q = SqlQuery::from_text(text);
    q.push_value(SqlValue::Integer(id));
    assert(q@.params =~= seq![SqlValueModel::Integer(id as int)]);
    q
}

/// Reads one task by id.
pub fn task_by_id_query(id: i64) -> (q: SqlQuery)
    ensures
        q@ == (SqlQueryModel {
            sql: TASK_SELECT@ + TASK_BY_ID@,
            params: seq![SqlValueModel::Integer(id as int)],
        }),
{
    let mut q = SqlQuery::from_text(TASK_SELECT);
    q.push_text(TASK_BY_ID);
    q.push_value(SqlValue::Integer(id));
    assert(q@.params =~= seq![SqlValueModel::Integer(id as int)]);
    q
}

/// Marks task `id` completed at clock reading `now` (`complete_task`,
/// `complete_task_point`).
pub fn complete_statement(id: i64, now: LocalDateTime) -> (q: SqlQuery)
    requires
        now.valid(),
    ensures
        q@ == (SqlQueryModel {
            sql: COMPLETE_UPDATE@,
            params: seq![
                SqlValueModel::Text(timestamp_text(now)),
                SqlValueModel::Integer(id as int),
            ],
        }),
{
    let mut q = SqlQuery::from_text(COMPLETE_UPDATE);
    q.push_value(SqlValue::Text(format_timestamp(now)));
    q.push_value(SqlValue::Integer(id));
    assert(q@.params =~= seq![
        SqlValueModel::Text(timestamp_text(now)),
        SqlValueModel::Integer(id as int),
    ]);
    q
}

/// Deletes task `id` (`delete_task`, `delete_task_point`).
pub fn delete_statement(id: i64) -> (q: SqlQuery)
    ensures
        q@ == (SqlQueryModel { sql: DELETE_BY_ID@, params: seq![SqlValueModel::Integer(id as int)] }),
{
    statement_with_id(DELETE_BY_ID, id)
}

/// Reads the sub-tasks of `parent_id`, oldest first (`get_task_points`).
pub fn task_points_query(parent_id: i64) -> (q: SqlQuery)
    ensures
        q@ == (SqlQueryModel {
            sql: TASK_SELECT@ + SUB_TASKS_OLDEST_FIRST@,
            params: seq![SqlValueModel::Integer(parent_id as int)],
        }),
{
    let mut q = SqlQuery::from_text(TASK_SELECT);
    q.push_text(SUB_TASKS_OLDEST_FIRST);
    q.push_value(SqlValue::Integer(parent_id));
    assert(q@.params =~= seq![SqlValueModel::Integer(parent_id as int)]);
    q
}

/// Reads the task type of task `parent_id`.
pub fn parent_type_query(parent_id: i64) -> (q: SqlQuery)
    ensures
        q@ == (SqlQueryModel {
            sql: PARENT_TYPE_SELECT@,
            params: seq![SqlValueModel::Integer(parent_id as int)],
        }),
{
    statement_with_id(PARENT_TYPE_SELECT, parent_id)
}

/// Reads the due date of task `parent_id`.
pub fn parent_due_date_query(parent_id: i64) -> (q: SqlQuery)
    ensures
        q@ == (SqlQueryModel {
            sql: PARENT_DUE_DATE_SELECT@,
            params: seq![SqlValueModel::Integer(parent_id as int)],
        }),
{
    statement_with_id(PARENT_DUE_DATE_SELECT, parent_id)
}

/// Counts the sub-tasks of `parent_id` and the completed ones
/// (`get_task_point_stats`).
pub fn task_point_stats_query(parent_id: i64) -> (q: SqlQuery)
    ensures
        q@ == (SqlQueryModel {
            sql: SUB_TASK_STATS_SELECT@,
            params: seq![SqlValueModel::Integer(parent_id as int)],
        }),
{
    statement_with_id(SUB_TASK_STATS_SELECT, parent_id)
}

/// Reads the tasks to export: all of them, or only those not completed;
/// newest first (`export_tasks_to_json`).
pub fn export_query(include_completed: bool) -> (q: SqlQuery)
    ensures
        q@ == text_only(
            TASK_SELECT@ + (if include_completed {
                NEWEST_FIRST@
            } else {
                UNCOMPLETED_NEWEST_FIRST@
            }),
        ),
{
    let mut q = SqlQuery::from_text(TASK_SELECT);
    if include_completed {
        q.push_text(NEWEST_FIRST);
    } else {
        q.push_text(UNCOMPLETED_NEWEST_FIRST);
    }
    assert(q@.params =~= seq![]);
    q
}

/// Reads the history to export at clock reading `now`: completed tasks and
/// tasks not completed whose due date has passed, newest first
/// (`export_history_to_json`).
pub fn history_export_query(now: LocalDateTime) -> (q: SqlQuery)
    requires
        now.valid(),
    ensures
        q@ == (SqlQueryModel {
            sql: TASK_SELECT@ + HISTORY_EXPORT_CONDITION@,
            params: seq![SqlValueModel::Text(timestamp_text(now))],
        }),
{
    let mut q = SqlQuery::from_text(TASK_SELECT);
    q.push_text(HISTORY_EXPORT_CONDITION);
    q.push_value(SqlValue::Text(format_timestamp(now)));
    assert(q@.params =~= seq![SqlValueModel::Text(timestamp_text(now))]);
    q
}

/// Counts the tasks completed on each day from `first` to `last`, day by day
/// in order (`get_contribution_data`).
pub fn contribution_query_between(first: CalendarDate, last: CalendarDate) -> (q: SqlQuery)
    requires
        first.valid(),
        last.valid(),
    ensures
        q@ == (SqlQueryModel {
            sql: CONTRIBUTION_SELECT@,
            params: seq![
                SqlValueModel::Text(date_text(first)),
                SqlValueModel::Text(date_text(last)),
            ],
        }),
{
    let mut q = SqlQuery::from_text(CONTRIBUTION_SELECT);
    q.push_value(SqlValue::Text(format_date(first)));
    q.push_value(SqlValue::Text(format_date(last)));
    assert(q@.params =~= seq![
        SqlValueModel::Text(date_text(first)),
        SqlValueModel::Text(date_text(last)),
    ]);
    q
}

/// The day 365 days before `today`, as chrono counts.
pub open spec fn year_before(today: CalendarDate) -> CalendarDate {
    shifted(today, -365)
}

/// Counts the tasks completed on each day of the year up to `today`.
pub fn contribution_query(today: CalendarDate) -> (q: SqlQuery)
    requires
        today.valid(),
        shift_in_range(today, -365),
    ensures
        q@ == (SqlQueryModel {
            sql: CONTRIBUTION_SELECT@,
            params: seq![
                SqlValueModel::Text(date_text(year_before(today))),
                SqlValueModel::Text(date_text(today)),
            ],
        }),
        exists|first: CalendarDate|
            {
                &&& first.valid()
                &&& day_number(first) == day_number(today) - 365
                &&& q@.params == seq![
                    SqlValueModel::Text(date_text(first)),
                    SqlValueModel::Text(date_text(today)),
                ]
            },
{
    match shift_date(today, -365) {
        Some(first) => contribution_query_between(first, today),
        None => {
            assert(false);
            contribution_query_between(today, today)
        },
    }
}

} // verus!
