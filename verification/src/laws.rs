//! Properties of the library that span its functions: every statement binds
//! exactly its placeholders, pages cover a listing, due dates, counts and
//! exports behave as the application promises.
use vstd::prelude::*;

use crate::calendar::{
    date_text, decimal, shifted, timestamp_text, year_text, CalendarDate, LocalDateTime,
};
use crate::due::{due_date_on, due_date_spec, has_custom, END_OF_DAY};
use crate::model::{JsonTaskModel, PageFilter, QueryFilterModel, SqlQueryModel, SqlValueModel, TaskModel};
use crate::paging::{ceil_div, normalized_page, normalized_page_size, page_offset, PageWindow};
use crate::query::{
    TASK_SELECT, MAIN_TASKS_ONLY, NEWEST_FIRST, TYPE_CONDITION, COMPLETED_CONDITION, AND_COLUMN,
    BETWEEN_CONDITION, SAME_DAY_OPEN, SAME_DAY_CLOSE, CREATED_AT, COMPLETED_AT, COMPLETED_WHERE,
    UNCOMPLETED_WHERE, EXPIRED_WHERE, COUNT_SELECT, SPACE, COMPLETED_PAGE_ORDER,
    CREATED_PAGE_ORDER, DUE_PAGE_ORDER, STATS_SELECT, STATS_TYPE_CONDITION, TASK_BY_ID,
    COMPLETE_UPDATE, DELETE_BY_ID, SUB_TASKS_OLDEST_FIRST, PARENT_TYPE_SELECT,
    PARENT_DUE_DATE_SELECT, SUB_TASK_STATS_SELECT, UNCOMPLETED_NEWEST_FIRST,
    HISTORY_EXPORT_CONDITION, CONTRIBUTION_SELECT,
    completed_condition, date_column, date_condition, expired_where, history_base,
    history_date_column, history_order, history_where, joined, paged_spec, stats_spec,
    task_list_spec, text_only, type_condition, HistoryKind,
};
use crate::records::{
    exported, import_spec, insert_spec, is_main_task, json_of, new_task_spec, stored_task,
    tally_spec, task_point_spec, NewTaskModel, PendingTaskModel, INSERT_TASK,
};
use crate::model::{row_task, TaskRow};

verus! {

// ----- placeholders -----

/// The number of `?` among the first `n` characters of `s`.
pub open spec fn placeholders_before(s: Seq<char>, n: int) -> nat
    decreases n,
{
    if n <= 0 {
        0
    } else {
        placeholders_before(s, n - 1) + if s[n - 1] == '?' { 1nat } else { 0nat }
    }
}

/// The number of `?` placeholders in an SQL text.
pub open spec fn placeholders(s: Seq<char>) -> nat {
    placeholders_before(s, s.len() as int)
}

/// A statement binds a value to each of its placeholders, no more, no less.
pub open spec fn binds_every_placeholder(q: SqlQueryModel) -> bool {
    placeholders(q.sql) == q.params.len()
}

/// A column name written into a statement holds no placeholder.
pub open spec fn plain_column(c: Seq<char>) -> bool {
    placeholders(c) == 0
}

pub open spec fn plain_filter(filter: Option<QueryFilterModel>) -> bool {
    filter matches Some(f) ==> (f.date_field matches Some(c) ==> plain_column(c))
}

proof fn lemma_placeholders_prefix(a: Seq<char>, b: Seq<char>, n: int)
    requires
        0 <= n <= a.len(),
    ensures
        placeholders_before(a + b, n) == placeholders_before(a, n),
    decreases n,
{
    if n > 0 {
        lemma_placeholders_prefix(a, b, n - 1);
    }
}

proof fn lemma_placeholders_suffix(a: Seq<char>, b: Seq<char>, k: int)
    requires
        0 <= k <= b.len(),
    ensures
        placeholders_before(a + b, a.len() + k) == placeholders(a) + placeholders_before(b, k),
    decreases k,
{
    if k == 0 {
        lemma_placeholders_prefix(a, b, a.len() as int);
    } else {
        lemma_placeholders_suffix(a, b, k - 1);
        assert((a + b)[a.len() + k - 1] == b[k - 1]);
    }
}

/// Placeholders add up over a concatenation.
pub proof fn lemma_placeholders_concat(a: Seq<char>, b: Seq<char>)
    ensures
        placeholders(a + b) == placeholders(a) + placeholders(b),
{
    lemma_placeholders_suffix(a, b, b.len() as int);
}

proof fn lemma_joined_binds(a: SqlQueryModel, b: SqlQueryModel)
    requires
        binds_every_placeholder(a),
        binds_every_placeholder(b),
    ensures
        binds_every_placeholder(joined(a, b)),
{
    lemma_placeholders_concat(a.sql, b.sql);
}

proof fn lemma_empty_binds()
    ensures
        binds_every_placeholder(text_only(seq![])),
{
}

proof fn lemma_placeholders_task_select()
    ensures
        placeholders(TASK_SELECT@) == 0,
{
    reveal_strlit("SELECT id, title, task_type, created_at, due_date, completed, completed_at, parent_id FROM tasks");
    assert(placeholders_before(TASK_SELECT@, 40) == 0) by {
        reveal_with_fuel(placeholders_before, 41);
    }
    assert(placeholders_before(TASK_SELECT@, 80) == 0) by {
        reveal_with_fuel(placeholders_before, 41);
    }
    assert(placeholders_before(TASK_SELECT@, 96) == 0) by {
        reveal_with_fuel(placeholders_before, 17);
    }
}

proof fn lemma_placeholders_main_tasks_only()
    ensures
        placeholders(MAIN_TASKS_ONLY@) == 0,
{
    reveal_strlit(" WHERE (parent_id IS NULL OR parent_id = 0)");
    reveal_with_fuel(placeholders_before, 44);
}

proof fn lemma_placeholders_newest_first()
    ensures
        placeholders(NEWEST_FIRST@) == 0,
{
    reveal_strlit(" ORDER BY created_at DESC");
    reveal_with_fuel(placeholders_before, 26);
}

proof fn lemma_placeholders_type_condition()
    ensures
        placeholders(TYPE_CONDITION@) == 1,
{
    reveal_strlit(" AND task_type = ?");
    reveal_with_fuel(placeholders_before, 19);
}

proof fn lemma_placeholders_completed_condition()
    ensures
        placeholders(COMPLETED_CONDITION@) == 1,
{
    reveal_strlit(" AND completed = ?");
    reveal_with_fuel(placeholders_before, 19);
}

proof fn lemma_placeholders_and_column()
    ensures
        placeholders(AND_COLUMN@) == 0,
{
    reveal_strlit(" AND ");
    reveal_with_fuel(placeholders_before, 6);
}

proof fn lemma_placeholders_between_condition()
    ensures
        placeholders(BETWEEN_CONDITION@) == 2,
{
    reveal_strlit(" BETWEEN ? AND ?");
    reveal_with_fuel(placeholders_before, 17);
}

proof fn lemma_placeholders_same_day_open()
    ensures
        placeholders(SAME_DAY_OPEN@) == 0,
{
    reveal_strlit(" AND date(");
    reveal_with_fuel(placeholders_before, 11);
}

proof fn lemma_placeholders_same_day_close()
    ensures
        placeholders(SAME_DAY_CLOSE@) == 1,
{
    reveal_strlit(") = date(?)");
    reveal_with_fuel(placeholders_before, 12);
}

proof fn lemma_placeholders_created_at()
    ensures
        placeholders(CREATED_AT@) == 0,
{
    reveal_strlit("created_at");
    reveal_with_fuel(placeholders_before, 11);
}

proof fn lemma_placeholders_completed_at()
    ensures
        placeholders(COMPLETED_AT@) == 0,
{
    reveal_strlit("completed_at");
    reveal_with_fuel(placeholders_before, 13);
}

proof fn lemma_placeholders_completed_where()
    ensures
        placeholders(COMPLETED_WHERE@) == 0,
{
    reveal_strlit("WHERE completed = 1");
    reveal_with_fuel(placeholders_before, 20);
}

proof fn lemma_placeholders_uncompleted_where()
    ensures
        placeholders(UNCOMPLETED_WHERE@) == 0,
{
    reveal_strlit("WHERE completed = 0");
    reveal_with_fuel(placeholders_before, 20);
}

proof fn lemma_placeholders_expired_where()
    ensures
        placeholders(EXPIRED_WHERE@) == 1,
{
    reveal_strlit("WHERE completed = 0 AND due_date IS NOT NULL AND due_date < ?");
    reveal_with_fuel(placeholders_before, 62);
}

proof fn lemma_placeholders_count_select()
    ensures
        placeholders(COUNT_SELECT@) == 0,
{
    reveal_strlit("SELECT COUNT(*) FROM tasks ");
    reveal_with_fuel(placeholders_before, 28);
}

proof fn lemma_placeholders_space()
    ensures
        placeholders(SPACE@) == 0,
{
    reveal_strlit(" ");
    reveal_with_fuel(placeholders_before, 2);
}

proof fn lemma_placeholders_completed_page_order()
    ensures
        placeholders(COMPLETED_PAGE_ORDER@) == 2,
{
    reveal_strlit(" ORDER BY completed_at DESC LIMIT ? OFFSET ?");
    reveal_with_fuel(placeholders_before, 45);
}

proof fn lemma_placeholders_created_page_order()
    ensures
        placeholders(CREATED_PAGE_ORDER@) == 2,
{
    reveal_strlit(" ORDER BY created_at DESC LIMIT ? OFFSET ?");
    reveal_with_fuel(placeholders_before, 43);
}

proof fn lemma_placeholders_due_page_order()
    ensures
        placeholders(DUE_PAGE_ORDER@) == 2,
{
    reveal_strlit(" ORDER BY due_date ASC LIMIT ? OFFSET ?");
    reveal_with_fuel(placeholders_before, 40);
}

proof fn lemma_placeholders_stats_select()
    ensures
        placeholders(STATS_SELECT@) == 0,
{
    reveal_strlit("SELECT COUNT(*), SUM(CASE WHEN completed = 1 THEN 1 ELSE 0 END) FROM tasks");
    reveal_with_fuel(placeholders_before, 75);
}

proof fn lemma_placeholders_stats_type_condition()
    ensures
        placeholders(STATS_TYPE_CONDITION@) == 1,
{
    reveal_strlit(" WHERE task_type = ?");
    reveal_with_fuel(placeholders_before, 21);
}

proof fn lemma_placeholders_task_by_id()
    ensures
        placeholders(TASK_BY_ID@) == 1,
{
    reveal_strlit(" WHERE id = ?1");
    reveal_with_fuel(placeholders_before, 15);
}

proof fn lemma_placeholders_complete_update()
    ensures
        placeholders(COMPLETE_UPDATE@) == 2,
{
    reveal_strlit("UPDATE tasks SET completed = 1, completed_at = ?1 WHERE id = ?2");
    reveal_with_fuel(placeholders_before, 64);
}

proof fn lemma_placeholders_delete_by_id()
    ensures
        placeholders(DELETE_BY_ID@) == 1,
{
    reveal_strlit("DELETE FROM tasks WHERE id = ?1");
    reveal_with_fuel(placeholders_before, 32);
}

proof fn lemma_placeholders_sub_tasks_oldest_first()
    ensures
        placeholders(SUB_TASKS_OLDEST_FIRST@) == 1,
{
    reveal_strlit(" WHERE parent_id = ?1 ORDER BY created_at ASC");
    reveal_with_fuel(placeholders_before, 46);
}

proof fn lemma_placeholders_parent_type_select()
    ensures
        placeholders(PARENT_TYPE_SELECT@) == 1,
{
    reveal_strlit("SELECT task_type FROM tasks WHERE id = ?1");
    reveal_with_fuel(placeholders_before, 42);
}

proof fn lemma_placeholders_parent_due_date_select()
    ensures
        placeholders(PARENT_DUE_DATE_SELECT@) == 1,
{
    reveal_strlit("SELECT due_date FROM tasks WHERE id = ?1");
    reveal_with_fuel(placeholders_before, 41);
}

proof fn lemma_placeholders_sub_task_stats_select()
    ensures
        placeholders(SUB_TASK_STATS_SELECT@) == 1,
{
    reveal_strlit("SELECT COUNT(*), SUM(CASE WHEN completed = 1 THEN 1 ELSE 0 END) FROM tasks WHERE parent_id = ?1");
    assert(placeholders_before(SUB_TASK_STATS_SELECT@, 40) == 0) by {
        reveal_with_fuel(placeholders_before, 41);
    }
    assert(placeholders_before(SUB_TASK_STATS_SELECT@, 80) == 0) by {
        reveal_with_fuel(placeholders_before, 41);
    }
    assert(placeholders_before(SUB_TASK_STATS_SELECT@, 95) == 1) by {
        reveal_with_fuel(placeholders_before, 16);
    }
}

proof fn lemma_placeholders_uncompleted_newest_first()
    ensures
        placeholders(UNCOMPLETED_NEWEST_FIRST@) == 0,
{
    reveal_strlit(" WHERE completed = 0 ORDER BY created_at DESC");
    reveal_with_fuel(placeholders_before, 46);
}

proof fn lemma_placeholders_history_export_condition()
    ensures
        placeholders(HISTORY_EXPORT_CONDITION@) == 1,
{
    reveal_strlit(" WHERE (completed = 1) OR (completed = 0 AND due_date IS NOT NULL AND due_date < ?) ORDER BY created_at DESC");
    assert(placeholders_before(HISTORY_EXPORT_CONDITION@, 40) == 0) by {
        reveal_with_fuel(placeholders_before, 41);
    }
    assert(placeholders_before(HISTORY_EXPORT_CONDITION@, 80) == 0) by {
        reveal_with_fuel(placeholders_before, 41);
    }
    assert(placeholders_before(HISTORY_EXPORT_CONDITION@, 108) == 1) by {
        reveal_with_fuel(placeholders_before, 29);
    }
}

proof fn lemma_placeholders_contribution_select()
    ensures
        placeholders(CONTRIBUTION_SELECT@) == 2,
{
    reveal_strlit("SELECT date(completed_at) as date, COUNT(*) as count FROM tasks WHERE completed = 1 AND completed_at IS NOT NULL AND date(completed_at) BETWEEN ? AND ? GROUP BY date(completed_at) ORDER BY date ASC");
    assert(placeholders_before(CONTRIBUTION_SELECT@, 40) == 0) by {
        reveal_with_fuel(placeholders_before, 41);
    }
    assert(placeholders_before(CONTRIBUTION_SELECT@, 80) == 0) by {
        reveal_with_fuel(placeholders_before, 41);
    }
    assert(placeholders_before(CONTRIBUTION_SELECT@, 120) == 0) by {
        reveal_with_fuel(placeholders_before, 41);
    }
    assert(placeholders_before(CONTRIBUTION_SELECT@, 160) == 2) by {
        reveal_with_fuel(placeholders_before, 41);
    }
    assert(placeholders_before(CONTRIBUTION_SELECT@, 197) == 2) by {
        reveal_with_fuel(placeholders_before, 38);
    }
}

proof fn lemma_placeholders_insert_task()
    ensures
        placeholders(INSERT_TASK@) == 5,
{
    reveal_strlit("INSERT INTO tasks (title, task_type, created_at, due_date, completed, parent_id) VALUES (?1, ?2, ?3, ?4, 0, ?5)");
    assert(placeholders_before(INSERT_TASK@, 40) == 0) by {
        reveal_with_fuel(placeholders_before, 41);
    }
    assert(placeholders_before(INSERT_TASK@, 80) == 0) by {
        reveal_with_fuel(placeholders_before, 41);
    }
    assert(placeholders_before(INSERT_TASK@, 111) == 5) by {
        reveal_with_fuel(placeholders_before, 32);
    }
}

proof fn lemma_type_condition_binds(task_type: Option<Seq<char>>)
    ensures
        binds_every_placeholder(type_condition(task_type)),
{
    lemma_placeholders_type_condition();
}

proof fn lemma_completed_condition_binds(completed: Option<bool>)
    ensures
        binds_every_placeholder(completed_condition(completed)),
{
    lemma_placeholders_completed_condition();
}

proof fn lemma_date_condition_binds(f: QueryFilterModel, default_column: Seq<char>)
    requires
        plain_column(default_column),
        f.date_field matches Some(c) ==> plain_column(c),
    ensures
        binds_every_placeholder(date_condition(f, default_column)),
{
    let column = date_column(f, default_column);
    lemma_placeholders_and_column();
    lemma_placeholders_between_condition();
    lemma_placeholders_same_day_open();
    lemma_placeholders_same_day_close();
    lemma_placeholders_concat(AND_COLUMN@, column);
    lemma_placeholders_concat(AND_COLUMN@ + column, BETWEEN_CONDITION@);
    lemma_placeholders_concat(SAME_DAY_OPEN@, column);
    lemma_placeholders_concat(SAME_DAY_OPEN@ + column, SAME_DAY_CLOSE@);
}

/// The main task list binds a value to each of its placeholders, whatever
/// the filter, as long as the column that the filter names holds no `?`.
pub proof fn law_task_list_binds_every_placeholder(filter: Option<QueryFilterModel>)
    requires
        plain_filter(filter),
    ensures
        binds_every_placeholder(task_list_spec(filter)),
{
    lemma_placeholders_task_select();
    lemma_placeholders_main_tasks_only();
    lemma_placeholders_newest_first();
    lemma_placeholders_created_at();
    let conditions = match filter {
        Some(f) => joined(
            joined(type_condition(f.task_type), completed_condition(f.completed)),
            date_condition(f, CREATED_AT@),
        ),
        None => text_only(seq![]),
    };
    match filter {
        Some(f) => {
            lemma_type_condition_binds(f.task_type);
            lemma_completed_condition_binds(f.completed);
            lemma_date_condition_binds(f, CREATED_AT@);
            lemma_joined_binds(type_condition(f.task_type), completed_condition(f.completed));
            lemma_joined_binds(
                joined(type_condition(f.task_type), completed_condition(f.completed)),
                date_condition(f, CREATED_AT@),
            );
        },
        None => {},
    }
    lemma_placeholders_concat(TASK_SELECT@, MAIN_TASKS_ONLY@);
    lemma_placeholders_concat(TASK_SELECT@ + MAIN_TASKS_ONLY@, conditions.sql);
    lemma_placeholders_concat(TASK_SELECT@ + MAIN_TASKS_ONLY@ + conditions.sql, NEWEST_FIRST@);
}

proof fn lemma_paged_binds(clause: SqlQueryModel, order: Seq<char>, window: PageWindow)
    requires
        binds_every_placeholder(clause),
        placeholders(order) == 2,
    ensures
        binds_every_placeholder(paged_spec(clause, order, window).count),
        binds_every_placeholder(paged_spec(clause, order, window).rows),
{
    lemma_placeholders_count_select();
    lemma_placeholders_task_select();
    lemma_placeholders_space();
    lemma_placeholders_concat(COUNT_SELECT@, clause.sql);
    lemma_placeholders_concat(TASK_SELECT@, SPACE@);
    lemma_placeholders_concat(TASK_SELECT@ + SPACE@, clause.sql);
    lemma_placeholders_concat(TASK_SELECT@ + SPACE@ + clause.sql, order);
}

/// Both statements of a history listing bind a value to each of their
/// placeholders, as long as the column that the filter names holds no `?`.
pub proof fn law_history_binds_every_placeholder(
    kind: HistoryKind,
    filter: Option<QueryFilterModel>,
    window: PageWindow,
)
    requires
        plain_filter(filter),
    ensures
        binds_every_placeholder(paged_spec(history_where(kind, filter), history_order(kind), window).count),
        binds_every_placeholder(paged_spec(history_where(kind, filter), history_order(kind), window).rows),
{
    lemma_placeholders_completed_where();
    lemma_placeholders_uncompleted_where();
    lemma_placeholders_completed_at();
    lemma_placeholders_created_at();
    lemma_placeholders_completed_page_order();
    lemma_placeholders_created_page_order();
    let base = text_only(history_base(kind));
    match filter {
        Some(f) => {
            lemma_type_condition_binds(f.task_type);
            lemma_date_condition_binds(f, history_date_column(kind));
            lemma_joined_binds(type_condition(f.task_type), date_condition(f, history_date_column(kind)));
            lemma_joined_binds(
                base,
                joined(type_condition(f.task_type), date_condition(f, history_date_column(kind))),
            );
        },
        None => {
            lemma_joined_binds(base, text_only(seq![]));
        },
    }
    lemma_paged_binds(history_where(kind, filter), history_order(kind), window);
}

/// Both statements of the expired listing bind a value to each of their
/// placeholders.
pub proof fn law_expired_binds_every_placeholder(
    now: Seq<char>,
    task_type: Option<Seq<char>>,
    window: PageWindow,
)
    ensures
        binds_every_placeholder(paged_spec(expired_where(now, task_type), DUE_PAGE_ORDER@, window).count),
        binds_every_placeholder(paged_spec(expired_where(now, task_type), DUE_PAGE_ORDER@, window).rows),
{
    lemma_placeholders_expired_where();
    lemma_placeholders_due_page_order();
    lemma_type_condition_binds(task_type);
    lemma_joined_binds(
        SqlQueryModel { sql: EXPIRED_WHERE@, params: seq![SqlValueModel::Text(now)] },
        type_condition(task_type),
    );
    lemma_paged_binds(expired_where(now, task_type), DUE_PAGE_ORDER@, window);
}

/// The statistics statement binds a value to each of its placeholders.
pub proof fn law_stats_binds_every_placeholder(task_type: Option<Seq<char>>)
    ensures
        binds_every_placeholder(stats_spec(task_type)),
{
    lemma_placeholders_stats_select();
    lemma_placeholders_stats_type_condition();
    lemma_placeholders_concat(STATS_SELECT@, STATS_TYPE_CONDITION@);
}

/// The fixed statements hold as many placeholders as their builders bind
/// values: one for reading, deleting, listing or counting by id, two for
/// completing a task and for the contribution window, one for the history
/// export, five for an insert, none for the task export.
pub proof fn law_fixed_statements_bind_every_placeholder()
    ensures
        placeholders(TASK_SELECT@ + TASK_BY_ID@) == 1,
        placeholders(COMPLETE_UPDATE@) == 2,
        placeholders(DELETE_BY_ID@) == 1,
        placeholders(TASK_SELECT@ + SUB_TASKS_OLDEST_FIRST@) == 1,
        placeholders(PARENT_TYPE_SELECT@) == 1,
        placeholders(PARENT_DUE_DATE_SELECT@) == 1,
        placeholders(SUB_TASK_STATS_SELECT@) == 1,
        placeholders(TASK_SELECT@ + NEWEST_FIRST@) == 0,
        placeholders(TASK_SELECT@ + UNCOMPLETED_NEWEST_FIRST@) == 0,
        placeholders(TASK_SELECT@ + HISTORY_EXPORT_CONDITION@) == 1,
        placeholders(CONTRIBUTION_SELECT@) == 2,
        placeholders(INSERT_TASK@) == 5,
{
    lemma_placeholders_task_select();
    lemma_placeholders_task_by_id();
    lemma_placeholders_complete_update();
    lemma_placeholders_delete_by_id();
    lemma_placeholders_sub_tasks_oldest_first();
    lemma_placeholders_parent_type_select();
    lemma_placeholders_parent_due_date_select();
    lemma_placeholders_sub_task_stats_select();
    lemma_placeholders_newest_first();
    lemma_placeholders_uncompleted_newest_first();
    lemma_placeholders_history_export_condition();
    lemma_placeholders_contribution_select();
    lemma_placeholders_insert_task();
    lemma_placeholders_concat(TASK_SELECT@, TASK_BY_ID@);
    lemma_placeholders_concat(TASK_SELECT@, SUB_TASKS_OLDEST_FIRST@);
    lemma_placeholders_concat(TASK_SELECT@, NEWEST_FIRST@);
    lemma_placeholders_concat(TASK_SELECT@, UNCOMPLETED_NEWEST_FIRST@);
    lemma_placeholders_concat(TASK_SELECT@, HISTORY_EXPORT_CONDITION@);
}

// ----- paging -----

/// A page request always comes to page 1 or later, pages of 1 to 100 tasks,
/// and no negative offset.
pub proof fn law_page_window_in_bounds(pagination: Option<PageFilter>)
    ensures
        1 <= normalized_page(pagination),
        1 <= normalized_page_size(pagination) <= 100,
        0 <= page_offset(pagination),
{
    assert(0 <= page_offset(pagination)) by (nonlinear_arith)
        requires
            1 <= normalized_page(pagination),
            1 <= normalized_page_size(pagination),
            page_offset(pagination) == (normalized_page(pagination) - 1) * normalized_page_size(
                pagination,
            ),
    ;
}

/// Asking again for the page and size that a request came to shows the same
/// page.
pub proof fn law_page_request_is_stable(pagination: Option<PageFilter>)
    ensures
        ({
            let again = Some(
                PageFilter {
                    page: Some(normalized_page(pagination) as i64),
                    page_size: Some(normalized_page_size(pagination) as i64),
                },
            );
            &&& normalized_page(again) == normalized_page(pagination)
            &&& normalized_page_size(again) == normalized_page_size(pagination)
            &&& page_offset(again) == page_offset(pagination)
        }),
{
}

/// Every task of a listing lies on exactly one page, and that page is
/// within the page count: the task at position `row` (from 0) is on page
/// `row / page_size + 1`.
pub proof fn law_pages_cover_every_task(total: int, page_size: int, row: int)
    requires
        page_size >= 1,
        0 <= row < total,
    ensures
        1 <= row / page_size + 1 <= ceil_div(total, page_size),
        (row / page_size) * page_size <= row < (row / page_size + 1) * page_size,
        forall|page: int|
            #![trigger (page - 1) * page_size]
            (page - 1) * page_size <= row < page * page_size ==> page == row / page_size + 1,
{
    assert(1 <= row / page_size + 1 <= ceil_div(total, page_size)) by (nonlinear_arith)
        requires
            page_size >= 1,
            0 <= row < total,
    ;
    assert((row / page_size) * page_size <= row < (row / page_size + 1) * page_size)
        by (nonlinear_arith)
        requires
            page_size >= 1,
            0 <= row,
    ;
    assert forall|page: int|
        #![trigger (page - 1) * page_size]
        (page - 1) * page_size <= row < page * page_size implies page == row / page_size + 1 by {
        assert(page == row / page_size + 1) by (nonlinear_arith)
            requires
                page_size >= 1,
                0 <= row,
                (page - 1) * page_size <= row,
                row < page * page_size,
        ;
    }
}

/// A page past the last one holds no task.
pub proof fn law_no_task_past_the_last_page(total: int, page_size: int, page: int)
    requires
        page_size >= 1,
        total >= 0,
        page > ceil_div(total, page_size),
    ensures
        (page - 1) * page_size >= total,
{
    assert((page - 1) * page_size >= total) by (nonlinear_arith)
        requires
            page_size >= 1,
            total >= 0,
            page > (total + page_size - 1) / page_size,
    ;
}

// ----- due dates -----

/// A non-empty due date given by the user is kept as it is, whatever the
/// task type.
pub proof fn law_custom_due_date_is_kept(
    task_type: Seq<char>,
    custom: Option<Seq<char>>,
    today: CalendarDate,
    week_later: CalendarDate,
    month_later: CalendarDate,
)
    requires
        has_custom(custom),
    ensures
        due_date_spec(task_type, custom, today, week_later, month_later) == custom,
{
}

/// A derived due date is a date followed by the end of that day,
/// ` 23:59:59`.
pub proof fn law_derived_due_date_ends_the_day(
    task_type: Seq<char>,
    custom: Option<Seq<char>>,
    today: CalendarDate,
    week_later: CalendarDate,
    month_later: CalendarDate,
)
    requires
        !has_custom(custom),
    ensures
        ({
            let due = due_date_spec(task_type, custom, today, week_later, month_later);
            &&& due is Some
            &&& exists|day: CalendarDate| due->0 == date_text(day) + END_OF_DAY@
        }),
{
    let due = due_date_spec(task_type, custom, today, week_later, month_later);
    let day = if task_type == "daily"@ {
        today
    } else if task_type == "weekly"@ {
        week_later
    } else if task_type == "monthly"@ {
        month_later
    } else if task_type == "yearly"@ {
        CalendarDate { year: today.year, month: 12, day: 31 }
    } else {
        week_later
    };
    assert(due->0 == date_text(day) + END_OF_DAY@);
}

/// A yearly task is due at the end of the 31st of December of the year it
/// is created in.
pub proof fn law_yearly_tasks_are_due_on_new_years_eve(
    custom: Option<Seq<char>>,
    today: CalendarDate,
    week_later: CalendarDate,
    month_later: CalendarDate,
)
    requires
        !has_custom(custom),
    ensures
        due_date_spec("yearly"@, custom, today, week_later, month_later) == Some(
            year_text(today.year as int) + "-12-31"@ + END_OF_DAY@,
        ),
{
    reveal_strlit("-12-31");
    assert(decimal(12) =~= seq!['1', '2']) by {
        reveal_with_fuel(decimal, 2);
    }
    assert(decimal(31) =~= seq!['3', '1']) by {
        reveal_with_fuel(decimal, 2);
    }
    assert(date_text(CalendarDate { year: today.year, month: 12, day: 31 }) =~= year_text(
        today.year as int,
    ) + "-12-31"@);
    reveal_strlit("yearly");
    reveal_strlit("daily");
    reveal_strlit("weekly");
    reveal_strlit("monthly");
    assert("yearly"@ != "daily"@ && "yearly"@ != "weekly"@ && "yearly"@ != "monthly"@) by {
        assert("yearly"@[0] != "daily"@[0]);
        assert("yearly"@[0] != "weekly"@[0]);
        assert("yearly"@[0] != "monthly"@[0]);
    }
}

/// A sub-task created as a task gets no due date of its own.
pub proof fn law_sub_tasks_created_as_tasks_get_no_due_date(task: NewTaskModel, now: LocalDateTime)
    requires
        task.parent_id is Some,
    ensures
        new_task_spec(task, now).due_date is None,
{
}

/// An empty due date given by the user counts as none: the due date is
/// derived as if none were given.
pub proof fn law_empty_custom_due_date_is_no_due_date(
    task_type: Seq<char>,
    today: CalendarDate,
    week_later: CalendarDate,
    month_later: CalendarDate,
)
    ensures
        due_date_spec(task_type, Some(Seq::<char>::empty()), today, week_later, month_later)
            == due_date_spec(task_type, None, today, week_later, month_later),
        due_date_spec(task_type, None, today, week_later, month_later) is Some,
{
}

// ----- counts -----

/// The completed and the pending tasks add up to all tasks.
pub proof fn law_counts_add_up(total: i64, completed: Option<i64>)
    ensures
        tally_spec(total, completed).1 + tally_spec(total, completed).2 == tally_spec(
            total,
            completed,
        ).0,
{
}

// ----- export and import -----

/// An export holds no sub-task, and holds every main task.
pub proof fn law_export_holds_exactly_the_main_tasks(tasks: Seq<TaskModel>)
    ensures
        exported(tasks).len() <= tasks.len(),
        forall|k: int|
            0 <= k < exported(tasks).len() ==> exists|i: int|
                0 <= i < tasks.len() && is_main_task(tasks[i]) && #[trigger] exported(tasks)[k]
                    == json_of(tasks[i]),
        forall|i: int|
            0 <= i < tasks.len() && is_main_task(#[trigger] tasks[i]) ==> exported(
                tasks,
            ).contains(json_of(tasks[i])),
{
    let main = |t: TaskModel| is_main_task(t);
    let kept = tasks.filter(main);
    tasks.lemma_filter_len(main);
    assert forall|k: int| 0 <= k < exported(tasks).len() implies exists|i: int|
        0 <= i < tasks.len() && is_main_task(tasks[i]) && #[trigger] exported(tasks)[k] == json_of(
            tasks[i],
        ) by {
        tasks.lemma_filter_pred(main, k);
        assert(kept.contains(kept[k]));
        tasks.lemma_filter_contains_rev(main, kept[k]);
        assert(tasks.contains(kept[k]));
        let i = choose|i: int| 0 <= i < tasks.len() && tasks[i] == kept[k];
        assert(exported(tasks)[k] == json_of(tasks[i]));
    }
    assert forall|i: int|
        0 <= i < tasks.len() && is_main_task(#[trigger] tasks[i]) implies exported(
            tasks,
        ).contains(json_of(tasks[i])) by {
        tasks.lemma_filter_contains(main, i);
        assert(kept.contains(tasks[i]));
        let k = choose|k: int| 0 <= k < kept.len() && kept[k] == tasks[i];
        assert(exported(tasks)[k] == json_of(tasks[i]));
    }
}

/// Importing an export gives back main tasks with the exported titles and
/// types, keeping every non-empty due date.
pub proof fn law_export_then_import_keeps_tasks(tasks: Seq<TaskModel>, now: LocalDateTime)
    ensures
        ({
            let list = exported(tasks);
            let back = list.map_values(|t: JsonTaskModel| import_spec(t, now));
            &&& back.len() == list.len()
            &&& forall|k: int|
                0 <= k < list.len() ==> {
                    &&& #[trigger] back[k].title == list[k].title
                    &&& back[k].task_type == list[k].task_type
                    &&& back[k].parent_id is None
                    &&& has_custom(list[k].due_date) ==> back[k].due_date == list[k].due_date
                }
        }),
{
}

// ----- listings -----

/// The main task list reads only main tasks, with the filter's conditions
/// after that restriction, newest first.
pub proof fn law_main_list_reads_main_tasks_only(filter: Option<QueryFilterModel>)
    ensures
        ({
            let sql = task_list_spec(filter).sql;
            let head = TASK_SELECT@ + MAIN_TASKS_ONLY@;
            &&& sql.len() >= head.len() + NEWEST_FIRST@.len()
            &&& sql.subrange(0, head.len() as int) == head
            &&& sql.subrange(sql.len() - NEWEST_FIRST@.len(), sql.len() as int) == NEWEST_FIRST@
        }),
{
    let sql = task_list_spec(filter).sql;
    let head = TASK_SELECT@ + MAIN_TASKS_ONLY@;
    let conditions = match filter {
        Some(f) => joined(
            joined(type_condition(f.task_type), completed_condition(f.completed)),
            date_condition(f, CREATED_AT@),
        ),
        None => text_only(seq![]),
    };
    assert(sql == head + conditions.sql + NEWEST_FIRST@);
    assert(sql.subrange(0, head.len() as int) =~= head);
    assert(sql.subrange(sql.len() - NEWEST_FIRST@.len(), sql.len() as int) =~= NEWEST_FIRST@);
}

/// The count of a paged listing counts what its pages read: both statements
/// use the same clause with the same values, the pages adding only their
/// order, size and offset.
pub proof fn law_count_and_pages_share_their_selection(
    clause: SqlQueryModel,
    order: Seq<char>,
    window: PageWindow,
)
    ensures
        ({
            let q = paged_spec(clause, order, window);
            &&& q.count.sql == COUNT_SELECT@ + clause.sql
            &&& q.rows.sql == TASK_SELECT@ + SPACE@ + clause.sql + order
            &&& q.count.params == clause.params
            &&& q.rows.params.take(clause.params.len() as int) == q.count.params
            &&& q.rows.params.len() == q.count.params.len() + 2
        }),
{
    let q = paged_spec(clause, order, window);
    assert(q.rows.params.take(clause.params.len() as int) =~= clause.params);
}

// ----- what the listings select -----

/// The date condition of a filter is written on the column that the filter
/// names, and on the listing's default column only when it names none: a
/// start and an end (both non-empty) bound that column, a non-empty start
/// alone with an empty end selects the start's day, and anything else adds
/// no condition.
pub proof fn law_date_condition_uses_the_named_column(f: QueryFilterModel, default_column: Seq<char>)
    ensures
        ({
            let column = match f.date_field {
                Some(c) => c,
                None => default_column,
            };
            let q = date_condition(f, default_column);
            if f.start_date is Some && f.end_date is Some && f.start_date->0.len() > 0
                && f.end_date->0.len() > 0 {
                &&& q.sql == " AND "@ + column + " BETWEEN ? AND ?"@
                &&& q.params == seq![
                    SqlValueModel::Text(f.start_date->0),
                    SqlValueModel::Text(f.end_date->0),
                ]
            } else if f.start_date is Some && f.end_date is Some && f.start_date->0.len() > 0 {
                &&& q.sql == " AND date("@ + column + ") = date(?)"@
                &&& q.params == seq![SqlValueModel::Text(f.start_date->0)]
            } else {
                &&& q.sql == Seq::<char>::empty()
                &&& q.params == Seq::<SqlValueModel>::empty()
            }
        }),
{
}

/// A task type narrows a listing unless it is missing, empty or `all`; a
/// completion flag narrows it to completed (1) or open (0) tasks.
pub proof fn law_type_and_completion_conditions(task_type: Option<Seq<char>>, completed: Option<bool>)
    ensures
        task_type is Some && task_type->0.len() > 0 && task_type->0 != "all"@ ==> type_condition(
            task_type,
        ) == (SqlQueryModel {
            sql: " AND task_type = ?"@,
            params: seq![SqlValueModel::Text(task_type->0)],
        }),
        !(task_type is Some && task_type->0.len() > 0 && task_type->0 != "all"@) ==> type_condition(
            task_type,
        ) == (SqlQueryModel { sql: Seq::<char>::empty(), params: Seq::<SqlValueModel>::empty() }),
        completed is Some ==> completed_condition(completed) == (SqlQueryModel {
            sql: " AND completed = ?"@,
            params: seq![SqlValueModel::Integer(if completed->0 { 1 } else { 0 })],
        }),
        completed is None ==> completed_condition(completed) == (SqlQueryModel {
            sql: Seq::<char>::empty(),
            params: Seq::<SqlValueModel>::empty(),
        }),
{
}

/// The main list reads main tasks, narrowed by type, completion and dates,
/// whose default column is `created_at`, newest first.
pub proof fn law_main_list_conditions(f: QueryFilterModel)
    ensures
        ({
            let conditions = joined(
                joined(type_condition(f.task_type), completed_condition(f.completed)),
                date_condition(f, "created_at"@),
            );
            let q = task_list_spec(Some(f));
            &&& q.sql == TASK_SELECT@ + " WHERE (parent_id IS NULL OR parent_id = 0)"@ + conditions.sql
                + " ORDER BY created_at DESC"@
            &&& q.params == conditions.params
        }),
        task_list_spec(None) == (SqlQueryModel {
            sql: TASK_SELECT@ + " WHERE (parent_id IS NULL OR parent_id = 0)"@
                + " ORDER BY created_at DESC"@,
            params: Seq::<SqlValueModel>::empty(),
        }),
{
}

/// The completed history selects completed tasks and dates them by
/// `completed_at` unless the filter names a column, most recently completed
/// first; the open history selects open tasks and dates them by `created_at`
/// unless the filter names a column, newest first. Neither reads the
/// filter's completion flag.
pub proof fn law_history_conditions(kind: HistoryKind, filter: Option<QueryFilterModel>)
    ensures
        ({
            let (base, column, order) = match kind {
                HistoryKind::Completed => (
                    "WHERE completed = 1"@,
                    "completed_at"@,
                    " ORDER BY completed_at DESC LIMIT ? OFFSET ?"@,
                ),
                HistoryKind::Uncompleted => (
                    "WHERE completed = 0"@,
                    "created_at"@,
                    " ORDER BY created_at DESC LIMIT ? OFFSET ?"@,
                ),
            };
            let q = history_where(kind, filter);
            &&& history_order(kind) == order
            &&& match filter {
                Some(f) => {
                    &&& q.sql == base + type_condition(f.task_type).sql + date_condition(
                        f,
                        column,
                    ).sql
                    &&& q.params == type_condition(f.task_type).params + date_condition(
                        f,
                        column,
                    ).params
                },
                None => q.sql == base && q.params == Seq::<SqlValueModel>::empty(),
            }
        }),
{
    match filter {
        Some(f) => {
            let q = history_where(kind, filter);
            let column = history_date_column(kind);
            assert(q.sql =~= history_base(kind) + type_condition(f.task_type).sql + date_condition(
                f,
                column,
            ).sql);
            assert(q.params =~= type_condition(f.task_type).params + date_condition(
                f,
                column,
            ).params);
        },
        None => {
            assert(history_where(kind, filter).sql =~= history_base(kind));
            assert(history_where(kind, filter).params =~= Seq::<SqlValueModel>::empty());
        },
    }
}

/// The expired listing selects open tasks with a due date before `now`,
/// narrowed by type.
pub proof fn law_expired_conditions(now: Seq<char>, task_type: Option<Seq<char>>)
    ensures
        expired_where(now, task_type).sql
            == "WHERE completed = 0 AND due_date IS NOT NULL AND due_date < ?"@ + type_condition(
            task_type,
        ).sql,
        expired_where(now, task_type).params == seq![SqlValueModel::Text(now)] + type_condition(
            task_type,
        ).params,
{
}

// ----- what the records hold -----

/// A task read from a row holds the row's fields and is completed exactly
/// when the stored flag is 1.
pub proof fn law_rows_read_as_tasks(row: TaskRow)
    ensures
        row_task(row).id == row.id,
        row_task(row).title == row.title@,
        row_task(row).task_type == row.task_type@,
        row_task(row).created_at == row.created_at@,
        row_task(row).due_date == row.due_date.deep_view(),
        row_task(row).completed <==> row.completed == 1,
        row_task(row).completed_at == row.completed_at.deep_view(),
        row_task(row).parent_id == row.parent_id,
{
}

/// A planned new task keeps its title, type and parent, is created at the
/// clock reading, and is due on its derived date when it is a main task and
/// on no date when it is a sub-task.
pub proof fn law_new_task_plans(task: NewTaskModel, now: LocalDateTime)
    ensures
        new_task_spec(task, now).title == task.title,
        new_task_spec(task, now).task_type == task.task_type,
        new_task_spec(task, now).parent_id == task.parent_id,
        new_task_spec(task, now).created_at == timestamp_text(now),
        task.parent_id is None ==> new_task_spec(task, now).due_date == due_date_on(
            task.task_type,
            task.due_date,
            now.date,
        ),
{
}

/// An imported entry becomes a main task with the entry's title and type,
/// created at the clock reading, due on the entry's date when non-empty and
/// otherwise on the date derived from its type.
pub proof fn law_imports_plan_main_tasks(entry: JsonTaskModel, now: LocalDateTime)
    ensures
        import_spec(entry, now).title == entry.title,
        import_spec(entry, now).task_type == entry.task_type,
        import_spec(entry, now).parent_id is None,
        import_spec(entry, now).created_at == timestamp_text(now),
        import_spec(entry, now).due_date == due_date_on(entry.task_type, entry.due_date, now.date),
{
}

/// A sub-task made as a task point keeps the title it was given and takes
/// only its type and due date from its parent.
pub proof fn law_task_points_keep_their_title(
    parent_id: i64,
    title: Seq<char>,
    parent_type: Seq<char>,
    parent_due_date: Option<Seq<char>>,
    now: LocalDateTime,
)
    ensures
        task_point_spec(parent_id, title, parent_type, parent_due_date, now).title == title,
        task_point_spec(parent_id, title, parent_type, parent_due_date, now).task_type
            == parent_type,
        task_point_spec(parent_id, title, parent_type, parent_due_date, now).due_date
            == parent_due_date,
        task_point_spec(parent_id, title, parent_type, parent_due_date, now).parent_id == Some(
            parent_id,
        ),
        task_point_spec(parent_id, title, parent_type, parent_due_date, now).created_at
            == timestamp_text(now),
{
}

/// An inserted task holds what was planned under the id it was given, and
/// is not completed.
pub proof fn law_inserted_tasks_start_open(p: PendingTaskModel, id: i64)
    ensures
        stored_task(p, id).id == id,
        stored_task(p, id).title == p.title,
        stored_task(p, id).task_type == p.task_type,
        stored_task(p, id).created_at == p.created_at,
        stored_task(p, id).due_date == p.due_date,
        !stored_task(p, id).completed,
        stored_task(p, id).completed_at is None,
        stored_task(p, id).parent_id == p.parent_id,
        insert_spec(p).params == seq![
            SqlValueModel::Text(p.title),
            SqlValueModel::Text(p.task_type),
            SqlValueModel::Text(p.created_at),
            match p.due_date {
                Some(d) => SqlValueModel::Text(d),
                None => SqlValueModel::Null,
            },
            match p.parent_id {
                Some(i) => SqlValueModel::Integer(i as int),
                None => SqlValueModel::Null,
            },
        ],
{
}

/// The counts are the total, the completed count (0 when the sum has no
/// value) and their difference.
pub proof fn law_counts_are_total_completed_and_rest(total: i64, completed: Option<i64>)
    ensures
        tally_spec(total, completed).0 == total,
        tally_spec(total, completed).1 == match completed {
            Some(c) => c as int,
            None => 0int,
        },
        tally_spec(total, completed).2 == total - tally_spec(total, completed).1,
{
}

// ----- due dates, stated by type -----

/// The due date by type: a non-empty custom date is kept; otherwise daily
/// tasks end today, weekly ones and those of other types end on the week
/// date, monthly ones on the month date, yearly ones on the 31st of December
/// of this year; and the week and month dates are the days chrono reaches 7
/// and 30 days after today.
pub proof fn law_due_dates_by_type(
    task_type: Seq<char>,
    custom: Option<Seq<char>>,
    today: CalendarDate,
    week_later: CalendarDate,
    month_later: CalendarDate,
)
    ensures
        due_date_on(task_type, custom, today) == due_date_spec(
            task_type,
            custom,
            today,
            shifted(today, 7),
            shifted(today, 30),
        ),
        ({
            let due = due_date_spec(task_type, custom, today, week_later, month_later);
            if custom is Some && custom->0.len() > 0 {
                due == custom
            } else if task_type == "daily"@ {
                due == Some(date_text(today) + " 23:59:59"@)
            } else if task_type == "monthly"@ {
                due == Some(date_text(month_later) + " 23:59:59"@)
            } else if task_type == "yearly"@ {
                due == Some(year_text(today.year as int) + "-12-31"@ + " 23:59:59"@)
            } else {
                due == Some(date_text(week_later) + " 23:59:59"@)
            }
        }),
{
    crate::due::lemma_type_names_differ();
    if !has_custom(custom) {
        law_yearly_tasks_are_due_on_new_years_eve(custom, today, week_later, month_later);
    }
}

// ----- paging, stated by request -----

/// The page shown is the one asked for, or the first when none or one
/// before the first is asked for; the size is the one asked for brought into
/// 1 to 100, or 20 when none is asked for.
pub proof fn law_page_requests(pagination: Option<PageFilter>)
    ensures
        normalized_page(pagination) == match pagination {
            Some(PageFilter { page: Some(n), .. }) => if n < 1 { 1int } else { n as int },
            _ => 1int,
        },
        normalized_page_size(pagination) == match pagination {
            Some(PageFilter { page_size: Some(n), .. }) => if n < 1 {
                1int
            } else if n > 100 {
                100int
            } else {
                n as int
            },
            _ => 20int,
        },
        page_offset(pagination) == (normalized_page(pagination) - 1) * normalized_page_size(
            pagination,
        ),
{
}

/// An export holds exactly the tasks without a parent, in order, whatever
/// their completion: each as its title, type, due date and creation time.
pub proof fn law_export_holds_the_parentless_tasks_in_order(tasks: Seq<TaskModel>)
    ensures
        ({
            let kept = tasks.filter(|t: TaskModel| t.parent_id is None);
            &&& exported(tasks).len() == kept.len()
            &&& forall|k: int|
                0 <= k < kept.len() ==> #[trigger] exported(tasks)[k] == (JsonTaskModel {
                    title: kept[k].title,
                    task_type: kept[k].task_type,
                    due_date: kept[k].due_date,
                    created_at: Some(kept[k].created_at),
                })
            &&& forall|k: int| 0 <= k < kept.len() ==> (#[trigger] kept[k]).parent_id is None
        }),
{
    let direct = |t: TaskModel| t.parent_id is None;
    let main = |t: TaskModel| is_main_task(t);
    assert(main =~= direct);
    let kept = tasks.filter(direct);
    assert forall|k: int| 0 <= k < kept.len() implies (#[trigger] kept[k]).parent_id is None by {
        tasks.lemma_filter_pred(direct, k);
    }
}

/// The last page is never empty: a listing of no task has no page, and one
/// of some tasks has a last page that holds at least one of them.
pub proof fn law_last_page_holds_a_task(total: int, page_size: int)
    requires
        page_size >= 1,
        total >= 0,
    ensures
        total == 0 ==> ceil_div(total, page_size) == 0,
        total > 0 ==> ceil_div(total, page_size) >= 1 && (ceil_div(total, page_size) - 1)
            * page_size < total,
{
    assert(total > 0 ==> ceil_div(total, page_size) >= 1 && (ceil_div(total, page_size) - 1)
        * page_size < total) by (nonlinear_arith)
        requires
            page_size >= 1,
            total >= 0,
            ceil_div(total, page_size) == (total + page_size - 1) / page_size,
    ;
    assert(total == 0 ==> ceil_div(total, page_size) == 0) by (nonlinear_arith)
        requires
            page_size >= 1,
            ceil_div(total, page_size) == (total + page_size - 1) / page_size,
    ;
}

/// The statistics count all tasks, or those of one type when a type that
/// narrows a listing is given.
pub proof fn law_stats_count_by_type(task_type: Option<Seq<char>>)
    ensures
        task_type is Some && task_type->0.len() > 0 && task_type->0 != "all"@ ==> stats_spec(
            task_type,
        ) == (SqlQueryModel {
            sql: "SELECT COUNT(*), SUM(CASE WHEN completed = 1 THEN 1 ELSE 0 END) FROM tasks"@
                + " WHERE task_type = ?"@,
            params: seq![SqlValueModel::Text(task_type->0)],
        }),
        !(task_type is Some && task_type->0.len() > 0 && task_type->0 != "all"@) ==> stats_spec(
            task_type,
        ) == (SqlQueryModel {
            sql: "SELECT COUNT(*), SUM(CASE WHEN completed = 1 THEN 1 ELSE 0 END) FROM tasks"@,
            params: Seq::<SqlValueModel>::empty(),
        }),
{
}

/// A page reads the listing's values followed by its size and its offset.
pub proof fn law_pages_bind_size_then_offset(clause: SqlQueryModel, order: Seq<char>, window: PageWindow)
    ensures
        paged_spec(clause, order, window).rows.params == clause.params + seq![
            SqlValueModel::Integer(window.page_size as int),
            SqlValueModel::Integer(window.offset as int),
        ],
        paged_spec(clause, order, window).window == window,
{
}

} // verus!
