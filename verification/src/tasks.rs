//! Tasks: the statements and replies of their pages, their listing, their
//! mutations and their materials.

use crate::flow::{
    answer_view, CountGuard, CountGuardView, created, created_note, Fetch, FetchView, Guard,
    guard_also, guards_of, guards_view, GuardView, Listing, must_exist_or_note,
    must_exist_or_notify, Mutation, path_of, refuse_note, Removal, RemovalView, written,
    written_note,
};
use crate::general::{
    error_note, NotificationTemplate, NotificationView, Pagination, paragraph, paragraph_about,
    QueryInfo, Reply, ReplyView, Sort,
};
use crate::sql::{
    by_column, by_columns, by_id, filter_int, filter_pattern, filtered, fixed, int_filter,
    opt_int_value, opt_text_value, Order, OrderView, page_by_id, paged, pattern_filter,
    PieceView, Predicates, SqlValue, SqlValueView, Statement, StatementView, when_chosen,
    when_present,
};
use crate::text::{around_i32, int_text, join2, join3, opt_text, str_eq};
use crate::values::{Date, Float32};
use vstd::prelude::*;
use vstd::string::*;

verus! {

/// The tab of a task's details that is shown.
#[derive(Clone, Copy, Debug, PartialEq, Eq, Structural)]
pub enum TaskTab {
    Materials,
    Progress,
}

/// How far a task has come.
#[derive(Clone, Copy, Debug, PartialEq, Eq, Structural)]
pub enum TaskStatus {
    Planned,
    InProgress,
    Completed,
}

impl TaskStatus {
    /// The status that a key stands for, if it is the key of any.
    pub open spec fn parse(s: Seq<char>) -> Option<TaskStatus> {
        if s == "planned"@ {
            Some(TaskStatus::Planned)
        } else if s == "in_progress"@ {
            Some(TaskStatus::InProgress)
        } else if s == "completed"@ {
            Some(TaskStatus::Completed)
        } else {
            None
        }
    }

    /// Reads a key. Any other text is refused, with a message that quotes
    /// it.
    pub fn from_str(s: &str) -> (r: Result<TaskStatus, String>)
        ensures
            match r {
                Ok(v) => Self::parse(s@) == Some(v),
                Err(e) => Self::parse(s@) is None && e@ == "Invalid TaskStatus: "@ + s@,
            },
    {
        if str_eq(s, "planned") {
            Ok(TaskStatus::Planned)
        } else if str_eq(s, "in_progress") {
            Ok(TaskStatus::InProgress)
        } else if str_eq(s, "completed") {
            Ok(TaskStatus::Completed)
        } else {
            Err(join2("Invalid TaskStatus: ", s))
        }
    }

    /// The status of a task: completed once it has an actual end; else in
    /// progress once a brigade works on it; else planned.
    pub open spec fn spec_of(actual_period_end: Option<Date>, brigade_id: Option<i32>) -> TaskStatus {
        if actual_period_end is Some {
            TaskStatus::Completed
        } else if brigade_id is Some {
            TaskStatus::InProgress
        } else {
            TaskStatus::Planned
        }
    }

    /// The status of a task.
    pub fn of(actual_period_end: Option<Date>, brigade_id: Option<i32>) -> (s: TaskStatus)
        ensures
            s == Self::spec_of(actual_period_end, brigade_id),
    {
        if actual_period_end.is_some() {
            TaskStatus::Completed
        } else if brigade_id.is_some() {
            TaskStatus::InProgress
        } else {
            TaskStatus::Planned
        }
    }
}

#[derive(Clone, Copy, Debug, PartialEq, Eq, Structural)]
pub struct TasksListTemplate;

#[derive(Clone, Copy, Debug, PartialEq, Eq, Structural)]
pub struct TaskDetailsTemplate {
    pub id: i32,
}

#[derive(Clone, Copy, Debug, PartialEq, Eq, Structural)]
pub struct TaskNewTemplate;

#[derive(Clone, Debug, PartialEq, Eq)]
pub struct TaskEditTemplate {
    pub id: i32,
    pub name: String,
    pub description: Option<String>,
    pub site_id: i32,
    pub site_name: String,
    pub brigade_id: Option<i32>,
    pub brigadier_name: Option<String>,
    pub period_start: Date,
    pub expected_period_end: Date,
}

#[derive(Clone, Copy, Debug, PartialEq, Eq, Structural)]
pub struct TaskTabQuery {
    pub tab: TaskTab,
}

#[derive(Clone, Debug, PartialEq, Eq)]
pub struct TaskApiDetailsTemplate {
    pub id: i32,
    pub name: String,
    pub description: Option<String>,
    pub site_id: i32,
    pub site_name: String,
    pub brigade_id: Option<i32>,
    pub brigade_name: Option<String>,
    pub period_start: Date,
    pub expected_period_end: Date,
    pub actual_period_end: Option<Date>,
    pub status: TaskStatus,
    pub tab: TaskTab,
}

#[derive(Clone, Debug, PartialEq, Eq)]
pub struct TaskUpdateForm {
    pub name: String,
    pub description: Option<String>,
    pub site_id: i32,
    pub brigade_id: Option<i32>,
    pub period_start: Date,
    pub expected_period_end: Date,
}

#[derive(Clone, Debug, PartialEq, Eq)]
pub struct TaskCreateForm {
    pub name: String,
    pub description: Option<String>,
    pub site_id: i32,
    pub brigade_id: Option<i32>,
    pub period_start: Date,
    pub expected_period_end: Date,
}

#[derive(Clone, Debug, PartialEq, Eq)]
pub struct TaskListFilter {
    pub sort: Sort,
    pub site_id: Option<i32>,
    pub brigade_id: Option<i32>,
    pub status: Option<TaskStatus>,
    pub date_from: Option<Date>,
    pub date_to: Option<Date>,
    pub name: Option<String>,
    pub exceeded_deadline: Option<bool>,
}

#[derive(Clone, Debug, PartialEq, Eq)]
pub struct TaskListTemplate {
    pub tasks: Vec<TaskListItem>,
    pub pagination: Pagination,
    pub query_info: QueryInfo,
}

#[derive(Clone, Debug, PartialEq, Eq)]
pub struct TaskListItem {
    pub id: i32,
    pub name: String,
    pub site_id: i32,
    pub site_name: String,
    pub brigade_id: Option<i32>,
    pub brigadier_name: Option<String>,
    pub period_start: Date,
    pub expected_period_end: Date,
    pub actual_period_end: Option<Date>,
    pub status: TaskStatus,
    pub deadline_exceeded: bool,
}

#[derive(Clone, Debug, PartialEq, Eq)]
pub struct TaskMaterialsTemplate {
    pub id: i32,
    pub materials: Vec<TaskMaterialItem>,
    pub pagination: Pagination,
}

#[derive(Clone, Debug, PartialEq, Eq)]
pub struct TaskMaterialItem {
    pub material_id: i32,
    pub name: String,
    pub expected_amount: Float32,
    pub actual_amount: Option<Float32>,
    pub units: String,
    pub cost: Float32,
    pub total_cost: Float32,
    pub excess: Option<Float32>,
}

#[derive(Clone, Copy, Debug, PartialEq, Eq, Structural)]
pub struct TaskMaterialForm {
    pub material_id: i32,
    pub expected_amount: Float32,
}

#[derive(Clone, Copy, Debug, PartialEq, Eq, Structural)]
pub struct TaskMaterialUpdateForm {
    pub actual_amount: Float32,
}

#[derive(Clone, Copy, Debug, PartialEq, Eq, Structural)]
pub struct TaskCompleteForm {
    pub actual_period_end: Date,
}

/// The row of a task with the names of its site and its brigadier.
#[derive(Clone, Debug, PartialEq, Eq)]
pub struct TaskDetails {
    pub id: i32,
    pub name: String,
    pub description: Option<String>,
    pub site_id: i32,
    pub site_name: String,
    pub brigade_id: Option<i32>,
    pub brigade_name: Option<String>,
    pub period_start: Date,
    pub expected_period_end: Date,
    pub actual_period_end: Option<Date>,
}

/// The row of a task in the listing, with the day on which it was read.
#[derive(Clone, Debug, PartialEq, Eq)]
pub struct TaskListRow {
    pub id: i32,
    pub name: String,
    pub site_id: i32,
    pub site_name: String,
    pub brigade_id: Option<i32>,
    pub brigade_name: Option<String>,
    pub period_start: Date,
    pub expected_period_end: Date,
    pub actual_period_end: Option<Date>,
    pub current_date: Date,
}

pub const TASK_EDIT_SQL: &'static str =
    "SELECT t.id, t.name, t.description, t.site_id, s.name as site_name, 
         t.brigade_id, 
         CASE WHEN t.brigade_id IS NOT NULL THEN 
            (SELECT CONCAT(e.last_name, ' ', e.first_name) 
             FROM worker w
             JOIN brigade b ON w.id = b.brigadier_id
             JOIN employee e ON w.id = e.id
             WHERE b.id = t.brigade_id)
         ELSE NULL END as brigade_name,
         t.period_start, t.expected_period_end
         FROM task t
         JOIN site s ON t.site_id = s.id
         WHERE t.id = $1";

pub const TASK_DETAILS_SQL: &'static str =
    "SELECT t.id, t.name, t.description, t.site_id, s.name as site_name, 
         t.brigade_id, 
         CASE WHEN t.brigade_id IS NOT NULL THEN 
            (SELECT CONCAT(e.last_name, ' ', e.first_name) 
             FROM worker w
             JOIN brigade b ON w.id = b.brigadier_id
             JOIN employee e ON w.id = e.id
             WHERE b.id = t.brigade_id)
         ELSE NULL END as brigade_name,
         t.period_start, t.expected_period_end, t.actual_period_end
         FROM task t
         JOIN site s ON t.site_id = s.id
         WHERE t.id = $1";

pub const TASK_LIST_SQL: &'static str =
    "SELECT t.id, t.name, t.site_id, s.name as site_name, 
         t.brigade_id, 
         CASE WHEN t.brigade_id IS NOT NULL THEN 
            (SELECT CONCAT(e.last_name, ' ', e.first_name) 
             FROM worker w
             JOIN brigade b ON w.id = b.brigadier_id
             JOIN employee e ON w.id = e.id
             WHERE b.id = t.brigade_id)
         ELSE NULL END as brigade_name,
         t.period_start, t.expected_period_end, t.actual_period_end,
         CURRENT_DATE as current_date
         FROM task t
         JOIN site s ON t.site_id = s.id";

pub const TASK_COUNT_SQL: &'static str =
    "SELECT COUNT(*) FROM task t JOIN site s ON t.site_id = s.id";

pub const TASK_UPDATE_SQL: &'static str =
    "UPDATE task SET name = $1, description = $2, site_id = $3, brigade_id = $4, 
         period_start = $5, expected_period_end = $6 WHERE id = $7";

pub const TASK_INSERT_SQL: &'static str =
    "INSERT INTO task (name, description, site_id, brigade_id, period_start, expected_period_end) 
         VALUES ($1, $2, $3, $4, $5, $6) 
         RETURNING id";

pub const TASK_DELETE_SQL: &'static str = "DELETE FROM task WHERE id = $1";

pub const TASK_EXPENDITURE_COUNT_SQL: &'static str =
    "SELECT COUNT(*) FROM expenditure WHERE task_id = $1";

pub const TASK_MATERIALS_SQL: &'static str =
    "SELECT m.id as material_id, m.name, e.expected_amount, e.actual_amount, m.units, m.cost
         FROM expenditure e
         JOIN material m ON e.material_id = m.id
         WHERE e.task_id = $1
         ORDER BY m.name
         LIMIT $2 OFFSET $3";

pub const EXPENDITURE_EXISTS_SQL: &'static str =
    "SELECT EXISTS(SELECT 1 FROM expenditure WHERE task_id = $1 AND material_id = $2)";

pub const EXPENDITURE_EXPECTED_UPDATE_SQL: &'static str =
    "UPDATE expenditure SET expected_amount = $1 WHERE task_id = $2 AND material_id = $3";

pub const EXPENDITURE_INSERT_SQL: &'static str =
    "INSERT INTO expenditure (task_id, material_id, expected_amount) 
         VALUES ($1, $2, $3)";

pub const EXPENDITURE_ACTUAL_UPDATE_SQL: &'static str =
    "UPDATE expenditure SET actual_amount = $1 WHERE task_id = $2 AND material_id = $3";

/// The end of the message that a material is not booked on a task.
pub const NOT_BOOKED: &'static str = " is not assigned to this \
task";

pub const TASK_PERIOD_SQL: &'static str =
    "SELECT period_start, expected_period_end FROM task WHERE id = $1";

pub const TASK_COMPLETE_SQL: &'static str = "UPDATE task SET actual_period_end = $1 WHERE id = $2";

/// The read behind the edit form of the task `id`.
pub fn task_edit_query(id: i32) -> (f: Fetch)
    ensures
        f@ == (FetchView {
            statement: fixed(TASK_EDIT_SQL@).arg(SqlValueView::Int(id)),
            failure: "Error fetching task: "@,
        }),
{
    Fetch { statement: by_id(TASK_EDIT_SQL, id), failure: "Error fetching task: " }
}

/// The edit form of the task `id` for the row that was read; or the
/// paragraph that says that there is no such task, or that the read failed.
pub fn task_edit_page(id: i32, fetched: Result<Option<TaskEditTemplate>, String>) -> (r: Result<
    TaskEditTemplate,
    String,
>)
    ensures
        match fetched {
            Ok(Some(row)) => r == Ok::<TaskEditTemplate, String>(row),
            Ok(None) => r is Err && r->Err_0@ == paragraph_about(
                "Task with ID "@,
                id as int,
                " not found"@,
            ),
            Err(e) => r is Err && r->Err_0@ == paragraph("Error fetching task: "@, e@),
        },
{
    task_edit_query(id).row(fetched, id, "Task with ID ", " not found")
}

/// The read behind the details of the task `id`.
pub fn task_api_details_query(id: i32) -> (f: Fetch)
    ensures
        f@ == (FetchView {
            statement: fixed(TASK_DETAILS_SQL@).arg(SqlValueView::Int(id)),
            failure: "Error fetching task details: "@,
        }),
{
    Fetch { statement: by_id(TASK_DETAILS_SQL, id), failure: "Error fetching task details: " }
}

/// The details of the task `id` under the tab `tab` for the row that was
/// read, with the status that the row implies; or the paragraph that says
/// that there is no such task, or that the read failed.
pub fn task_api_details_page(id: i32, tab: TaskTab, fetched: Result<Option<TaskDetails>, String>) -> (r:
    Result<TaskApiDetailsTemplate, String>)
    ensures
        match fetched {
            Ok(Some(row)) => r == Ok::<TaskApiDetailsTemplate, String>(
                TaskApiDetailsTemplate {
                    id: row.id,
                    name: row.name,
                    description: row.description,
                    site_id: row.site_id,
                    site_name: row.site_name,
                    brigade_id: row.brigade_id,
                    brigade_name: row.brigade_name,
                    period_start: row.period_start,
                    expected_period_end: row.expected_period_end,
                    actual_period_end: row.actual_period_end,
                    status: TaskStatus::spec_of(row.actual_period_end, row.brigade_id),
                    tab,
                },
            ),
            Ok(None) => r is Err && r->Err_0@ == paragraph_about(
                "Task with ID "@,
                id as int,
                " not found"@,
            ),
            Err(e) => r is Err && r->Err_0@ == paragraph("Error fetching task details: "@, e@),
        },
{
    match task_api_details_query(id).row(fetched, id, "Task with ID ", " not found") {
        Ok(row) => {
            let status = TaskStatus::of(row.actual_period_end, row.brigade_id);
            Ok(
                TaskApiDetailsTemplate {
                    id: row.id,
                    name: row.name,
                    description: row.description,
                    site_id: row.site_id,
                    site_name: row.site_name,
                    brigade_id: row.brigade_id,
                    brigade_name: row.brigade_name,
                    period_start: row.period_start,
                    expected_period_end: row.expected_period_end,
                    actual_period_end: row.actual_period_end,
                    status,
                    tab,
                },
            )
        },
        Err(html) => Err(html),
    }
}

/// A mutation of a task: the checks that stand before it, in order; the
/// refusal that the form itself calls for, which is looked at once the
/// checks have passed; and the statement.
#[derive(Clone, Debug, PartialEq, Eq)]
pub struct TaskMutation {
    pub guards: Vec<Guard>,
    pub refusal: Option<Reply>,
    pub statement: Statement,
}

/// A mutation of a task as plain values.
pub struct TaskMutationView {
    pub guards: Seq<GuardView>,
    pub refusal: Option<ReplyView>,
    pub statement: StatementView,
}

impl View for TaskMutation {
    type V = TaskMutationView;

    open spec fn view(&self) -> TaskMutationView {
        TaskMutationView {
            guards: guards_view(self.guards@),
            refusal: match self.refusal {
                Some(r) => Some(r@),
                None => None,
            },
            statement: self.statement@,
        }
    }
}

/// The checks before a task is written: its site exists, and so does its
/// brigade where it names one. A refusal sends the client to `redirect`.
pub open spec fn task_reference_guards(site_id: i32, brigade_id: Option<i32>, redirect: Seq<char>)
    -> Seq<GuardView> {
    seq![must_exist_or_note("site"@, site_id, "Site with ID "@, redirect)] + (match brigade_id {
        Some(b) => seq![must_exist_or_note("brigade"@, b, "Brigade with ID "@, redirect)],
        None => Seq::<GuardView>::empty(),
    })
}

fn task_guards(site_id: i32, brigade_id: Option<i32>, redirect: &str) -> (g: Vec<Guard>)
    ensures
        guards_view(g@) == task_reference_guards(site_id, brigade_id, redirect@),
{
    let site = must_exist_or_notify("site", site_id, "Site with ID ", String::from_str(redirect));
    let brigade = match brigade_id {
        Some(b) => Some(
            must_exist_or_notify("brigade", b, "Brigade with ID ", String::from_str(redirect)),
        ),
        None => None,
    };
    guard_also(guards_of(site), brigade)
}

/// The refusal of a task whose expected end is not after its start.
pub open spec fn task_period_refusal(period_start: Date, expected_period_end: Date, redirect: Seq<char>)
    -> Option<ReplyView> {
    if period_start.spec_before(expected_period_end) {
        None
    } else {
        Some(refuse_note("Expected end date must be after start date"@, Some(redirect)))
    }
}

fn task_period_rule(period_start: &Date, expected_period_end: &Date, redirect: String) -> (r: Option<
    Reply,
>)
    ensures
        (match r {
            Some(reply) => Some(reply@),
            None => None,
        }) == task_period_refusal(*period_start, *expected_period_end, redirect@),
{
    if period_start.before(expected_period_end) {
        None
    } else {
        Some(
            Reply::refuse(String::from_str("Expected end date must be after start date"), Some(redirect)),
        )
    }
}

/// The update of the task `id`: the checks on what the form refers to, the
/// rule on its dates, and the statement.
pub fn task_update(id: i32, form: &TaskUpdateForm) -> (m: TaskMutation)
    ensures
        m@.guards == task_reference_guards(
            form.site_id,
            form.brigade_id,
            "/tasks/"@ + int_text(id as int) + "/edit"@,
        ),
        m@.refusal == task_period_refusal(
            form.period_start,
            form.expected_period_end,
            "/tasks/"@ + int_text(id as int) + "/edit"@,
        ),
        m@.statement == fixed(TASK_UPDATE_SQL@).arg(SqlValueView::Text(form.name@)).arg(
            opt_text_value(opt_text(form.description)),
        ).arg(SqlValueView::Int(form.site_id)).arg(opt_int_value(form.brigade_id)).arg(
            SqlValueView::Date(form.period_start),
        ).arg(SqlValueView::Date(form.expected_period_end)).arg(SqlValueView::Int(id)),
{
    let redirect = around_i32("/tasks/", id, "/edit");
    TaskMutation {
        guards: task_guards(form.site_id, form.brigade_id, redirect.as_str()),
        refusal: task_period_rule(&form.period_start, &form.expected_period_end, redirect),
        statement: Statement::new(TASK_UPDATE_SQL).bind(SqlValue::text(form.name.as_str())).bind(
            SqlValue::opt_text(&form.description),
        ).bind(SqlValue::Int(form.site_id)).bind(SqlValue::opt_int(form.brigade_id)).bind(
            SqlValue::Date(form.period_start),
        ).bind(SqlValue::Date(form.expected_period_end)).bind(SqlValue::Int(id)),
    }
}

/// The notification after the update of the task `id` was run.
pub fn task_update_outcome(id: i32, form: &TaskUpdateForm, result: Result<u64, String>) -> (n:
    NotificationTemplate)
    ensures
        n@ == written_note(
            answer_view(result),
            "Task '"@ + form.name@ + "' updated successfully"@,
            "Failed to update task: "@,
            Some("/tasks/"@ + int_text(id as int)),
        ),
{
    written(
        result,
        join3("Task '", form.name.as_str(), "' updated successfully"),
        "Failed to update task: ",
        Some(path_of("/tasks/", id)),
    )
}

/// The removal of the task `id`: refused while materials are booked on it.
pub fn task_delete(id: i32) -> (d: Removal)
    ensures
        d@ == (RemovalView {
            guard: CountGuardView {
                probe: fixed(TASK_EXPENDITURE_COUNT_SQL@).arg(SqlValueView::Int(id)),
                before: "Cannot delete task: it has "@,
                after: " material expenditures. Remove them first."@,
                redirect: Some("/tasks"@),
            },
            statement: fixed(TASK_DELETE_SQL@).arg(SqlValueView::Int(id)),
        }),
{
    Removal {
        guard: CountGuard {
            probe: by_id(TASK_EXPENDITURE_COUNT_SQL, id),
            before: "Cannot delete task: it has ",
            after: " material expenditures. Remove them first.",
            redirect: Some(String::from_str("/tasks")),
        },
        statement: by_id(TASK_DELETE_SQL, id),
    }
}

/// The notification after the removal of a task was run.
pub fn task_delete_outcome(result: Result<u64, String>) -> (n: NotificationTemplate)
    ensures
        n@ == written_note(
            answer_view(result),
            "Task deleted successfully"@,
            "Failed to delete task: "@,
            Some("/tasks"@),
        ),
{
    written(
        result,
        String::from_str("Task deleted successfully"),
        "Failed to delete task: ",
        Some(String::from_str("/tasks")),
    )
}

/// The order that a sort key of the task listing stands for. A key that
/// the listing does not know orders by the primary key.
pub open spec fn task_order(key: Seq<char>) -> OrderView {
    if key == "name"@ {
        by_column("t.name"@)
    } else if key == "site"@ {
        by_column("site_name"@)
    } else if key == "brigade"@ {
        by_column("brigade_name"@)
    } else if key == "period_start"@ {
        by_column("t.period_start"@)
    } else if key == "expected_period_end"@ {
        by_column("t.expected_period_end"@)
    } else if key == "status"@ {
        by_columns("t.actual_period_end"@, "t.brigade_id"@)
    } else {
        by_column("t.id"@)
    }
}

/// The order that a sort key of the task listing stands for.
pub fn task_order_column(key: &str) -> (order: Order)
    ensures
        order@ == task_order(key@),
{
    if str_eq(key, "name") {
        Order::by_column("t.name")
    } else if str_eq(key, "site") {
        Order::by_column("site_name")
    } else if str_eq(key, "brigade") {
        Order::by_column("brigade_name")
    } else if str_eq(key, "period_start") {
        Order::by_column("t.period_start")
    } else if str_eq(key, "expected_period_end") {
        Order::by_column("t.expected_period_end")
    } else if str_eq(key, "status") {
        Order::by_columns("t.actual_period_end", "t.brigade_id")
    } else {
        Order::by_column("t.id")
    }
}

/// Whatever the sort key, the listing is ordered by one of its own columns,
/// never by the key itself; and a key that the listing does not know orders
/// by the primary key.
pub proof fn lemma_task_order_is_listed(key: Seq<char>)
    ensures
        task_order(key) == by_column("t.name"@) || task_order(key) == by_column("site_name"@) || task_order(key) == by_column("brigade_name"@) || task_order(key) == by_column("t.period_start"@) || task_order(key) == by_column("t.expected_period_end"@) || task_order(key) == by_columns("t.actual_period_end"@, "t.brigade_id"@) || task_order(key) == by_column("t.id"@),
        key != "name"@ && key != "site"@ && key != "brigade"@ && key != "period_start"@ && key != "expected_period_end"@ && key != "status"@ ==> task_order(key) == by_column("t.id"@),
{
}

/// The condition on tasks of a status.
pub open spec fn task_status_condition(status: TaskStatus) -> Seq<char> {
    match status {
        TaskStatus::Completed => "t.actual_period_end IS NOT NULL"@,
        TaskStatus::InProgress => "t.actual_period_end IS NULL AND t.brigade_id IS NOT NULL"@,
        TaskStatus::Planned => "t.brigade_id IS NULL"@,
    }
}

/// The condition on tasks that have exceeded their deadline.
pub open spec fn exceeded_deadline_condition() -> Seq<char> {
    "((t.actual_period_end IS NOT NULL AND t.actual_period_end > t.expected_period_end) OR (t.actual_period_end IS NULL AND CURRENT_DATE > t.expected_period_end))"@
}

/// An optional date as an optional bound value.
pub open spec fn date_filter(v: Option<Date>) -> Option<SqlValueView> {
    match v {
        Some(d) => Some(SqlValueView::Date(d)),
        None => None,
    }
}

/// The conditions of the task listing: one for each field of the filter
/// that is present. The filter on the deadline only ever asks for the
/// tasks that have exceeded it: where it is `false`, it asks for nothing.
pub open spec fn task_conditions(filter: TaskListFilter) -> Seq<Seq<PieceView>> {
    when_present(pattern_filter(opt_text(filter.name)), "t.name ILIKE "@, ""@) + when_present(
        int_filter(filter.site_id),
        "t.site_id = "@,
        ""@,
    ) + when_present(int_filter(filter.brigade_id), "t.brigade_id = "@, ""@) + when_chosen(
        match filter.status {
            Some(status) => Some(task_status_condition(status)),
            None => None,
        },
    ) + when_present(date_filter(filter.date_from), "t.period_start >= "@, ""@) + when_present(
        date_filter(filter.date_to),
        "t.period_start <= "@,
        ""@,
    ) + when_chosen(
        if filter.exceeded_deadline == Some(true) {
            Some(exceeded_deadline_condition())
        } else {
            None
        },
    )
}

/// The conditions of the task listing.
pub fn task_predicates(filter: &TaskListFilter) -> (p: Predicates)
    ensures
        p@ == task_conditions(*filter),
{
    let mut p = Predicates::new();
    p.add_bound(filter_pattern(&filter.name), "t.name ILIKE ", "");
    p.add_bound(filter_int(filter.site_id), "t.site_id = ", "");
    p.add_bound(filter_int(filter.brigade_id), "t.brigade_id = ", "");
    p.add_chosen(
        match filter.status {
            Some(TaskStatus::Completed) => Some("t.actual_period_end IS NOT NULL"),
            Some(TaskStatus::InProgress) => Some(
                "t.actual_period_end IS NULL AND t.brigade_id IS NOT NULL",
            ),
            Some(TaskStatus::Planned) => Some("t.brigade_id IS NULL"),
            None => None,
        },
    );
    p.add_bound(
        match filter.date_from {
            Some(d) => Some(SqlValue::Date(d)),
            None => None,
        },
        "t.period_start >= ",
        "",
    );
    p.add_bound(
        match filter.date_to {
            Some(d) => Some(SqlValue::Date(d)),
            None => None,
        },
        "t.period_start <= ",
        "",
    );
    p.add_chosen(
        match filter.exceeded_deadline {
            Some(true) => Some(
                "((t.actual_period_end IS NOT NULL AND t.actual_period_end > t.expected_period_end) OR (t.actual_period_end IS NULL AND CURRENT_DATE > t.expected_period_end))",
            ),
            _ => None,
        },
    );
    assert(p@ =~= task_conditions(*filter));
    p
}

/// The listing of tasks: the count of the tasks that the filter admits,
/// and the page of them that `pagination` asks for, in the order that the
/// filter asks for.
pub fn tasks_list_queries(pagination: &Pagination, filter: &TaskListFilter) -> (l: Listing)
    ensures
        l@.count.statement == filtered(TASK_COUNT_SQL@, task_conditions(*filter)),
        l@.count.failure == "Error counting tasks: "@,
        l@.page.statement == paged(
            filtered(TASK_LIST_SQL@, task_conditions(*filter)),
            task_order(filter.sort.sort_by@),
            filter.sort.sort_direction,
            *pagination,
        ),
        l@.page.failure == "Error fetching tasks: "@,
{
    let conditions = task_predicates(filter);
    let count = Statement::filtered(TASK_COUNT_SQL, &conditions);
    let page = Statement::filtered(TASK_LIST_SQL, &conditions).paged(
        task_order_column(filter.sort.sort_by.as_str()),
        filter.sort.sort_direction,
        pagination,
    );
    Listing {
        count: Fetch { statement: count, failure: "Error counting tasks: " },
        page: Fetch { statement: page, failure: "Error fetching tasks: " },
    }
}

/// Whether a task has exceeded its deadline: a completed task if it ended
/// after the expected end, an open task if the day on which it was read is
/// after the expected end.
pub open spec fn deadline_exceeded(
    actual_period_end: Option<Date>,
    expected_period_end: Date,
    current_date: Date,
) -> bool {
    match actual_period_end {
        Some(end) => expected_period_end.spec_before(end),
        None => expected_period_end.spec_before(current_date),
    }
}

/// The item of the listing for a row that was read, with its status and
/// with whether it has exceeded its deadline.
pub fn task_list_item(row: TaskListRow) -> (item: TaskListItem)
    ensures
        item == (TaskListItem {
            id: row.id,
            name: row.name,
            site_id: row.site_id,
            site_name: row.site_name,
            brigade_id: row.brigade_id,
            brigadier_name: row.brigade_name,
            period_start: row.period_start,
            expected_period_end: row.expected_period_end,
            actual_period_end: row.actual_period_end,
            status: TaskStatus::spec_of(row.actual_period_end, row.brigade_id),
            deadline_exceeded: deadline_exceeded(
                row.actual_period_end,
                row.expected_period_end,
                row.current_date,
            ),
        }),
{
    let status = TaskStatus::of(row.actual_period_end, row.brigade_id);
    let exceeded = match row.actual_period_end {
        Some(end) => end.after(&row.expected_period_end),
        None => row.current_date.after(&row.expected_period_end),
    };
    TaskListItem {
        id: row.id,
        name: row.name,
        site_id: row.site_id,
        site_name: row.site_name,
        brigade_id: row.brigade_id,
        brigadier_name: row.brigade_name,
        period_start: row.period_start,
        expected_period_end: row.expected_period_end,
        actual_period_end: row.actual_period_end,
        status,
        deadline_exceeded: exceeded,
    }
}

/// The creation of a task: the checks on what the form refers to, the rule
/// on its dates, and the statement, which returns the new id.
pub fn task_create(form: &TaskCreateForm) -> (m: TaskMutation)
    ensures
        m@.guards == task_reference_guards(form.site_id, form.brigade_id, "/tasks/new"@),
        m@.refusal == task_period_refusal(
            form.period_start,
            form.expected_period_end,
            "/tasks/new"@,
        ),
        m@.statement == fixed(TASK_INSERT_SQL@).arg(SqlValueView::Text(form.name@)).arg(
            opt_text_value(opt_text(form.description)),
        ).arg(SqlValueView::Int(form.site_id)).arg(opt_int_value(form.brigade_id)).arg(
            SqlValueView::Date(form.period_start),
        ).arg(SqlValueView::Date(form.expected_period_end)),
{
    TaskMutation {
        guards: task_guards(form.site_id, form.brigade_id, "/tasks/new"),
        refusal: task_period_rule(
            &form.period_start,
            &form.expected_period_end,
            String::from_str("/tasks/new"),
        ),
        statement: Statement::new(TASK_INSERT_SQL).bind(SqlValue::text(form.name.as_str())).bind(
            SqlValue::opt_text(&form.description),
        ).bind(SqlValue::Int(form.site_id)).bind(SqlValue::opt_int(form.brigade_id)).bind(
            SqlValue::Date(form.period_start),
        ).bind(SqlValue::Date(form.expected_period_end)),
    }
}

/// The notification after the creation of a task was run: `inserted` is
/// the id that the statement returned, if it returned any.
pub fn task_create_outcome(form: &TaskCreateForm, inserted: Result<Option<i32>, String>) -> (n:
    NotificationTemplate)
    ensures
        n@ == created_note(
            answer_view(inserted),
            "Task '"@ + form.name@ + "' created successfully"@,
            "/tasks/"@,
            "Failed to create task: "@,
            "/tasks"@,
        ),
{
    created(
        inserted,
        join3("Task '", form.name.as_str(), "' created successfully"),
        "/tasks/",
        "Failed to create task: ",
        "/tasks",
    )
}

/// The read of a page of the materials of the task `id`.
pub fn task_materials_query(id: i32, pagination: &Pagination) -> (f: Fetch)
    ensures
        f@ == (FetchView {
            statement: fixed(TASK_MATERIALS_SQL@).arg(SqlValueView::Int(id)).arg(
                SqlValueView::BigInt(pagination.spec_limit() as i64),
            ).arg(SqlValueView::BigInt(pagination.spec_offset() as i64)),
            failure: "Error fetching task materials: "@,
        }),
{
    Fetch {
        statement: page_by_id(TASK_MATERIALS_SQL, id, pagination),
        failure: "Error fetching task materials: ",
    }
}

/// The statement that asks whether the material is booked on the task.
pub fn expenditure_exists_query(task_id: i32, material_id: i32) -> (s: Statement)
    ensures
        s@ == fixed(EXPENDITURE_EXISTS_SQL@).arg(SqlValueView::Int(task_id)).arg(
            SqlValueView::Int(material_id),
        ),
{
    by_id(EXPENDITURE_EXISTS_SQL, task_id).bind(SqlValue::Int(material_id))
}

/// The checks before a material is booked on the task `id`: the material
/// exists, and so does the task.
pub fn task_add_material_guards(id: i32, form: &TaskMaterialForm) -> (g: Vec<Guard>)
    ensures
        guards_view(g@) == seq![
            must_exist_or_note(
                "material"@,
                form.material_id,
                "Material with ID "@,
                "/tasks/"@ + int_text(id as int),
            ),
            must_exist_or_note("task"@, id, "Task with ID "@, "/tasks"@),
        ],
{
    let material = must_exist_or_notify(
        "material",
        form.material_id,
        "Material with ID ",
        path_of("/tasks/", id),
    );
    let task = must_exist_or_notify("task", id, "Task with ID ", String::from_str("/tasks"));
    let g = guard_also(guards_of(material), Some(task));
    assert(guards_view(g@) =~= seq![material@, task@]);
    g
}

/// Whether the material is known to be booked on the task already. Where
/// the question could not be answered, it is taken not to be.
pub open spec fn already_booked(exists: Result<bool, String>) -> bool {
    exists == Ok::<bool, String>(true)
}

/// The statement that books the material of the form on the task `id`: an
/// update of the expected amount where the material is booked already, an
/// insert where it is not.
pub fn task_add_material(id: i32, form: &TaskMaterialForm, exists: &Result<bool, String>) -> (s:
    Statement)
    ensures
        s@ == (if already_booked(*exists) {
            fixed(EXPENDITURE_EXPECTED_UPDATE_SQL@).arg(SqlValueView::Real(form.expected_amount)).arg(
                SqlValueView::Int(id),
            ).arg(SqlValueView::Int(form.material_id))
        } else {
            fixed(EXPENDITURE_INSERT_SQL@).arg(SqlValueView::Int(id)).arg(
                SqlValueView::Int(form.material_id),
            ).arg(SqlValueView::Real(form.expected_amount))
        }),
{
    let booked = match exists {
        Ok(flag) => *flag,
        Err(_) => false,
    };
    if booked {
        Statement::new(EXPENDITURE_EXPECTED_UPDATE_SQL).bind(
            SqlValue::Real(form.expected_amount),
        ).bind(SqlValue::Int(id)).bind(SqlValue::Int(form.material_id))
    } else {
        by_id(EXPENDITURE_INSERT_SQL, id).bind(SqlValue::Int(form.material_id)).bind(
            SqlValue::Real(form.expected_amount),
        )
    }
}

/// The notification after the booking of a material on the task `id` was
/// run.
pub fn task_add_material_outcome(id: i32, exists: &Result<bool, String>, result: Result<u64, String>)
    -> (n: NotificationTemplate)
    ensures
        n@ == (if already_booked(*exists) {
            written_note(
                answer_view(result),
                "Material expenditure updated successfully"@,
                "Failed to update material expenditure: "@,
                Some("/tasks/"@ + int_text(id as int)),
            )
        } else {
            written_note(
                answer_view(result),
                "Material expenditure added successfully"@,
                "Failed to add material expenditure: "@,
                Some("/tasks/"@ + int_text(id as int)),
            )
        }),
{
    let booked = match exists {
        Ok(flag) => *flag,
        Err(_) => false,
    };
    if booked {
        written(
            result,
            String::from_str("Material expenditure updated successfully"),
            "Failed to update material expenditure: ",
            Some(path_of("/tasks/", id)),
        )
    } else {
        written(
            result,
            String::from_str("Material expenditure added successfully"),
            "Failed to add material expenditure: ",
            Some(path_of("/tasks/", id)),
        )
    }
}

/// The update of the amount of a material that was used on a task: the
/// check that the material is booked on the task, and the statement.
pub fn task_update_material(task_id: i32, material_id: i32, form: &TaskMaterialUpdateForm) -> (m:
    Mutation)
    ensures
        m@.guards == seq![
            GuardView {
                probe: fixed(EXPENDITURE_EXISTS_SQL@).arg(SqlValueView::Int(task_id)).arg(
                    SqlValueView::Int(material_id),
                ),
                pass_on: true,
                refusal: refuse_note(
                    "Material with ID "@ + int_text(material_id as int) + NOT_BOOKED@,
                    Some("/tasks/"@ + int_text(task_id as int)),
                ),
                failure: None,
            },
        ],
        m@.statement == fixed(EXPENDITURE_ACTUAL_UPDATE_SQL@).arg(
            SqlValueView::Real(form.actual_amount),
        ).arg(SqlValueView::Int(task_id)).arg(SqlValueView::Int(material_id)),
{
    Mutation {
        guards: guards_of(
            Guard {
                probe: expenditure_exists_query(task_id, material_id),
                pass_on: true,
                refusal: Reply::refuse(
                    around_i32("Material with ID ", material_id, NOT_BOOKED),
                    Some(path_of("/tasks/", task_id)),
                ),
                failure: None,
            },
        ),
        statement: Statement::new(EXPENDITURE_ACTUAL_UPDATE_SQL).bind(
            SqlValue::Real(form.actual_amount),
        ).bind(SqlValue::Int(task_id)).bind(SqlValue::Int(material_id)),
    }
}

/// The notification after the update of a used amount was run.
pub fn task_update_material_outcome(task_id: i32, result: Result<u64, String>) -> (n:
    NotificationTemplate)
    ensures
        n@ == written_note(
            answer_view(result),
            "Material usage updated successfully"@,
            "Failed to update material usage: "@,
            Some("/tasks/"@ + int_text(task_id as int)),
        ),
{
    written(
        result,
        String::from_str("Material usage updated successfully"),
        "Failed to update material usage: ",
        Some(path_of("/tasks/", task_id)),
    )
}

/// The statement that reads the start and the expected end of the task
/// `id`.
pub fn task_period_query(id: i32) -> (s: Statement)
    ensures
        s@ == fixed(TASK_PERIOD_SQL@).arg(SqlValueView::Int(id)),
{
    by_id(TASK_PERIOD_SQL, id)
}

/// The start and the expected end of a task.
#[derive(Clone, Copy, Debug, PartialEq, Eq, Structural)]
pub struct TaskPeriod {
    pub period_start: Date,
    pub expected_period_end: Date,
}

/// The completion of a task that nothing stands against: the statement
/// that records its actual end, and the period that was read for it.
#[derive(Clone, Debug, PartialEq, Eq)]
pub struct TaskCompletion {
    pub statement: Statement,
    pub period: TaskPeriod,
}

/// What stands against the completion of the task `id`, if anything: that
/// there is no such task, that its period could not be read, or that the
/// form ends it before it started.
pub open spec fn task_complete_refusal(
    id: i32,
    form: TaskCompleteForm,
    fetched: Result<Option<TaskPeriod>, Seq<char>>,
) -> Option<NotificationView> {
    match fetched {
        Ok(Some(period)) => if form.actual_period_end.spec_before(period.period_start) {
            Some(
                error_note(
                    "Completion date cannot be before the start date"@,
                    Some("/tasks/"@ + int_text(id as int)),
                ),
            )
        } else {
            None
        },
        Ok(None) => Some(
            error_note(
                "Task with ID "@ + int_text(id as int) + " does not exist"@,
                Some("/tasks"@),
            ),
        ),
        Err(e) => Some(
            error_note("Failed to fetch task: "@ + e, Some("/tasks/"@ + int_text(id as int))),
        ),
    }
}

/// The completion of the task `id`, whose period was read as `fetched`:
/// the statement that records the actual end, with that period, or the
/// notification of what stands against it.
pub fn task_complete(id: i32, form: &TaskCompleteForm, fetched: Result<Option<TaskPeriod>, String>)
    -> (r: Result<TaskCompletion, NotificationTemplate>)
    ensures
        match task_complete_refusal(id, *form, answer_view(fetched)) {
            Some(refusal) => r is Err && r->Err_0@ == refusal,
            None => r is Ok && r->Ok_0.statement@ == fixed(TASK_COMPLETE_SQL@).arg(
                SqlValueView::Date(form.actual_period_end),
            ).arg(SqlValueView::Int(id)) && fetched == Ok::<Option<TaskPeriod>, String>(
                Some(r->Ok_0.period),
            ),
        },
{
    match fetched {
        Ok(Some(period)) => if form.actual_period_end.before(&period.period_start) {
            Err(
                NotificationTemplate::error(
                    String::from_str("Completion date cannot be before the start date"),
                    Some(path_of("/tasks/", id)),
                ),
            )
        } else {
            Ok(
                TaskCompletion {
                    statement: Statement::new(TASK_COMPLETE_SQL).bind(
                        SqlValue::Date(form.actual_period_end),
                    ).bind(SqlValue::Int(id)),
                    period,
                },
            )
        },
        Ok(None) => Err(
            NotificationTemplate::error(
                around_i32("Task with ID ", id, " does not exist"),
                Some(String::from_str("/tasks")),
            ),
        ),
        Err(e) => Err(
            NotificationTemplate::error(
                join2("Failed to fetch task: ", e.as_str()),
                Some(path_of("/tasks/", id)),
            ),
        ),
    }
}

/// The notification after the completion of the task `id` was run: the
/// message of success says so where the task ended after its expected end.
pub fn task_complete_outcome(
    id: i32,
    form: &TaskCompleteForm,
    period: &TaskPeriod,
    result: Result<u64, String>,
) -> (n: NotificationTemplate)
    ensures
        n@ == written_note(
            answer_view(result),
            if period.expected_period_end.spec_before(form.actual_period_end) {
                "Task marked as completed (deadline exceeded)"@
            } else {
                "Task marked as completed"@
            },
            "Failed to complete task: "@,
            Some("/tasks/"@ + int_text(id as int)),
        ),
{
    let message = if form.actual_period_end.after(&period.expected_period_end) {
        String::from_str("Task marked as completed (deadline exceeded)")
    } else {
        String::from_str("Task marked as completed")
    };
    written(result, message, "Failed to complete task: ", Some(path_of("/tasks/", id)))
}

} // verus!
