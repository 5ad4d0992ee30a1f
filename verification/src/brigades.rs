//! Brigades: the statements and replies of their pages, their listing,
//! their mutations and their membership.

use crate::flow::{
    answer_view, created, created_note, Fetch, FetchView, Guard, guards_of, Listing, Mutation,
    path_of, refuse_note, strict, written, written_note,
};
use crate::general::{
    error_note, NotificationTemplate, Pagination, paragraph, paragraph_about, paragraph_about_id,
    Profession, QueryInfo, Reply, ReplyView, Sort, success_note,
};
use crate::sql::{
    by_column, by_id, exists_by_id, exists_sql, filter_int, filter_pattern, filtered, fixed,
    int_filter, Order, OrderView, page_by_id, paged, pattern_filter, PieceView, Predicates,
    SqlValue, SqlValueView, Statement, when_present,
};
use crate::text::{around_i32, int_text, join2, join3, opt_text, str_eq};
use crate::transaction::{
    Failure, FailureView, Next, NextView, Stage, StageView, step, Step, StepView,
};
use crate::values::DateTime;
use vstd::prelude::*;
use vstd::string::*;

verus! {

/// The tab of a brigade's details that is shown.
#[derive(Clone, Copy, Debug, PartialEq, Eq, Structural)]
pub enum BrigadeTab {
    Workers,
    Tasks,
    Current,
}

#[derive(Clone, Copy, Debug, PartialEq, Eq, Structural)]
pub struct BrigadesListTemplate;

#[derive(Clone, Copy, Debug, PartialEq, Eq, Structural)]
pub struct BrigadeDetailsTemplate {
    pub id: i32,
}

#[derive(Clone, Copy, Debug, PartialEq, Eq, Structural)]
pub struct BrigadeNewTemplate;

#[derive(Clone, Debug, PartialEq, Eq)]
pub struct BrigadeEditTemplate {
    pub id: i32,
    pub brigadier_id: i32,
    pub brigadier_name: String,
}

#[derive(Clone, Copy, Debug, PartialEq, Eq, Structural)]
pub struct BrigadeTabQuery {
    pub tab: BrigadeTab,
}

#[derive(Clone, Debug, PartialEq, Eq)]
pub struct BrigadeApiDetailsTemplate {
    pub id: i32,
    pub brigadier_id: i32,
    pub brigadier_name: String,
    pub worker_count: i32,
    pub current_task_id: Option<i32>,
    pub current_task_name: Option<String>,
    pub current_site_id: Option<i32>,
    pub current_site_name: Option<String>,
    pub tab: BrigadeTab,
}

#[derive(Clone, Copy, Debug, PartialEq, Eq, Structural)]
pub struct BrigadeUpdateForm {
    pub brigadier_id: i32,
}

#[derive(Clone, Copy, Debug, PartialEq, Eq, Structural)]
pub struct BrigadeCreateForm {
    pub brigadier_id: i32,
}

#[derive(Clone, Debug, PartialEq, Eq)]
pub struct BrigadeListFilter {
    pub sort: Sort,
    pub brigadier_id: Option<i32>,
    pub site_id: Option<i32>,
    pub task_name: Option<String>,
}

#[derive(Clone, Debug, PartialEq, Eq)]
pub struct BrigadeListTemplate {
    pub brigades: Vec<BrigadeListItem>,
    pub pagination: Pagination,
    pub query_info: QueryInfo,
}

#[derive(Clone, Debug, PartialEq, Eq)]
pub struct BrigadeListItem {
    pub id: i32,
    pub brigadier_id: i32,
    pub brigadier_name: String,
    pub worker_count: i32,
    pub current_site_id: Option<i32>,
    pub current_site_name: Option<String>,
}

#[derive(Clone, Debug, PartialEq, Eq)]
pub struct BrigadeWorkersTemplate {
    pub id: i32,
    pub workers: Vec<WorkerListItem>,
    pub pagination: Pagination,
}

#[derive(Clone, Debug, PartialEq, Eq)]
pub struct WorkerListItem {
    pub id: i32,
    pub name: String,
    pub profession: Profession,
    pub is_brigadier: bool,
}

#[derive(Clone, Copy, Debug, PartialEq, Eq, Structural)]
pub struct WorkerAddForm {
    pub worker_id: i32,
}

#[derive(Clone, Debug, PartialEq, Eq)]
pub struct BrigadeTasksTemplate {
    pub id: i32,
    pub tasks: Vec<TaskListItem>,
    pub pagination: Pagination,
}

#[derive(Clone, Debug, PartialEq, Eq)]
pub struct TaskListItem {
    pub id: i32,
    pub name: String,
    pub site_id: i32,
    pub site_name: String,
    pub period_start: DateTime,
    pub period_end: Option<DateTime>,
    pub status: String,
}

/// The row of a brigade with the name of its brigadier.
#[derive(Clone, Debug, PartialEq, Eq)]
pub struct BrigadierData {
    pub id: i32,
    pub brigadier_name: String,
}

/// The row of a brigade with its current task and site.
#[derive(Clone, Debug, PartialEq, Eq)]
pub struct BrigadeDetails {
    pub id: i32,
    pub brigadier_id: i32,
    pub brigadier_name: String,
    pub worker_count: i32,
    pub current_task_id: Option<i32>,
    pub current_task_name: Option<String>,
    pub current_site_id: Option<i32>,
    pub current_site_name: Option<String>,
}

pub const BRIGADE_EDIT_SQL: &'static str =
    "SELECT b.id, CONCAT(e.last_name, ' ', e.first_name) as brigadier_name 
         FROM brigade b
         JOIN worker w ON b.brigadier_id = w.id
         JOIN employee e ON w.id = e.id
         WHERE b.id = $1";

pub const BRIGADIER_ID_SQL: &'static str = "SELECT brigadier_id FROM brigade WHERE id = $1";

pub const BRIGADE_DETAILS_SQL: &'static str =
    "SELECT 
            b.id, 
            b.brigadier_id, 
            CONCAT(e.last_name, ' ', e.first_name) as brigadier_name,
            (SELECT COUNT(*) FROM assignment a WHERE a.brigade_id = b.id) as worker_count,
            t.id as current_task_id,
            t.name as current_task_name,
            s.id as current_site_id,
            s.name as current_site_name
        FROM brigade b
        JOIN worker w ON b.brigadier_id = w.id
        JOIN employee e ON w.id = e.id
        LEFT JOIN LATERAL (
            SELECT t.* 
            FROM task t 
            WHERE t.brigade_id = b.id AND t.actual_period_end IS NULL
            ORDER BY t.period_start DESC
            LIMIT 1
        ) t ON TRUE
        LEFT JOIN site s ON t.site_id = s.id
        WHERE b.id = $1";

pub const BRIGADIER_FREE_ELSEWHERE_SQL: &'static str =
    "SELECT EXISTS (
            SELECT 1 FROM worker WHERE id = $1 AND 
            NOT EXISTS (SELECT 1 FROM brigade WHERE brigadier_id = $1 AND id != $2)
        )";

pub const BRIGADIER_FREE_SQL: &'static str =
    "SELECT EXISTS (
            SELECT 1 FROM worker WHERE id = $1 AND 
            NOT EXISTS (SELECT 1 FROM brigade WHERE brigadier_id = $1)
        )";

pub const WORKER_UNASSIGNED_SQL: &'static str =
    "SELECT EXISTS (
            SELECT 1 FROM worker WHERE id = $1 AND 
            NOT EXISTS (SELECT 1 FROM assignment WHERE worker_id = $1)
        )";

pub const IS_BRIGADIER_OF_SQL: &'static str =
    "SELECT EXISTS (
            SELECT 1 FROM brigade
            WHERE id = $1 AND brigadier_id = $2
        )";

pub const BRIGADE_UPDATE_SQL: &'static str = "UPDATE brigade SET brigadier_id = $1 WHERE id = $2";

pub const BRIGADE_INSERT_SQL: &'static str =
    "INSERT INTO brigade (brigadier_id) VALUES ($1) RETURNING id";

pub const BRIGADE_DELETE_SQL: &'static str = "DELETE FROM brigade WHERE id = $1";

pub const BRIGADE_ASSIGNMENTS_DELETE_SQL: &'static str =
    "DELETE FROM assignment WHERE brigade_id = $1";

pub const BRIGADE_HAS_ACTIVE_TASKS_SQL: &'static str =
    "SELECT EXISTS (
            SELECT 1 FROM task 
            WHERE brigade_id = $1 AND actual_period_end IS NULL
        )";

pub const EMPLOYEE_NAME_SQL: &'static str =
    "SELECT CONCAT(e.last_name, ' ', e.first_name) 
                 FROM employee e 
                 WHERE e.id = $1";

pub const MEMBER_INSERT_SQL: &'static str =
    "INSERT INTO assignment (brigade_id, worker_id) VALUES ($1, $2)";

pub const MEMBER_DELETE_SQL: &'static str =
    "DELETE FROM assignment WHERE brigade_id = $1 AND worker_id = $2";

pub const BRIGADE_LIST_SQL: &'static str =
    "SELECT 
            b.id, 
            b.brigadier_id,
            CONCAT(e.last_name, ' ', e.first_name) as brigadier_name,
            (SELECT COUNT(*) FROM assignment a WHERE a.brigade_id = b.id) as worker_count,
            s.id as current_site_id,
            s.name as current_site_name
        FROM brigade b
        JOIN worker w ON b.brigadier_id = w.id
        JOIN employee e ON w.id = e.id
        LEFT JOIN LATERAL (
            SELECT t.site_id, s.name as site_name
            FROM task t 
            JOIN site s ON t.site_id = s.id
            WHERE t.brigade_id = b.id AND t.actual_period_end IS NULL
            ORDER BY t.period_start DESC
            LIMIT 1
        ) ts ON TRUE
        LEFT JOIN site s ON ts.site_id = s.id";

pub const BRIGADE_WORKERS_SQL: &'static str =
    "SELECT 
                    w.id, 
                    CONCAT(e.last_name, ' ', e.first_name) as name,
                    w.profession,
                    (b.brigadier_id = w.id) as is_brigadier
                FROM worker w
                JOIN employee e ON w.id = e.id
                JOIN assignment a ON a.worker_id = w.id
                JOIN brigade b ON a.brigade_id = b.id
                WHERE b.id = $1
                ORDER BY is_brigadier DESC, name
                LIMIT $2 OFFSET $3";

pub const BRIGADE_WORKER_COUNT_SQL: &'static str =
    "SELECT COUNT(*) 
                 FROM assignment 
                 WHERE brigade_id = $1";

pub const BRIGADE_TASKS_SQL: &'static str =
    "SELECT 
                    t.id,
                    t.name,
                    t.site_id,
                    s.name as site_name,
                    t.period_start,
                    t.actual_period_end as period_end,
                    CASE
                        WHEN t.actual_period_end IS NULL THEN 'In Progress'
                        ELSE 'Completed'
                    END as status
                FROM task t
                JOIN site s ON t.site_id = s.id
                WHERE t.brigade_id = $1
                ORDER BY 
                    CASE WHEN t.actual_period_end IS NULL THEN 0 ELSE 1 END,
                    t.period_start DESC
                LIMIT $2 OFFSET $3";

pub const BRIGADE_TASK_COUNT_SQL: &'static str =
    "SELECT COUNT(*) 
                 FROM task 
                 WHERE brigade_id = $1";

/// The read behind the edit form of the brigade `id`.
pub fn brigade_edit_query(id: i32) -> (f: Fetch)
    ensures
        f@ == (FetchView {
            statement: fixed(BRIGADE_EDIT_SQL@).arg(SqlValueView::Int(id)),
            failure: "Error fetching brigade: "@,
        }),
{
    Fetch { statement: by_id(BRIGADE_EDIT_SQL, id), failure: "Error fetching brigade: " }
}

/// The brigade that was read for its edit form; or the paragraph that says
/// that there is no brigade `id`, or that the read failed.
pub fn brigade_found(id: i32, fetched: Result<Option<BrigadierData>, String>) -> (r: Result<
    BrigadierData,
    String,
>)
    ensures
        match fetched {
            Ok(Some(row)) => r == Ok::<BrigadierData, String>(row),
            Ok(None) => r is Err && r->Err_0@ == paragraph_about(
                "Brigade with ID "@,
                id as int,
                " not found"@,
            ),
            Err(e) => r is Err && r->Err_0@ == paragraph("Error fetching brigade: "@, e@),
        },
{
    brigade_edit_query(id).row(fetched, id, "Brigade with ID ", " not found")
}

/// The read of the id of the brigadier of the brigade `id`.
pub fn brigadier_id_query(id: i32) -> (f: Fetch)
    ensures
        f@ == (FetchView {
            statement: fixed(BRIGADIER_ID_SQL@).arg(SqlValueView::Int(id)),
            failure: "Error fetching brigadier ID: "@,
        }),
{
    Fetch { statement: by_id(BRIGADIER_ID_SQL, id), failure: "Error fetching brigadier ID: " }
}

/// The edit form of a brigade and the id of its brigadier; or the
/// paragraph that reports that the read of that id failed.
pub fn brigade_edit_page(brigade: BrigadierData, brigadier_id: Result<i32, String>) -> (r: Result<
    BrigadeEditTemplate,
    String,
>)
    ensures
        match brigadier_id {
            Ok(b) => r == Ok::<BrigadeEditTemplate, String>(
                BrigadeEditTemplate {
                    id: brigade.id,
                    brigadier_id: b,
                    brigadier_name: brigade.brigadier_name,
                },
            ),
            Err(e) => r is Err && r->Err_0@ == paragraph("Error fetching brigadier ID: "@, e@),
        },
{
    match brigadier_id_query(brigade.id).value(brigadier_id) {
        Ok(b) => Ok(
            BrigadeEditTemplate {
                id: brigade.id,
                brigadier_id: b,
                brigadier_name: brigade.brigadier_name,
            },
        ),
        Err(html) => Err(html),
    }
}

/// The read behind the details of the brigade `id`.
pub fn brigade_api_details_query(id: i32) -> (f: Fetch)
    ensures
        f@ == (FetchView {
            statement: fixed(BRIGADE_DETAILS_SQL@).arg(SqlValueView::Int(id)),
            failure: "Error fetching brigade details: "@,
        }),
{
    Fetch { statement: by_id(BRIGADE_DETAILS_SQL, id), failure: "Error fetching brigade details: " }
}

/// The details of the brigade `id` under the tab `tab` for the row that
/// was read; or the paragraph that says that there is no such brigade, or
/// that the read failed.
pub fn brigade_api_details_page(
    id: i32,
    tab: BrigadeTab,
    fetched: Result<Option<BrigadeDetails>, String>,
) -> (r: Result<BrigadeApiDetailsTemplate, String>)
    ensures
        match fetched {
            Ok(Some(row)) => r == Ok::<BrigadeApiDetailsTemplate, String>(
                BrigadeApiDetailsTemplate {
                    id: row.id,
                    brigadier_id: row.brigadier_id,
                    brigadier_name: row.brigadier_name,
                    worker_count: row.worker_count,
                    current_task_id: row.current_task_id,
                    current_task_name: row.current_task_name,
                    current_site_id: row.current_site_id,
                    current_site_name: row.current_site_name,
                    tab,
                },
            ),
            Ok(None) => r is Err && r->Err_0@ == paragraph_about(
                "Brigade with ID "@,
                id as int,
                " not found"@,
            ),
            Err(e) => r is Err && r->Err_0@ == paragraph("Error fetching brigade details: "@, e@),
        },
{
    match brigade_api_details_query(id).row(fetched, id, "Brigade with ID ", " not found") {
        Ok(row) => Ok(
            BrigadeApiDetailsTemplate {
                id: row.id,
                brigadier_id: row.brigadier_id,
                brigadier_name: row.brigadier_name,
                worker_count: row.worker_count,
                current_task_id: row.current_task_id,
                current_task_name: row.current_task_name,
                current_site_id: row.current_site_id,
                current_site_name: row.current_site_name,
                tab,
            },
        ),
        Err(html) => Err(html),
    }
}

/// The statement that reads the name of the employee `id`, for a
/// notification.
pub fn employee_name_query(id: i32) -> (s: Statement)
    ensures
        s@ == fixed(EMPLOYEE_NAME_SQL@).arg(SqlValueView::Int(id)),
{
    by_id(EMPLOYEE_NAME_SQL, id)
}

/// The name of a worker as a notification gives it: the name that was
/// read, or `Unknown worker` where none was read.
pub open spec fn shown_name(fetched: Result<Option<String>, String>) -> Seq<char> {
    match fetched {
        Ok(Some(name)) => name@,
        _ => "Unknown worker"@,
    }
}

/// The name of a worker as a notification gives it.
pub fn worker_name(fetched: Result<Option<String>, String>) -> (name: String)
    ensures
        name@ == shown_name(fetched),
{
    match fetched {
        Ok(Some(name)) => name,
        _ => String::from_str("Unknown worker"),
    }
}

/// The update of the brigade `id`: the check that the new brigadier is a
/// worker who leads no other brigade, and the statement.
pub fn brigade_update(id: i32, form: &BrigadeUpdateForm) -> (m: Mutation)
    ensures
        m@.guards == seq![
            strict(
                fixed(BRIGADIER_FREE_ELSEWHERE_SQL@).arg(SqlValueView::Int(form.brigadier_id)).arg(
                    SqlValueView::Int(id),
                ),
                true,
                refuse_note(
                    "Worker does not exist or is already a brigadier in another brigade"@,
                    Some("/brigades/"@ + int_text(id as int) + "/edit"@),
                ),
                "Error checking worker: "@,
            ),
        ],
        m@.statement == fixed(BRIGADE_UPDATE_SQL@).arg(SqlValueView::Int(form.brigadier_id)).arg(
            SqlValueView::Int(id),
        ),
{
    Mutation {
        guards: guards_of(
            Guard::strict(
                by_id(BRIGADIER_FREE_ELSEWHERE_SQL, form.brigadier_id).bind(SqlValue::Int(id)),
                true,
                Reply::refuse(
                    String::from_str(
                        "Worker does not exist or is already a brigadier in another brigade",
                    ),
                    Some(around_i32("/brigades/", id, "/edit")),
                ),
                "Error checking worker: ",
            ),
        ),
        statement: by_id(BRIGADE_UPDATE_SQL, form.brigadier_id).bind(SqlValue::Int(id)),
    }
}

/// The notification after the update of the brigade `id` was run; `name`
/// is what the read of the new brigadier's name gave.
pub fn brigade_update_outcome(
    id: i32,
    result: Result<u64, String>,
    name: Result<Option<String>, String>,
) -> (n: NotificationTemplate)
    ensures
        n@ == written_note(
            answer_view(result),
            "Brigade updated with new brigadier: "@ + shown_name(name),
            "Failed to update brigade: "@,
            Some("/brigades/"@ + int_text(id as int)),
        ),
{
    written(
        result,
        join2("Brigade updated with new brigadier: ", worker_name(name).as_str()),
        "Failed to update brigade: ",
        Some(path_of("/brigades/", id)),
    )
}

/// The check before a brigade is deleted: a brigade with tasks that are
/// not completed stays.
pub fn brigade_delete_guard(id: i32) -> (g: Guard)
    ensures
        g@ == strict(
            fixed(BRIGADE_HAS_ACTIVE_TASKS_SQL@).arg(SqlValueView::Int(id)),
            false,
            refuse_note(
                "Cannot delete brigade with active tasks"@,
                Some("/brigades/"@ + int_text(id as int)),
            ),
            "Error checking for active tasks: "@,
        ),
{
    Guard::strict(
        by_id(BRIGADE_HAS_ACTIVE_TASKS_SQL, id),
        false,
        Reply::refuse(
            String::from_str("Cannot delete brigade with active tasks"),
            Some(path_of("/brigades/", id)),
        ),
        "Error checking for active tasks: ",
    )
}

/// The transaction that deletes the brigade `id`: its assignments, then
/// the brigade; committed with a notification of success. A failure of the
/// first statement is reported in a paragraph, one of the second in a
/// notification.
pub fn brigade_delete_stage(id: i32) -> (s: Stage)
    ensures
        s@ == (StageView {
            steps: seq![
                step(
                    fixed(BRIGADE_ASSIGNMENTS_DELETE_SQL@).arg(SqlValueView::Int(id)),
                    "Error removing assignments: "@,
                ),
                StepView {
                    statement: fixed(BRIGADE_DELETE_SQL@).arg(SqlValueView::Int(id)),
                    failure: FailureView::Notification {
                        before: "Failed to delete brigade: "@,
                        redirect: Some("/brigades/"@ + int_text(id as int)),
                    },
                },
            ],
            next: NextView::Commit(success_note("Brigade successfully deleted"@, Some("/brigades"@))),
        }),
{
    let mut steps: Vec<Step> = Vec::new();
    steps.push(Step::new(by_id(BRIGADE_ASSIGNMENTS_DELETE_SQL, id), "Error removing assignments: "));
    steps.push(
        Step {
            statement: by_id(BRIGADE_DELETE_SQL, id),
            failure: Failure::Notification {
                before: "Failed to delete brigade: ",
                redirect: Some(path_of("/brigades/", id)),
            },
        },
    );
    let s = Stage {
        steps,
        next: Next::Commit(
            NotificationTemplate::success(
                String::from_str("Brigade successfully deleted"),
                Some(String::from_str("/brigades")),
            ),
        ),
    };
    assert(s@.steps =~= seq![s.steps@[0]@, s.steps@[1]@]);
    s
}

/// The order that a sort key of the brigade listing stands for. A key
/// that the listing does not know orders by the primary key.
pub open spec fn brigade_order(key: Seq<char>) -> OrderView {
    if key == "brigadier_name"@ {
        by_column("brigadier_name"@)
    } else if key == "worker_count"@ {
        by_column("worker_count"@)
    } else {
        by_column("b.id"@)
    }
}

/// The order that a sort key of the brigade listing stands for.
pub fn brigade_order_column(key: &str) -> (order: Order)
    ensures
        order@ == brigade_order(key@),
{
    if str_eq(key, "brigadier_name") {
        Order::by_column("brigadier_name")
    } else if str_eq(key, "worker_count") {
        Order::by_column("worker_count")
    } else {
        Order::by_column("b.id")
    }
}

/// Whatever the sort key, the listing is ordered by one of its own columns,
/// never by the key itself; and a key that the listing does not know orders
/// by the primary key.
pub proof fn lemma_brigade_order_is_listed(key: Seq<char>)
    ensures
        brigade_order(key) == by_column("brigadier_name"@) || brigade_order(key) == by_column("worker_count"@) || brigade_order(key) == by_column("b.id"@),
        key != "brigadier_name"@ && key != "worker_count"@ ==> brigade_order(key) == by_column("b.id"@),
{
}

/// The conditions of the brigade listing: one for each field of the filter
/// that is present.
pub open spec fn brigade_conditions(filter: BrigadeListFilter) -> Seq<Seq<PieceView>> {
    when_present(int_filter(filter.brigadier_id), "b.brigadier_id = "@, ""@) + when_present(
        int_filter(filter.site_id),
        "EXISTS (SELECT 1 FROM task t WHERE t.brigade_id = b.id AND t.site_id = "@,
        ")"@,
    ) + when_present(
        pattern_filter(opt_text(filter.task_name)),
        "EXISTS (SELECT 1 FROM task t WHERE t.brigade_id = b.id AND t.name ILIKE "@,
        ")"@,
    )
}

/// The conditions of the brigade listing.
pub fn brigade_predicates(filter: &BrigadeListFilter) -> (p: Predicates)
    ensures
        p@ == brigade_conditions(*filter),
{
    let mut p = Predicates::new();
    p.add_bound(filter_int(filter.brigadier_id), "b.brigadier_id = ", "");
    p.add_bound(
        filter_int(filter.site_id),
        "EXISTS (SELECT 1 FROM task t WHERE t.brigade_id = b.id AND t.site_id = ",
        ")",
    );
    p.add_bound(
        filter_pattern(&filter.task_name),
        "EXISTS (SELECT 1 FROM task t WHERE t.brigade_id = b.id AND t.name ILIKE ",
        ")",
    );
    assert(p@ =~= brigade_conditions(*filter));
    p
}

/// The listing of brigades: the count of the brigades that the filter
/// admits, and the page of them that `pagination` asks for, in the order
/// that the filter asks for.
pub fn brigades_list_queries(pagination: &Pagination, filter: &BrigadeListFilter) -> (l: Listing)
    ensures
        l@.count.statement == filtered(BRIGADE_LIST_SQL@, brigade_conditions(*filter)).wrapped(
            "SELECT COUNT(*) FROM ("@,
            ") as count_query"@,
        ),
        l@.count.failure == "Error counting brigades: "@,
        l@.page.statement == paged(
            filtered(BRIGADE_LIST_SQL@, brigade_conditions(*filter)),
            brigade_order(filter.sort.sort_by@),
            filter.sort.sort_direction,
            *pagination,
        ),
        l@.page.failure == "Error fetching brigades: "@,
{
    let rows = Statement::filtered(BRIGADE_LIST_SQL, &brigade_predicates(filter));
    let count = rows.wrap("SELECT COUNT(*) FROM (", ") as count_query");
    let page = rows.paged(
        brigade_order_column(filter.sort.sort_by.as_str()),
        filter.sort.sort_direction,
        pagination,
    );
    Listing {
        count: Fetch { statement: count, failure: "Error counting brigades: " },
        page: Fetch { statement: page, failure: "Error fetching brigades: " },
    }
}

/// The creation of a brigade: the check that its brigadier is a worker who
/// leads no brigade, and the statement, which returns the new id.
pub fn brigade_create(form: &BrigadeCreateForm) -> (m: Mutation)
    ensures
        m@.guards == seq![
            strict(
                fixed(BRIGADIER_FREE_SQL@).arg(SqlValueView::Int(form.brigadier_id)),
                true,
                refuse_note(
                    "Worker does not exist or is already a brigadier"@,
                    Some("/brigades/new"@),
                ),
                "Error checking worker: "@,
            ),
        ],
        m@.statement == fixed(BRIGADE_INSERT_SQL@).arg(SqlValueView::Int(form.brigadier_id)),
{
    Mutation {
        guards: guards_of(
            Guard::strict(
                by_id(BRIGADIER_FREE_SQL, form.brigadier_id),
                true,
                Reply::refuse(
                    String::from_str("Worker does not exist or is already a brigadier"),
                    Some(String::from_str("/brigades/new")),
                ),
                "Error checking worker: ",
            ),
        ),
        statement: by_id(BRIGADE_INSERT_SQL, form.brigadier_id),
    }
}

/// The notification after the creation of a brigade was run: `inserted`
/// is the id that the statement returned, if it returned any, and `name`
/// is what the read of the brigadier's name gave.
pub fn brigade_create_outcome(
    inserted: Result<Option<i32>, String>,
    name: Result<Option<String>, String>,
) -> (n: NotificationTemplate)
    ensures
        n@ == created_note(
            answer_view(inserted),
            "Brigade with brigadier "@ + shown_name(name) + " created successfully"@,
            "/brigades/"@,
            "Failed to create brigade: "@,
            "/brigades"@,
        ),
{
    created(
        inserted,
        join3("Brigade with brigadier ", worker_name(name).as_str(), " created successfully"),
        "/brigades/",
        "Failed to create brigade: ",
        "/brigades",
    )
}

/// The check before the rows that belong to the brigade `id` are listed:
/// the brigade exists.
pub fn brigade_exists_guard(id: i32) -> (g: Guard)
    ensures
        g@ == strict(
            fixed(exists_sql("brigade"@)).arg(SqlValueView::Int(id)),
            true,
            ReplyView::Html(paragraph_about("Brigade with ID "@, id as int, " does not exist"@)),
            "Error checking brigade: "@,
        ),
{
    Guard::strict(
        exists_by_id("brigade", id),
        true,
        Reply::Html(paragraph_about_id("Brigade with ID ", id, " does not exist")),
        "Error checking brigade: ",
    )
}

/// The reads of the members of the brigade `id`: a page of them, and
/// their number.
pub fn brigade_workers_queries(id: i32, pagination: &Pagination) -> (l: Listing)
    ensures
        l@.page == (FetchView {
            statement: fixed(BRIGADE_WORKERS_SQL@).arg(SqlValueView::Int(id)).arg(
                SqlValueView::BigInt(pagination.spec_limit() as i64),
            ).arg(SqlValueView::BigInt(pagination.spec_offset() as i64)),
            failure: "Error fetching workers: "@,
        }),
        l@.count == (FetchView {
            statement: fixed(BRIGADE_WORKER_COUNT_SQL@).arg(SqlValueView::Int(id)),
            failure: "Error counting workers: "@,
        }),
{
    Listing {
        count: Fetch {
            statement: by_id(BRIGADE_WORKER_COUNT_SQL, id),
            failure: "Error counting workers: ",
        },
        page: Fetch {
            statement: page_by_id(BRIGADE_WORKERS_SQL, id, pagination),
            failure: "Error fetching workers: ",
        },
    }
}

/// The reads of the tasks of the brigade `id`: a page of them, and their
/// number.
pub fn brigade_tasks_queries(id: i32, pagination: &Pagination) -> (l: Listing)
    ensures
        l@.page == (FetchView {
            statement: fixed(BRIGADE_TASKS_SQL@).arg(SqlValueView::Int(id)).arg(
                SqlValueView::BigInt(pagination.spec_limit() as i64),
            ).arg(SqlValueView::BigInt(pagination.spec_offset() as i64)),
            failure: "Error fetching tasks: "@,
        }),
        l@.count == (FetchView {
            statement: fixed(BRIGADE_TASK_COUNT_SQL@).arg(SqlValueView::Int(id)),
            failure: "Error counting tasks: "@,
        }),
{
    Listing {
        count: Fetch { statement: by_id(BRIGADE_TASK_COUNT_SQL, id), failure: "Error counting tasks: " },
        page: Fetch {
            statement: page_by_id(BRIGADE_TASKS_SQL, id, pagination),
            failure: "Error fetching tasks: ",
        },
    }
}

/// The addition of a worker to the brigade `id`: the check that the worker
/// exists and is in no brigade, and the statement.
pub fn worker_add(id: i32, form: &WorkerAddForm) -> (m: Mutation)
    ensures
        m@.guards == seq![
            strict(
                fixed(WORKER_UNASSIGNED_SQL@).arg(SqlValueView::Int(form.worker_id)),
                true,
                refuse_note("Worker does not exist or is already assigned to a brigade"@, None),
                "Error checking worker: "@,
            ),
        ],
        m@.statement == fixed(MEMBER_INSERT_SQL@).arg(SqlValueView::Int(id)).arg(
            SqlValueView::Int(form.worker_id),
        ),
{
    Mutation {
        guards: guards_of(
            Guard::strict(
                by_id(WORKER_UNASSIGNED_SQL, form.worker_id),
                true,
                Reply::refuse(
                    String::from_str("Worker does not exist or is already assigned to a brigade"),
                    None,
                ),
                "Error checking worker: ",
            ),
        ),
        statement: by_id(MEMBER_INSERT_SQL, id).bind(SqlValue::Int(form.worker_id)),
    }
}

/// The notification after the addition of a worker was run; `name` is
/// what the read of the worker's name gave.
pub fn worker_add_outcome(result: Result<u64, String>, name: Result<Option<String>, String>) -> (n:
    NotificationTemplate)
    ensures
        n@ == written_note(
            answer_view(result),
            "Worker "@ + shown_name(name) + " added to brigade successfully"@,
            "Failed to add worker to brigade: "@,
            None,
        ),
{
    written(
        result,
        join3("Worker ", worker_name(name).as_str(), " added to brigade successfully"),
        "Failed to add worker to brigade: ",
        None,
    )
}

/// The removal of the worker `worker_id` from the brigade `id`: the check
/// that the worker does not lead the brigade, and the statement.
pub fn worker_remove(id: i32, worker_id: i32) -> (m: Mutation)
    ensures
        m@.guards == seq![
            strict(
                fixed(IS_BRIGADIER_OF_SQL@).arg(SqlValueView::Int(id)).arg(
                    SqlValueView::Int(worker_id),
                ),
                false,
                refuse_note("Cannot remove the brigadier from the brigade"@, None),
                "Error checking if worker is brigadier: "@,
            ),
        ],
        m@.statement == fixed(MEMBER_DELETE_SQL@).arg(SqlValueView::Int(id)).arg(
            SqlValueView::Int(worker_id),
        ),
{
    Mutation {
        guards: guards_of(
            Guard::strict(
                by_id(IS_BRIGADIER_OF_SQL, id).bind(SqlValue::Int(worker_id)),
                false,
                Reply::refuse(String::from_str("Cannot remove the brigadier from the brigade"), None),
                "Error checking if worker is brigadier: ",
            ),
        ),
        statement: by_id(MEMBER_DELETE_SQL, id).bind(SqlValue::Int(worker_id)),
    }
}

/// The notification after the removal of a worker was run: an error where
/// the statement deleted no row, for then the worker was not in the
/// brigade. `name` is what the read of the worker's name gave.
pub fn worker_remove_outcome(result: Result<u64, String>, name: Result<Option<String>, String>) -> (n:
    NotificationTemplate)
    ensures
        n@ == (match result {
            Ok(rows) => if rows == 0 {
                error_note("Worker "@ + shown_name(name) + " is not in this brigade"@, None)
            } else {
                success_note(
                    "Worker "@ + shown_name(name) + " removed from brigade successfully"@,
                    None,
                )
            },
            Err(e) => error_note("Failed to remove worker from brigade: "@ + e@, None),
        }),
{
    let shown = worker_name(name);
    match result {
        Ok(rows) => if rows == 0 {
            NotificationTemplate::error(
                join3("Worker ", shown.as_str(), " is not in this brigade"),
                None,
            )
        } else {
            NotificationTemplate::success(
                join3("Worker ", shown.as_str(), " removed from brigade successfully"),
                None,
            )
        },
        Err(e) => NotificationTemplate::error(
            join2("Failed to remove worker from brigade: ", e.as_str()),
            None,
        ),
    }
}

} // verus!
