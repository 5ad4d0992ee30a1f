//! Areas: the statements and replies of their pages, their listing and
//! their mutations.

use crate::flow::{
    CountGuard, CountGuardView, Fetch, FetchView, Guard, guard_also, guards_of, guards_view,
    GuardView, Listing, must_exist_or_note, must_exist_or_notify, Mutation, Removal, RemovalView,
};
use crate::general::{
    error_note, NotificationTemplate, Pagination, paragraph, paragraph_about, Position,
    Qualification, QueryInfo, SiteType, Sort, success_note,
};
use crate::sql::{
    by_column, by_id, filter_int, filter_pattern, filtered, fixed, int_filter, opt_int_value,
    Order, OrderView, page_by_id, paged, pattern_filter, PieceView, Predicates, SqlValue,
    SqlValueView, Statement, when_present,
};
use crate::text::{around_i32, int_text, join2, join3, opt_text, str_eq};
use vstd::prelude::*;
use vstd::string::*;

verus! {

/// The tab of an area's details that is shown.
#[derive(Clone, Copy, Debug, PartialEq, Eq, Structural)]
pub enum AreaTab {
    Sites,
    Personnel,
}

#[derive(Clone, Copy, Debug, PartialEq, Eq, Structural)]
pub struct AreasListTemplate;

#[derive(Clone, Copy, Debug, PartialEq, Eq, Structural)]
pub struct AreaDetailsTemplate {
    pub id: i32,
}

#[derive(Clone, Copy, Debug, PartialEq, Eq, Structural)]
pub struct AreaNewTemplate;

#[derive(Clone, Debug, PartialEq, Eq)]
pub struct AreaEditTemplate {
    pub id: i32,
    pub name: String,
    pub department_id: i32,
    pub department_name: String,
    pub supervisor_id: Option<i32>,
    pub supervisor_name: Option<String>,
}

#[derive(Clone, Copy, Debug, PartialEq, Eq, Structural)]
pub struct AreaTabQuery {
    pub tab: AreaTab,
}

#[derive(Clone, Debug, PartialEq, Eq)]
pub struct AreaApiDetailsTemplate {
    pub id: i32,
    pub name: String,
    pub department_id: i32,
    pub department_name: String,
    pub supervisor_id: Option<i32>,
    pub supervisor_name: Option<String>,
    pub tab: AreaTab,
}

#[derive(Clone, Debug, PartialEq, Eq)]
pub struct AreaUpdateForm {
    pub name: String,
    pub department_id: i32,
    pub supervisor_id: Option<i32>,
}

#[derive(Clone, Debug, PartialEq, Eq)]
pub struct AreaCreateForm {
    pub name: String,
    pub department_id: i32,
    pub supervisor_id: Option<i32>,
}

#[derive(Clone, Debug, PartialEq, Eq)]
pub struct AreaListFilter {
    pub sort: Sort,
    pub department_id: Option<i32>,
    pub supervisor_id: Option<i32>,
    pub name: Option<String>,
}

#[derive(Clone, Debug, PartialEq, Eq)]
pub struct AreaListTemplate {
    pub areas: Vec<AreaListItem>,
    pub pagination: Pagination,
    pub query_info: QueryInfo,
}

#[derive(Clone, Debug, PartialEq, Eq)]
pub struct AreaListItem {
    pub id: i32,
    pub name: String,
    pub department_id: i32,
    pub department_name: String,
    pub supervisor_id: Option<i32>,
    pub supervisor_name: Option<String>,
}

#[derive(Clone, Debug, PartialEq, Eq)]
pub struct AreaSitesTemplate {
    pub id: i32,
    pub sites: Vec<SiteListItem>,
    pub pagination: Pagination,
}

#[derive(Clone, Debug, PartialEq, Eq)]
pub struct SiteListItem {
    pub id: i32,
    pub name: String,
    pub type_: SiteType,
    pub client_id: i32,
    pub client_name: String,
}

#[derive(Clone, Debug, PartialEq, Eq)]
pub struct AreaPersonnelTemplate {
    pub id: i32,
    pub personnel: Vec<PersonnelListItem>,
    pub pagination: Pagination,
}

#[derive(Clone, Debug, PartialEq, Eq)]
pub struct PersonnelListItem {
    pub id: i32,
    pub name: String,
    pub qualification: Qualification,
    pub position: Option<Position>,
}

/// Selects one area with the names of its department and its supervisor.
pub const AREA_DETAILS_SQL: &'static str =
    "SELECT a.id, a.name, a.department_id, d.name as department_name, 
         a.supervisor_id, 
         CASE WHEN tp.id IS NOT NULL THEN CONCAT(e.last_name, ' ', e.first_name) ELSE NULL END as supervisor_name
         FROM area a
         JOIN department d ON a.department_id = d.id
         LEFT JOIN technical_personnel tp ON a.supervisor_id = tp.id
         LEFT JOIN employee e ON tp.id = e.id
         WHERE a.id = $1";

/// Selects every area with the names of its department and its supervisor.
pub const AREA_LIST_SQL: &'static str =
    "SELECT a.id, a.name, a.department_id, d.name as department_name, 
         a.supervisor_id, 
         CASE WHEN tp.id IS NOT NULL THEN CONCAT(e.last_name, ' ', e.first_name) ELSE NULL END as supervisor_name
         FROM area a
         JOIN department d ON a.department_id = d.id
         LEFT JOIN technical_personnel tp ON a.supervisor_id = tp.id
         LEFT JOIN employee e ON tp.id = e.id";

pub const AREA_UPDATE_SQL: &'static str =
    "UPDATE area SET name = $1, department_id = $2, supervisor_id = $3 WHERE id = $4";

pub const AREA_INSERT_SQL: &'static str =
    "INSERT INTO area (name, department_id, supervisor_id) VALUES ($1, $2, $3) RETURNING id";

pub const AREA_DELETE_SQL: &'static str = "DELETE FROM area WHERE id = $1";

pub const AREA_SITE_COUNT_SQL: &'static str = "SELECT COUNT(*) FROM site WHERE area_id = $1";

/// Selects a page of the sites of one area, by name.
pub const AREA_SITES_SQL: &'static str =
    "SELECT s.id, s.name, s.type, s.client_id, c.name as client_name
         FROM site s
         JOIN client c ON s.client_id = c.id
         WHERE s.area_id = $1
         ORDER BY s.name
         LIMIT $2 OFFSET $3";

/// Selects a page of the personnel that supervises one area, by name.
pub const AREA_PERSONNEL_SQL: &'static str =
    "SELECT tp.id, CONCAT(e.last_name, ' ', e.first_name) as name, tp.qualification, tp.position
         FROM technical_personnel tp
         JOIN employee e ON tp.id = e.id
         WHERE tp.id = (SELECT supervisor_id FROM area WHERE id = $1)
         ORDER BY name
         LIMIT $2 OFFSET $3";

/// The read behind the edit form of the area `id`.
pub fn area_edit_query(id: i32) -> (f: Fetch)
    ensures
        f@ == (FetchView {
            statement: fixed(AREA_DETAILS_SQL@).arg(SqlValueView::Int(id)),
            failure: "Error fetching area: "@,
        }),
{
    Fetch { statement: by_id(AREA_DETAILS_SQL, id), failure: "Error fetching area: " }
}

/// The edit form of the area `id` for the row that was read; or the
/// paragraph that says that there is no such area, or that the read failed.
pub fn area_edit_page(id: i32, fetched: Result<Option<AreaEditTemplate>, String>) -> (r: Result<
    AreaEditTemplate,
    String,
>)
    ensures
        match fetched {
            Ok(Some(row)) => r == Ok::<AreaEditTemplate, String>(row),
            Ok(None) => r is Err && r->Err_0@ == paragraph_about(
                "Area with ID "@,
                id as int,
                " not found"@,
            ),
            Err(e) => r is Err && r->Err_0@ == paragraph("Error fetching area: "@, e@),
        },
{
    area_edit_query(id).row(fetched, id, "Area with ID ", " not found")
}

/// The read behind the details of the area `id`.
pub fn area_api_details_query(id: i32) -> (f: Fetch)
    ensures
        f@ == (FetchView {
            statement: fixed(AREA_DETAILS_SQL@).arg(SqlValueView::Int(id)),
            failure: "Error fetching area details: "@,
        }),
{
    Fetch { statement: by_id(AREA_DETAILS_SQL, id), failure: "Error fetching area details: " }
}

/// The details of the area `id` under the tab `tab` for the row that was
/// read; or the paragraph that says that there is no such area, or that the
/// read failed.
pub fn area_api_details_page(
    id: i32,
    tab: AreaTab,
    fetched: Result<Option<AreaEditTemplate>, String>,
) -> (r: Result<AreaApiDetailsTemplate, String>)
    ensures
        match fetched {
            Ok(Some(row)) => r == Ok::<AreaApiDetailsTemplate, String>(
                AreaApiDetailsTemplate {
                    id: row.id,
                    name: row.name,
                    department_id: row.department_id,
                    department_name: row.department_name,
                    supervisor_id: row.supervisor_id,
                    supervisor_name: row.supervisor_name,
                    tab,
                },
            ),
            Ok(None) => r is Err && r->Err_0@ == paragraph_about(
                "Area with ID "@,
                id as int,
                " not found"@,
            ),
            Err(e) => r is Err && r->Err_0@ == paragraph("Error fetching area details: "@, e@),
        },
{
    match area_api_details_query(id).row(fetched, id, "Area with ID ", " not found") {
        Ok(row) => Ok(
            AreaApiDetailsTemplate {
                id: row.id,
                name: row.name,
                department_id: row.department_id,
                department_name: row.department_name,
                supervisor_id: row.supervisor_id,
                supervisor_name: row.supervisor_name,
                tab,
            },
        ),
        Err(html) => Err(html),
    }
}

/// The checks before an area is written: its department exists, and so
/// does its supervisor where it names one. A refusal sends the client to
/// `redirect`.
pub open spec fn area_reference_guards(
    department_id: i32,
    supervisor_id: Option<i32>,
    redirect: Seq<char>,
) -> Seq<GuardView> {
    seq![must_exist_or_note("department"@, department_id, "Department with ID "@, redirect)] + (
    match supervisor_id {
        Some(s) => seq![
            must_exist_or_note(
                "technical_personnel"@,
                s,
                "Technical personnel with ID "@,
                redirect,
            ),
        ],
        None => Seq::<GuardView>::empty(),
    })
}

fn area_guards(department_id: i32, supervisor_id: Option<i32>, redirect: &str) -> (g: Vec<Guard>)
    ensures
        guards_view(g@) == area_reference_guards(
            department_id,
            supervisor_id,
            redirect@,
        ),
{
    let department = must_exist_or_notify(
        "department",
        department_id,
        "Department with ID ",
        String::from_str(redirect),
    );
    let supervisor = match supervisor_id {
        Some(s) => Some(
            must_exist_or_notify(
                "technical_personnel",
                s,
                "Technical personnel with ID ",
                String::from_str(redirect),
            ),
        ),
        None => None,
    };
    guard_also(guards_of(department), supervisor)
}

/// The update of the area `id`: the checks on what the form refers to, and
/// the statement.
pub fn area_update(id: i32, form: &AreaUpdateForm) -> (m: Mutation)
    ensures
        m@.guards == area_reference_guards(
            form.department_id,
            form.supervisor_id,
            "/areas/"@ + int_text(id as int) + "/edit"@,
        ),
        m@.statement == fixed(AREA_UPDATE_SQL@).arg(SqlValueView::Text(form.name@)).arg(
            SqlValueView::Int(form.department_id),
        ).arg(opt_int_value(form.supervisor_id)).arg(SqlValueView::Int(id)),
{
    let redirect = around_i32("/areas/", id, "/edit");
    Mutation {
        guards: area_guards(form.department_id, form.supervisor_id, redirect.as_str()),
        statement: Statement::new(AREA_UPDATE_SQL).bind(SqlValue::text(form.name.as_str())).bind(
            SqlValue::Int(form.department_id),
        ).bind(SqlValue::opt_int(form.supervisor_id)).bind(SqlValue::Int(id)),
    }
}

/// The notification after the update of the area `id` was run.
pub fn area_update_outcome(id: i32, form: &AreaUpdateForm, result: Result<u64, String>) -> (n:
    NotificationTemplate)
    ensures
        n@ == (match result {
            Ok(_) => success_note(
                "Area '"@ + form.name@ + "' updated successfully"@,
                Some("/areas/"@ + int_text(id as int)),
            ),
            Err(e) => error_note(
                "Failed to update area: "@ + e@,
                Some("/areas/"@ + int_text(id as int)),
            ),
        }),
{
    let redirect = Some(around_i32("/areas/", id, ""));
    assert("/areas/"@ + int_text(id as int) + ""@ =~= "/areas/"@ + int_text(id as int)) by {
        reveal_strlit("");
    }
    match result {
        Ok(_) => NotificationTemplate::success(
            join3("Area '", form.name.as_str(), "' updated successfully"),
            redirect,
        ),
        Err(e) => NotificationTemplate::error(join2("Failed to update area: ", e.as_str()), redirect),
    }
}

/// The removal of the area `id`: refused while the area has sites.
pub fn area_delete(id: i32) -> (d: Removal)
    ensures
        d@ == (RemovalView {
            guard: CountGuardView {
                probe: fixed(AREA_SITE_COUNT_SQL@).arg(SqlValueView::Int(id)),
                before: "Cannot delete area: it has "@,
                after: " sites. Remove sites first."@,
                redirect: Some("/areas"@),
            },
            statement: fixed(AREA_DELETE_SQL@).arg(SqlValueView::Int(id)),
        }),
{
    Removal {
        guard: CountGuard {
            probe: by_id(AREA_SITE_COUNT_SQL, id),
            before: "Cannot delete area: it has ",
            after: " sites. Remove sites first.",
            redirect: Some(String::from_str("/areas")),
        },
        statement: by_id(AREA_DELETE_SQL, id),
    }
}

/// The notification after the removal of an area was run.
pub fn area_delete_outcome(result: Result<u64, String>) -> (n: NotificationTemplate)
    ensures
        n@ == (match result {
            Ok(_) => success_note("Area deleted successfully"@, Some("/areas"@)),
            Err(e) => error_note("Failed to delete area: "@ + e@, Some("/areas"@)),
        }),
{
    let redirect = Some(String::from_str("/areas"));
    match result {
        Ok(_) => NotificationTemplate::success(
            String::from_str("Area deleted successfully"),
            redirect,
        ),
        Err(e) => NotificationTemplate::error(join2("Failed to delete area: ", e.as_str()), redirect),
    }
}

/// The order that a sort key of the area listing stands for. A key that
/// the listing does not know orders by the primary key.
pub open spec fn area_order(key: Seq<char>) -> OrderView {
    if key == "name"@ {
        by_column("a.name"@)
    } else if key == "department"@ {
        by_column("department_name"@)
    } else if key == "supervisor"@ {
        by_column("supervisor_name"@)
    } else {
        by_column("a.id"@)
    }
}

/// The order that a sort key of the area listing stands for.
pub fn area_order_column(key: &str) -> (order: Order)
    ensures
        order@ == area_order(key@),
{
    if str_eq(key, "name") {
        Order::by_column("a.name")
    } else if str_eq(key, "department") {
        Order::by_column("department_name")
    } else if str_eq(key, "supervisor") {
        Order::by_column("supervisor_name")
    } else {
        Order::by_column("a.id")
    }
}

/// Whatever the sort key, the listing is ordered by one of its own columns,
/// never by the key itself; and a key that the listing does not know orders
/// by the primary key.
pub proof fn lemma_area_order_is_listed(key: Seq<char>)
    ensures
        area_order(key) == by_column("a.name"@) || area_order(key) == by_column("department_name"@) || area_order(key) == by_column("supervisor_name"@) || area_order(key) == by_column("a.id"@),
        key != "name"@ && key != "department"@ && key != "supervisor"@ ==> area_order(key) == by_column("a.id"@),
{
}

/// The conditions of the area listing: one for each field of the filter
/// that is present.
pub open spec fn area_conditions(filter: AreaListFilter) -> Seq<Seq<PieceView>> {
    when_present(pattern_filter(opt_text(filter.name)), "a.name ILIKE "@, ""@) + when_present(
        int_filter(filter.department_id),
        "a.department_id = "@,
        ""@,
    ) + when_present(int_filter(filter.supervisor_id), "a.supervisor_id = "@, ""@)
}

/// The conditions of the area listing.
pub fn area_predicates(filter: &AreaListFilter) -> (p: Predicates)
    ensures
        p@ == area_conditions(*filter),
{
    let mut p = Predicates::new();
    p.add_bound(filter_pattern(&filter.name), "a.name ILIKE ", "");
    p.add_bound(filter_int(filter.department_id), "a.department_id = ", "");
    p.add_bound(filter_int(filter.supervisor_id), "a.supervisor_id = ", "");
    assert(p@ =~= area_conditions(*filter));
    p
}

/// The listing of areas: the count of the areas that the filter admits,
/// and the page of them that `pagination` asks for, in the order that the
/// filter asks for.
pub fn areas_list_queries(pagination: &Pagination, filter: &AreaListFilter) -> (l: Listing)
    ensures
        l@.count.statement == filtered(AREA_LIST_SQL@, area_conditions(*filter)).wrapped(
            "SELECT COUNT(*) FROM ("@,
            ")"@,
        ),
        l@.count.failure == "Error counting areas: "@,
        l@.page.statement == paged(
            filtered(AREA_LIST_SQL@, area_conditions(*filter)),
            area_order(filter.sort.sort_by@),
            filter.sort.sort_direction,
            *pagination,
        ),
        l@.page.failure == "Error fetching areas: "@,
{
    let rows = Statement::filtered(AREA_LIST_SQL, &area_predicates(filter));
    let count = rows.wrap("SELECT COUNT(*) FROM (", ")");
    let page = rows.paged(
        area_order_column(filter.sort.sort_by.as_str()),
        filter.sort.sort_direction,
        pagination,
    );
    Listing {
        count: Fetch { statement: count, failure: "Error counting areas: " },
        page: Fetch { statement: page, failure: "Error fetching areas: " },
    }
}

/// The creation of an area: the checks on what the form refers to, and
/// the statement, which returns the new id.
pub fn area_create(form: &AreaCreateForm) -> (m: Mutation)
    ensures
        m@.guards == area_reference_guards(form.department_id, form.supervisor_id, "/areas/new"@),
        m@.statement == fixed(AREA_INSERT_SQL@).arg(SqlValueView::Text(form.name@)).arg(
            SqlValueView::Int(form.department_id),
        ).arg(opt_int_value(form.supervisor_id)),
{
    Mutation {
        guards: area_guards(form.department_id, form.supervisor_id, "/areas/new"),
        statement: Statement::new(AREA_INSERT_SQL).bind(SqlValue::text(form.name.as_str())).bind(
            SqlValue::Int(form.department_id),
        ).bind(SqlValue::opt_int(form.supervisor_id)),
    }
}

/// The notification after the creation of an area was run: `created` is
/// the id that the statement returned, if it returned any.
pub fn area_create_outcome(form: &AreaCreateForm, created: Result<Option<i32>, String>) -> (n:
    NotificationTemplate)
    ensures
        n@ == (match created {
            Ok(Some(id)) => success_note(
                "Area '"@ + form.name@ + "' created successfully"@,
                Some("/areas/"@ + int_text(id as int)),
            ),
            Ok(None) => error_note("Failed to create area: no ID returned"@, Some("/areas"@)),
            Err(e) => error_note("Failed to create area: "@ + e@, Some("/areas"@)),
        }),
{
    match created {
        Ok(Some(id)) => {
            assert("/areas/"@ + int_text(id as int) + ""@ =~= "/areas/"@ + int_text(id as int)) by {
                reveal_strlit("");
            }
            NotificationTemplate::success(
                join3("Area '", form.name.as_str(), "' created successfully"),
                Some(around_i32("/areas/", id, "")),
            )
        },
        Ok(None) => NotificationTemplate::error(
            String::from_str("Failed to create area: no ID returned"),
            Some(String::from_str("/areas")),
        ),
        Err(e) => NotificationTemplate::error(
            join2("Failed to create area: ", e.as_str()),
            Some(String::from_str("/areas")),
        ),
    }
}

/// The read of a page of the sites of the area `id`.
pub fn area_sites_query(id: i32, pagination: &Pagination) -> (f: Fetch)
    ensures
        f@ == (FetchView {
            statement: fixed(AREA_SITES_SQL@).arg(SqlValueView::Int(id)).arg(
                SqlValueView::BigInt(pagination.spec_limit() as i64),
            ).arg(SqlValueView::BigInt(pagination.spec_offset() as i64)),
            failure: "Error fetching sites: "@,
        }),
{
    Fetch { statement: page_by_id(AREA_SITES_SQL, id, pagination), failure: "Error fetching sites: " }
}

/// The read of a page of the personnel of the area `id`.
pub fn area_personnel_query(id: i32, pagination: &Pagination) -> (f: Fetch)
    ensures
        f@ == (FetchView {
            statement: fixed(AREA_PERSONNEL_SQL@).arg(SqlValueView::Int(id)).arg(
                SqlValueView::BigInt(pagination.spec_limit() as i64),
            ).arg(SqlValueView::BigInt(pagination.spec_offset() as i64)),
            failure: "Error fetching personnel: "@,
        }),
{
    Fetch {
        statement: page_by_id(AREA_PERSONNEL_SQL, id, pagination),
        failure: "Error fetching personnel: ",
    }
}

} // verus!
