//! Departments: the statements and replies of their pages, their listing
//! and their mutations.

use crate::flow::{
    answer_view, CountGuard, CountGuardView, created, created_note, Fetch, GuardView, Listing,
    Mutation, no_guards, path_of, Removal, RemovalView, rows_or_none, written, written_note,
};
use crate::general::{NotificationTemplate, Pagination, Qualification, QueryInfo, SiteType, Sort};
use crate::sql::{
    by_column, by_id, filter_int, filter_pattern, filtered, fixed, int_filter, opt_int_value,
    Order, OrderView, page_by_id, paged, pattern_filter, PieceView, Predicates, SqlValue,
    SqlValueView, Statement, when_present,
};
use crate::text::{int_text, join3, opt_text, str_eq};
use crate::values::{to_unsigned, unsigned};
use vstd::prelude::*;
use vstd::string::*;

verus! {

/// The tab of a department's details that is shown.
#[derive(Clone, Copy, Debug, PartialEq, Eq, Structural)]
pub enum DepartmentTab {
    Areas,
    Equipment,
    Sites,
    Personnel,
}

#[derive(Clone, Copy, Debug, PartialEq, Eq, Structural)]
pub struct DepartmentsListTemplate;

#[derive(Clone, Copy, Debug, PartialEq, Eq, Structural)]
pub struct DepartmentDetailsTemplate {
    pub id: i32,
}

#[derive(Clone, Copy, Debug, PartialEq, Eq, Structural)]
pub struct DepartmentNewTemplate;

#[derive(Clone, Debug, PartialEq, Eq)]
pub struct DepartmentEditTemplate {
    pub id: i32,
    pub name: String,
    pub supervisor_id: Option<i32>,
    pub supervisor_name: Option<String>,
}

#[derive(Clone, Copy, Debug, PartialEq, Eq, Structural)]
pub struct DepartmentTabQuery {
    pub tab: DepartmentTab,
}

#[derive(Clone, Debug, PartialEq, Eq)]
pub struct DepartmentApiDetailsTemplate {
    pub id: i32,
    pub name: String,
    pub supervisor_id: Option<i32>,
    pub supervisor_name: Option<String>,
    pub tab: DepartmentTab,
}

#[derive(Clone, Debug, PartialEq, Eq)]
pub struct DepartmentUpdateForm {
    pub name: String,
    pub supervisor_id: Option<i32>,
}

#[derive(Clone, Debug, PartialEq, Eq)]
pub struct DepartmentCreateForm {
    pub name: String,
    pub supervisor_id: Option<i32>,
}

#[derive(Clone, Debug, PartialEq, Eq)]
pub struct DepartmentListFilter {
    pub sort: Sort,
    pub supervisor_id: Option<i32>,
    pub name: Option<String>,
}

#[derive(Clone, Debug, PartialEq, Eq)]
pub struct DepartmentListTemplate {
    pub departments: Vec<DepartmentListItem>,
    pub pagination: Pagination,
    pub query_info: QueryInfo,
}

#[derive(Clone, Debug, PartialEq, Eq)]
pub struct DepartmentListItem {
    pub id: i32,
    pub name: String,
    pub supervisor_id: Option<i32>,
    pub supervisor_name: Option<String>,
}

#[derive(Clone, Debug, PartialEq, Eq)]
pub struct DepartmentAreasTemplate {
    pub areas: Vec<AreaListItem>,
}

#[derive(Clone, Debug, PartialEq, Eq)]
pub struct AreaListItem {
    pub id: i32,
    pub name: String,
    pub supervisor_id: Option<i32>,
    pub supervisor_name: Option<String>,
}

#[derive(Clone, Debug, PartialEq, Eq)]
pub struct DepartmentEquipmentTemplate {
    pub id: i32,
    pub equipment: Vec<EquipmentListItem>,
}

#[derive(Clone, Debug, PartialEq, Eq)]
pub struct EquipmentListItem {
    pub id: i32,
    pub name: String,
    pub amount: u32,
}

#[derive(Clone, Debug, PartialEq, Eq)]
pub struct DepartmentSitesTemplate {
    pub id: i32,
    pub sites: Vec<SiteListItem>,
}

#[derive(Clone, Debug, PartialEq, Eq)]
pub struct SiteListItem {
    pub id: i32,
    pub name: String,
    pub type_: SiteType,
}

#[derive(Clone, Debug, PartialEq, Eq)]
pub struct DepartmentPersonnelTemplate {
    pub id: i32,
    pub personnel: Vec<PersonnelListItem>,
}

#[derive(Clone, Debug, PartialEq, Eq)]
pub struct PersonnelListItem {
    pub id: i32,
    pub name: String,
    pub qualification: Qualification,
}

/// Selects one department with the name of its supervisor.
pub const DEPARTMENT_SQL: &'static str =
    "SELECT d.id, d.name, d.supervisor_id, 
         CASE WHEN tp.id IS NOT NULL THEN CONCAT(e.last_name, ' ', e.first_name) ELSE NULL END as supervisor_name
         FROM department d
         LEFT JOIN technical_personnel tp ON d.supervisor_id = tp.id
         LEFT JOIN employee e ON tp.id = e.id
         WHERE d.id = $1";

pub const DEPARTMENT_LIST_SQL: &'static str =
    "SELECT d.id, d.name, d.supervisor_id, 
         CASE WHEN tp.id IS NOT NULL THEN CONCAT(e.last_name, ' ', e.first_name) ELSE NULL END as supervisor_name
         FROM department d
         LEFT JOIN technical_personnel tp ON d.supervisor_id = tp.id
         LEFT JOIN employee e ON tp.id = e.id";

pub const DEPARTMENT_COUNT_SQL: &'static str =
    "SELECT COUNT(*) FROM department d
         LEFT JOIN technical_personnel tp ON d.supervisor_id = tp.id
         LEFT JOIN employee e ON tp.id = e.id";

pub const DEPARTMENT_UPDATE_SQL: &'static str =
    "UPDATE department SET name = $1, supervisor_id = $2 WHERE id = $3";

pub const DEPARTMENT_INSERT_SQL: &'static str =
    "INSERT INTO department (name, supervisor_id) VALUES ($1, $2) RETURNING id";

pub const DEPARTMENT_DELETE_SQL: &'static str = "DELETE FROM department WHERE id = $1";

pub const DEPARTMENT_AREA_COUNT_SQL: &'static str =
    "SELECT COUNT(*) FROM area WHERE department_id = $1";

pub const DEPARTMENT_AREAS_SQL: &'static str =
    "SELECT a.id, a.name, a.supervisor_id, 
         CASE WHEN tp.id IS NOT NULL THEN CONCAT(e.last_name, ' ', e.first_name) ELSE NULL END as supervisor_name
         FROM area a
         LEFT JOIN technical_personnel tp ON a.supervisor_id = tp.id
         LEFT JOIN employee e ON tp.id = e.id
         WHERE a.department_id = $1
         ORDER BY a.name
         LIMIT $2 OFFSET $3";

pub const DEPARTMENT_EQUIPMENT_SQL: &'static str =
    "SELECT e.id, e.name, COALESCE(ea.amount, 0) as amount
         FROM equipment e
         LEFT JOIN equipment_allocation ea ON e.id = ea.equipment_id AND ea.department_id = $1 
                                        AND ea.site_id IS NULL
                                        AND (ea.period_end IS NULL OR ea.period_end > CURRENT_DATE)
         WHERE ea.department_id = $1
         ORDER BY e.name";

pub const DEPARTMENT_SITES_SQL: &'static str =
    "SELECT s.id, s.name, s.type
         FROM site s
         JOIN area a ON s.area_id = a.id
         WHERE a.department_id = $1
         ORDER BY s.name";

pub const DEPARTMENT_PERSONNEL_SQL: &'static str =
    "SELECT tp.id, CONCAT(e.last_name, ' ', e.first_name) as name, tp.qualification
         FROM technical_personnel tp
         JOIN employee e ON tp.id = e.id
         WHERE tp.id = (SELECT supervisor_id FROM department WHERE id = $1)
         OR tp.id IN (SELECT supervisor_id FROM area WHERE department_id = $1)
         ORDER BY e.last_name, e.first_name";

/// The statement that reads the department `id`.
pub fn department_query(id: i32) -> (s: Statement)
    ensures
        s@ == fixed(DEPARTMENT_SQL@).arg(SqlValueView::Int(id)),
{
    by_id(DEPARTMENT_SQL, id)
}

/// The edit form of a department for the row that was read; or the
/// paragraph that says that there is no such department, or that the read
/// failed. Neither paragraph says more than that.
pub fn department_edit_page(fetched: Result<Option<DepartmentEditTemplate>, String>) -> (r: Result<
    DepartmentEditTemplate,
    String,
>)
    ensures
        match fetched {
            Ok(Some(row)) => r == Ok::<DepartmentEditTemplate, String>(row),
            Ok(None) => r is Err && r->Err_0@ == "<p>Department not found</p>"@,
            Err(_) => r is Err && r->Err_0@ == "<p>Error fetching department</p>"@,
        },
{
    match fetched {
        Ok(Some(row)) => Ok(row),
        Ok(None) => Err(String::from_str("<p>Department not found</p>")),
        Err(_) => Err(String::from_str("<p>Error fetching department</p>")),
    }
}

/// The details of a department under the tab `tab` for the row that was
/// read; or the paragraph that says that there is no such department, or
/// that the read failed.
pub fn department_api_details_page(
    tab: DepartmentTab,
    fetched: Result<Option<DepartmentEditTemplate>, String>,
) -> (r: Result<DepartmentApiDetailsTemplate, String>)
    ensures
        match fetched {
            Ok(Some(row)) => r == Ok::<DepartmentApiDetailsTemplate, String>(
                DepartmentApiDetailsTemplate {
                    id: row.id,
                    name: row.name,
                    supervisor_id: row.supervisor_id,
                    supervisor_name: row.supervisor_name,
                    tab,
                },
            ),
            Ok(None) => r is Err && r->Err_0@ == "<p>Department not found</p>"@,
            Err(_) => r is Err && r->Err_0@ == "<p>Error fetching department details</p>"@,
        },
{
    match fetched {
        Ok(Some(row)) => Ok(
            DepartmentApiDetailsTemplate {
                id: row.id,
                name: row.name,
                supervisor_id: row.supervisor_id,
                supervisor_name: row.supervisor_name,
                tab,
            },
        ),
        Ok(None) => Err(String::from_str("<p>Department not found</p>")),
        Err(_) => Err(String::from_str("<p>Error fetching department details</p>")),
    }
}

/// The update of the department `id`: one statement, and no check before
/// it.
pub fn department_update(id: i32, form: &DepartmentUpdateForm) -> (m: Mutation)
    ensures
        m@.guards == Seq::<GuardView>::empty(),
        m@.statement == fixed(DEPARTMENT_UPDATE_SQL@).arg(SqlValueView::Text(form.name@)).arg(
            opt_int_value(form.supervisor_id),
        ).arg(SqlValueView::Int(id)),
{
    Mutation {
        guards: no_guards(),
        statement: Statement::new(DEPARTMENT_UPDATE_SQL).bind(
            SqlValue::text(form.name.as_str()),
        ).bind(SqlValue::opt_int(form.supervisor_id)).bind(SqlValue::Int(id)),
    }
}

/// The notification after the update of the department `id` was run.
pub fn department_update_outcome(id: i32, form: &DepartmentUpdateForm, result: Result<u64, String>)
    -> (n: NotificationTemplate)
    ensures
        n@ == written_note(
            answer_view(result),
            "Department '"@ + form.name@ + "' updated successfully"@,
            "Failed to update department: "@,
            Some("/departments/"@ + int_text(id as int)),
        ),
{
    written(
        result,
        join3("Department '", form.name.as_str(), "' updated successfully"),
        "Failed to update department: ",
        Some(path_of("/departments/", id)),
    )
}

/// The removal of the department `id`: refused while the department has
/// areas.
pub fn department_delete(id: i32) -> (d: Removal)
    ensures
        d@ == (RemovalView {
            guard: CountGuardView {
                probe: fixed(DEPARTMENT_AREA_COUNT_SQL@).arg(SqlValueView::Int(id)),
                before: "Cannot delete department: it has "@,
                after: " areas. Remove areas first."@,
                redirect: Some("/departments"@),
            },
            statement: fixed(DEPARTMENT_DELETE_SQL@).arg(SqlValueView::Int(id)),
        }),
{
    Removal {
        guard: CountGuard {
            probe: by_id(DEPARTMENT_AREA_COUNT_SQL, id),
            before: "Cannot delete department: it has ",
            after: " areas. Remove areas first.",
            redirect: Some(String::from_str("/departments")),
        },
        statement: by_id(DEPARTMENT_DELETE_SQL, id),
    }
}

/// The notification after the removal of a department was run.
pub fn department_delete_outcome(result: Result<u64, String>) -> (n: NotificationTemplate)
    ensures
        n@ == written_note(
            answer_view(result),
            "Department deleted successfully"@,
            "Failed to delete department: "@,
            Some("/departments"@),
        ),
{
    written(
        result,
        String::from_str("Department deleted successfully"),
        "Failed to delete department: ",
        Some(String::from_str("/departments")),
    )
}

/// The order that a sort key of the department listing stands for. A key
/// that the listing does not know orders by the primary key.
pub open spec fn department_order(key: Seq<char>) -> OrderView {
    if key == "name"@ {
        by_column("d.name"@)
    } else if key == "supervisor"@ {
        by_column("supervisor_name"@)
    } else {
        by_column("d.id"@)
    }
}

/// The order that a sort key of the department listing stands for.
pub fn department_order_column(key: &str) -> (order: Order)
    ensures
        order@ == department_order(key@),
{
    if str_eq(key, "name") {
        Order::by_column("d.name")
    } else if str_eq(key, "supervisor") {
        Order::by_column("supervisor_name")
    } else {
        Order::by_column("d.id")
    }
}

/// Whatever the sort key, the listing is ordered by one of its own columns,
/// never by the key itself; and a key that the listing does not know orders
/// by the primary key.
pub proof fn lemma_department_order_is_listed(key: Seq<char>)
    ensures
        department_order(key) == by_column("d.name"@) || department_order(key) == by_column("supervisor_name"@) || department_order(key) == by_column("d.id"@),
        key != "name"@ && key != "supervisor"@ ==> department_order(key) == by_column("d.id"@),
{
}

/// The conditions of the department listing: one for each field of the
/// filter that is present.
pub open spec fn department_conditions(filter: DepartmentListFilter) -> Seq<Seq<PieceView>> {
    when_present(pattern_filter(opt_text(filter.name)), "d.name ILIKE "@, ""@) + when_present(
        int_filter(filter.supervisor_id),
        "d.supervisor_id = "@,
        ""@,
    )
}

/// The conditions of the department listing.
pub fn department_predicates(filter: &DepartmentListFilter) -> (p: Predicates)
    ensures
        p@ == department_conditions(*filter),
{
    let mut p = Predicates::new();
    p.add_bound(filter_pattern(&filter.name), "d.name ILIKE ", "");
    p.add_bound(filter_int(filter.supervisor_id), "d.supervisor_id = ", "");
    assert(p@ =~= department_conditions(*filter));
    p
}

/// The listing of departments: the count of the departments that the
/// filter admits, and the page of them that `pagination` asks for, in the
/// order that the filter asks for.
pub fn departments_list_queries(pagination: &Pagination, filter: &DepartmentListFilter) -> (l:
    Listing)
    ensures
        l@.count.statement == filtered(DEPARTMENT_COUNT_SQL@, department_conditions(*filter)),
        l@.count.failure == "Error counting departments: "@,
        l@.page.statement == paged(
            filtered(DEPARTMENT_LIST_SQL@, department_conditions(*filter)),
            department_order(filter.sort.sort_by@),
            filter.sort.sort_direction,
            *pagination,
        ),
        l@.page.failure == "Error fetching departments: "@,
{
    let conditions = department_predicates(filter);
    let count = Statement::filtered(DEPARTMENT_COUNT_SQL, &conditions);
    let page = Statement::filtered(DEPARTMENT_LIST_SQL, &conditions).paged(
        department_order_column(filter.sort.sort_by.as_str()),
        filter.sort.sort_direction,
        pagination,
    );
    Listing {
        count: Fetch { statement: count, failure: "Error counting departments: " },
        page: Fetch { statement: page, failure: "Error fetching departments: " },
    }
}

/// The creation of a department: one statement, which returns the new id,
/// and no check before it.
pub fn department_create(form: &DepartmentCreateForm) -> (m: Mutation)
    ensures
        m@.guards == Seq::<GuardView>::empty(),
        m@.statement == fixed(DEPARTMENT_INSERT_SQL@).arg(SqlValueView::Text(form.name@)).arg(
            opt_int_value(form.supervisor_id),
        ),
{
    Mutation {
        guards: no_guards(),
        statement: Statement::new(DEPARTMENT_INSERT_SQL).bind(
            SqlValue::text(form.name.as_str()),
        ).bind(SqlValue::opt_int(form.supervisor_id)),
    }
}

/// The notification after the creation of a department was run:
/// `inserted` is the id that the statement returned, if it returned any.
pub fn department_create_outcome(form: &DepartmentCreateForm, inserted: Result<Option<i32>, String>)
    -> (n: NotificationTemplate)
    ensures
        n@ == created_note(
            answer_view(inserted),
            "Department '"@ + form.name@ + "' created successfully"@,
            "/departments/"@,
            "Failed to create department: "@,
            "/departments"@,
        ),
{
    created(
        inserted,
        join3("Department '", form.name.as_str(), "' created successfully"),
        "/departments/",
        "Failed to create department: ",
        "/departments",
    )
}

/// The statement that reads a page of the areas of the department `id`.
pub fn department_areas_query(id: i32, pagination: &Pagination) -> (s: Statement)
    ensures
        s@ == fixed(DEPARTMENT_AREAS_SQL@).arg(SqlValueView::Int(id)).arg(
            SqlValueView::BigInt(pagination.spec_limit() as i64),
        ).arg(SqlValueView::BigInt(pagination.spec_offset() as i64)),
{
    page_by_id(DEPARTMENT_AREAS_SQL, id, pagination)
}

/// The areas of a department as they were read: none where the read
/// failed.
pub fn department_areas_page(fetched: Result<Vec<AreaListItem>, String>) -> (t:
    DepartmentAreasTemplate)
    ensures
        match fetched {
            Ok(rows) => t.areas == rows,
            Err(_) => t.areas@ == Seq::<AreaListItem>::empty(),
        },
{
    DepartmentAreasTemplate { areas: rows_or_none(fetched) }
}

/// The statement that reads the equipment that the department `id` holds.
pub fn department_equipment_query(id: i32) -> (s: Statement)
    ensures
        s@ == fixed(DEPARTMENT_EQUIPMENT_SQL@).arg(SqlValueView::Int(id)),
{
    by_id(DEPARTMENT_EQUIPMENT_SQL, id)
}

/// One piece of equipment of a department's listing: the amount that was
/// read, taken as a count without a sign.
pub fn department_equipment_item(id: i32, name: String, amount: i32) -> (item: EquipmentListItem)
    ensures
        item == (EquipmentListItem { id, name, amount: unsigned(amount) }),
{
    EquipmentListItem { id, name, amount: to_unsigned(amount) }
}

/// The equipment of the department `id` as it was read: none where the
/// read failed.
pub fn department_equipment_page(id: i32, fetched: Result<Vec<EquipmentListItem>, String>) -> (t:
    DepartmentEquipmentTemplate)
    ensures
        t.id == id,
        match fetched {
            Ok(rows) => t.equipment == rows,
            Err(_) => t.equipment@ == Seq::<EquipmentListItem>::empty(),
        },
{
    DepartmentEquipmentTemplate { id, equipment: rows_or_none(fetched) }
}

/// The statement that reads the sites of the department `id`.
pub fn department_sites_query(id: i32) -> (s: Statement)
    ensures
        s@ == fixed(DEPARTMENT_SITES_SQL@).arg(SqlValueView::Int(id)),
{
    by_id(DEPARTMENT_SITES_SQL, id)
}

/// The sites of the department `id` as they were read: none where the
/// read failed.
pub fn department_sites_page(id: i32, fetched: Result<Vec<SiteListItem>, String>) -> (t:
    DepartmentSitesTemplate)
    ensures
        t.id == id,
        match fetched {
            Ok(rows) => t.sites == rows,
            Err(_) => t.sites@ == Seq::<SiteListItem>::empty(),
        },
{
    DepartmentSitesTemplate { id, sites: rows_or_none(fetched) }
}

/// The statement that reads the personnel of the department `id`.
pub fn department_personnel_query(id: i32) -> (s: Statement)
    ensures
        s@ == fixed(DEPARTMENT_PERSONNEL_SQL@).arg(SqlValueView::Int(id)),
{
    by_id(DEPARTMENT_PERSONNEL_SQL, id)
}

/// The personnel of the department `id` as it was read: none where the
/// read failed.
pub fn department_personnel_page(id: i32, fetched: Result<Vec<PersonnelListItem>, String>) -> (t:
    DepartmentPersonnelTemplate)
    ensures
        t.id == id,
        match fetched {
            Ok(rows) => t.personnel == rows,
            Err(_) => t.personnel@ == Seq::<PersonnelListItem>::empty(),
        },
{
    DepartmentPersonnelTemplate { id, personnel: rows_or_none(fetched) }
}

} // verus!
