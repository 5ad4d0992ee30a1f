//! Materials: the statements and replies of their pages, their listing and
//! their mutations.

use crate::flow::{
    answer_view, CountGuard, CountGuardView, created, created_note, Fetch, FetchView, GuardView,
    Listing, Mutation, no_guards, path_of, Removal, RemovalView, written, written_note,
};
use crate::general::{NotificationTemplate, Pagination, paragraph, paragraph_about, QueryInfo, Sort};
use crate::sql::{
    by_column, by_id, filter_pattern, filtered, fixed, Order, OrderView, page_by_id, paged,
    pattern_filter, PieceView, Predicates, SqlValue, SqlValueView, Statement, when_chosen,
    when_present,
};
use crate::text::{int_text, join3, opt_text, str_eq};
use crate::values::Float64;
use vstd::prelude::*;
use vstd::string::*;

verus! {

#[derive(Clone, Copy, Debug, PartialEq, Eq, Structural)]
pub struct MaterialsListTemplate;

#[derive(Clone, Copy, Debug, PartialEq, Eq, Structural)]
pub struct MaterialDetailsTemplate {
    pub id: i32,
}

#[derive(Clone, Copy, Debug, PartialEq, Eq, Structural)]
pub struct MaterialNewTemplate;

#[derive(Clone, Debug, PartialEq, Eq)]
pub struct MaterialEditTemplate {
    pub id: i32,
    pub name: String,
    pub cost: Float64,
    pub units: String,
}

#[derive(Clone, Debug, PartialEq, Eq)]
pub struct MaterialApiDetailsTemplate {
    pub id: i32,
    pub name: String,
    pub cost: Float64,
    pub units: String,
    pub total_estimated: Float64,
    pub total_actual: Float64,
    pub total_cost: Float64,
}

#[derive(Clone, Debug, PartialEq, Eq)]
pub struct MaterialUpdateForm {
    pub name: String,
    pub cost: Float64,
    pub units: String,
}

#[derive(Clone, Debug, PartialEq, Eq)]
pub struct MaterialCreateForm {
    pub name: String,
    pub cost: Float64,
    pub units: String,
}

#[derive(Clone, Debug, PartialEq, Eq)]
pub struct MaterialListFilter {
    pub sort: Sort,
    pub name: Option<String>,
    pub cost_min: Option<Float64>,
    pub cost_max: Option<Float64>,
    pub excess_usage: Option<bool>,
}

#[derive(Clone, Debug, PartialEq, Eq)]
pub struct MaterialListTemplate {
    pub materials: Vec<MaterialListItem>,
    pub pagination: Pagination,
    pub query_info: QueryInfo,
}

#[derive(Clone, Debug, PartialEq, Eq)]
pub struct MaterialListItem {
    pub id: i32,
    pub name: String,
    pub cost: Float64,
    pub units: String,
    pub estimated_spendings: Float64,
    pub actual_spendings: Float64,
    pub excess: bool,
}

#[derive(Clone, Debug, PartialEq, Eq)]
pub struct MaterialUsageTemplate {
    pub id: i32,
    pub usage: Vec<UsageListItem>,
    pub pagination: Pagination,
}

#[derive(Clone, Debug, PartialEq, Eq)]
pub struct UsageListItem {
    pub task_id: i32,
    pub task_name: String,
    pub site_id: i32,
    pub site_name: String,
    pub expected_amount: Float64,
    pub actual_amount: Float64,
    pub excess_amount: Float64,
    pub total_cost: Float64,
}

pub const MATERIAL_SQL: &'static str = "SELECT id, name, cost, units FROM material WHERE id = $1";

pub const MATERIAL_TOTALS_SQL: &'static str =
    "SELECT 
            COALESCE(SUM(e.expected_amount), 0) as total_estimated,
            COALESCE(SUM(e.actual_amount), 0) as total_actual
        FROM expenditure e
        WHERE e.material_id = $1";

pub const MATERIAL_UPDATE_SQL: &'static str =
    "UPDATE material SET name = $1, cost = $2, units = $3 
         WHERE id = $4";

pub const MATERIAL_INSERT_SQL: &'static str =
    "INSERT INTO material (name, cost, units) 
         VALUES ($1, $2, $3) 
         RETURNING id";

pub const MATERIAL_DELETE_SQL: &'static str = "DELETE FROM material WHERE id = $1";

pub const MATERIAL_EXPENDITURE_COUNT_SQL: &'static str =
    "SELECT COUNT(*) FROM expenditure WHERE material_id = $1";

pub const MATERIAL_LIST_SQL: &'static str =
    "SELECT m.id, m.name, m.cost, m.units,
         (SELECT COALESCE(SUM(e.expected_amount), 0) FROM expenditure e WHERE e.material_id = m.id) as estimated_spendings,
         (SELECT COALESCE(SUM(e.actual_amount), 0) FROM expenditure e WHERE e.material_id = m.id) as actual_spendings
         FROM material m";

pub const MATERIAL_USAGE_SQL: &'static str =
    "SELECT t.id as task_id, t.name as task_name, 
         s.id as site_id, s.name as site_name,
         e.expected_amount, e.actual_amount, m.cost as material_cost
         FROM expenditure e
         JOIN task t ON e.task_id = t.id
         JOIN site s ON t.site_id = s.id
         JOIN material m ON e.material_id = m.id
         WHERE e.material_id = $1
         ORDER BY COALESCE(e.actual_amount / e.expected_amount, 0) DESC
         LIMIT $2 OFFSET $3";

/// The read behind the edit form of the material `id`.
pub fn material_edit_query(id: i32) -> (f: Fetch)
    ensures
        f@ == (FetchView {
            statement: fixed(MATERIAL_SQL@).arg(SqlValueView::Int(id)),
            failure: "Error fetching material: "@,
        }),
{
    Fetch { statement: by_id(MATERIAL_SQL, id), failure: "Error fetching material: " }
}

/// The edit form of the material `id` for the row that was read; or the
/// paragraph that says that there is no such material, or that the read
/// failed.
pub fn material_edit_page(id: i32, fetched: Result<Option<MaterialEditTemplate>, String>) -> (r:
    Result<MaterialEditTemplate, String>)
    ensures
        match fetched {
            Ok(Some(row)) => r == Ok::<MaterialEditTemplate, String>(row),
            Ok(None) => r is Err && r->Err_0@ == paragraph_about(
                "Material with ID "@,
                id as int,
                " not found"@,
            ),
            Err(e) => r is Err && r->Err_0@ == paragraph("Error fetching material: "@, e@),
        },
{
    material_edit_query(id).row(fetched, id, "Material with ID ", " not found")
}

/// The read behind the details of the material `id`.
pub fn material_api_details_query(id: i32) -> (f: Fetch)
    ensures
        f@ == (FetchView {
            statement: fixed(MATERIAL_SQL@).arg(SqlValueView::Int(id)),
            failure: "Error fetching material details: "@,
        }),
{
    Fetch { statement: by_id(MATERIAL_SQL, id), failure: "Error fetching material details: " }
}

/// The material that was read for its details; or the paragraph that says
/// that there is no material `id`, or that the read failed.
pub fn material_found(id: i32, fetched: Result<Option<MaterialEditTemplate>, String>) -> (r: Result<
    MaterialEditTemplate,
    String,
>)
    ensures
        match fetched {
            Ok(Some(row)) => r == Ok::<MaterialEditTemplate, String>(row),
            Ok(None) => r is Err && r->Err_0@ == paragraph_about(
                "Material with ID "@,
                id as int,
                " not found"@,
            ),
            Err(e) => r is Err && r->Err_0@ == paragraph("Error fetching material details: "@, e@),
        },
{
    material_api_details_query(id).row(fetched, id, "Material with ID ", " not found")
}

/// The read of the amounts of the material `id` that were expected and
/// used in all.
pub fn material_totals_query(id: i32) -> (f: Fetch)
    ensures
        f@ == (FetchView {
            statement: fixed(MATERIAL_TOTALS_SQL@).arg(SqlValueView::Int(id)),
            failure: "Error fetching usage statistics: "@,
        }),
{
    Fetch { statement: by_id(MATERIAL_TOTALS_SQL, id), failure: "Error fetching usage statistics: " }
}

/// The update of the material `id`: one statement, and no check before it.
pub fn material_update(id: i32, form: &MaterialUpdateForm) -> (m: Mutation)
    ensures
        m@.guards == Seq::<GuardView>::empty(),
        m@.statement == fixed(MATERIAL_UPDATE_SQL@).arg(SqlValueView::Text(form.name@)).arg(
            SqlValueView::Double(form.cost),
        ).arg(SqlValueView::Text(form.units@)).arg(SqlValueView::Int(id)),
{
    Mutation {
        guards: no_guards(),
        statement: Statement::new(MATERIAL_UPDATE_SQL).bind(SqlValue::text(form.name.as_str())).bind(
            SqlValue::Double(form.cost),
        ).bind(SqlValue::text(form.units.as_str())).bind(SqlValue::Int(id)),
    }
}

/// The notification after the update of the material `id` was run.
pub fn material_update_outcome(id: i32, form: &MaterialUpdateForm, result: Result<u64, String>) -> (n:
    NotificationTemplate)
    ensures
        n@ == written_note(
            answer_view(result),
            "Material '"@ + form.name@ + "' updated successfully"@,
            "Failed to update material: "@,
            Some("/materials/"@ + int_text(id as int)),
        ),
{
    written(
        result,
        join3("Material '", form.name.as_str(), "' updated successfully"),
        "Failed to update material: ",
        Some(path_of("/materials/", id)),
    )
}

/// The removal of the material `id`: refused while it is booked on tasks.
pub fn material_delete(id: i32) -> (d: Removal)
    ensures
        d@ == (RemovalView {
            guard: CountGuardView {
                probe: fixed(MATERIAL_EXPENDITURE_COUNT_SQL@).arg(SqlValueView::Int(id)),
                before: "Cannot delete material: it is used in "@,
                after: " expenditures"@,
                redirect: Some("/materials"@),
            },
            statement: fixed(MATERIAL_DELETE_SQL@).arg(SqlValueView::Int(id)),
        }),
{
    Removal {
        guard: CountGuard {
            probe: by_id(MATERIAL_EXPENDITURE_COUNT_SQL, id),
            before: "Cannot delete material: it is used in ",
            after: " expenditures",
            redirect: Some(String::from_str("/materials")),
        },
        statement: by_id(MATERIAL_DELETE_SQL, id),
    }
}

/// The notification after the removal of a material was run.
pub fn material_delete_outcome(result: Result<u64, String>) -> (n: NotificationTemplate)
    ensures
        n@ == written_note(
            answer_view(result),
            "Material deleted successfully"@,
            "Failed to delete material: "@,
            Some("/materials"@),
        ),
{
    written(
        result,
        String::from_str("Material deleted successfully"),
        "Failed to delete material: ",
        Some(String::from_str("/materials")),
    )
}

/// The order that a sort key of the material listing stands for. A key
/// that the listing does not know orders by the primary key.
pub open spec fn material_order(key: Seq<char>) -> OrderView {
    if key == "name"@ {
        by_column("m.name"@)
    } else if key == "cost"@ {
        by_column("m.cost"@)
    } else if key == "units"@ {
        by_column("m.units"@)
    } else if key == "estimated_spendings"@ {
        by_column("estimated_spendings"@)
    } else if key == "actual_spendings"@ {
        by_column("actual_spendings"@)
    } else {
        by_column("m.id"@)
    }
}

/// The order that a sort key of the material listing stands for.
pub fn material_order_column(key: &str) -> (order: Order)
    ensures
        order@ == material_order(key@),
{
    if str_eq(key, "name") {
        Order::by_column("m.name")
    } else if str_eq(key, "cost") {
        Order::by_column("m.cost")
    } else if str_eq(key, "units") {
        Order::by_column("m.units")
    } else if str_eq(key, "estimated_spendings") {
        Order::by_column("estimated_spendings")
    } else if str_eq(key, "actual_spendings") {
        Order::by_column("actual_spendings")
    } else {
        Order::by_column("m.id")
    }
}

/// Whatever the sort key, the listing is ordered by one of its own columns,
/// never by the key itself; and a key that the listing does not know orders
/// by the primary key.
pub proof fn lemma_material_order_is_listed(key: Seq<char>)
    ensures
        material_order(key) == by_column("m.name"@) || material_order(key) == by_column("m.cost"@) || material_order(key) == by_column("m.units"@) || material_order(key) == by_column("estimated_spendings"@) || material_order(key) == by_column("actual_spendings"@) || material_order(key) == by_column("m.id"@),
        key != "name"@ && key != "cost"@ && key != "units"@ && key != "estimated_spendings"@ && key != "actual_spendings"@ ==> material_order(key) == by_column("m.id"@),
{
}

/// An optional cost as an optional bound value.
pub open spec fn cost_filter(v: Option<Float64>) -> Option<SqlValueView> {
    match v {
        Some(c) => Some(SqlValueView::Double(c)),
        None => None,
    }
}

/// The condition on materials of which more was used than expected.
pub open spec fn excess_usage_condition() -> Seq<char> {
    " EXISTS (SELECT 1 FROM expenditure e WHERE e.material_id = m.id AND e.actual_amount > e.expected_amount)"@
}

/// The conditions of the material listing: one for each field of the
/// filter that is present. The filter on excess only ever asks for the
/// materials with excess: where it is `false`, it asks for nothing.
pub open spec fn material_conditions(filter: MaterialListFilter) -> Seq<Seq<PieceView>> {
    when_present(pattern_filter(opt_text(filter.name)), "m.name ILIKE "@, ""@) + when_present(
        cost_filter(filter.cost_min),
        "m.cost >= "@,
        ""@,
    ) + when_present(cost_filter(filter.cost_max), "m.cost <= "@, ""@) + when_chosen(
        if filter.excess_usage == Some(true) {
            Some(excess_usage_condition())
        } else {
            None
        },
    )
}

/// The conditions of the material listing.
pub fn material_predicates(filter: &MaterialListFilter) -> (p: Predicates)
    ensures
        p@ == material_conditions(*filter),
{
    let mut p = Predicates::new();
    p.add_bound(filter_pattern(&filter.name), "m.name ILIKE ", "");
    p.add_bound(
        match filter.cost_min {
            Some(c) => Some(SqlValue::Double(c)),
            None => None,
        },
        "m.cost >= ",
        "",
    );
    p.add_bound(
        match filter.cost_max {
            Some(c) => Some(SqlValue::Double(c)),
            None => None,
        },
        "m.cost <= ",
        "",
    );
    p.add_chosen(
        match filter.excess_usage {
            Some(true) => Some(
                " EXISTS (SELECT 1 FROM expenditure e WHERE e.material_id = m.id AND e.actual_amount > e.expected_amount)",
            ),
            _ => None,
        },
    );
    assert(p@ =~= material_conditions(*filter));
    p
}

/// The listing of materials: the count of the materials that the filter
/// admits, and the page of them that `pagination` asks for, in the order
/// that the filter asks for.
pub fn materials_list_queries(pagination: &Pagination, filter: &MaterialListFilter) -> (l: Listing)
    ensures
        l@.count.statement == filtered(MATERIAL_LIST_SQL@, material_conditions(*filter)).wrapped(
            "SELECT COUNT(*) FROM ("@,
            ") as count_query"@,
        ),
        l@.count.failure == "Error counting materials: "@,
        l@.page.statement == paged(
            filtered(MATERIAL_LIST_SQL@, material_conditions(*filter)),
            material_order(filter.sort.sort_by@),
            filter.sort.sort_direction,
            *pagination,
        ),
        l@.page.failure == "Error fetching materials: "@,
{
    let rows = Statement::filtered(MATERIAL_LIST_SQL, &material_predicates(filter));
    let count = rows.wrap("SELECT COUNT(*) FROM (", ") as count_query");
    let page = rows.paged(
        material_order_column(filter.sort.sort_by.as_str()),
        filter.sort.sort_direction,
        pagination,
    );
    Listing {
        count: Fetch { statement: count, failure: "Error counting materials: " },
        page: Fetch { statement: page, failure: "Error fetching materials: " },
    }
}

/// The creation of a material: one statement, which returns the new id,
/// and no check before it.
pub fn material_create(form: &MaterialCreateForm) -> (m: Mutation)
    ensures
        m@.guards == Seq::<GuardView>::empty(),
        m@.statement == fixed(MATERIAL_INSERT_SQL@).arg(SqlValueView::Text(form.name@)).arg(
            SqlValueView::Double(form.cost),
        ).arg(SqlValueView::Text(form.units@)),
{
    Mutation {
        guards: no_guards(),
        statement: Statement::new(MATERIAL_INSERT_SQL).bind(SqlValue::text(form.name.as_str())).bind(
            SqlValue::Double(form.cost),
        ).bind(SqlValue::text(form.units.as_str())),
    }
}

/// The notification after the creation of a material was run: `inserted`
/// is the id that the statement returned, if it returned any.
pub fn material_create_outcome(form: &MaterialCreateForm, inserted: Result<Option<i32>, String>) -> (n:
    NotificationTemplate)
    ensures
        n@ == created_note(
            answer_view(inserted),
            "Material '"@ + form.name@ + "' created successfully"@,
            "/materials/"@,
            "Failed to create material: "@,
            "/materials"@,
        ),
{
    created(
        inserted,
        join3("Material '", form.name.as_str(), "' created successfully"),
        "/materials/",
        "Failed to create material: ",
        "/materials",
    )
}

/// The read of a page of the tasks that used the material `id`.
pub fn material_usage_query(id: i32, pagination: &Pagination) -> (f: Fetch)
    ensures
        f@ == (FetchView {
            statement: fixed(MATERIAL_USAGE_SQL@).arg(SqlValueView::Int(id)).arg(
                SqlValueView::BigInt(pagination.spec_limit() as i64),
            ).arg(SqlValueView::BigInt(pagination.spec_offset() as i64)),
            failure: "Error fetching material usage: "@,
        }),
{
    Fetch {
        statement: page_by_id(MATERIAL_USAGE_SQL, id, pagination),
        failure: "Error fetching material usage: ",
    }
}

} // verus!
