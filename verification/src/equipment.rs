//! Equipment: the statements and replies of its pages, its listing, its
//! mutations and its allocations.

use crate::flow::{
    answer_view, CountGuard, CountGuardView, created, created_note, Fetch, FetchView, Guard,
    guard_also, guards_of, guards_view, GuardView, Listing, must_exist_or_note,
    must_exist_or_notify, Mutation, no_guards, path_of, Removal, RemovalView, written,
    written_note,
};
use crate::general::{
    error_note, FuelType, NotificationTemplate, NotificationView, Pagination, paragraph,
    paragraph_about, QueryInfo, Sort,
};
use crate::sql::{
    by_column, by_id, filter_int, filter_pattern, filtered, fixed, int_filter,
    opt_date_time_value, opt_fuel_type_value, opt_int_value, Order, OrderView, page_by_id,
    paged, pattern_filter, PieceView, Predicates, SqlValue, SqlValueView, Statement,
    when_chosen, when_present,
};
use crate::text::{around_i32, decimal, int_text, join3, opt_text, push_decimal, push_i32, str_eq};
use crate::values::{DateTime, Float64, signed, to_signed, to_unsigned, unsigned};
use vstd::prelude::*;
use vstd::string::*;

verus! {

#[derive(Clone, Copy, Debug, PartialEq, Eq, Structural)]
pub struct EquipmentPageTemplate;

#[derive(Clone, Copy, Debug, PartialEq, Eq, Structural)]
pub struct EquipmentDetailsTemplate {
    pub id: i32,
}

#[derive(Clone, Copy, Debug, PartialEq, Eq, Structural)]
pub struct EquipmentNewTemplate;

#[derive(Clone, Debug, PartialEq, Eq)]
pub struct EquipmentEditTemplate {
    pub id: i32,
    pub name: String,
    pub amount: u32,
    pub purchase_date: DateTime,
    pub purchase_cost: Float64,
    pub fuel_type: Option<FuelType>,
}

#[derive(Clone, Debug, PartialEq, Eq)]
pub struct EquipmentApiDetailsTemplate {
    pub id: i32,
    pub name: String,
    pub amount: u32,
    pub available_amount: u32,
    pub purchase_date: DateTime,
    pub purchase_cost: Float64,
    pub fuel_type: Option<FuelType>,
}

#[derive(Clone, Debug, PartialEq, Eq)]
pub struct EquipmentUpdateForm {
    pub name: String,
    pub amount: u32,
    pub purchase_date: DateTime,
    pub purchase_cost: Float64,
    pub fuel_type: Option<FuelType>,
}

#[derive(Clone, Debug, PartialEq, Eq)]
pub struct EquipmentCreateForm {
    pub name: String,
    pub amount: u32,
    pub purchase_date: DateTime,
    pub purchase_cost: Float64,
    pub fuel_type: Option<FuelType>,
}

#[derive(Clone, Debug, PartialEq, Eq)]
pub struct EquipmentListFilter {
    pub sort: Sort,
    pub department_id: Option<i32>,
    pub site_id: Option<i32>,
    pub name: Option<String>,
    pub available: Option<bool>,
}

#[derive(Clone, Debug, PartialEq, Eq)]
pub struct EquipmentListTemplate {
    pub equipment: Vec<EquipmentListItem>,
    pub pagination: Pagination,
    pub query_info: QueryInfo,
}

#[derive(Clone, Debug, PartialEq, Eq)]
pub struct EquipmentListItem {
    pub id: i32,
    pub name: String,
    pub total_amount: u32,
    pub available_amount: u32,
    pub purchase_date: String,
    pub purchase_cost: Float64,
}

#[derive(Clone, Debug, PartialEq, Eq)]
pub struct EquipmentAllocationsTemplate {
    pub allocations: Vec<AllocationListItem>,
    pub pagination: Pagination,
}

#[derive(Clone, Debug, PartialEq, Eq)]
pub struct AllocationListItem {
    pub department_id: i32,
    pub department_name: String,
    pub site_id: Option<i32>,
    pub site_name: Option<String>,
    pub amount: u32,
    pub period_start: DateTime,
    pub period_end: Option<DateTime>,
    pub is_current: bool,
}

#[derive(Clone, Copy, Debug, PartialEq, Eq, Structural)]
pub struct EquipmentAllocationForm {
    pub department_id: i32,
    pub site_id: Option<i32>,
    pub amount: u32,
    pub period_start: DateTime,
    pub period_end: Option<DateTime>,
}

/// The row of a piece of equipment.
#[derive(Clone, Debug, PartialEq, Eq)]
pub struct EquipmentEditData {
    pub id: i32,
    pub name: String,
    pub amount: i32,
    pub purchase_date: DateTime,
    pub purchase_cost: Float64,
    pub fuel_type: Option<FuelType>,
}

/// The row of a piece of equipment with the amount that is not allocated.
#[derive(Clone, Debug, PartialEq, Eq)]
pub struct EquipmentDetails {
    pub id: i32,
    pub name: String,
    pub amount: i32,
    pub available_amount: i32,
    pub purchase_date: DateTime,
    pub purchase_cost: Float64,
    pub fuel_type: Option<FuelType>,
}

/// The row of a piece of equipment in the listing.
#[derive(Clone, Debug, PartialEq, Eq)]
pub struct EquipmentListRow {
    pub id: i32,
    pub name: String,
    pub total_amount: i32,
    pub available_amount: i32,
    pub purchase_date: DateTime,
    pub purchase_cost: Float64,
}

/// The row of an allocation.
#[derive(Clone, Debug, PartialEq, Eq)]
pub struct AllocationRow {
    pub department_id: i32,
    pub department_name: String,
    pub site_id: Option<i32>,
    pub site_name: Option<String>,
    pub amount: i32,
    pub period_start: DateTime,
    pub period_end: Option<DateTime>,
    pub is_current: bool,
}

pub const EQUIPMENT_EDIT_SQL: &'static str =
    "SELECT id, name, amount, purchase_date, purchase_cost, fuel_type 
         FROM equipment
         WHERE id = $1";

pub const EQUIPMENT_DETAILS_SQL: &'static str =
    "SELECT e.id, e.name, e.amount, 
         (e.amount - COALESCE((SELECT SUM(ea.amount) FROM equipment_allocation ea WHERE ea.equipment_id = e.id AND (ea.period_end IS NULL OR ea.period_end > CURRENT_DATE)), 0)) as available_amount,
         e.purchase_date, e.purchase_cost, e.fuel_type
         FROM equipment e
         WHERE e.id = $1";

pub const EQUIPMENT_ALLOCATED_SQL: &'static str =
    "SELECT COALESCE(SUM(amount), 0) FROM equipment_allocation 
         WHERE equipment_id = $1 AND (period_end IS NULL OR period_end > CURRENT_DATE)";

pub const EQUIPMENT_UPDATE_SQL: &'static str =
    "UPDATE equipment SET name = $1, amount = $2, purchase_date = $3, purchase_cost = $4, fuel_type = $5 
         WHERE id = $6";

pub const EQUIPMENT_INSERT_SQL: &'static str =
    "INSERT INTO equipment (name, amount, purchase_date, purchase_cost, fuel_type) 
         VALUES ($1, $2, $3, $4, $5) 
         RETURNING id";

pub const EQUIPMENT_DELETE_SQL: &'static str = "DELETE FROM equipment WHERE id = $1";

pub const EQUIPMENT_ALLOCATION_COUNT_SQL: &'static str =
    "SELECT COUNT(*) FROM equipment_allocation WHERE equipment_id = $1";

pub const EQUIPMENT_LIST_SQL: &'static str =
    "SELECT e.id, e.name, e.amount as total_amount, 
         (e.amount - COALESCE((SELECT SUM(ea.amount) FROM equipment_allocation ea WHERE ea.equipment_id = e.id AND (ea.period_end IS NULL OR ea.period_end > CURRENT_DATE)), 0)) as available_amount,
         e.purchase_date, e.purchase_cost
         FROM equipment e";

pub const EQUIPMENT_ALLOCATIONS_SQL: &'static str =
    "SELECT ea.department_id, d.name as department_name,
         ea.site_id, s.name as site_name,
         ea.amount, ea.period_start, ea.period_end,
         (ea.period_end IS NULL OR ea.period_end > CURRENT_DATE) as is_current
         FROM equipment_allocation ea
         JOIN department d ON ea.department_id = d.id
         LEFT JOIN site s ON ea.site_id = s.id
         WHERE ea.equipment_id = $1
         ORDER BY is_current DESC, ea.period_start DESC
         LIMIT $2 OFFSET $3";

pub const EQUIPMENT_AVAILABLE_SQL: &'static str =
    "SELECT amount - COALESCE((SELECT SUM(amount) FROM equipment_allocation WHERE equipment_id = $1 AND (period_end IS NULL OR period_end > $2)), 0) 
         FROM equipment WHERE id = $1";

pub const ALLOCATION_INSERT_SQL: &'static str =
    "INSERT INTO equipment_allocation (equipment_id, department_id, site_id, amount, period_start, period_end) 
         VALUES ($1, $2, $3, $4, $5, $6)";

/// The read behind the edit form of the equipment `id`.
pub fn equipment_edit_query(id: i32) -> (f: Fetch)
    ensures
        f@ == (FetchView {
            statement: fixed(EQUIPMENT_EDIT_SQL@).arg(SqlValueView::Int(id)),
            failure: "Error fetching equipment: "@,
        }),
{
    Fetch { statement: by_id(EQUIPMENT_EDIT_SQL, id), failure: "Error fetching equipment: " }
}

/// The edit form of the equipment `id` for the row that was read; or the
/// paragraph that says that there is no such equipment, or that the read
/// failed.
pub fn equipment_edit_page(id: i32, fetched: Result<Option<EquipmentEditData>, String>) -> (r: Result<
    EquipmentEditTemplate,
    String,
>)
    ensures
        match fetched {
            Ok(Some(row)) => r == Ok::<EquipmentEditTemplate, String>(
                EquipmentEditTemplate {
                    id: row.id,
                    name: row.name,
                    amount: unsigned(row.amount),
                    purchase_date: row.purchase_date,
                    purchase_cost: row.purchase_cost,
                    fuel_type: row.fuel_type,
                },
            ),
            Ok(None) => r is Err && r->Err_0@ == paragraph_about(
                "Equipment with ID "@,
                id as int,
                " not found"@,
            ),
            Err(e) => r is Err && r->Err_0@ == paragraph("Error fetching equipment: "@, e@),
        },
{
    match equipment_edit_query(id).row(fetched, id, "Equipment with ID ", " not found") {
        Ok(row) => Ok(
            EquipmentEditTemplate {
                id: row.id,
                name: row.name,
                amount: to_unsigned(row.amount),
                purchase_date: row.purchase_date,
                purchase_cost: row.purchase_cost,
                fuel_type: row.fuel_type,
            },
        ),
        Err(html) => Err(html),
    }
}

/// The read behind the details of the equipment `id`.
pub fn equipment_api_details_query(id: i32) -> (f: Fetch)
    ensures
        f@ == (FetchView {
            statement: fixed(EQUIPMENT_DETAILS_SQL@).arg(SqlValueView::Int(id)),
            failure: "Error fetching equipment details: "@,
        }),
{
    Fetch {
        statement: by_id(EQUIPMENT_DETAILS_SQL, id),
        failure: "Error fetching equipment details: ",
    }
}

/// The details of the equipment `id` for the row that was read; or the
/// paragraph that says that there is no such equipment, or that the read
/// failed.
pub fn equipment_api_details_page(id: i32, fetched: Result<Option<EquipmentDetails>, String>) -> (r:
    Result<EquipmentApiDetailsTemplate, String>)
    ensures
        match fetched {
            Ok(Some(row)) => r == Ok::<EquipmentApiDetailsTemplate, String>(
                EquipmentApiDetailsTemplate {
                    id: row.id,
                    name: row.name,
                    amount: unsigned(row.amount),
                    available_amount: unsigned(row.available_amount),
                    purchase_date: row.purchase_date,
                    purchase_cost: row.purchase_cost,
                    fuel_type: row.fuel_type,
                },
            ),
            Ok(None) => r is Err && r->Err_0@ == paragraph_about(
                "Equipment with ID "@,
                id as int,
                " not found"@,
            ),
            Err(e) => r is Err && r->Err_0@ == paragraph("Error fetching equipment details: "@, e@),
        },
{
    match equipment_api_details_query(id).row(fetched, id, "Equipment with ID ", " not found") {
        Ok(row) => Ok(
            EquipmentApiDetailsTemplate {
                id: row.id,
                name: row.name,
                amount: to_unsigned(row.amount),
                available_amount: to_unsigned(row.available_amount),
                purchase_date: row.purchase_date,
                purchase_cost: row.purchase_cost,
                fuel_type: row.fuel_type,
            },
        ),
        Err(html) => Err(html),
    }
}

/// The statement that reads the amount of the equipment `id` that is
/// allocated at present.
pub fn equipment_allocated_query(id: i32) -> (s: Statement)
    ensures
        s@ == fixed(EQUIPMENT_ALLOCATED_SQL@).arg(SqlValueView::Int(id)),
{
    by_id(EQUIPMENT_ALLOCATED_SQL, id)
}

/// What stands against the update of the equipment `id`, if anything: that
/// the form sets its amount below the amount that is allocated. Where the
/// allocated amount could not be read, nothing stands against it.
pub open spec fn equipment_update_refusal(
    id: i32,
    form: EquipmentUpdateForm,
    allocated: Result<i32, Seq<char>>,
) -> Option<NotificationView> {
    match allocated {
        Ok(amount) => if form.amount < unsigned(amount) {
            Some(
                error_note(
                    "Cannot set amount less than allocated amount ("@ + int_text(amount as int)
                        + ")"@,
                    Some("/equipment/"@ + int_text(id as int) + "/edit"@),
                ),
            )
        } else {
            None
        },
        Err(_) => None,
    }
}

/// The update of the equipment `id`, of which `allocated` was read to be
/// allocated: the statement, or the notification of what stands against
/// it.
pub fn equipment_update(id: i32, form: &EquipmentUpdateForm, allocated: Result<i32, String>) -> (r:
    Result<Statement, NotificationTemplate>)
    ensures
        match equipment_update_refusal(id, *form, answer_view(allocated)) {
            Some(refusal) => r is Err && r->Err_0@ == refusal,
            None => r is Ok && r->Ok_0@ == fixed(EQUIPMENT_UPDATE_SQL@).arg(
                SqlValueView::Text(form.name@),
            ).arg(SqlValueView::Int(signed(form.amount))).arg(
                SqlValueView::DateTime(form.purchase_date),
            ).arg(SqlValueView::Double(form.purchase_cost)).arg(
                opt_fuel_type_value(form.fuel_type),
            ).arg(SqlValueView::Int(id)),
        },
{
    let short = match allocated {
        Ok(amount) => if form.amount < to_unsigned(amount) {
            Some(amount)
        } else {
            None
        },
        Err(_) => None,
    };
    match short {
        Some(amount) => Err(
            NotificationTemplate::error(
                around_i32("Cannot set amount less than allocated amount (", amount, ")"),
                Some(around_i32("/equipment/", id, "/edit")),
            ),
        ),
        None => Ok(
            Statement::new(EQUIPMENT_UPDATE_SQL).bind(SqlValue::text(form.name.as_str())).bind(
                SqlValue::Int(to_signed(form.amount)),
            ).bind(SqlValue::DateTime(form.purchase_date)).bind(
                SqlValue::Double(form.purchase_cost),
            ).bind(SqlValue::opt_fuel_type(form.fuel_type)).bind(SqlValue::Int(id)),
        ),
    }
}

/// The notification after the update of the equipment `id` was run.
pub fn equipment_update_outcome(id: i32, form: &EquipmentUpdateForm, result: Result<u64, String>)
    -> (n: NotificationTemplate)
    ensures
        n@ == written_note(
            answer_view(result),
            "Equipment '"@ + form.name@ + "' updated successfully"@,
            "Failed to update equipment: "@,
            Some("/equipment/"@ + int_text(id as int)),
        ),
{
    written(
        result,
        join3("Equipment '", form.name.as_str(), "' updated successfully"),
        "Failed to update equipment: ",
        Some(path_of("/equipment/", id)),
    )
}

/// The removal of the equipment `id`: refused while it has allocations.
pub fn equipment_delete(id: i32) -> (d: Removal)
    ensures
        d@ == (RemovalView {
            guard: CountGuardView {
                probe: fixed(EQUIPMENT_ALLOCATION_COUNT_SQL@).arg(SqlValueView::Int(id)),
                before: "Cannot delete equipment: it has "@,
                after: " allocations. Remove allocations first."@,
                redirect: Some("/equipment"@),
            },
            statement: fixed(EQUIPMENT_DELETE_SQL@).arg(SqlValueView::Int(id)),
        }),
{
    Removal {
        guard: CountGuard {
            probe: by_id(EQUIPMENT_ALLOCATION_COUNT_SQL, id),
            before: "Cannot delete equipment: it has ",
            after: " allocations. Remove allocations first.",
            redirect: Some(String::from_str("/equipment")),
        },
        statement: by_id(EQUIPMENT_DELETE_SQL, id),
    }
}

/// The notification after the removal of a piece of equipment was run.
pub fn equipment_delete_outcome(result: Result<u64, String>) -> (n: NotificationTemplate)
    ensures
        n@ == written_note(
            answer_view(result),
            "Equipment deleted successfully"@,
            "Failed to delete equipment: "@,
            Some("/equipment"@),
        ),
{
    written(
        result,
        String::from_str("Equipment deleted successfully"),
        "Failed to delete equipment: ",
        Some(String::from_str("/equipment")),
    )
}

/// The order that a sort key of the equipment listing stands for. A key
/// that the listing does not know orders by the primary key.
pub open spec fn equipment_order(key: Seq<char>) -> OrderView {
    if key == "name"@ {
        by_column("e.name"@)
    } else if key == "amount"@ {
        by_column("e.amount"@)
    } else if key == "purchase_date"@ {
        by_column("e.purchase_date"@)
    } else if key == "purchase_cost"@ {
        by_column("e.purchase_cost"@)
    } else {
        by_column("e.id"@)
    }
}

/// The order that a sort key of the equipment listing stands for.
pub fn equipment_order_column(key: &str) -> (order: Order)
    ensures
        order@ == equipment_order(key@),
{
    if str_eq(key, "name") {
        Order::by_column("e.name")
    } else if str_eq(key, "amount") {
        Order::by_column("e.amount")
    } else if str_eq(key, "purchase_date") {
        Order::by_column("e.purchase_date")
    } else if str_eq(key, "purchase_cost") {
        Order::by_column("e.purchase_cost")
    } else {
        Order::by_column("e.id")
    }
}

/// Whatever the sort key, the listing is ordered by one of its own columns,
/// never by the key itself; and a key that the listing does not know orders
/// by the primary key.
pub proof fn lemma_equipment_order_is_listed(key: Seq<char>)
    ensures
        equipment_order(key) == by_column("e.name"@) || equipment_order(key) == by_column("e.amount"@) || equipment_order(key) == by_column("e.purchase_date"@) || equipment_order(key) == by_column("e.purchase_cost"@) || equipment_order(key) == by_column("e.id"@),
        key != "name"@ && key != "amount"@ && key != "purchase_date"@ && key != "purchase_cost"@ ==> equipment_order(key) == by_column("e.id"@),
{
}

/// The condition on equipment of which some is free, or of which none is.
pub open spec fn availability_condition(available: bool) -> Seq<char> {
    if available {
        " (e.amount - COALESCE((SELECT SUM(ea.amount) FROM equipment_allocation ea WHERE ea.equipment_id = e.id AND (ea.period_end IS NULL OR ea.period_end > CURRENT_DATE)), 0)) > 0"@
    } else {
        " (e.amount - COALESCE((SELECT SUM(ea.amount) FROM equipment_allocation ea WHERE ea.equipment_id = e.id AND (ea.period_end IS NULL OR ea.period_end > CURRENT_DATE)), 0)) = 0"@
    }
}

/// The conditions of the equipment listing: one for each field of the
/// filter that is present.
pub open spec fn equipment_conditions(filter: EquipmentListFilter) -> Seq<Seq<PieceView>> {
    when_present(pattern_filter(opt_text(filter.name)), "e.name ILIKE "@, ""@) + when_present(
        int_filter(filter.department_id),
        "EXISTS (SELECT 1 FROM equipment_allocation ea WHERE ea.equipment_id = e.id AND ea.department_id = "@,
        " AND (ea.period_end IS NULL OR ea.period_end > CURRENT_DATE))"@,
    ) + when_present(
        int_filter(filter.site_id),
        "EXISTS (SELECT 1 FROM equipment_allocation ea WHERE ea.equipment_id = e.id AND ea.site_id = "@,
        " AND (ea.period_end IS NULL OR ea.period_end > CURRENT_DATE))"@,
    ) + when_chosen(
        match filter.available {
            Some(available) => Some(availability_condition(available)),
            None => None,
        },
    )
}

/// The conditions of the equipment listing.
pub fn equipment_predicates(filter: &EquipmentListFilter) -> (p: Predicates)
    ensures
        p@ == equipment_conditions(*filter),
{
    let mut p = Predicates::new();
    p.add_bound(filter_pattern(&filter.name), "e.name ILIKE ", "");
    p.add_bound(
        filter_int(filter.department_id),
        "EXISTS (SELECT 1 FROM equipment_allocation ea WHERE ea.equipment_id = e.id AND ea.department_id = ",
        " AND (ea.period_end IS NULL OR ea.period_end > CURRENT_DATE))",
    );
    p.add_bound(
        filter_int(filter.site_id),
        "EXISTS (SELECT 1 FROM equipment_allocation ea WHERE ea.equipment_id = e.id AND ea.site_id = ",
        " AND (ea.period_end IS NULL OR ea.period_end > CURRENT_DATE))",
    );
    p.add_chosen(
        match filter.available {
            Some(true) => Some(
                " (e.amount - COALESCE((SELECT SUM(ea.amount) FROM equipment_allocation ea WHERE ea.equipment_id = e.id AND (ea.period_end IS NULL OR ea.period_end > CURRENT_DATE)), 0)) > 0",
            ),
            Some(false) => Some(
                " (e.amount - COALESCE((SELECT SUM(ea.amount) FROM equipment_allocation ea WHERE ea.equipment_id = e.id AND (ea.period_end IS NULL OR ea.period_end > CURRENT_DATE)), 0)) = 0",
            ),
            None => None,
        },
    );
    assert(p@ =~= equipment_conditions(*filter));
    p
}

/// The listing of equipment: the count of the pieces that the filter
/// admits, and the page of them that `pagination` asks for, in the order
/// that the filter asks for.
pub fn equipment_list_queries(pagination: &Pagination, filter: &EquipmentListFilter) -> (l: Listing)
    ensures
        l@.count.statement == filtered(EQUIPMENT_LIST_SQL@, equipment_conditions(*filter)).wrapped(
            "SELECT COUNT(*) FROM ("@,
            ") as count_query"@,
        ),
        l@.count.failure == "Error counting equipment: "@,
        l@.page.statement == paged(
            filtered(EQUIPMENT_LIST_SQL@, equipment_conditions(*filter)),
            equipment_order(filter.sort.sort_by@),
            filter.sort.sort_direction,
            *pagination,
        ),
        l@.page.failure == "Error fetching equipment: "@,
{
    let rows = Statement::filtered(EQUIPMENT_LIST_SQL, &equipment_predicates(filter));
    let count = rows.wrap("SELECT COUNT(*) FROM (", ") as count_query");
    let page = rows.paged(
        equipment_order_column(filter.sort.sort_by.as_str()),
        filter.sort.sort_direction,
        pagination,
    );
    Listing {
        count: Fetch { statement: count, failure: "Error counting equipment: " },
        page: Fetch { statement: page, failure: "Error fetching equipment: " },
    }
}

/// The item of the listing for a row that was read: its amounts as counts
/// without a sign, and the day of its purchase as text. There is none for
/// a row whose day of purchase is no day of the calendar.
pub fn equipment_list_item(row: EquipmentListRow) -> (listed: Option<EquipmentListItem>)
    ensures
        listed is Some <==> row.purchase_date.date.is_day(),
        listed matches Some(item) ==> {
            &&& item.id == row.id
            &&& item.name == row.name
            &&& item.total_amount == unsigned(row.total_amount)
            &&& item.available_amount == unsigned(row.available_amount)
            &&& item.purchase_date@ == row.purchase_date.date.spec_iso_text()
            &&& item.purchase_cost == row.purchase_cost
        },
{
    match row.purchase_date.date.iso_text() {
        Some(purchase_date) => Some(
            EquipmentListItem {
                id: row.id,
                name: row.name,
                total_amount: to_unsigned(row.total_amount),
                available_amount: to_unsigned(row.available_amount),
                purchase_date,
                purchase_cost: row.purchase_cost,
            },
        ),
        None => None,
    }
}

/// The creation of a piece of equipment: one statement, which returns the
/// new id, and no check before it.
pub fn equipment_create(form: &EquipmentCreateForm) -> (m: Mutation)
    ensures
        m@.guards == Seq::<GuardView>::empty(),
        m@.statement == fixed(EQUIPMENT_INSERT_SQL@).arg(SqlValueView::Text(form.name@)).arg(
            SqlValueView::Int(signed(form.amount)),
        ).arg(SqlValueView::DateTime(form.purchase_date)).arg(
            SqlValueView::Double(form.purchase_cost),
        ).arg(opt_fuel_type_value(form.fuel_type)),
{
    Mutation {
        guards: no_guards(),
        statement: Statement::new(EQUIPMENT_INSERT_SQL).bind(
            SqlValue::text(form.name.as_str()),
        ).bind(SqlValue::Int(to_signed(form.amount))).bind(
            SqlValue::DateTime(form.purchase_date),
        ).bind(SqlValue::Double(form.purchase_cost)).bind(SqlValue::opt_fuel_type(form.fuel_type)),
    }
}

/// The notification after the creation of a piece of equipment was run:
/// `inserted` is the id that the statement returned, if it returned any.
pub fn equipment_create_outcome(form: &EquipmentCreateForm, inserted: Result<Option<i32>, String>)
    -> (n: NotificationTemplate)
    ensures
        n@ == created_note(
            answer_view(inserted),
            "Equipment '"@ + form.name@ + "' created successfully"@,
            "/equipment/"@,
            "Failed to create equipment: "@,
            "/equipment"@,
        ),
{
    created(
        inserted,
        join3("Equipment '", form.name.as_str(), "' created successfully"),
        "/equipment/",
        "Failed to create equipment: ",
        "/equipment",
    )
}

/// The read of a page of the allocations of the equipment `id`.
pub fn equipment_allocations_query(id: i32, pagination: &Pagination) -> (f: Fetch)
    ensures
        f@ == (FetchView {
            statement: fixed(EQUIPMENT_ALLOCATIONS_SQL@).arg(SqlValueView::Int(id)).arg(
                SqlValueView::BigInt(pagination.spec_limit() as i64),
            ).arg(SqlValueView::BigInt(pagination.spec_offset() as i64)),
            failure: "Error fetching allocations: "@,
        }),
{
    Fetch {
        statement: page_by_id(EQUIPMENT_ALLOCATIONS_SQL, id, pagination),
        failure: "Error fetching allocations: ",
    }
}

/// The item of the allocations for a row that was read: its amount as a
/// count without a sign.
pub fn allocation_list_item(row: AllocationRow) -> (item: AllocationListItem)
    ensures
        item == (AllocationListItem {
            department_id: row.department_id,
            department_name: row.department_name,
            site_id: row.site_id,
            site_name: row.site_name,
            amount: unsigned(row.amount),
            period_start: row.period_start,
            period_end: row.period_end,
            is_current: row.is_current,
        }),
{
    AllocationListItem {
        department_id: row.department_id,
        department_name: row.department_name,
        site_id: row.site_id,
        site_name: row.site_name,
        amount: to_unsigned(row.amount),
        period_start: row.period_start,
        period_end: row.period_end,
        is_current: row.is_current,
    }
}

/// The checks before the equipment `id` is allocated: the department of
/// the form exists, and so does its site where it names one.
pub fn equipment_allocation_guards(id: i32, form: &EquipmentAllocationForm) -> (g: Vec<Guard>)
    ensures
        guards_view(g@) == seq![
            must_exist_or_note(
                "department"@,
                form.department_id,
                "Department with ID "@,
                "/equipment/"@ + int_text(id as int),
            ),
        ] + (match form.site_id {
            Some(site_id) => seq![
                must_exist_or_note(
                    "site"@,
                    site_id,
                    "Site with ID "@,
                    "/equipment/"@ + int_text(id as int),
                ),
            ],
            None => Seq::<GuardView>::empty(),
        }),
{
    let department = must_exist_or_notify(
        "department",
        form.department_id,
        "Department with ID ",
        path_of("/equipment/", id),
    );
    let site = match form.site_id {
        Some(site_id) => Some(
            must_exist_or_notify("site", site_id, "Site with ID ", path_of("/equipment/", id)),
        ),
        None => None,
    };
    guard_also(guards_of(department), site)
}

/// The statement that reads how much of the equipment `id` is free from
/// the start of the allocation of the form on.
pub fn equipment_available_query(id: i32, form: &EquipmentAllocationForm) -> (s: Statement)
    ensures
        s@ == fixed(EQUIPMENT_AVAILABLE_SQL@).arg(SqlValueView::Int(id)).arg(
            SqlValueView::DateTime(form.period_start),
        ),
{
    by_id(EQUIPMENT_AVAILABLE_SQL, id).bind(SqlValue::DateTime(form.period_start))
}

/// What stands against the allocation of the equipment `id`, if anything:
/// that the form asks for more than is free. Where the free amount could
/// not be read, nothing stands against it.
pub open spec fn equipment_allocation_refusal(
    id: i32,
    form: EquipmentAllocationForm,
    available: Result<i32, Seq<char>>,
) -> Option<NotificationView> {
    match available {
        Ok(amount) => if signed(form.amount) > amount {
            Some(
                error_note(
                    "Not enough available equipment. Available: "@ + int_text(amount as int)
                        + ", Requested: "@ + decimal(form.amount as nat),
                    Some("/equipment/"@ + int_text(id as int)),
                ),
            )
        } else {
            None
        },
        Err(_) => None,
    }
}

/// The allocation of the equipment `id`, of which `available` was read to
/// be free: the statement, or the notification of what stands against it.
pub fn equipment_create_allocation(
    id: i32,
    form: &EquipmentAllocationForm,
    available: Result<i32, String>,
) -> (r: Result<Statement, NotificationTemplate>)
    ensures
        match equipment_allocation_refusal(id, *form, answer_view(available)) {
            Some(refusal) => r is Err && r->Err_0@ == refusal,
            None => r is Ok && r->Ok_0@ == fixed(ALLOCATION_INSERT_SQL@).arg(SqlValueView::Int(id)).arg(
                SqlValueView::Int(form.department_id),
            ).arg(opt_int_value(form.site_id)).arg(SqlValueView::Int(signed(form.amount))).arg(
                SqlValueView::DateTime(form.period_start),
            ).arg(opt_date_time_value(form.period_end)),
        },
{
    let short = match available {
        Ok(amount) => if to_signed(form.amount) > amount {
            Some(amount)
        } else {
            None
        },
        Err(_) => None,
    };
    match short {
        Some(amount) => {
            let mut message = String::from_str("Not enough available equipment. Available: ");
            push_i32(&mut message, amount);
            message.append(", Requested: ");
            push_decimal(&mut message, form.amount as u64);
            Err(NotificationTemplate::error(message, Some(path_of("/equipment/", id))))
        },
        None => Ok(
            by_id(ALLOCATION_INSERT_SQL, id).bind(SqlValue::Int(form.department_id)).bind(
                SqlValue::opt_int(form.site_id),
            ).bind(SqlValue::Int(to_signed(form.amount))).bind(
                SqlValue::DateTime(form.period_start),
            ).bind(SqlValue::opt_date_time(form.period_end)),
        ),
    }
}

/// The notification after the allocation of the equipment `id` was run.
pub fn equipment_create_allocation_outcome(id: i32, result: Result<u64, String>) -> (n:
    NotificationTemplate)
    ensures
        n@ == written_note(
            answer_view(result),
            "Equipment allocation created successfully"@,
            "Failed to create equipment allocation: "@,
            Some("/equipment/"@ + int_text(id as int)),
        ),
{
    written(
        result,
        String::from_str("Equipment allocation created successfully"),
        "Failed to create equipment allocation: ",
        Some(path_of("/equipment/", id)),
    )
}

} // verus!
