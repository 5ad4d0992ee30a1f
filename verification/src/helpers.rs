//! Selectors: short listings of ids and names that fill the dropdowns of
//! the forms.

use crate::flow::{Fetch, FetchView};
use crate::general::{Position, Profession, Qualification, SiteType};
use crate::sql::{
    big_int_filter, filter_big_int, filter_int, filter_pattern, filtered, int_filter,
    pattern_filter, PieceView, Predicates, SqlValue, SqlValueView, Statement, when_chosen,
    when_present, when_present_twice,
};
use crate::text::{opt_text, str_eq};
use vstd::prelude::*;
use vstd::string::*;

verus! {

#[derive(Clone, Copy, Debug, PartialEq, Eq, Structural)]
pub struct DepartmentQuery {
    pub selected_id: Option<i32>,
}

#[derive(Clone, Debug, PartialEq, Eq)]
pub struct DepartmentFilter {
    pub name: Option<String>,
}

#[derive(Clone, Debug, PartialEq, Eq)]
pub struct DepartmentSelectorTemplate {
    pub departments: Vec<DepartmentSelectorItem>,
    pub query: DepartmentQuery,
}

#[derive(Clone, Debug, PartialEq, Eq)]
pub struct DepartmentSelectorItem {
    pub id: i32,
    pub name: String,
}

#[derive(Clone, Copy, Debug, PartialEq, Eq, Structural)]
pub struct AreaQuery {
    pub department_id: Option<i64>,
    pub selected_id: Option<i32>,
}

#[derive(Clone, Debug, PartialEq, Eq)]
pub struct AreaFilter {
    pub name: Option<String>,
}

#[derive(Clone, Debug, PartialEq, Eq)]
pub struct AreaSelectorTemplate {
    pub areas: Vec<AreaSelectorItem>,
    pub query: AreaQuery,
}

#[derive(Clone, Debug, PartialEq, Eq)]
pub struct AreaSelectorItem {
    pub id: i32,
    pub name: String,
}

#[derive(Clone, Copy, Debug, PartialEq, Eq, Structural)]
pub struct ClientQuery {
    pub selected_id: Option<i32>,
}

#[derive(Clone, Debug, PartialEq, Eq)]
pub struct ClientFilter {
    pub name: Option<String>,
}

#[derive(Clone, Debug, PartialEq, Eq)]
pub struct ClientSelectorTemplate {
    pub clients: Vec<ClientSelectorItem>,
    pub query: ClientQuery,
}

#[derive(Clone, Debug, PartialEq, Eq)]
pub struct ClientSelectorItem {
    pub id: i32,
    pub name: String,
}

#[derive(Clone, Copy, Debug, PartialEq, Eq, Structural)]
pub struct TechnicalPersonnelQuery {
    pub qualification: Option<Qualification>,
    pub position: Option<Position>,
    pub department_id: Option<i64>,
    pub area_id: Option<i64>,
    pub selected_id: Option<i32>,
}

#[derive(Clone, Debug, PartialEq, Eq)]
pub struct TechnicalPersonnelFilter {
    pub name: Option<String>,
}

#[derive(Clone, Debug, PartialEq, Eq)]
pub struct TechnicalPersonnelSelectorTemplate {
    pub personnel: Vec<TechnicalPersonnelSelectorItem>,
    pub query: TechnicalPersonnelQuery,
}

#[derive(Clone, Debug, PartialEq, Eq)]
pub struct TechnicalPersonnelSelectorItem {
    pub id: i32,
    pub name: String,
    pub qualification: Qualification,
}

#[derive(Clone, Copy, Debug, PartialEq, Eq, Structural)]
pub struct WorkerQuery {
    pub profession: Option<Profession>,
    pub brigade_id: Option<i64>,
    pub is_brigadier: Option<bool>,
    pub selected_id: Option<i32>,
}

#[derive(Clone, Debug, PartialEq, Eq)]
pub struct WorkerFilter {
    pub name: Option<String>,
}

#[derive(Clone, Debug, PartialEq, Eq)]
pub struct WorkerSelectorTemplate {
    pub workers: Vec<WorkerSelectorItem>,
    pub query: WorkerQuery,
}

#[derive(Clone, Debug, PartialEq, Eq)]
pub struct WorkerSelectorItem {
    pub id: i32,
    pub name: String,
    pub profession: Profession,
}

#[derive(Clone, Copy, Debug, PartialEq, Eq, Structural)]
pub struct BrigadeQuery {
    pub site_id: Option<i32>,
    pub available: Option<bool>,
    pub selected_id: Option<i32>,
}

#[derive(Clone, Debug, PartialEq, Eq)]
pub struct BrigadeFilter {
    pub brigadier_name: Option<String>,
}

#[derive(Clone, Debug, PartialEq, Eq)]
pub struct BrigadeSelectorTemplate {
    pub brigades: Vec<BrigadeSelectorItem>,
    pub query: BrigadeQuery,
}

#[derive(Clone, Debug, PartialEq, Eq)]
pub struct BrigadeSelectorItem {
    pub id: i32,
    pub brigadier_name: String,
    pub worker_count: i64,
}

#[derive(Clone, Copy, Debug, PartialEq, Eq, Structural)]
pub struct SiteQuery {
    pub area_id: Option<i32>,
    pub department_id: Option<i32>,
    pub client_id: Option<i32>,
    pub type_: Option<SiteType>,
    pub selected_id: Option<i32>,
}

#[derive(Clone, Debug, PartialEq, Eq)]
pub struct SiteFilter {
    pub name: Option<String>,
}

#[derive(Clone, Debug, PartialEq, Eq)]
pub struct SiteSelectorTemplate {
    pub sites: Vec<SiteSelectorItem>,
    pub query: SiteQuery,
}

#[derive(Clone, Debug, PartialEq, Eq)]
pub struct SiteSelectorItem {
    pub id: i32,
    pub name: String,
    pub type_: SiteType,
}

#[derive(Clone, Copy, Debug, PartialEq, Eq, Structural)]
pub struct EquipmentQuery {
    pub available: Option<bool>,
    pub selected_id: Option<i32>,
}

#[derive(Clone, Debug, PartialEq, Eq)]
pub struct EquipmentFilter {
    pub name: Option<String>,
}

#[derive(Clone, Debug, PartialEq, Eq)]
pub struct EquipmentSelectorTemplate {
    pub equipment: Vec<EquipmentSelectorItem>,
    pub query: EquipmentQuery,
}

#[derive(Clone, Debug, PartialEq, Eq)]
pub struct EquipmentSelectorItem {
    pub id: i32,
    pub name: String,
    pub available_amount: i64,
}

#[derive(Clone, Copy, Debug, PartialEq, Eq, Structural)]
pub struct MaterialQuery {
    pub selected_id: Option<i32>,
}

#[derive(Clone, Debug, PartialEq, Eq)]
pub struct MaterialFilter {
    pub name: Option<String>,
}

#[derive(Clone, Debug, PartialEq, Eq)]
pub struct MaterialSelectorTemplate {
    pub materials: Vec<MaterialSelectorItem>,
    pub query: MaterialQuery,
}

#[derive(Clone, Debug, PartialEq, Eq)]
pub struct MaterialSelectorItem {
    pub id: i32,
    pub name: String,
    pub units: String,
}

#[derive(Clone, Debug, PartialEq, Eq)]
pub struct TaskQuery {
    pub site_id: Option<i32>,
    pub brigade_id: Option<i32>,
    pub status: Option<String>,
    pub selected_id: Option<i32>,
}

#[derive(Clone, Debug, PartialEq, Eq)]
pub struct TaskFilter {
    pub name: Option<String>,
}

#[derive(Clone, Debug, PartialEq, Eq)]
pub struct TaskSelectorTemplate {
    pub tasks: Vec<TaskSelectorItem>,
    pub query: TaskQuery,
}

#[derive(Clone, Debug, PartialEq, Eq)]
pub struct TaskSelectorItem {
    pub id: i32,
    pub name: String,
    pub site_name: String,
}

#[derive(Clone, Debug, PartialEq, Eq)]
pub struct MaterialModalSelectorTemplate {
    pub materials: Vec<MaterialSelectorItem>,
    pub query: MaterialQuery,
}

/// The paragraph in which a selector reports an error: `before` + `detail`,
/// marked as an error.
pub open spec fn error_paragraph(before: Seq<char>, detail: Seq<char>) -> Seq<char> {
    "<p class=\"text-error\">"@ + before + detail + "</p>"@
}

/// The paragraph in which a selector reports an error.
pub fn error_paragraph_of(before: &str, detail: &str) -> (html: String)
    ensures
        html@ == error_paragraph(before@, detail@),
{
    let mut html = String::from_str("<p class=\"text-error\">");
    html.append(before);
    html.append(detail);
    html.append("</p>");
    html
}

/// The rows of a selector, or the paragraph that reports that its read
/// failed.
pub fn selector_rows<T>(fetch: &Fetch, fetched: Result<Vec<T>, String>) -> (r: Result<Vec<T>, String>)
    ensures
        match fetched {
            Ok(rows) => r == Ok::<Vec<T>, String>(rows),
            Err(e) => r is Err && r->Err_0@ == error_paragraph(fetch.failure@, e@),
        },
{
    match fetched {
        Ok(rows) => Ok(rows),
        Err(e) => Err(error_paragraph_of(fetch.failure, e.as_str())),
    }
}

/// The paragraph that a selector sends in place of a template that failed
/// to render.
pub fn selector_render_failure(error: &str) -> (html: String)
    ensures
        html@ == error_paragraph("Error rendering template: "@, error@),
{
    error_paragraph_of("Error rendering template: ", error)
}

/// The read of a selector: the rows of `base` that meet the conditions, in
/// the order `order`; a failure is reported after the words `failure`.
pub open spec fn selector(
    base: Seq<char>,
    conditions: Seq<Seq<PieceView>>,
    order: Seq<char>,
    failure: Seq<char>,
) -> FetchView {
    FetchView { statement: filtered(base, conditions).push_sql(order), failure }
}

fn selector_of(base: &str, conditions: &Predicates, order: &str, failure: &'static str) -> (f: Fetch)
    ensures
        f@ == selector(base@, conditions@, order@, failure@),
{
    let mut statement = Statement::filtered(base, conditions);
    statement.push(order);
    Fetch { statement, failure }
}

/// The conditions of a selector that knows names only.
pub open spec fn name_conditions(name: Option<String>) -> Seq<Seq<PieceView>> {
    when_present(pattern_filter(opt_text(name)), "name ILIKE "@, ""@)
}

fn name_predicates(name: &Option<String>) -> (p: Predicates)
    ensures
        p@ == name_conditions(*name),
{
    let mut p = Predicates::new();
    p.add_bound(filter_pattern(name), "name ILIKE ", "");
    assert(p@ =~= name_conditions(*name));
    p
}

/// The read behind the selector of departments.
pub fn departments_selector(filter: &DepartmentFilter) -> (f: Fetch)
    ensures
        f@ == selector(
            "SELECT id, name FROM department"@,
            name_conditions(filter.name),
            " ORDER BY name"@,
            "Error loading departments: "@,
        ),
{
    selector_of(
        "SELECT id, name FROM department",
        &name_predicates(&filter.name),
        " ORDER BY name",
        "Error loading departments: ",
    )
}

/// The conditions of the selector of areas.
pub open spec fn area_selector_conditions(q: AreaQuery, filter: AreaFilter) -> Seq<Seq<PieceView>> {
    when_present(big_int_filter(q.department_id), "department_id = "@, ""@) + when_present(
        pattern_filter(opt_text(filter.name)),
        "name ILIKE "@,
        ""@,
    )
}

/// The read behind the selector of areas.
pub fn areas_selector(q: &AreaQuery, filter: &AreaFilter) -> (f: Fetch)
    ensures
        f@ == selector(
            "SELECT id, name FROM area"@,
            area_selector_conditions(*q, *filter),
            " ORDER BY name"@,
            "Error loading areas: "@,
        ),
{
    let mut p = Predicates::new();
    p.add_bound(filter_big_int(q.department_id), "department_id = ", "");
    p.add_bound(filter_pattern(&filter.name), "name ILIKE ", "");
    assert(p@ =~= area_selector_conditions(*q, *filter));
    selector_of("SELECT id, name FROM area", &p, " ORDER BY name", "Error loading areas: ")
}

/// The read behind the selector of clients.
pub fn clients_selector(filter: &ClientFilter) -> (f: Fetch)
    ensures
        f@ == selector(
            "SELECT id, name FROM client"@,
            name_conditions(filter.name),
            " ORDER BY name"@,
            "Error loading clients: "@,
        ),
{
    selector_of(
        "SELECT id, name FROM client",
        &name_predicates(&filter.name),
        " ORDER BY name",
        "Error loading clients: ",
    )
}

pub const PERSONNEL_SELECTOR_SQL: &'static str =
    "SELECT tp.id, CONCAT(e.last_name, ' ', e.first_name) as name, tp.qualification 
         FROM technical_personnel tp 
         JOIN employee e ON tp.id = e.id";

/// The conditions of the selector of technical personnel.
pub open spec fn personnel_selector_conditions(
    q: TechnicalPersonnelQuery,
    filter: TechnicalPersonnelFilter,
) -> Seq<Seq<PieceView>> {
    when_present(
        match q.qualification {
            Some(v) => Some(SqlValueView::Qualification(v)),
            None => None,
        },
        "tp.qualification = "@,
        ""@,
    ) + when_present(
        match q.position {
            Some(v) => Some(SqlValueView::Position(v)),
            None => None,
        },
        "tp.position = "@,
        ""@,
    ) + when_present(
        big_int_filter(q.department_id),
        "EXISTS (SELECT 1 FROM department d WHERE d.supervisor_id = tp.id AND d.id = "@,
        ")"@,
    ) + when_present(
        big_int_filter(q.area_id),
        "EXISTS (SELECT 1 FROM area a WHERE a.supervisor_id = tp.id AND a.id = "@,
        ")"@,
    ) + when_present_twice(
        pattern_filter(opt_text(filter.name)),
        "(e.last_name ILIKE "@,
        " OR e.first_name ILIKE "@,
        ")"@,
    )
}

/// The read behind the selector of technical personnel.
pub fn technical_personnel_selector(q: &TechnicalPersonnelQuery, filter: &TechnicalPersonnelFilter)
    -> (f: Fetch)
    ensures
        f@ == selector(
            PERSONNEL_SELECTOR_SQL@,
            personnel_selector_conditions(*q, *filter),
            " ORDER BY name"@,
            "Error loading technical personnel: "@,
        ),
{
    let mut p = Predicates::new();
    p.add_bound(
        match q.qualification {
            Some(v) => Some(SqlValue::Qualification(v)),
            None => None,
        },
        "tp.qualification = ",
        "",
    );
    p.add_bound(
        match q.position {
            Some(v) => Some(SqlValue::Position(v)),
            None => None,
        },
        "tp.position = ",
        "",
    );
    p.add_bound(
        filter_big_int(q.department_id),
        "EXISTS (SELECT 1 FROM department d WHERE d.supervisor_id = tp.id AND d.id = ",
        ")",
    );
    p.add_bound(
        filter_big_int(q.area_id),
        "EXISTS (SELECT 1 FROM area a WHERE a.supervisor_id = tp.id AND a.id = ",
        ")",
    );
    p.add_bound_twice(
        filter_pattern(&filter.name),
        "(e.last_name ILIKE ",
        " OR e.first_name ILIKE ",
        ")",
    );
    assert(p@ =~= personnel_selector_conditions(*q, *filter));
    selector_of(
        PERSONNEL_SELECTOR_SQL,
        &p,
        " ORDER BY name",
        "Error loading technical personnel: ",
    )
}

pub const WORKER_SELECTOR_SQL: &'static str =
    "SELECT w.id, CONCAT(e.last_name, ' ', e.first_name) as name, w.profession 
         FROM worker w 
         JOIN employee e ON w.id = e.id";

/// The condition of the worker selector on a worker that leads a brigade,
/// or that leads none.
pub open spec fn leads_condition(leads: bool) -> Seq<char> {
    if leads {
        " EXISTS (SELECT 1 FROM brigade b WHERE b.brigadier_id = w.id)"@
    } else {
        " NOT EXISTS (SELECT 1 FROM brigade b WHERE b.brigadier_id = w.id)"@
    }
}

/// The conditions of the selector of workers.
pub open spec fn worker_selector_conditions(q: WorkerQuery, filter: WorkerFilter) -> Seq<
    Seq<PieceView>,
> {
    when_present(
        match q.profession {
            Some(v) => Some(SqlValueView::Profession(v)),
            None => None,
        },
        "w.profession = "@,
        ""@,
    ) + when_present(
        big_int_filter(q.brigade_id),
        "EXISTS (SELECT 1 FROM assignment a WHERE a.worker_id = w.id AND a.brigade_id = "@,
        ")"@,
    ) + when_chosen(
        match q.is_brigadier {
            Some(leads) => Some(leads_condition(leads)),
            None => None,
        },
    ) + when_present_twice(
        pattern_filter(opt_text(filter.name)),
        "(e.last_name ILIKE "@,
        " OR e.first_name ILIKE "@,
        ")"@,
    )
}

/// The read behind the selector of workers.
pub fn workers_selector(q: &WorkerQuery, filter: &WorkerFilter) -> (f: Fetch)
    ensures
        f@ == selector(
            WORKER_SELECTOR_SQL@,
            worker_selector_conditions(*q, *filter),
            " ORDER BY name"@,
            "Error loading workers: "@,
        ),
{
    let mut p = Predicates::new();
    p.add_bound(
        match q.profession {
            Some(v) => Some(SqlValue::Profession(v)),
            None => None,
        },
        "w.profession = ",
        "",
    );
    p.add_bound(
        filter_big_int(q.brigade_id),
        "EXISTS (SELECT 1 FROM assignment a WHERE a.worker_id = w.id AND a.brigade_id = ",
        ")",
    );
    p.add_chosen(
        match q.is_brigadier {
            Some(true) => Some(" EXISTS (SELECT 1 FROM brigade b WHERE b.brigadier_id = w.id)"),
            Some(false) => Some(" NOT EXISTS (SELECT 1 FROM brigade b WHERE b.brigadier_id = w.id)"),
            None => None,
        },
    );
    p.add_bound_twice(
        filter_pattern(&filter.name),
        "(e.last_name ILIKE ",
        " OR e.first_name ILIKE ",
        ")",
    );
    assert(p@ =~= worker_selector_conditions(*q, *filter));
    selector_of(WORKER_SELECTOR_SQL, &p, " ORDER BY name", "Error loading workers: ")
}

pub const BRIGADE_SELECTOR_SQL: &'static str =
    "SELECT b.id, CONCAT(e.last_name, ' ', e.first_name) as brigadier_name, 
         (SELECT COUNT(*) FROM assignment a WHERE a.brigade_id = b.id) as worker_count 
         FROM brigade b 
         JOIN worker w ON b.brigadier_id = w.id 
         JOIN employee e ON w.id = e.id";

/// The condition of the brigade selector on a brigade that is free, or
/// that is at work.
pub open spec fn free_condition(available: bool) -> Seq<char> {
    if available {
        " NOT EXISTS (SELECT 1 FROM task t WHERE t.brigade_id = b.id AND t.actual_period_end IS NULL)"@
    } else {
        " EXISTS (SELECT 1 FROM task t WHERE t.brigade_id = b.id AND t.actual_period_end IS NULL)"@
    }
}

/// The conditions of the selector of brigades.
pub open spec fn brigade_selector_conditions(q: BrigadeQuery, filter: BrigadeFilter) -> Seq<
    Seq<PieceView>,
> {
    when_present(
        int_filter(q.site_id),
        "EXISTS (SELECT 1 FROM task t WHERE t.brigade_id = b.id AND t.site_id = "@,
        ")"@,
    ) + when_chosen(
        match q.available {
            Some(available) => Some(free_condition(available)),
            None => None,
        },
    ) + when_present_twice(
        pattern_filter(opt_text(filter.brigadier_name)),
        "(e.last_name ILIKE "@,
        " OR e.first_name ILIKE "@,
        ")"@,
    )
}

/// The read behind the selector of brigades.
pub fn brigades_selector(q: &BrigadeQuery, filter: &BrigadeFilter) -> (f: Fetch)
    ensures
        f@ == selector(
            BRIGADE_SELECTOR_SQL@,
            brigade_selector_conditions(*q, *filter),
            " ORDER BY brigadier_name"@,
            "Error loading brigades: "@,
        ),
{
    let mut p = Predicates::new();
    p.add_bound(
        filter_int(q.site_id),
        "EXISTS (SELECT 1 FROM task t WHERE t.brigade_id = b.id AND t.site_id = ",
        ")",
    );
    p.add_chosen(
        match q.available {
            Some(true) => Some(
                " NOT EXISTS (SELECT 1 FROM task t WHERE t.brigade_id = b.id AND t.actual_period_end IS NULL)",
            ),
            Some(false) => Some(
                " EXISTS (SELECT 1 FROM task t WHERE t.brigade_id = b.id AND t.actual_period_end IS NULL)",
            ),
            None => None,
        },
    );
    p.add_bound_twice(
        filter_pattern(&filter.brigadier_name),
        "(e.last_name ILIKE ",
        " OR e.first_name ILIKE ",
        ")",
    );
    assert(p@ =~= brigade_selector_conditions(*q, *filter));
    selector_of(BRIGADE_SELECTOR_SQL, &p, " ORDER BY brigadier_name", "Error loading brigades: ")
}

/// The conditions of the selector of sites.
pub open spec fn site_selector_conditions(q: SiteQuery, filter: SiteFilter) -> Seq<Seq<PieceView>> {
    when_present(int_filter(q.area_id), "area_id = "@, ""@) + when_present(
        int_filter(q.department_id),
        "EXISTS (SELECT 1 FROM area a WHERE a.id = site.area_id AND a.department_id = "@,
        ")"@,
    ) + when_present(int_filter(q.client_id), "client_id = "@, ""@) + when_present(
        match q.type_ {
            Some(v) => Some(SqlValueView::SiteType(v)),
            None => None,
        },
        "type = "@,
        ""@,
    ) + when_present(pattern_filter(opt_text(filter.name)), "name ILIKE "@, ""@)
}

/// The read behind the selector of sites.
pub fn sites_selector(q: &SiteQuery, filter: &SiteFilter) -> (f: Fetch)
    ensures
        f@ == selector(
            "SELECT id, name, type FROM site"@,
            site_selector_conditions(*q, *filter),
            " ORDER BY name"@,
            "Error loading sites: "@,
        ),
{
    let mut p = Predicates::new();
    p.add_bound(filter_int(q.area_id), "area_id = ", "");
    p.add_bound(
        filter_int(q.department_id),
        "EXISTS (SELECT 1 FROM area a WHERE a.id = site.area_id AND a.department_id = ",
        ")",
    );
    p.add_bound(filter_int(q.client_id), "client_id = ", "");
    p.add_bound(
        match q.type_ {
            Some(v) => Some(SqlValue::SiteType(v)),
            None => None,
        },
        "type = ",
        "",
    );
    p.add_bound(filter_pattern(&filter.name), "name ILIKE ", "");
    assert(p@ =~= site_selector_conditions(*q, *filter));
    selector_of("SELECT id, name, type FROM site", &p, " ORDER BY name", "Error loading sites: ")
}

/// The conditions of the selector of equipment.
pub open spec fn equipment_selector_conditions(q: EquipmentQuery, filter: EquipmentFilter) -> Seq<
    Seq<PieceView>,
> {
    when_chosen(
        match q.available {
            Some(available) => Some(
                if available {
                    "amount > 0"@
                } else {
                    "amount = 0"@
                },
            ),
            None => None,
        },
    ) + when_present(pattern_filter(opt_text(filter.name)), "name ILIKE "@, ""@)
}

/// The read behind the selector of equipment.
pub fn equipment_selector(q: &EquipmentQuery, filter: &EquipmentFilter) -> (f: Fetch)
    ensures
        f@ == selector(
            "SELECT id, name, amount as available_amount FROM equipment"@,
            equipment_selector_conditions(*q, *filter),
            " ORDER BY name"@,
            "Error loading equipment: "@,
        ),
{
    let mut p = Predicates::new();
    p.add_chosen(
        match q.available {
            Some(true) => Some("amount > 0"),
            Some(false) => Some("amount = 0"),
            None => None,
        },
    );
    p.add_bound(filter_pattern(&filter.name), "name ILIKE ", "");
    assert(p@ =~= equipment_selector_conditions(*q, *filter));
    selector_of(
        "SELECT id, name, amount as available_amount FROM equipment",
        &p,
        " ORDER BY name",
        "Error loading equipment: ",
    )
}

/// The read behind the selector of materials, and behind the selector of
/// materials in a dialog.
pub fn materials_selector(filter: &MaterialFilter) -> (f: Fetch)
    ensures
        f@ == selector(
            "SELECT id, name, units FROM material"@,
            name_conditions(filter.name),
            " ORDER BY name"@,
            "Error loading materials: "@,
        ),
{
    selector_of(
        "SELECT id, name, units FROM material",
        &name_predicates(&filter.name),
        " ORDER BY name",
        "Error loading materials: ",
    )
}

pub const TASK_SELECTOR_SQL: &'static str =
    "SELECT t.id, t.name, s.name as site_name 
         FROM task t 
         JOIN site s ON t.site_id = s.id";

/// The condition that a status of the task selector stands for, if the
/// selector knows the status. A status that it does not know asks for
/// nothing.
pub open spec fn task_selector_status(status: Seq<char>) -> Option<Seq<char>> {
    if status == "completed"@ {
        Some("t.actual_period_end IS NOT NULL"@)
    } else if status == "in_progress"@ {
        Some("t.actual_period_end IS NULL AND t.brigade_id IS NOT NULL"@)
    } else if status == "unassigned"@ {
        Some("t.brigade_id IS NULL"@)
    } else {
        None
    }
}

/// The conditions of the selector of tasks.
pub open spec fn task_selector_conditions(q: TaskQuery, filter: TaskFilter) -> Seq<Seq<PieceView>> {
    when_present(int_filter(q.site_id), "t.site_id = "@, ""@) + when_present(
        int_filter(q.brigade_id),
        "t.brigade_id = "@,
        ""@,
    ) + when_chosen(
        match q.status {
            Some(status) => task_selector_status(status@),
            None => None,
        },
    ) + when_present(pattern_filter(opt_text(filter.name)), "t.name ILIKE "@, ""@)
}

/// The read behind the selector of tasks.
pub fn tasks_selector(q: &TaskQuery, filter: &TaskFilter) -> (f: Fetch)
    ensures
        f@ == selector(
            TASK_SELECTOR_SQL@,
            task_selector_conditions(*q, *filter),
            " ORDER BY t.name"@,
            "Error loading tasks: "@,
        ),
{
    let mut p = Predicates::new();
    p.add_bound(filter_int(q.site_id), "t.site_id = ", "");
    p.add_bound(filter_int(q.brigade_id), "t.brigade_id = ", "");
    let status: Option<&'static str> = match &q.status {
        Some(status) => if str_eq(status.as_str(), "completed") {
            Some("t.actual_period_end IS NOT NULL")
        } else if str_eq(status.as_str(), "in_progress") {
            Some("t.actual_period_end IS NULL AND t.brigade_id IS NOT NULL")
        } else if str_eq(status.as_str(), "unassigned") {
            Some("t.brigade_id IS NULL")
        } else {
            None
        },
        None => None,
    };
    p.add_chosen(status);
    p.add_bound(filter_pattern(&filter.name), "t.name ILIKE ", "");
    assert(p@ =~= task_selector_conditions(*q, *filter));
    selector_of(TASK_SELECTOR_SQL, &p, " ORDER BY t.name", "Error loading tasks: ")
}

} // verus!
