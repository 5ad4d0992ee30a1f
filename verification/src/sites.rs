//! Sites: a base row with a type, and one row of type-specific data in the
//! table of that type.

use crate::flow::{
    Fetch, FetchView, Guard, Listing, must_exist_or_note, must_exist_or_notify, refuse_note, strict,
};
use crate::general::{
    NotificationTemplate, Pagination, paragraph, paragraph_about, paragraph_about_id, QueryInfo,
    Reply, ReplyView, RiskLevel, SiteType, Sort, success_note,
};
use crate::sql::{
    by_column, by_id, exists_by_id, exists_sql, filter_int, filter_pattern, filtered, fixed,
    int_filter, opt_text_value, Order, OrderView, page_by_id, paged, pattern_filter, PieceView,
    Predicates, SqlValue, SqlValueView, Statement, StatementView, when_chosen, when_present,
};
use crate::subtype::{
    absent, apply_all, drop_satellite, in_order, lemma_apply_one, lemma_apply_parts,
    lemma_create_in_order, lemma_delete_leaves_nothing, lemma_others_change_nothing,
    lemma_retype_in_order, live, Meant, Op, ops_of, other, steps_of, transact, write_satellite,
};
use crate::text::{around_i32, int_text, join3, opt_text, str_eq};
use crate::transaction::{Next, NextView, Stage, StageView, step, Step, steps_view, StepView};
use crate::values::{Date, Float32, Point};
use vstd::prelude::*;
use vstd::string::*;

verus! {

/// The tab of a site's details that is shown.
#[derive(Clone, Copy, Debug, PartialEq, Eq, Structural)]
pub enum SiteTab {
    Schedule,
    Materials,
    Equipment,
    Brigades,
    Reports,
}

/// The data that is specific to the type of a site.
#[derive(Clone, Debug, PartialEq, Eq)]
pub enum SiteFields {
    PowerPlant(PowerPlantFields),
    Road(RoadFields),
    Housing(HousingFields),
    Bridge(BridgeFields),
    Park(ParkFields),
}

#[derive(Clone, Debug, PartialEq, Eq)]
pub struct PowerPlantFields {
    pub energy_output: Float32,
    pub energy_source: String,
    pub is_grid_connected: bool,
}

#[derive(Clone, Debug, PartialEq, Eq)]
pub struct RoadFields {
    pub length: Float32,
    pub lanes: i32,
    pub surface: String,
}

#[derive(Clone, Debug, PartialEq, Eq)]
pub struct HousingFields {
    pub number_of_floors: i32,
    pub number_of_entrances: i32,
    pub type_: String,
    pub energy_efficiency: String,
}

#[derive(Clone, Debug, PartialEq, Eq)]
pub struct BridgeFields {
    pub length: Float32,
    pub road_material: String,
    pub max_load: Float32,
}

#[derive(Clone, Copy, Debug, PartialEq, Eq, Structural)]
pub struct ParkFields {
    pub area: Float32,
    pub has_playground: bool,
    pub has_lighting: bool,
}

#[derive(Clone, Copy, Debug, PartialEq, Eq, Structural)]
pub struct SitesListTemplate;

#[derive(Clone, Copy, Debug, PartialEq, Eq, Structural)]
pub struct SiteDetailsTemplate {
    pub id: i32,
}

#[derive(Clone, Copy, Debug, PartialEq, Eq, Structural)]
pub struct SiteNewTemplate;

#[derive(Clone, Debug, PartialEq, Eq)]
pub struct SiteEditTemplate {
    pub id: i32,
    pub name: String,
    pub type_: SiteType,
    pub area_id: i32,
    pub area_name: String,
    pub client_id: i32,
    pub client_name: String,
    pub location: Point,
    pub risk_level: RiskLevel,
    pub description: Option<String>,
}

#[derive(Clone, Copy, Debug, PartialEq, Eq, Structural)]
pub struct SiteTabQuery {
    pub tab: SiteTab,
}

#[derive(Clone, Copy, Debug, PartialEq, Eq, Structural)]
pub struct SiteTypeFieldsQuery {
    pub type_: SiteType,
}

#[derive(Clone, Debug, PartialEq, Eq)]
pub struct SiteApiDetailsTemplate {
    pub id: i32,
    pub name: String,
    pub type_: SiteType,
    pub area_id: i32,
    pub area_name: String,
    pub client_id: i32,
    pub client_name: String,
    pub location: Point,
    pub risk_level: RiskLevel,
    pub description: Option<String>,
    pub tab: SiteTab,
    pub type_fields: SiteFields,
}

#[derive(Clone, Copy, Debug, PartialEq, Eq, Structural)]
pub struct SiteTypeFieldsTemplate {
    pub type_: SiteType,
}

#[derive(Clone, Debug, PartialEq, Eq)]
pub struct SiteUpdateForm {
    pub name: String,
    pub area_id: i32,
    pub client_id: i32,
    pub type_: SiteType,
    pub location: Point,
    pub risk_level: RiskLevel,
    pub description: Option<String>,
    pub type_fields: SiteFields,
}

#[derive(Clone, Debug, PartialEq, Eq)]
pub struct SiteCreateForm {
    pub name: String,
    pub area_id: i32,
    pub client_id: i32,
    pub type_: SiteType,
    pub location: String,
    pub risk_level: RiskLevel,
    pub description: Option<String>,
    pub type_fields: SiteFields,
}

#[derive(Clone, Debug, PartialEq, Eq)]
pub struct SiteListFilter {
    pub sort: Sort,
    pub area_id: Option<i32>,
    pub department_id: Option<i32>,
    pub client_id: Option<i32>,
    pub type_: Option<SiteType>,
    pub name: Option<String>,
    pub status: Option<String>,
}

#[derive(Clone, Debug, PartialEq, Eq)]
pub struct SiteListTemplate {
    pub sites: Vec<SiteListItem>,
    pub pagination: Pagination,
    pub query_info: QueryInfo,
}

#[derive(Clone, Debug, PartialEq, Eq)]
pub struct SiteListItem {
    pub id: i32,
    pub name: String,
    pub type_: SiteType,
    pub area_id: i32,
    pub area_name: String,
    pub department_id: i32,
    pub department_name: String,
    pub client_id: i32,
    pub client_name: String,
    pub status: String,
}

#[derive(Clone, Debug, PartialEq, Eq)]
pub struct SiteScheduleTemplate {
    pub id: i32,
    pub tasks: Vec<TaskListItem>,
    pub pagination: Pagination,
}

#[derive(Clone, Debug, PartialEq, Eq)]
pub struct TaskListItem {
    pub id: i32,
    pub name: String,
    pub brigade_id: Option<i32>,
    pub brigadier_name: Option<String>,
    pub period_start: Date,
    pub expected_period_end: Date,
    pub actual_period_end: Option<Date>,
    pub status: String,
}

#[derive(Clone, Debug, PartialEq, Eq)]
pub struct SiteMaterialsTemplate {
    pub id: i32,
    pub materials: Vec<MaterialListItem>,
    pub pagination: Pagination,
}

#[derive(Clone, Debug, PartialEq, Eq)]
pub struct MaterialListItem {
    pub id: i32,
    pub name: String,
    pub expected_amount: Float32,
    pub actual_amount: Option<Float32>,
    pub units: String,
    pub cost: Float32,
    pub total_cost: Float32,
}

#[derive(Clone, Debug, PartialEq, Eq)]
pub struct SiteEquipmentTemplate {
    pub id: i32,
    pub equipment: Vec<EquipmentListItem>,
    pub pagination: Pagination,
}

#[derive(Clone, Debug, PartialEq, Eq)]
pub struct EquipmentListItem {
    pub id: i32,
    pub name: String,
    pub amount: i32,
    pub period_start: Date,
    pub period_end: Date,
}

#[derive(Clone, Debug, PartialEq, Eq)]
pub struct SiteBrigadesTemplate {
    pub id: i32,
    pub brigades: Vec<BrigadeListItem>,
    pub pagination: Pagination,
}

#[derive(Clone, Debug, PartialEq, Eq)]
pub struct BrigadeListItem {
    pub id: i32,
    pub brigadier_id: Option<i32>,
    pub brigadier_name: Option<String>,
    pub worker_count: i64,
    pub current_task: Option<String>,
}

#[derive(Clone, Debug, PartialEq, Eq)]
pub struct SiteReportsTemplate {
    pub id: i32,
    pub reports: Vec<ReportListItem>,
    pub pagination: Pagination,
}

#[derive(Clone, Debug, PartialEq, Eq)]
pub struct ReportListItem {
    pub task_id: i32,
    pub task_name: String,
    pub period_start: Date,
    pub expected_period_end: Date,
    pub actual_period_end: Option<Date>,
    pub delay: i32,
}

/// Selects one site with the names of its area and its client.
pub const SITE_SQL: &'static str =
    "SELECT s.id, s.name, s.area_id, a.name as area_name, 
         s.client_id, c.name as client_name, s.type, s.location, 
         s.risk_level, s.description
         FROM site s
         JOIN area a ON s.area_id = a.id
         JOIN client c ON s.client_id = c.id
         WHERE s.id = $1";

pub const SITE_TYPE_SQL: &'static str = "SELECT type FROM site WHERE id = $1";

pub const SITE_UPDATE_SQL: &'static str =
    "UPDATE site
         SET name = $1, area_id = $2, client_id = $3, type = $4, 
         location = $5, risk_level = $6, description = $7
         WHERE id = $8";

pub const SITE_INSERT_SQL: &'static str =
    "INSERT INTO site (name, area_id, client_id, type, location, risk_level, description) 
         VALUES ($1, $2, $3, $4, $5, $6, $7)
         RETURNING id";

pub const SITE_DELETE_SQL: &'static str = "DELETE FROM site WHERE id = $1";

pub const SITE_HAS_ACTIVE_TASKS_SQL: &'static str =
    "SELECT EXISTS (
            SELECT 1 FROM task 
            WHERE site_id = $1 AND actual_period_end IS NULL
        )";

pub const SITE_EXPENDITURE_DELETE_SQL: &'static str =
    "DELETE FROM expenditure 
                         WHERE task_id IN (SELECT id FROM task WHERE site_id = $1 AND actual_period_end IS NOT NULL)";

pub const SITE_TASK_DELETE_SQL: &'static str =
    "DELETE FROM task WHERE site_id = $1 AND actual_period_end IS NOT NULL";

pub const SITE_ALLOCATION_DELETE_SQL: &'static str =
    "DELETE FROM equipment_allocation WHERE site_id = $1";

pub const SITE_LIST_SQL: &'static str =
    "SELECT s.id, s.name, s.type, s.area_id, a.name as area_name,
         a.department_id, d.name as department_name, s.client_id, c.name as client_name,
         CASE
            WHEN EXISTS (SELECT 1 FROM task t WHERE t.site_id = s.id AND t.actual_period_end IS NULL) THEN 'In Progress'
            WHEN NOT EXISTS (SELECT 1 FROM task t WHERE t.site_id = s.id) THEN 'Planned'
            ELSE 'Completed'
         END as status
         FROM site s
         JOIN area a ON s.area_id = a.id
         JOIN department d ON a.department_id = d.id
         JOIN client c ON s.client_id = c.id";

pub const SITE_COUNT_SQL: &'static str =
    "SELECT COUNT(*) FROM site s
         JOIN area a ON s.area_id = a.id 
         JOIN department d ON a.department_id = d.id
         JOIN client c ON s.client_id = c.id";

pub const SITE_SCHEDULE_SQL: &'static str =
    "SELECT 
                    t.id, 
                    t.name, 
                    t.brigade_id,
                    CASE 
                        WHEN t.brigade_id IS NOT NULL THEN 
                            (SELECT CONCAT(e.last_name, ' ', e.first_name) 
                             FROM brigade b
                             JOIN worker w ON b.brigadier_id = w.id
                             JOIN employee e ON w.id = e.id
                             WHERE b.id = t.brigade_id)
                        ELSE NULL
                    END AS brigadier_name,
                    t.period_start, 
                    t.expected_period_end, 
                    t.actual_period_end,
                    CASE
                        WHEN t.actual_period_end IS NOT NULL THEN 'Completed'
                        WHEN t.brigade_id IS NOT NULL THEN 'In Progress'
                        ELSE 'Planned'
                    END as status
                FROM task t
                WHERE t.site_id = $1
                ORDER BY 
                    CASE 
                        WHEN t.actual_period_end IS NULL AND t.brigade_id IS NOT NULL THEN 1
                        WHEN t.actual_period_end IS NULL AND t.brigade_id IS NULL THEN 2
                        ELSE 3
                    END,
                    t.period_start
                LIMIT $2 OFFSET $3";

pub const SITE_MATERIALS_SQL: &'static str =
    "SELECT 
                    m.id, 
                    m.name, 
                    SUM(e.expected_amount) as expected_amount,
                    SUM(e.actual_amount) as actual_amount,
                    m.units,
                    m.cost,
                    SUM(COALESCE(e.actual_amount, e.expected_amount) * m.cost) as total_cost
                FROM material m
                JOIN expenditure e ON m.id = e.material_id
                JOIN task t ON e.task_id = t.id
                WHERE t.site_id = $1
                GROUP BY m.id, m.name, m.units, m.cost
                ORDER BY m.name
                LIMIT $2 OFFSET $3";

pub const SITE_EQUIPMENT_SQL: &'static str =
    "SELECT 
                    e.id, 
                    e.name, 
                    ea.amount,
                    ea.period_start,
                    ea.period_end
                FROM equipment e
                JOIN equipment_allocation ea ON e.id = ea.equipment_id
                WHERE ea.site_id = $1
                ORDER BY ea.period_start DESC
                LIMIT $2 OFFSET $3";

pub const SITE_BRIGADES_SQL: &'static str =
    "SELECT DISTINCT
                    b.id, 
                    b.brigadier_id,
                    (SELECT CONCAT(e.last_name, ' ', e.first_name) 
                     FROM worker w
                     JOIN employee e ON w.id = e.id
                     WHERE w.id = b.brigadier_id) as brigadier_name,
                    (SELECT COUNT(*) FROM assignment a WHERE a.brigade_id = b.id) as worker_count,
                    (SELECT t.name 
                     FROM task t 
                     WHERE t.brigade_id = b.id AND t.site_id = $1 AND t.actual_period_end IS NULL
                     LIMIT 1) as current_task
                FROM brigade b
                JOIN task t ON b.id = t.brigade_id
                WHERE t.site_id = $1
                ORDER BY worker_count DESC
                LIMIT $2 OFFSET $3";

pub const SITE_REPORTS_SQL: &'static str =
    "SELECT 
                    t.id as task_id, 
                    t.name as task_name,
                    t.period_start,
                    t.expected_period_end,
                    t.actual_period_end,
                    CASE
                        WHEN t.actual_period_end IS NULL THEN 0
                        ELSE (t.actual_period_end - t.expected_period_end)::integer
                    END as delay
                FROM task t
                WHERE t.site_id = $1 AND (t.actual_period_end IS NOT NULL OR
                                         (t.actual_period_end IS NULL AND 
                                          t.expected_period_end < CURRENT_TIMESTAMP))
                ORDER BY t.period_start DESC
                LIMIT $2 OFFSET $3";

pub const POWER_PLANT_INSERT_SQL: &'static str =
    "INSERT INTO power_plant (site_id, energy_output, energy_source, is_grid_connected) VALUES ($1, $2, $3, $4)";

pub const POWER_PLANT_UPDATE_SQL: &'static str =
    "UPDATE power_plant SET energy_output = $1, energy_source = $2, is_grid_connected = $3 WHERE site_id = $4";

pub const POWER_PLANT_SELECT_SQL: &'static str =
    "SELECT energy_output, energy_source, is_grid_connected FROM power_plant WHERE site_id = $1";

pub const POWER_PLANT_DELETE_SQL: &'static str = "DELETE FROM power_plant WHERE site_id = $1";

pub const ROAD_INSERT_SQL: &'static str =
    "INSERT INTO road (site_id, length, lanes, surface) VALUES ($1, $2, $3, $4)";

pub const ROAD_UPDATE_SQL: &'static str =
    "UPDATE road SET length = $1, lanes = $2, surface = $3 WHERE site_id = $4";

pub const ROAD_SELECT_SQL: &'static str =
    "SELECT length, lanes, surface FROM road WHERE site_id = $1";

pub const ROAD_DELETE_SQL: &'static str = "DELETE FROM road WHERE site_id = $1";

pub const HOUSING_INSERT_SQL: &'static str =
    "INSERT INTO housing (site_id, number_of_floors, number_of_entrances, type, energy_efficiency) VALUES ($1, $2, $3, $4, $5)";

pub const HOUSING_UPDATE_SQL: &'static str =
    "UPDATE housing SET number_of_floors = $1, number_of_entrances = $2, type = $3, energy_efficiency = $4 WHERE site_id = $5";

pub const HOUSING_SELECT_SQL: &'static str =
    "SELECT number_of_floors, number_of_entrances, type, energy_efficiency FROM housing WHERE site_id = $1";

pub const HOUSING_DELETE_SQL: &'static str = "DELETE FROM housing WHERE site_id = $1";

pub const BRIDGE_INSERT_SQL: &'static str =
    "INSERT INTO bridge (site_id, length, road_material, max_load) VALUES ($1, $2, $3, $4)";

pub const BRIDGE_UPDATE_SQL: &'static str =
    "UPDATE bridge SET length = $1, road_material = $2, max_load = $3 WHERE site_id = $4";

pub const BRIDGE_SELECT_SQL: &'static str =
    "SELECT length, road_material, max_load FROM bridge WHERE site_id = $1";

pub const BRIDGE_DELETE_SQL: &'static str = "DELETE FROM bridge WHERE site_id = $1";

pub const PARK_INSERT_SQL: &'static str =
    "INSERT INTO park (site_id, area, has_playground, has_lighting) VALUES ($1, $2, $3, $4)";

pub const PARK_UPDATE_SQL: &'static str =
    "UPDATE park SET area = $1, has_playground = $2, has_lighting = $3 WHERE site_id = $4";

pub const PARK_SELECT_SQL: &'static str =
    "SELECT area, has_playground, has_lighting FROM park WHERE site_id = $1";

pub const PARK_DELETE_SQL: &'static str = "DELETE FROM park WHERE site_id = $1";

impl SiteFields {
    /// The type that the data belongs to.
    pub open spec fn spec_kind(self) -> SiteType {
        match self {
            SiteFields::PowerPlant(_) => SiteType::PowerPlant,
            SiteFields::Road(_) => SiteType::Road,
            SiteFields::Housing(_) => SiteType::Housing,
            SiteFields::Bridge(_) => SiteType::Bridge,
            SiteFields::Park(_) => SiteType::Park,
        }
    }

    /// The type that the data belongs to.
    pub fn kind(&self) -> (k: SiteType)
        ensures
            k == self.spec_kind(),
    {
        match self {
            SiteFields::PowerPlant(_) => SiteType::PowerPlant,
            SiteFields::Road(_) => SiteType::Road,
            SiteFields::Housing(_) => SiteType::Housing,
            SiteFields::Bridge(_) => SiteType::Bridge,
            SiteFields::Park(_) => SiteType::Park,
        }
    }
}

/// The statement that deletes the type-specific row of the site `id` from
/// the table of `site_type`.
pub open spec fn site_fields_delete(id: i32, site_type: SiteType) -> StatementView {
    fixed(
        match site_type {
            SiteType::PowerPlant => POWER_PLANT_DELETE_SQL@,
            SiteType::Road => ROAD_DELETE_SQL@,
            SiteType::Housing => HOUSING_DELETE_SQL@,
            SiteType::Bridge => BRIDGE_DELETE_SQL@,
            SiteType::Park => PARK_DELETE_SQL@,
        },
    ).arg(SqlValueView::Int(id))
}

/// The statement that deletes the type-specific row of the site `id` from
/// the table of `site_type`.
pub fn site_fields_delete_statement(id: i32, site_type: SiteType) -> (s: Statement)
    ensures
        s@ == site_fields_delete(id, site_type),
{
    match site_type {
        SiteType::PowerPlant => by_id(POWER_PLANT_DELETE_SQL, id),
        SiteType::Road => by_id(ROAD_DELETE_SQL, id),
        SiteType::Housing => by_id(HOUSING_DELETE_SQL, id),
        SiteType::Bridge => by_id(BRIDGE_DELETE_SQL, id),
        SiteType::Park => by_id(PARK_DELETE_SQL, id),
    }
}

/// The statement that inserts the type-specific row of the site `id`.
pub open spec fn site_fields_insert(id: i32, fields: SiteFields) -> StatementView {
    match fields {
        SiteFields::PowerPlant(f) => fixed(POWER_PLANT_INSERT_SQL@).arg(SqlValueView::Int(id)).arg(SqlValueView::Real(f.energy_output)).arg(SqlValueView::Text(f.energy_source@)).arg(SqlValueView::Bool(f.is_grid_connected)),
        SiteFields::Road(f) => fixed(ROAD_INSERT_SQL@).arg(SqlValueView::Int(id)).arg(SqlValueView::Real(f.length)).arg(SqlValueView::Int(f.lanes)).arg(SqlValueView::Text(f.surface@)),
        SiteFields::Housing(f) => fixed(HOUSING_INSERT_SQL@).arg(SqlValueView::Int(id)).arg(SqlValueView::Int(f.number_of_floors)).arg(SqlValueView::Int(f.number_of_entrances)).arg(SqlValueView::Text(f.type_@)).arg(SqlValueView::Text(f.energy_efficiency@)),
        SiteFields::Bridge(f) => fixed(BRIDGE_INSERT_SQL@).arg(SqlValueView::Int(id)).arg(SqlValueView::Real(f.length)).arg(SqlValueView::Text(f.road_material@)).arg(SqlValueView::Real(f.max_load)),
        SiteFields::Park(f) => fixed(PARK_INSERT_SQL@).arg(SqlValueView::Int(id)).arg(SqlValueView::Real(f.area)).arg(SqlValueView::Bool(f.has_playground)).arg(SqlValueView::Bool(f.has_lighting)),
    }
}

/// The statement that inserts the type-specific row of the site `id`.
pub fn site_fields_insert_statement(id: i32, fields: &SiteFields) -> (s: Statement)
    ensures
        s@ == site_fields_insert(id, *fields),
{
    match fields {
        SiteFields::PowerPlant(f) => Statement::new(POWER_PLANT_INSERT_SQL).bind(SqlValue::Int(id)).bind(SqlValue::Real(f.energy_output)).bind(SqlValue::text(f.energy_source.as_str())).bind(SqlValue::Bool(f.is_grid_connected)),
        SiteFields::Road(f) => Statement::new(ROAD_INSERT_SQL).bind(SqlValue::Int(id)).bind(SqlValue::Real(f.length)).bind(SqlValue::Int(f.lanes)).bind(SqlValue::text(f.surface.as_str())),
        SiteFields::Housing(f) => Statement::new(HOUSING_INSERT_SQL).bind(SqlValue::Int(id)).bind(SqlValue::Int(f.number_of_floors)).bind(SqlValue::Int(f.number_of_entrances)).bind(SqlValue::text(f.type_.as_str())).bind(SqlValue::text(f.energy_efficiency.as_str())),
        SiteFields::Bridge(f) => Statement::new(BRIDGE_INSERT_SQL).bind(SqlValue::Int(id)).bind(SqlValue::Real(f.length)).bind(SqlValue::text(f.road_material.as_str())).bind(SqlValue::Real(f.max_load)),
        SiteFields::Park(f) => Statement::new(PARK_INSERT_SQL).bind(SqlValue::Int(id)).bind(SqlValue::Real(f.area)).bind(SqlValue::Bool(f.has_playground)).bind(SqlValue::Bool(f.has_lighting)),
    }
}

/// The statement that updates the type-specific row of the site `id`.
pub open spec fn site_fields_update(id: i32, fields: SiteFields) -> StatementView {
    match fields {
        SiteFields::PowerPlant(f) => fixed(POWER_PLANT_UPDATE_SQL@).arg(SqlValueView::Real(f.energy_output)).arg(SqlValueView::Text(f.energy_source@)).arg(SqlValueView::Bool(f.is_grid_connected)).arg(SqlValueView::Int(id)),
        SiteFields::Road(f) => fixed(ROAD_UPDATE_SQL@).arg(SqlValueView::Real(f.length)).arg(SqlValueView::Int(f.lanes)).arg(SqlValueView::Text(f.surface@)).arg(SqlValueView::Int(id)),
        SiteFields::Housing(f) => fixed(HOUSING_UPDATE_SQL@).arg(SqlValueView::Int(f.number_of_floors)).arg(SqlValueView::Int(f.number_of_entrances)).arg(SqlValueView::Text(f.type_@)).arg(SqlValueView::Text(f.energy_efficiency@)).arg(SqlValueView::Int(id)),
        SiteFields::Bridge(f) => fixed(BRIDGE_UPDATE_SQL@).arg(SqlValueView::Real(f.length)).arg(SqlValueView::Text(f.road_material@)).arg(SqlValueView::Real(f.max_load)).arg(SqlValueView::Int(id)),
        SiteFields::Park(f) => fixed(PARK_UPDATE_SQL@).arg(SqlValueView::Real(f.area)).arg(SqlValueView::Bool(f.has_playground)).arg(SqlValueView::Bool(f.has_lighting)).arg(SqlValueView::Int(id)),
    }
}

/// The statement that updates the type-specific row of the site `id`.
pub fn site_fields_update_statement(id: i32, fields: &SiteFields) -> (s: Statement)
    ensures
        s@ == site_fields_update(id, *fields),
{
    match fields {
        SiteFields::PowerPlant(f) => Statement::new(POWER_PLANT_UPDATE_SQL).bind(SqlValue::Real(f.energy_output)).bind(SqlValue::text(f.energy_source.as_str())).bind(SqlValue::Bool(f.is_grid_connected)).bind(SqlValue::Int(id)),
        SiteFields::Road(f) => Statement::new(ROAD_UPDATE_SQL).bind(SqlValue::Real(f.length)).bind(SqlValue::Int(f.lanes)).bind(SqlValue::text(f.surface.as_str())).bind(SqlValue::Int(id)),
        SiteFields::Housing(f) => Statement::new(HOUSING_UPDATE_SQL).bind(SqlValue::Int(f.number_of_floors)).bind(SqlValue::Int(f.number_of_entrances)).bind(SqlValue::text(f.type_.as_str())).bind(SqlValue::text(f.energy_efficiency.as_str())).bind(SqlValue::Int(id)),
        SiteFields::Bridge(f) => Statement::new(BRIDGE_UPDATE_SQL).bind(SqlValue::Real(f.length)).bind(SqlValue::text(f.road_material.as_str())).bind(SqlValue::Real(f.max_load)).bind(SqlValue::Int(id)),
        SiteFields::Park(f) => Statement::new(PARK_UPDATE_SQL).bind(SqlValue::Real(f.area)).bind(SqlValue::Bool(f.has_playground)).bind(SqlValue::Bool(f.has_lighting)).bind(SqlValue::Int(id)),
    }
}

/// The words in front of the report that the read of the type-specific
/// data of a site failed.
pub open spec fn site_fields_failure(site_type: SiteType) -> Seq<char> {
    match site_type {
        SiteType::PowerPlant => "Error fetching power plant data: "@,
        SiteType::Road => "Error fetching road data: "@,
        SiteType::Housing => "Error fetching housing data: "@,
        SiteType::Bridge => "Error fetching bridge data: "@,
        SiteType::Park => "Error fetching park data: "@,
    }
}

/// The read of the type-specific row of the site `id`.
pub fn site_fields_query(id: i32, site_type: SiteType) -> (f: Fetch)
    ensures
        f@ == (match site_type {
            SiteType::PowerPlant => FetchView {
                statement: fixed(POWER_PLANT_SELECT_SQL@).arg(SqlValueView::Int(id)),
                failure: "Error fetching power plant data: "@,
            },
            SiteType::Road => FetchView {
                statement: fixed(ROAD_SELECT_SQL@).arg(SqlValueView::Int(id)),
                failure: "Error fetching road data: "@,
            },
            SiteType::Housing => FetchView {
                statement: fixed(HOUSING_SELECT_SQL@).arg(SqlValueView::Int(id)),
                failure: "Error fetching housing data: "@,
            },
            SiteType::Bridge => FetchView {
                statement: fixed(BRIDGE_SELECT_SQL@).arg(SqlValueView::Int(id)),
                failure: "Error fetching bridge data: "@,
            },
            SiteType::Park => FetchView {
                statement: fixed(PARK_SELECT_SQL@).arg(SqlValueView::Int(id)),
                failure: "Error fetching park data: "@,
            },
        }),
{
    match site_type {
        SiteType::PowerPlant => Fetch {
            statement: by_id(POWER_PLANT_SELECT_SQL, id),
            failure: "Error fetching power plant data: ",
        },
        SiteType::Road => Fetch {
            statement: by_id(ROAD_SELECT_SQL, id),
            failure: "Error fetching road data: ",
        },
        SiteType::Housing => Fetch {
            statement: by_id(HOUSING_SELECT_SQL, id),
            failure: "Error fetching housing data: ",
        },
        SiteType::Bridge => Fetch {
            statement: by_id(BRIDGE_SELECT_SQL, id),
            failure: "Error fetching bridge data: ",
        },
        SiteType::Park => Fetch {
            statement: by_id(PARK_SELECT_SQL, id),
            failure: "Error fetching park data: ",
        },
    }
}

/// The words that name the type-specific data of a site in the report
/// that it is missing.
pub open spec fn site_fields_name(site_type: SiteType) -> Seq<char> {
    match site_type {
        SiteType::PowerPlant => "Power plant data for site ID "@,
        SiteType::Road => "Road data for site ID "@,
        SiteType::Housing => "Housing data for site ID "@,
        SiteType::Bridge => "Bridge data for site ID "@,
        SiteType::Park => "Park data for site ID "@,
    }
}

/// The type-specific data of the site `id` as it was read; or the
/// paragraph that says that the site has none, or that the read failed.
pub fn site_fields_found(id: i32, site_type: SiteType, fetched: Result<Option<SiteFields>, String>) -> (r:
    Result<SiteFields, String>)
    ensures
        match fetched {
            Ok(Some(row)) => r == Ok::<SiteFields, String>(row),
            Ok(None) => r is Err && r->Err_0@ == paragraph_about(
                site_fields_name(site_type),
                id as int,
                " not found"@,
            ),
            Err(e) => r is Err && r->Err_0@ == paragraph(
                site_fields_failure(site_type),
                e@,
            ),
        },
{
    let words = match site_type {
        SiteType::PowerPlant => "Power plant data for site ID ",
        SiteType::Road => "Road data for site ID ",
        SiteType::Housing => "Housing data for site ID ",
        SiteType::Bridge => "Bridge data for site ID ",
        SiteType::Park => "Park data for site ID ",
    };
    site_fields_query(id, site_type).row(fetched, id, words, " not found")
}

/// The read of the site `id`, for its edit form.
pub fn site_edit_query(id: i32) -> (f: Fetch)
    ensures
        f@ == (FetchView {
            statement: fixed(SITE_SQL@).arg(SqlValueView::Int(id)),
            failure: "Error fetching site: "@,
        }),
{
    Fetch { statement: by_id(SITE_SQL, id), failure: "Error fetching site: " }
}

/// The edit form of the site `id` for the row that was read; or the
/// paragraph that says that there is no such site, or that the read failed.
pub fn site_edit_page(id: i32, fetched: Result<Option<SiteEditTemplate>, String>) -> (r: Result<
    SiteEditTemplate,
    String,
>)
    ensures
        match fetched {
            Ok(Some(row)) => r == Ok::<SiteEditTemplate, String>(row),
            Ok(None) => r is Err && r->Err_0@ == paragraph_about(
                "Site with ID "@,
                id as int,
                " not found"@,
            ),
            Err(e) => r is Err && r->Err_0@ == paragraph("Error fetching site: "@, e@),
        },
{
    site_edit_query(id).row(fetched, id, "Site with ID ", " not found")
}

/// The read of the site `id`, for its details.
pub fn site_api_details_query(id: i32) -> (f: Fetch)
    ensures
        f@ == (FetchView {
            statement: fixed(SITE_SQL@).arg(SqlValueView::Int(id)),
            failure: "Error fetching site details: "@,
        }),
{
    Fetch { statement: by_id(SITE_SQL, id), failure: "Error fetching site details: " }
}

/// The site that was read for its details; or the paragraph that says that
/// there is no site `id`, or that the read failed.
pub fn site_found(id: i32, fetched: Result<Option<SiteEditTemplate>, String>) -> (r: Result<
    SiteEditTemplate,
    String,
>)
    ensures
        match fetched {
            Ok(Some(row)) => r == Ok::<SiteEditTemplate, String>(row),
            Ok(None) => r is Err && r->Err_0@ == paragraph_about(
                "Site with ID "@,
                id as int,
                " not found"@,
            ),
            Err(e) => r is Err && r->Err_0@ == paragraph("Error fetching site details: "@, e@),
        },
{
    site_api_details_query(id).row(fetched, id, "Site with ID ", " not found")
}

/// The details of a site under the tab `tab`, with the data of its type.
pub fn site_api_details_page(site: SiteEditTemplate, tab: SiteTab, type_fields: SiteFields) -> (t:
    SiteApiDetailsTemplate)
    ensures
        t == (SiteApiDetailsTemplate {
            id: site.id,
            name: site.name,
            type_: site.type_,
            area_id: site.area_id,
            area_name: site.area_name,
            client_id: site.client_id,
            client_name: site.client_name,
            location: site.location,
            risk_level: site.risk_level,
            description: site.description,
            tab,
            type_fields,
        }),
{
    SiteApiDetailsTemplate {
        id: site.id,
        name: site.name,
        type_: site.type_,
        area_id: site.area_id,
        area_name: site.area_name,
        client_id: site.client_id,
        client_name: site.client_name,
        location: site.location,
        risk_level: site.risk_level,
        description: site.description,
        tab,
        type_fields,
    }
}

/// The path of the form on which the site `id` is edited.
pub open spec fn site_edit_path(id: i32) -> Seq<char> {
    "/sites/"@ + int_text(id as int) + "/edit"@
}

/// Whether the form names the type that its type-specific data belongs to.
pub open spec fn update_agrees(form: SiteUpdateForm) -> bool {
    form.type_ == form.type_fields.spec_kind()
}

/// Whether the form names the type that its type-specific data belongs to.
pub open spec fn create_agrees(form: SiteCreateForm) -> bool {
    form.type_ == form.type_fields.spec_kind()
}

/// The stage without statements that refuses a form whose type is not the
/// type of its type-specific data, with a notification that leads back to
/// the form.
pub open spec fn site_form_refused(redirect: Seq<char>) -> StageView {
    only(
        NextView::Abort(
            refuse_note("Site type does not match the type-specific data"@, Some(redirect)),
        ),
    )
}

fn site_form_refused_stage(redirect: String) -> (s: Stage)
    ensures
        s@ == site_form_refused(redirect@),
{
    only_stage(
        Next::Abort(
            Reply::refuse(
                String::from_str("Site type does not match the type-specific data"),
                Some(redirect),
            ),
        ),
    )
}

/// How far a mutation of a site has come, with what was read on the way.
#[derive(Clone, Copy, Debug, PartialEq, Eq, Structural)]
pub enum SiteProgress {
    /// The transaction was begun.
    Begun,
    /// The area of the form was checked, and the check let the request go
    /// on.
    AreaChecked,
    /// The client of the form was checked, and the check let the request
    /// go on.
    ClientChecked,
    /// The type of the site was read: `None` where there is no such site.
    TypeRead(Option<SiteType>),
    /// The site row was inserted, and this is its id.
    Created(i32),
}

impl SiteProgress {
    /// The progress after a check has let the request go on: the area was
    /// checked after the beginning, the client after the area.
    pub open spec fn spec_passed(self) -> SiteProgress {
        match self {
            SiteProgress::Begun => SiteProgress::AreaChecked,
            SiteProgress::AreaChecked => SiteProgress::ClientChecked,
            other => other,
        }
    }

    /// The progress after a check has let the request go on.
    pub fn passed(self) -> (p: SiteProgress)
        ensures
            p == self.spec_passed(),
    {
        match self {
            SiteProgress::Begun => SiteProgress::AreaChecked,
            SiteProgress::AreaChecked => SiteProgress::ClientChecked,
            other => other,
        }
    }
}

/// The steps that give the site `id` the fields, the type and the
/// type-specific data of the form, for a site whose type is `current`: the
/// site row is updated, the old type-specific row is deleted where the
/// type changes, and the new data is written into the row of its type,
/// which is inserted where the site had none there.
pub open spec fn site_retype(id: i32, form: SiteUpdateForm, current: SiteType) -> Seq<
    Meant<SiteType>,
> {
    seq![
        Meant {
            op: Op::UpdateBase(form.type_),
            step: step(
                fixed(SITE_UPDATE_SQL@).arg(SqlValueView::Text(form.name@)).arg(
                    SqlValueView::Int(form.area_id),
                ).arg(SqlValueView::Int(form.client_id)).arg(SqlValueView::SiteType(form.type_)).arg(
                    SqlValueView::Point(form.location),
                ).arg(SqlValueView::RiskLevel(form.risk_level)).arg(
                    opt_text_value(opt_text(form.description)),
                ).arg(SqlValueView::Int(id)),
                "Error updating site: "@,
            ),
        },
    ] + (if current != form.type_ {
        seq![
            Meant {
                op: Op::DeleteSatellite(current),
                step: step(site_fields_delete(id, current), "Error removing old site type data: "@),
            },
        ]
    } else {
        Seq::empty()
    }) + seq![
        Meant {
            op: write_satellite(current, form.type_fields.spec_kind()),
            step: step(
                if form.type_fields.spec_kind() == current {
                    site_fields_update(id, form.type_fields)
                } else {
                    site_fields_insert(id, form.type_fields)
                },
                "Error updating site type data: "@,
            ),
        },
    ]
}

/// The stage without statements that ends the request with the paragraph
/// that there is no site `id`.
pub open spec fn site_not_found(id: i32) -> StageView {
    StageView {
        steps: Seq::empty(),
        next: NextView::Abort(
            ReplyView::Html(paragraph_about("Site with ID "@, id as int, " not found"@)),
        ),
    }
}

/// The stage without statements that goes on with `next`.
pub open spec fn only(next: NextView) -> StageView {
    StageView { steps: Seq::empty(), next }
}

/// The stage of the update of the site `id` that follows `progress`.
pub open spec fn site_update_plan(id: i32, form: SiteUpdateForm, progress: SiteProgress) -> StageView {
    if !update_agrees(form) {
        site_form_refused(site_edit_path(id))
    } else {
        site_update_steps(id, form, progress)
    }
}

/// The stage of the update of the site `id` that follows `progress`, for a
/// form that names the type of its type-specific data.
pub open spec fn site_update_steps(id: i32, form: SiteUpdateForm, progress: SiteProgress) -> StageView {
    match progress {
        SiteProgress::Begun => only(
            NextView::Check(
                must_exist_or_note("area"@, form.area_id, "Area with ID "@, site_edit_path(id)),
            ),
        ),
        SiteProgress::AreaChecked => only(
            NextView::Check(
                must_exist_or_note(
                    "client"@,
                    form.client_id,
                    "Client with ID "@,
                    site_edit_path(id),
                ),
            ),
        ),
        SiteProgress::ClientChecked => only(
            NextView::Ask(
                FetchView {
                    statement: fixed(SITE_TYPE_SQL@).arg(SqlValueView::Int(id)),
                    failure: "Error fetching site type: "@,
                },
            ),
        ),
        SiteProgress::TypeRead(Some(current)) => StageView {
            steps: steps_of(site_retype(id, form, current)),
            next: NextView::Commit(
                success_note(
                    "Site '"@ + form.name@ + "' updated successfully"@,
                    Some("/sites/"@ + int_text(id as int)),
                ),
            ),
        },
        _ => site_not_found(id),
    }
}

fn only_stage(next: Next) -> (s: Stage)
    ensures
        s@ == only(next@),
{
    let s = Stage { steps: Vec::new(), next };
    assert(s@.steps =~= Seq::<StepView>::empty());
    s
}

fn site_not_found_stage(id: i32) -> (s: Stage)
    ensures
        s@ == site_not_found(id),
{
    only_stage(Next::Abort(Reply::Html(paragraph_about_id("Site with ID ", id, " not found"))))
}

fn site_note(name: &str, after: &str, id: i32) -> (n: NotificationTemplate)
    ensures
        n@ == success_note("Site '"@ + name@ + after@, Some("/sites/"@ + int_text(id as int))),
{
    proof {
        reveal_strlit("");
        assert("/sites/"@ + int_text(id as int) + ""@ =~= "/sites/"@ + int_text(id as int));
    }
    NotificationTemplate::success(join3("Site '", name, after), Some(around_i32("/sites/", id, "")))
}

/// The stage of the update of the site `id` that follows `progress`.
pub fn site_update_stage(id: i32, form: &SiteUpdateForm, progress: SiteProgress) -> (s: Stage)
    ensures
        s@ == site_update_plan(id, *form, progress),
{
    if form.type_ != form.type_fields.kind() {
        return site_form_refused_stage(around_i32("/sites/", id, "/edit"));
    }
    match progress {
        SiteProgress::Begun => only_stage(
            Next::Check(
                must_exist_or_notify(
                    "area",
                    form.area_id,
                    "Area with ID ",
                    around_i32("/sites/", id, "/edit"),
                ),
            ),
        ),
        SiteProgress::AreaChecked => only_stage(
            Next::Check(
                must_exist_or_notify(
                    "client",
                    form.client_id,
                    "Client with ID ",
                    around_i32("/sites/", id, "/edit"),
                ),
            ),
        ),
        SiteProgress::ClientChecked => only_stage(
            Next::Ask(
                Fetch { statement: by_id(SITE_TYPE_SQL, id), failure: "Error fetching site type: " },
            ),
        ),
        SiteProgress::TypeRead(Some(current)) => {
            let mut steps: Vec<Step> = Vec::new();
            steps.push(
                Step::new(
                    Statement::new(SITE_UPDATE_SQL).bind(SqlValue::text(form.name.as_str())).bind(
                        SqlValue::Int(form.area_id),
                    ).bind(SqlValue::Int(form.client_id)).bind(SqlValue::SiteType(form.type_)).bind(
                        SqlValue::Point(form.location),
                    ).bind(SqlValue::RiskLevel(form.risk_level)).bind(
                        SqlValue::opt_text(&form.description),
                    ).bind(SqlValue::Int(id)),
                    "Error updating site: ",
                ),
            );
            if current != form.type_ {
                steps.push(
                    Step::new(
                        site_fields_delete_statement(id, current),
                        "Error removing old site type data: ",
                    ),
                );
            }
            let write = if form.type_fields.kind() == current {
                site_fields_update_statement(id, &form.type_fields)
            } else {
                site_fields_insert_statement(id, &form.type_fields)
            };
            steps.push(Step::new(write, "Error updating site type data: "));
            assert(steps_view(steps@) =~= steps_of(site_retype(id, *form, current)));
            Stage {
                steps,
                next: Next::Commit(site_note(form.name.as_str(), "' updated successfully", id)),
            }
        },
        _ => site_not_found_stage(id),
    }
}

/// Every statement of an update, with what it does to the rows of the
/// site: those that retype the site where the form names the type of its
/// type-specific data, and none where it does not.
pub open spec fn site_update_run(id: i32, form: SiteUpdateForm, current: SiteType) -> Seq<
    Meant<SiteType>,
> {
    if update_agrees(form) {
        site_retype(id, form, current)
    } else {
        Seq::empty()
    }
}

/// An update keeps the rows of a site in order, whatever the form holds.
/// The statements of the update are those of its stages. A site with the
/// one row of its type has, after an update that was committed with a form
/// that names the type of its data, the one row of the type of the form.
/// It has the rows it had where the transaction was rolled back, and where
/// the form names another type than that of its data: such a form is
/// refused at once, and no statement is executed for it.
pub proof fn lemma_site_update_keeps_order(
    id: i32,
    form: SiteUpdateForm,
    current: SiteType,
    committed: bool,
)
    ensures
        steps_of(site_update_run(id, form, current)) == site_update_plan(
            id,
            form,
            SiteProgress::TypeRead(Some(current)),
        ).steps,
        forall|progress: SiteProgress|
            !(progress is TypeRead) ==> (#[trigger] site_update_plan(id, form, progress)).steps
                == Seq::<StepView>::empty(),
        !update_agrees(form) ==> site_update_plan(id, form, SiteProgress::Begun).next is Abort,
        transact(live(current), ops_of(site_update_run(id, form, current)), committed) == (
        if committed && update_agrees(form) {
            live(form.type_)
        } else {
            live(current)
        }),
        in_order(transact(live(current), ops_of(site_update_run(id, form, current)), committed)),
{
    let e = live(current);
    assert(steps_of(site_update_run(id, form, current)) =~= site_update_plan(
        id,
        form,
        SiteProgress::TypeRead(Some(current)),
    ).steps);
    if update_agrees(form) {
        let update = seq![Op::UpdateBase(form.type_)];
        let drop = drop_satellite(current, form.type_);
        let write = seq![write_satellite(current, form.type_)];
        assert(ops_of(site_retype(id, form, current)) =~= update + drop + write);
        lemma_apply_parts(e, update + drop, write);
        lemma_apply_parts(e, update, drop);
        lemma_apply_one(e, Op::UpdateBase(form.type_));
        lemma_apply_one(apply_all(e, update + drop), write_satellite(current, form.type_));
        lemma_retype_in_order(current, form.type_);
    } else {
        assert(ops_of(site_update_run(id, form, current)) =~= Seq::<Op<SiteType>>::empty());
    }
}

/// The check before a site is deleted: a site with tasks that are not
/// completed stays.
pub fn site_delete_guard(id: i32) -> (g: Guard)
    ensures
        g@ == strict(
            fixed(SITE_HAS_ACTIVE_TASKS_SQL@).arg(SqlValueView::Int(id)),
            false,
            refuse_note(
                "Cannot delete site with active tasks"@,
                Some("/sites/"@ + int_text(id as int)),
            ),
            "Error checking for active tasks: "@,
        ),
{
    proof {
        reveal_strlit("");
        assert("/sites/"@ + int_text(id as int) + ""@ =~= "/sites/"@ + int_text(id as int));
    }
    Guard::strict(
        by_id(SITE_HAS_ACTIVE_TASKS_SQL, id),
        false,
        Reply::refuse(
            String::from_str("Cannot delete site with active tasks"),
            Some(around_i32("/sites/", id, "")),
        ),
        "Error checking for active tasks: ",
    )
}

/// The steps that delete the site `id` of the type `current`: its
/// type-specific row, the materials of its completed tasks, those tasks,
/// its equipment allocations, and the site row.
pub open spec fn site_removal(id: i32, current: SiteType) -> Seq<Meant<SiteType>> {
    seq![
        Meant {
            op: Op::DeleteSatellite(current),
            step: step(site_fields_delete(id, current), "Error deleting site type data: "@),
        },
        other(
            step(
                fixed(SITE_EXPENDITURE_DELETE_SQL@).arg(SqlValueView::Int(id)),
                "Error removing task materials: "@,
            ),
        ),
        other(
            step(
                fixed(SITE_TASK_DELETE_SQL@).arg(SqlValueView::Int(id)),
                "Error removing tasks: "@,
            ),
        ),
        other(
            step(
                fixed(SITE_ALLOCATION_DELETE_SQL@).arg(SqlValueView::Int(id)),
                "Error removing equipment allocations: "@,
            ),
        ),
        Meant {
            op: Op::DeleteBase,
            step: step(fixed(SITE_DELETE_SQL@).arg(SqlValueView::Int(id)), "Error deleting site: "@),
        },
    ]
}

/// The stage of the deletion of the site `id` that follows `progress`.
pub open spec fn site_delete_plan(id: i32, progress: SiteProgress) -> StageView {
    match progress {
        SiteProgress::Begun => only(
            NextView::Ask(
                FetchView {
                    statement: fixed(SITE_TYPE_SQL@).arg(SqlValueView::Int(id)),
                    failure: "Error fetching site type: "@,
                },
            ),
        ),
        SiteProgress::TypeRead(Some(current)) => StageView {
            steps: steps_of(site_removal(id, current)),
            next: NextView::Commit(success_note("Site successfully deleted"@, Some("/sites"@))),
        },
        _ => site_not_found(id),
    }
}

/// The stage of the deletion of the site `id` that follows `progress`.
pub fn site_delete_stage(id: i32, progress: SiteProgress) -> (s: Stage)
    ensures
        s@ == site_delete_plan(id, progress),
{
    match progress {
        SiteProgress::Begun => only_stage(
            Next::Ask(
                Fetch { statement: by_id(SITE_TYPE_SQL, id), failure: "Error fetching site type: " },
            ),
        ),
        SiteProgress::TypeRead(Some(current)) => {
            let mut steps: Vec<Step> = Vec::new();
            steps.push(
                Step::new(
                    site_fields_delete_statement(id, current),
                    "Error deleting site type data: ",
                ),
            );
            steps.push(
                Step::new(by_id(SITE_EXPENDITURE_DELETE_SQL, id), "Error removing task materials: "),
            );
            steps.push(Step::new(by_id(SITE_TASK_DELETE_SQL, id), "Error removing tasks: "));
            steps.push(
                Step::new(
                    by_id(SITE_ALLOCATION_DELETE_SQL, id),
                    "Error removing equipment allocations: ",
                ),
            );
            steps.push(Step::new(by_id(SITE_DELETE_SQL, id), "Error deleting site: "));
            assert(steps_view(steps@) =~= steps_of(site_removal(id, current)));
            Stage {
                steps,
                next: Next::Commit(
                    NotificationTemplate::success(
                        String::from_str("Site successfully deleted"),
                        Some(String::from_str("/sites")),
                    ),
                ),
            }
        },
        _ => site_not_found_stage(id),
    }
}

/// A deletion that is committed leaves no row of the site; one that is
/// rolled back leaves the site as it was.
pub proof fn lemma_site_delete_leaves_nothing(id: i32, current: SiteType, committed: bool)
    ensures
        transact(live(current), ops_of(site_removal(id, current)), committed) == (if committed {
            absent()
        } else {
            live(current)
        }),
        in_order(transact(live(current), ops_of(site_removal(id, current)), committed)),
{
    let e = live(current);
    let ops = ops_of(site_removal(id, current));
    let a = seq![Op::DeleteSatellite(current)];
    let b = seq![Op::<SiteType>::Other, Op::<SiteType>::Other, Op::<SiteType>::Other];
    let c = seq![Op::<SiteType>::DeleteBase];
    assert(ops =~= a + b + c);
    lemma_apply_parts(e, a + b, c);
    lemma_apply_parts(e, a, b);
    lemma_apply_one(e, Op::DeleteSatellite(current));
    lemma_others_change_nothing(apply_all(e, a), b);
    lemma_apply_one(apply_all(e, a + b), Op::DeleteBase);
    lemma_delete_leaves_nothing(current);
}

/// The steps that insert the type-specific row of the new site `site_id`.
/// The site row itself is inserted before them, by the statement that
/// returns the id.
pub open spec fn site_insert(form: SiteCreateForm, site_id: i32) -> Seq<Meant<SiteType>> {
    seq![
        Meant {
            op: Op::InsertSatellite(form.type_fields.spec_kind()),
            step: step(
                site_fields_insert(site_id, form.type_fields),
                "Error creating site type data: "@,
            ),
        },
    ]
}

/// The stage of the creation of a site that follows `progress`.
pub open spec fn site_create_plan(form: SiteCreateForm, progress: SiteProgress) -> StageView {
    if !create_agrees(form) {
        site_form_refused("/sites/new"@)
    } else {
        site_create_steps(form, progress)
    }
}

/// The stage of the creation of a site that follows `progress`, for a form
/// that names the type of its type-specific data.
pub open spec fn site_create_steps(form: SiteCreateForm, progress: SiteProgress) -> StageView {
    match progress {
        SiteProgress::Begun => only(
            NextView::Check(
                must_exist_or_note("area"@, form.area_id, "Area with ID "@, "/sites/new"@),
            ),
        ),
        SiteProgress::AreaChecked => only(
            NextView::Check(
                must_exist_or_note("client"@, form.client_id, "Client with ID "@, "/sites/new"@),
            ),
        ),
        SiteProgress::Created(site_id) => StageView {
            steps: steps_of(site_insert(form, site_id)),
            next: NextView::Commit(
                success_note(
                    "Site '"@ + form.name@ + "' created successfully"@,
                    Some("/sites/"@ + int_text(site_id as int)),
                ),
            ),
        },
        _ => only(
            NextView::Insert(
                FetchView {
                    statement: fixed(SITE_INSERT_SQL@).arg(SqlValueView::Text(form.name@)).arg(
                        SqlValueView::Int(form.area_id),
                    ).arg(SqlValueView::Int(form.client_id)).arg(
                        SqlValueView::SiteType(form.type_),
                    ).arg(SqlValueView::Text(form.location@)).arg(
                        SqlValueView::RiskLevel(form.risk_level),
                    ).arg(opt_text_value(opt_text(form.description))),
                    failure: "Error creating site: "@,
                },
            ),
        ),
    }
}

/// The stage of the creation of a site that follows `progress`.
pub fn site_create_stage(form: &SiteCreateForm, progress: SiteProgress) -> (s: Stage)
    ensures
        s@ == site_create_plan(*form, progress),
{
    if form.type_ != form.type_fields.kind() {
        return site_form_refused_stage(String::from_str("/sites/new"));
    }
    match progress {
        SiteProgress::Begun => only_stage(
            Next::Check(
                must_exist_or_notify(
                    "area",
                    form.area_id,
                    "Area with ID ",
                    String::from_str("/sites/new"),
                ),
            ),
        ),
        SiteProgress::AreaChecked => only_stage(
            Next::Check(
                must_exist_or_notify(
                    "client",
                    form.client_id,
                    "Client with ID ",
                    String::from_str("/sites/new"),
                ),
            ),
        ),
        SiteProgress::Created(site_id) => {
            let mut steps: Vec<Step> = Vec::new();
            steps.push(
                Step::new(
                    site_fields_insert_statement(site_id, &form.type_fields),
                    "Error creating site type data: ",
                ),
            );
            assert(steps_view(steps@) =~= steps_of(site_insert(*form, site_id)));
            Stage {
                steps,
                next: Next::Commit(site_note(form.name.as_str(), "' created successfully", site_id)),
            }
        },
        _ => only_stage(
            Next::Insert(
                Fetch {
                    statement: Statement::new(SITE_INSERT_SQL).bind(
                        SqlValue::text(form.name.as_str()),
                    ).bind(SqlValue::Int(form.area_id)).bind(SqlValue::Int(form.client_id)).bind(
                        SqlValue::SiteType(form.type_),
                    ).bind(SqlValue::text(form.location.as_str())).bind(
                        SqlValue::RiskLevel(form.risk_level),
                    ).bind(SqlValue::opt_text(&form.description)),
                    failure: "Error creating site: ",
                },
            ),
        ),
    }
}

/// What a creation does to the rows of the new site `site_id`: it inserts
/// the site row and the row of its type where the form names the type of
/// its type-specific data, and nothing where it does not.
pub open spec fn site_create_ops(form: SiteCreateForm, site_id: i32) -> Seq<Op<SiteType>> {
    if create_agrees(form) {
        seq![Op::InsertBase(form.type_)] + ops_of(site_insert(form, site_id))
    } else {
        Seq::empty()
    }
}

/// A creation leaves the rows in order, whatever the form holds. Committed
/// with a form that names the type of its data, it leaves a site with the
/// one row of its type. It leaves no row where the transaction was rolled
/// back, and where the form names another type than that of its data:
/// such a form is refused at once, and no statement is executed for it.
pub proof fn lemma_site_create_in_order(form: SiteCreateForm, site_id: i32, committed: bool)
    ensures
        !create_agrees(form) ==> forall|progress: SiteProgress|
            (#[trigger] site_create_plan(form, progress)).steps == Seq::<StepView>::empty()
                && site_create_plan(form, progress).next is Abort,
        create_agrees(form) ==> site_create_plan(form, SiteProgress::Created(site_id)).steps
            == steps_of(site_insert(form, site_id)),
        transact(absent(), site_create_ops(form, site_id), committed) == (if committed
            && create_agrees(form) {
            live(form.type_)
        } else {
            absent()
        }),
        in_order(transact(absent(), site_create_ops(form, site_id), committed)),
{
    if create_agrees(form) {
        let insert = Op::InsertBase(form.type_);
        let ops = seq![insert] + ops_of(site_insert(form, site_id));
        assert(ops =~= seq![insert, Op::InsertSatellite(form.type_)]);
        assert(ops.drop_last() =~= seq![insert]);
        lemma_apply_one(absent(), insert);
        lemma_create_in_order(form.type_);
    }
}

/// The life of a site: created, changed to another type, updated without a
/// change of type, and deleted, each in a transaction that is committed or
/// rolled back, with forms that hold anything at all. At every point the
/// rows are in order: no site row and no row of a type, or a site row and
/// exactly the one row of its type. A site that was created stays until it
/// is deleted, and after a deletion that was committed it has no row.
pub proof fn lemma_site_life_keeps_one_row(
    id: i32,
    create: SiteCreateForm,
    change: SiteUpdateForm,
    update: SiteUpdateForm,
    created: bool,
    changed: bool,
    updated: bool,
    deleted: bool,
)
    ensures
        ({
            let born = transact(absent(), site_create_ops(create, id), created);
            let second = transact(
                born,
                ops_of(site_update_run(id, change, born.base->0)),
                changed,
            );
            let third = transact(
                second,
                ops_of(site_update_run(id, update, second.base->0)),
                updated,
            );
            let last = transact(third, ops_of(site_removal(id, third.base->0)), deleted);
            &&& in_order(born)
            &&& born.base is Some <==> created && create_agrees(create)
            &&& born.base is Some ==> {
                &&& second.base is Some && in_order(second)
                &&& third.base is Some && in_order(third)
                &&& changed && update_agrees(change) ==> second == live(change.type_)
                &&& updated && update_agrees(update) ==> third == live(update.type_)
                &&& in_order(last)
                &&& last == (if deleted {
                    absent()
                } else {
                    third
                })
            }
        }),
{
    lemma_site_create_in_order(create, id, created);
    let born = transact(absent(), site_create_ops(create, id), created);
    if born.base is Some {
        let kind1 = born.base->0;
        lemma_site_update_keeps_order(id, change, kind1, changed);
        let second = transact(born, ops_of(site_update_run(id, change, kind1)), changed);
        let kind2 = second.base->0;
        lemma_site_update_keeps_order(id, update, kind2, updated);
        let third = transact(second, ops_of(site_update_run(id, update, kind2)), updated);
        let kind3 = third.base->0;
        lemma_site_delete_leaves_nothing(id, kind3, deleted);
    }
}

/// The order that a sort key of the site listing stands for. A key that
/// the listing does not know orders by the primary key.
pub open spec fn site_order(key: Seq<char>) -> OrderView {
    if key == "name"@ {
        by_column("s.name"@)
    } else if key == "type"@ {
        by_column("s.type"@)
    } else if key == "area"@ {
        by_column("a.name"@)
    } else if key == "client"@ {
        by_column("c.name"@)
    } else {
        by_column("s.id"@)
    }
}

/// The order that a sort key of the site listing stands for.
pub fn site_order_column(key: &str) -> (order: Order)
    ensures
        order@ == site_order(key@),
{
    if str_eq(key, "name") {
        Order::by_column("s.name")
    } else if str_eq(key, "type") {
        Order::by_column("s.type")
    } else if str_eq(key, "area") {
        Order::by_column("a.name")
    } else if str_eq(key, "client") {
        Order::by_column("c.name")
    } else {
        Order::by_column("s.id")
    }
}

/// Whatever the sort key, the listing is ordered by one of its own columns,
/// never by the key itself; and a key that the listing does not know orders
/// by the primary key.
pub proof fn lemma_site_order_is_listed(key: Seq<char>)
    ensures
        site_order(key) == by_column("s.name"@) || site_order(key) == by_column("s.type"@) || site_order(key) == by_column("a.name"@) || site_order(key) == by_column("c.name"@) || site_order(key) == by_column("s.id"@),
        key != "name"@ && key != "type"@ && key != "area"@ && key != "client"@ ==> site_order(key) == by_column("s.id"@),
{
}

/// The condition that a status of the site listing stands for. A status
/// that the listing does not know stands for no condition.
pub open spec fn site_status_condition(status: Seq<char>) -> Option<Seq<char>> {
    if status == "in_progress"@ {
        Some("EXISTS (SELECT 1 FROM task t WHERE t.site_id = s.id AND t.actual_period_end IS NULL)"@)
    } else if status == "planned"@ {
        Some("NOT EXISTS (SELECT 1 FROM task t WHERE t.site_id = s.id)"@)
    } else if status == "completed"@ {
        Some("NOT EXISTS (SELECT 1 FROM task t WHERE t.site_id = s.id AND t.actual_period_end IS NULL) AND EXISTS (SELECT 1 FROM task t WHERE t.site_id = s.id)"@)
    } else {
        None
    }
}

/// The condition that a status of the site listing stands for.
pub fn site_status_text(status: &str) -> (text: Option<&'static str>)
    ensures
        (match text {
            Some(t) => Some(t@),
            None => None,
        }) == site_status_condition(status@),
{
    if str_eq(status, "in_progress") {
        Some("EXISTS (SELECT 1 FROM task t WHERE t.site_id = s.id AND t.actual_period_end IS NULL)")
    } else if str_eq(status, "planned") {
        Some("NOT EXISTS (SELECT 1 FROM task t WHERE t.site_id = s.id)")
    } else if str_eq(status, "completed") {
        Some("NOT EXISTS (SELECT 1 FROM task t WHERE t.site_id = s.id AND t.actual_period_end IS NULL) AND EXISTS (SELECT 1 FROM task t WHERE t.site_id = s.id)")
    } else {
        None
    }
}

/// The conditions of the site listing: one for each field of the filter
/// that is present.
pub open spec fn site_conditions(filter: SiteListFilter) -> Seq<Seq<PieceView>> {
    when_present(int_filter(filter.area_id), "s.area_id = "@, ""@) + when_present(
        int_filter(filter.department_id),
        "a.department_id = "@,
        ""@,
    ) + when_present(int_filter(filter.client_id), "s.client_id = "@, ""@) + when_present(
        match filter.type_ {
            Some(t) => Some(SqlValueView::SiteType(t)),
            None => None,
        },
        "s.type = "@,
        ""@,
    ) + when_present(pattern_filter(opt_text(filter.name)), "s.name ILIKE "@, ""@) + when_chosen(
        match filter.status {
            Some(status) => site_status_condition(status@),
            None => None,
        },
    )
}

/// The conditions of the site listing.
pub fn site_predicates(filter: &SiteListFilter) -> (p: Predicates)
    ensures
        p@ == site_conditions(*filter),
{
    let mut p = Predicates::new();
    p.add_bound(filter_int(filter.area_id), "s.area_id = ", "");
    p.add_bound(filter_int(filter.department_id), "a.department_id = ", "");
    p.add_bound(filter_int(filter.client_id), "s.client_id = ", "");
    p.add_bound(
        match filter.type_ {
            Some(t) => Some(SqlValue::SiteType(t)),
            None => None,
        },
        "s.type = ",
        "",
    );
    p.add_bound(filter_pattern(&filter.name), "s.name ILIKE ", "");
    p.add_chosen(
        match &filter.status {
            Some(status) => site_status_text(status.as_str()),
            None => None,
        },
    );
    assert(p@ =~= site_conditions(*filter));
    p
}

/// The listing of sites: the count of the sites that the filter admits,
/// and the page of them that `pagination` asks for, in the order that the
/// filter asks for.
pub fn sites_list_queries(pagination: &Pagination, filter: &SiteListFilter) -> (l: Listing)
    ensures
        l@.count.statement == filtered(SITE_COUNT_SQL@, site_conditions(*filter)),
        l@.count.failure == "Error counting sites: "@,
        l@.page.statement == paged(
            filtered(SITE_LIST_SQL@, site_conditions(*filter)),
            site_order(filter.sort.sort_by@),
            filter.sort.sort_direction,
            *pagination,
        ),
        l@.page.failure == "Error fetching sites: "@,
{
    let conditions = site_predicates(filter);
    let count = Statement::filtered(SITE_COUNT_SQL, &conditions);
    let page = Statement::filtered(SITE_LIST_SQL, &conditions).paged(
        site_order_column(filter.sort.sort_by.as_str()),
        filter.sort.sort_direction,
        pagination,
    );
    Listing {
        count: Fetch { statement: count, failure: "Error counting sites: " },
        page: Fetch { statement: page, failure: "Error fetching sites: " },
    }
}

/// The check before the rows that belong to the site `id` are listed: the
/// site exists.
pub fn site_exists_guard(id: i32) -> (g: Guard)
    ensures
        g@ == strict(
            fixed(exists_sql("site"@)).arg(SqlValueView::Int(id)),
            true,
            ReplyView::Html(paragraph_about("Site with ID "@, id as int, " does not exist"@)),
            "Error checking site: "@,
        ),
{
    Guard::strict(
        exists_by_id("site", id),
        true,
        Reply::Html(paragraph_about_id("Site with ID ", id, " does not exist")),
        "Error checking site: ",
    )
}

/// The read of a page `sql` of rows that belong to the site `id`.
pub open spec fn site_page(sql: Seq<char>, id: i32, pagination: Pagination, failure: Seq<char>)
    -> FetchView {
    FetchView {
        statement: fixed(sql).arg(SqlValueView::Int(id)).arg(
            SqlValueView::BigInt(pagination.spec_limit() as i64),
        ).arg(SqlValueView::BigInt(pagination.spec_offset() as i64)),
        failure,
    }
}

/// The read of a page of the tasks of the site `id`.
pub fn site_schedule_query(id: i32, pagination: &Pagination) -> (f: Fetch)
    ensures
        f@ == site_page(SITE_SCHEDULE_SQL@, id, *pagination, "Error fetching tasks: "@),
{
    Fetch { statement: page_by_id(SITE_SCHEDULE_SQL, id, pagination), failure: "Error fetching tasks: " }
}

/// The read of a page of the materials of the site `id`.
pub fn site_materials_query(id: i32, pagination: &Pagination) -> (f: Fetch)
    ensures
        f@ == site_page(SITE_MATERIALS_SQL@, id, *pagination, "Error fetching materials: "@),
{
    Fetch {
        statement: page_by_id(SITE_MATERIALS_SQL, id, pagination),
        failure: "Error fetching materials: ",
    }
}

/// The read of a page of the equipment of the site `id`.
pub fn site_equipment_query(id: i32, pagination: &Pagination) -> (f: Fetch)
    ensures
        f@ == site_page(SITE_EQUIPMENT_SQL@, id, *pagination, "Error fetching equipment: "@),
{
    Fetch {
        statement: page_by_id(SITE_EQUIPMENT_SQL, id, pagination),
        failure: "Error fetching equipment: ",
    }
}

/// The read of a page of the brigades of the site `id`.
pub fn site_brigades_query(id: i32, pagination: &Pagination) -> (f: Fetch)
    ensures
        f@ == site_page(SITE_BRIGADES_SQL@, id, *pagination, "Error fetching brigades: "@),
{
    Fetch {
        statement: page_by_id(SITE_BRIGADES_SQL, id, pagination),
        failure: "Error fetching brigades: ",
    }
}

/// The read of a page of the reports of the site `id`.
pub fn site_reports_query(id: i32, pagination: &Pagination) -> (f: Fetch)
    ensures
        f@ == site_page(SITE_REPORTS_SQL@, id, *pagination, "Error fetching reports: "@),
{
    Fetch { statement: page_by_id(SITE_REPORTS_SQL, id, pagination), failure: "Error fetching reports: " }
}

} // verus!
