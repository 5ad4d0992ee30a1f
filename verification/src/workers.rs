//! Workers: employees with a profession, and one row of profession-specific
//! data in the table of that profession.

use crate::flow::{Fetch, FetchView, Guard, Listing, refuse_note, strict};
use crate::general::{
    Gender, NotificationTemplate, Pagination, paragraph, paragraph_about, paragraph_about_id,
    Profession, QueryInfo, Reply, ReplyView, Sort, success_note,
};
use crate::sql::{
    by_column, by_columns, by_id, exists_by_id, exists_sql, filter_int, filter_pattern,
    filtered, fixed, int_filter, opt_text_value, Order, OrderView, paged, pattern_filter,
    PieceView, Predicates, SqlValue, SqlValueView, Statement, StatementView, when_chosen,
    when_present, when_present_twice,
};
use crate::subtype::{
    absent, apply, apply_all, drop_satellite, in_order, lemma_apply_one, lemma_apply_parts,
    lemma_create_in_order, lemma_delete_leaves_nothing, lemma_ops_of_parts,
    lemma_others_change_nothing, lemma_retype_in_order, live, Meant, Op, ops_of, other, steps_of,
    transact, write_satellite,
};
use crate::text::{around_i32, int_text, opt_text, str_eq};
use crate::transaction::{Next, NextView, Stage, StageView, step, Step, steps_view, StepView};
use vstd::prelude::*;
use vstd::string::*;

verus! {

/// The data that is specific to the profession of a worker.
#[derive(Clone, Debug, PartialEq, Eq)]
pub enum ProfessionFields {
    Electrician(ElectricianFields),
    Plumber(PlumberFields),
    Welder(WelderFields),
    Driver(DriverFields),
    Mason(MasonFields),
}

#[derive(Clone, Debug, PartialEq, Eq)]
pub struct ElectricianFields {
    pub voltage_specialization: String,
}

#[derive(Clone, Debug, PartialEq, Eq)]
pub struct PlumberFields {
    pub pipe_specialization: String,
}

#[derive(Clone, Debug, PartialEq, Eq)]
pub struct WelderFields {
    pub welding_machine: String,
}

#[derive(Clone, Debug, PartialEq, Eq)]
pub struct DriverFields {
    pub vehicle_type: String,
    pub number_of_accidents: i32,
}

#[derive(Clone, Copy, Debug, PartialEq, Eq, Structural)]
pub struct MasonFields {
    pub hq_restoration_skills: bool,
}

#[derive(Clone, Copy, Debug, PartialEq, Eq, Structural)]
pub struct WorkersListTemplate;

#[derive(Clone, Copy, Debug, PartialEq, Eq, Structural)]
pub struct WorkerDetailsTemplate {
    pub id: i32,
}

#[derive(Clone, Copy, Debug, PartialEq, Eq, Structural)]
pub struct WorkerNewTemplate;

#[derive(Clone, Debug, PartialEq, Eq)]
pub struct WorkerEditTemplate {
    pub id: i32,
    pub first_name: String,
    pub last_name: String,
    pub middle_name: Option<String>,
    pub gender: Gender,
    pub phone_number: String,
    pub salary: i32,
    pub profession: Profession,
    pub union_name: Option<String>,
    pub brigade_id: Option<i32>,
    pub brigade_name: Option<String>,
}

#[derive(Clone, Copy, Debug, PartialEq, Eq, Structural)]
pub struct WorkerProfessionQuery {
    pub profession: Profession,
}

#[derive(Clone, Debug, PartialEq, Eq)]
pub struct WorkerApiDetailsTemplate {
    pub id: i32,
    pub first_name: String,
    pub last_name: String,
    pub middle_name: Option<String>,
    pub gender: Gender,
    pub photo: Option<String>,
    pub phone_number: String,
    pub salary: i32,
    pub profession: Profession,
    pub union_name: Option<String>,
    pub brigade_id: Option<i32>,
    pub brigade_name: Option<String>,
    pub is_brigadier: bool,
    pub profession_fields: ProfessionFields,
}

#[derive(Clone, Copy, Debug, PartialEq, Eq, Structural)]
pub struct WorkerProfessionFieldsTemplate {
    pub profession: Profession,
}

#[derive(Clone, Debug, PartialEq, Eq)]
pub struct WorkerUpdateForm {
    pub first_name: String,
    pub last_name: String,
    pub middle_name: Option<String>,
    pub gender: Gender,
    pub phone_number: String,
    pub salary: i32,
    pub profession: Profession,
    pub union_name: Option<String>,
    pub brigade_id: Option<i32>,
    pub profession_fields: ProfessionFields,
}

#[derive(Clone, Debug, PartialEq, Eq)]
pub struct WorkerCreateForm {
    pub first_name: String,
    pub last_name: String,
    pub middle_name: Option<String>,
    pub gender: Gender,
    pub phone_number: String,
    pub salary: i32,
    pub profession: Profession,
    pub union_name: Option<String>,
    pub brigade_id: Option<i32>,
    pub profession_fields: ProfessionFields,
}

#[derive(Clone, Debug, PartialEq, Eq)]
pub struct WorkerListFilter {
    pub sort: Sort,
    pub profession: Option<Profession>,
    pub brigade_id: Option<i32>,
    pub is_brigadier: Option<bool>,
    pub name: Option<String>,
}

#[derive(Clone, Debug, PartialEq, Eq)]
pub struct WorkerListTemplate {
    pub workers: Vec<WorkerListItem>,
    pub pagination: Pagination,
    pub query_info: QueryInfo,
}

#[derive(Clone, Debug, PartialEq, Eq)]
pub struct WorkerListItem {
    pub id: i32,
    pub first_name: String,
    pub last_name: String,
    pub profession: Profession,
    pub brigade_id: Option<i32>,
    pub brigade_name: Option<String>,
    pub is_brigadier: bool,
}

/// The row of a worker as an employee.
#[derive(Clone, Debug, PartialEq, Eq)]
pub struct WorkerBasicInfo {
    pub id: i32,
    pub first_name: String,
    pub last_name: String,
    pub middle_name: Option<String>,
    pub gender: Gender,
    pub photo: Option<String>,
    pub phone_number: String,
    pub salary: i32,
    pub profession: Profession,
    pub union_name: Option<String>,
}

/// The brigade of a worker, if it is in one.
#[derive(Clone, Debug, PartialEq, Eq)]
pub struct BrigadeInfo {
    pub brigade_id: Option<i32>,
    pub brigade_name: Option<String>,
    pub is_brigadier: bool,
}

/// Selects one worker as an employee.
pub const WORKER_SQL: &'static str =
    "SELECT e.id, e.first_name, e.last_name, e.middle_name, e.gender, 
         e.photo, e.phone_number, e.salary, w.profession, w.union_name
         FROM employee e
         JOIN worker w ON e.id = w.id
         WHERE e.id = $1";

/// Selects the brigade of one worker.
pub const WORKER_BRIGADE_SQL: &'static str =
    "SELECT 
            a.brigade_id,
            CONCAT(be.last_name, ' ', be.first_name) as brigade_name,
            CASE WHEN b.brigadier_id = $1 THEN true ELSE false END as is_brigadier
        FROM worker w
        LEFT JOIN assignment a ON w.id = a.worker_id
        LEFT JOIN brigade b ON a.brigade_id = b.id
        LEFT JOIN worker bw ON b.brigadier_id = bw.id
        LEFT JOIN employee be ON bw.id = be.id
        WHERE w.id = $1";

pub const EMPLOYEE_UPDATE_SQL: &'static str =
    "UPDATE employee 
         SET first_name = $1, last_name = $2, middle_name = $3, gender = $4, 
             phone_number = $5, salary = $6 
         WHERE id = $7";

pub const WORKER_EMPLOYEE_INSERT_SQL: &'static str =
    "INSERT INTO employee (class, first_name, last_name, middle_name, gender, phone_number, salary) 
         VALUES ('worker', $1, $2, $3, $4, $5, $6) 
         RETURNING id";

pub const WORKER_INSERT_SQL: &'static str =
    "INSERT INTO worker (id, profession, union_name) 
         VALUES ($1, $2, $3)";

pub const WORKER_UPDATE_SQL: &'static str =
    "UPDATE worker 
         SET profession = $1, union_name = $2
         WHERE id = $3";

pub const WORKER_PROFESSION_SQL: &'static str = "SELECT profession FROM worker WHERE id = $1";

pub const WORKER_ASSIGNMENT_SQL: &'static str =
    "SELECT brigade_id FROM assignment WHERE worker_id = $1";

pub const WORKER_IS_BRIGADIER_SQL: &'static str =
    "SELECT EXISTS(SELECT 1 FROM brigade WHERE brigadier_id = $1)";

pub const ASSIGNMENT_DELETE_SQL: &'static str = "DELETE FROM assignment WHERE worker_id = $1";

pub const ASSIGNMENT_INSERT_SQL: &'static str =
    "INSERT INTO assignment (worker_id, brigade_id) VALUES ($1, $2)";

pub const WORKER_DELETE_SQL: &'static str = "DELETE FROM worker WHERE id = $1";

pub const EMPLOYEE_DELETE_SQL: &'static str = "DELETE FROM employee WHERE id = $1";

pub const WORKER_LIST_SQL: &'static str =
    "SELECT 
            w.id, 
            e.first_name, 
            e.last_name, 
            w.profession,
            a.brigade_id,
            CASE 
                WHEN a.brigade_id IS NOT NULL THEN 
                    (SELECT CONCAT(be.last_name, ' ', be.first_name) 
                     FROM brigade b
                     JOIN worker bw ON b.brigadier_id = bw.id
                     JOIN employee be ON bw.id = be.id
                     WHERE b.id = a.brigade_id)
                ELSE NULL
            END AS brigade_name,
            CASE WHEN EXISTS (SELECT 1 FROM brigade b WHERE b.brigadier_id = w.id) THEN true ELSE false END as is_brigadier
        FROM worker w
        JOIN employee e ON w.id = e.id
        LEFT JOIN assignment a ON w.id = a.worker_id";

pub const ELECTRICIAN_INSERT_SQL: &'static str =
    "INSERT INTO electrician (id, voltage_specialization) VALUES ($1, $2)";

pub const ELECTRICIAN_UPDATE_SQL: &'static str =
    "UPDATE electrician SET voltage_specialization = $1 WHERE id = $2";

pub const ELECTRICIAN_SELECT_SQL: &'static str = "SELECT voltage_specialization FROM electrician WHERE id = $1";

pub const ELECTRICIAN_DELETE_SQL: &'static str = "DELETE FROM electrician WHERE id = $1";

pub const PLUMBER_INSERT_SQL: &'static str =
    "INSERT INTO plumber (id, pipe_specialization) VALUES ($1, $2)";

pub const PLUMBER_UPDATE_SQL: &'static str =
    "UPDATE plumber SET pipe_specialization = $1 WHERE id = $2";

pub const PLUMBER_SELECT_SQL: &'static str = "SELECT pipe_specialization FROM plumber WHERE id = $1";

pub const PLUMBER_DELETE_SQL: &'static str = "DELETE FROM plumber WHERE id = $1";

pub const WELDER_INSERT_SQL: &'static str =
    "INSERT INTO welder (id, welding_machine) VALUES ($1, $2)";

pub const WELDER_UPDATE_SQL: &'static str =
    "UPDATE welder SET welding_machine = $1 WHERE id = $2";

pub const WELDER_SELECT_SQL: &'static str = "SELECT welding_machine FROM welder WHERE id = $1";

pub const WELDER_DELETE_SQL: &'static str = "DELETE FROM welder WHERE id = $1";

pub const DRIVER_INSERT_SQL: &'static str =
    "INSERT INTO driver (id, vehicle_type, number_of_accidents) VALUES ($1, $2, $3)";

pub const DRIVER_UPDATE_SQL: &'static str =
    "UPDATE driver SET vehicle_type = $1, number_of_accidents = $2 WHERE id = $3";

pub const DRIVER_SELECT_SQL: &'static str = "SELECT vehicle_type, number_of_accidents FROM driver WHERE id = $1";

pub const DRIVER_DELETE_SQL: &'static str = "DELETE FROM driver WHERE id = $1";

pub const MASON_INSERT_SQL: &'static str =
    "INSERT INTO mason (id, hq_restoration_skills) VALUES ($1, $2)";

pub const MASON_UPDATE_SQL: &'static str =
    "UPDATE mason SET hq_restoration_skills = $1 WHERE id = $2";

pub const MASON_SELECT_SQL: &'static str = "SELECT hq_restoration_skills FROM mason WHERE id = $1";

pub const MASON_DELETE_SQL: &'static str = "DELETE FROM mason WHERE id = $1";

impl ProfessionFields {
    /// The profession that the data belongs to.
    pub open spec fn spec_kind(self) -> Profession {
        match self {
            ProfessionFields::Electrician(_) => Profession::Electrician,
            ProfessionFields::Plumber(_) => Profession::Plumber,
            ProfessionFields::Welder(_) => Profession::Welder,
            ProfessionFields::Driver(_) => Profession::Driver,
            ProfessionFields::Mason(_) => Profession::Mason,
        }
    }

    /// The profession that the data belongs to.
    pub fn kind(&self) -> (k: Profession)
        ensures
            k == self.spec_kind(),
    {
        match self {
            ProfessionFields::Electrician(_) => Profession::Electrician,
            ProfessionFields::Plumber(_) => Profession::Plumber,
            ProfessionFields::Welder(_) => Profession::Welder,
            ProfessionFields::Driver(_) => Profession::Driver,
            ProfessionFields::Mason(_) => Profession::Mason,
        }
    }
}

/// The statement that deletes the profession-specific row of the worker
/// `id` from the table of `profession`.
pub open spec fn profession_delete(id: i32, profession: Profession) -> StatementView {
    fixed(
        match profession {
            Profession::Electrician => ELECTRICIAN_DELETE_SQL@,
            Profession::Plumber => PLUMBER_DELETE_SQL@,
            Profession::Welder => WELDER_DELETE_SQL@,
            Profession::Driver => DRIVER_DELETE_SQL@,
            Profession::Mason => MASON_DELETE_SQL@,
        },
    ).arg(SqlValueView::Int(id))
}

/// The statement that deletes the profession-specific row of the worker
/// `id` from the table of `profession`.
pub fn profession_delete_statement(id: i32, profession: Profession) -> (s: Statement)
    ensures
        s@ == profession_delete(id, profession),
{
    match profession {
        Profession::Electrician => by_id(ELECTRICIAN_DELETE_SQL, id),
        Profession::Plumber => by_id(PLUMBER_DELETE_SQL, id),
        Profession::Welder => by_id(WELDER_DELETE_SQL, id),
        Profession::Driver => by_id(DRIVER_DELETE_SQL, id),
        Profession::Mason => by_id(MASON_DELETE_SQL, id),
    }
}

/// The statement that inserts the profession-specific row of the worker
/// `id`.
pub open spec fn profession_insert(id: i32, fields: ProfessionFields) -> StatementView {
    match fields {
        ProfessionFields::Electrician(f) => fixed(ELECTRICIAN_INSERT_SQL@).arg(SqlValueView::Int(id)).arg(SqlValueView::Text(f.voltage_specialization@)),
        ProfessionFields::Plumber(f) => fixed(PLUMBER_INSERT_SQL@).arg(SqlValueView::Int(id)).arg(SqlValueView::Text(f.pipe_specialization@)),
        ProfessionFields::Welder(f) => fixed(WELDER_INSERT_SQL@).arg(SqlValueView::Int(id)).arg(SqlValueView::Text(f.welding_machine@)),
        ProfessionFields::Driver(f) => fixed(DRIVER_INSERT_SQL@).arg(SqlValueView::Int(id)).arg(SqlValueView::Text(f.vehicle_type@)).arg(SqlValueView::Int(f.number_of_accidents)),
        ProfessionFields::Mason(f) => fixed(MASON_INSERT_SQL@).arg(SqlValueView::Int(id)).arg(SqlValueView::Bool(f.hq_restoration_skills)),
    }
}

/// The statement that inserts the profession-specific row of the worker
/// `id`.
pub fn profession_insert_statement(id: i32, fields: &ProfessionFields) -> (s: Statement)
    ensures
        s@ == profession_insert(id, *fields),
{
    match fields {
        ProfessionFields::Electrician(f) => Statement::new(ELECTRICIAN_INSERT_SQL).bind(SqlValue::Int(id)).bind(SqlValue::text(f.voltage_specialization.as_str())),
        ProfessionFields::Plumber(f) => Statement::new(PLUMBER_INSERT_SQL).bind(SqlValue::Int(id)).bind(SqlValue::text(f.pipe_specialization.as_str())),
        ProfessionFields::Welder(f) => Statement::new(WELDER_INSERT_SQL).bind(SqlValue::Int(id)).bind(SqlValue::text(f.welding_machine.as_str())),
        ProfessionFields::Driver(f) => Statement::new(DRIVER_INSERT_SQL).bind(SqlValue::Int(id)).bind(SqlValue::text(f.vehicle_type.as_str())).bind(SqlValue::Int(f.number_of_accidents)),
        ProfessionFields::Mason(f) => Statement::new(MASON_INSERT_SQL).bind(SqlValue::Int(id)).bind(SqlValue::Bool(f.hq_restoration_skills)),
    }
}

/// The statement that updates the profession-specific row of the worker
/// `id`.
pub open spec fn profession_update(id: i32, fields: ProfessionFields) -> StatementView {
    match fields {
        ProfessionFields::Electrician(f) => fixed(ELECTRICIAN_UPDATE_SQL@).arg(SqlValueView::Text(f.voltage_specialization@)).arg(SqlValueView::Int(id)),
        ProfessionFields::Plumber(f) => fixed(PLUMBER_UPDATE_SQL@).arg(SqlValueView::Text(f.pipe_specialization@)).arg(SqlValueView::Int(id)),
        ProfessionFields::Welder(f) => fixed(WELDER_UPDATE_SQL@).arg(SqlValueView::Text(f.welding_machine@)).arg(SqlValueView::Int(id)),
        ProfessionFields::Driver(f) => fixed(DRIVER_UPDATE_SQL@).arg(SqlValueView::Text(f.vehicle_type@)).arg(SqlValueView::Int(f.number_of_accidents)).arg(SqlValueView::Int(id)),
        ProfessionFields::Mason(f) => fixed(MASON_UPDATE_SQL@).arg(SqlValueView::Bool(f.hq_restoration_skills)).arg(SqlValueView::Int(id)),
    }
}

/// The statement that updates the profession-specific row of the worker
/// `id`.
pub fn profession_update_statement(id: i32, fields: &ProfessionFields) -> (s: Statement)
    ensures
        s@ == profession_update(id, *fields),
{
    match fields {
        ProfessionFields::Electrician(f) => Statement::new(ELECTRICIAN_UPDATE_SQL).bind(SqlValue::text(f.voltage_specialization.as_str())).bind(SqlValue::Int(id)),
        ProfessionFields::Plumber(f) => Statement::new(PLUMBER_UPDATE_SQL).bind(SqlValue::text(f.pipe_specialization.as_str())).bind(SqlValue::Int(id)),
        ProfessionFields::Welder(f) => Statement::new(WELDER_UPDATE_SQL).bind(SqlValue::text(f.welding_machine.as_str())).bind(SqlValue::Int(id)),
        ProfessionFields::Driver(f) => Statement::new(DRIVER_UPDATE_SQL).bind(SqlValue::text(f.vehicle_type.as_str())).bind(SqlValue::Int(f.number_of_accidents)).bind(SqlValue::Int(id)),
        ProfessionFields::Mason(f) => Statement::new(MASON_UPDATE_SQL).bind(SqlValue::Bool(f.hq_restoration_skills)).bind(SqlValue::Int(id)),
    }
}

/// The read of the profession-specific row of the worker `id`.
pub fn profession_fields_query(id: i32, profession: Profession) -> (f: Fetch)
    ensures
        f@ == (match profession {
            Profession::Electrician => FetchView {
                statement: fixed(ELECTRICIAN_SELECT_SQL@).arg(SqlValueView::Int(id)),
                failure: "Error fetching electrician data: "@,
            },
            Profession::Plumber => FetchView {
                statement: fixed(PLUMBER_SELECT_SQL@).arg(SqlValueView::Int(id)),
                failure: "Error fetching plumber data: "@,
            },
            Profession::Welder => FetchView {
                statement: fixed(WELDER_SELECT_SQL@).arg(SqlValueView::Int(id)),
                failure: "Error fetching welder data: "@,
            },
            Profession::Driver => FetchView {
                statement: fixed(DRIVER_SELECT_SQL@).arg(SqlValueView::Int(id)),
                failure: "Error fetching driver data: "@,
            },
            Profession::Mason => FetchView {
                statement: fixed(MASON_SELECT_SQL@).arg(SqlValueView::Int(id)),
                failure: "Error fetching mason data: "@,
            },
        }),
{
    match profession {
        Profession::Electrician => Fetch {
            statement: by_id(ELECTRICIAN_SELECT_SQL, id),
            failure: "Error fetching electrician data: ",
        },
        Profession::Plumber => Fetch {
            statement: by_id(PLUMBER_SELECT_SQL, id),
            failure: "Error fetching plumber data: ",
        },
        Profession::Welder => Fetch {
            statement: by_id(WELDER_SELECT_SQL, id),
            failure: "Error fetching welder data: ",
        },
        Profession::Driver => Fetch {
            statement: by_id(DRIVER_SELECT_SQL, id),
            failure: "Error fetching driver data: ",
        },
        Profession::Mason => Fetch {
            statement: by_id(MASON_SELECT_SQL, id),
            failure: "Error fetching mason data: ",
        },
    }
}

/// The read of the worker `id` as an employee, for its edit form.
pub fn worker_query(id: i32) -> (f: Fetch)
    ensures
        f@ == (FetchView {
            statement: fixed(WORKER_SQL@).arg(SqlValueView::Int(id)),
            failure: "Error fetching worker: "@,
        }),
{
    Fetch { statement: by_id(WORKER_SQL, id), failure: "Error fetching worker: " }
}

/// The worker that was read; or the paragraph that says that there is no
/// worker `id`, or that the read failed.
pub fn worker_found(id: i32, fetched: Result<Option<WorkerBasicInfo>, String>) -> (r: Result<
    WorkerBasicInfo,
    String,
>)
    ensures
        match fetched {
            Ok(Some(row)) => r == Ok::<WorkerBasicInfo, String>(row),
            Ok(None) => r is Err && r->Err_0@ == paragraph_about(
                "Worker with ID "@,
                id as int,
                " not found"@,
            ),
            Err(e) => r is Err && r->Err_0@ == paragraph("Error fetching worker: "@, e@),
        },
{
    worker_query(id).row(fetched, id, "Worker with ID ", " not found")
}

/// The read of the brigade of the worker `id`.
pub fn worker_brigade_query(id: i32) -> (f: Fetch)
    ensures
        f@ == (FetchView {
            statement: fixed(WORKER_BRIGADE_SQL@).arg(SqlValueView::Int(id)),
            failure: "Error fetching brigade information: "@,
        }),
{
    Fetch {
        statement: by_id(WORKER_BRIGADE_SQL, id),
        failure: "Error fetching brigade information: ",
    }
}

/// The brigade that was read. A worker without a row is in no brigade and
/// leads none; a read that failed is reported in a paragraph.
pub fn worker_brigade_found(id: i32, fetched: Result<Option<BrigadeInfo>, String>) -> (r: Result<
    BrigadeInfo,
    String,
>)
    ensures
        match fetched {
            Ok(Some(row)) => r == Ok::<BrigadeInfo, String>(row),
            Ok(None) => r == Ok::<BrigadeInfo, String>(
                BrigadeInfo { brigade_id: None, brigade_name: None, is_brigadier: false },
            ),
            Err(e) => r is Err && r->Err_0@ == paragraph(
                "Error fetching brigade information: "@,
                e@,
            ),
        },
{
    match fetched {
        Ok(Some(row)) => Ok(row),
        Ok(None) => Ok(BrigadeInfo { brigade_id: None, brigade_name: None, is_brigadier: false }),
        Err(e) => worker_brigade_query(id).value(Err(e)),
    }
}

/// The edit form of a worker and its brigade.
pub fn worker_edit_page(worker: WorkerBasicInfo, brigade: BrigadeInfo) -> (t: WorkerEditTemplate)
    ensures
        t == (WorkerEditTemplate {
            id: worker.id,
            first_name: worker.first_name,
            last_name: worker.last_name,
            middle_name: worker.middle_name,
            gender: worker.gender,
            phone_number: worker.phone_number,
            salary: worker.salary,
            profession: worker.profession,
            union_name: worker.union_name,
            brigade_id: brigade.brigade_id,
            brigade_name: brigade.brigade_name,
        }),
{
    WorkerEditTemplate {
        id: worker.id,
        first_name: worker.first_name,
        last_name: worker.last_name,
        middle_name: worker.middle_name,
        gender: worker.gender,
        phone_number: worker.phone_number,
        salary: worker.salary,
        profession: worker.profession,
        union_name: worker.union_name,
        brigade_id: brigade.brigade_id,
        brigade_name: brigade.brigade_name,
    }
}

/// The details of a worker, its brigade and the data of its profession.
pub fn worker_api_details_page(
    worker: WorkerBasicInfo,
    brigade: BrigadeInfo,
    profession_fields: ProfessionFields,
) -> (t: WorkerApiDetailsTemplate)
    ensures
        t == (WorkerApiDetailsTemplate {
            id: worker.id,
            first_name: worker.first_name,
            last_name: worker.last_name,
            middle_name: worker.middle_name,
            gender: worker.gender,
            photo: worker.photo,
            phone_number: worker.phone_number,
            salary: worker.salary,
            profession: worker.profession,
            union_name: worker.union_name,
            brigade_id: brigade.brigade_id,
            brigade_name: brigade.brigade_name,
            is_brigadier: brigade.is_brigadier,
            profession_fields,
        }),
{
    WorkerApiDetailsTemplate {
        id: worker.id,
        first_name: worker.first_name,
        last_name: worker.last_name,
        middle_name: worker.middle_name,
        gender: worker.gender,
        photo: worker.photo,
        phone_number: worker.phone_number,
        salary: worker.salary,
        profession: worker.profession,
        union_name: worker.union_name,
        brigade_id: brigade.brigade_id,
        brigade_name: brigade.brigade_name,
        is_brigadier: brigade.is_brigadier,
        profession_fields,
    }
}

/// The statement that updates the employee row `id`.
pub open spec fn employee_update(
    id: i32,
    first_name: Seq<char>,
    last_name: Seq<char>,
    middle_name: Option<Seq<char>>,
    gender: Gender,
    phone_number: Seq<char>,
    salary: i32,
) -> StatementView {
    fixed(EMPLOYEE_UPDATE_SQL@).arg(SqlValueView::Text(first_name)).arg(
        SqlValueView::Text(last_name),
    ).arg(opt_text_value(middle_name)).arg(SqlValueView::Gender(gender)).arg(
        SqlValueView::Text(phone_number),
    ).arg(SqlValueView::Int(salary)).arg(SqlValueView::Int(id))
}

/// The statement that updates the employee row `id`.
pub fn employee_update_statement(
    id: i32,
    first_name: &str,
    last_name: &str,
    middle_name: &Option<String>,
    gender: Gender,
    phone_number: &str,
    salary: i32,
) -> (s: Statement)
    ensures
        s@ == employee_update(
            id,
            first_name@,
            last_name@,
            opt_text(*middle_name),
            gender,
            phone_number@,
            salary,
        ),
{
    Statement::new(EMPLOYEE_UPDATE_SQL).bind(SqlValue::text(first_name)).bind(
        SqlValue::text(last_name),
    ).bind(SqlValue::opt_text(middle_name)).bind(SqlValue::Gender(gender)).bind(
        SqlValue::text(phone_number),
    ).bind(SqlValue::Int(salary)).bind(SqlValue::Int(id))
}

/// The statement that inserts an employee row of the class `sql` names,
/// and returns its id.
pub open spec fn employee_insert(
    sql: Seq<char>,
    first_name: Seq<char>,
    last_name: Seq<char>,
    middle_name: Option<Seq<char>>,
    gender: Gender,
    phone_number: Seq<char>,
    salary: i32,
) -> StatementView {
    fixed(sql).arg(SqlValueView::Text(first_name)).arg(SqlValueView::Text(last_name)).arg(
        opt_text_value(middle_name),
    ).arg(SqlValueView::Gender(gender)).arg(SqlValueView::Text(phone_number)).arg(
        SqlValueView::Int(salary),
    )
}

/// The statement that inserts an employee row of the class `sql` names,
/// and returns its id.
pub fn employee_insert_statement(
    sql: &str,
    first_name: &str,
    last_name: &str,
    middle_name: &Option<String>,
    gender: Gender,
    phone_number: &str,
    salary: i32,
) -> (s: Statement)
    ensures
        s@ == employee_insert(
            sql@,
            first_name@,
            last_name@,
            opt_text(*middle_name),
            gender,
            phone_number@,
            salary,
        ),
{
    Statement::new(sql).bind(SqlValue::text(first_name)).bind(SqlValue::text(last_name)).bind(
        SqlValue::opt_text(middle_name),
    ).bind(SqlValue::Gender(gender)).bind(SqlValue::text(phone_number)).bind(SqlValue::Int(salary))
}

/// How far the update of a worker has come, with what was read on the
/// way.
#[derive(Clone, Copy, Debug, PartialEq, Eq, Structural)]
pub enum WorkerUpdateProgress {
    /// The transaction was begun.
    Begun,
    /// The profession of the worker was read: `None` where there is no
    /// such worker.
    ProfessionRead(Option<Profession>),
    /// The assignment of the worker was read: `None` where it has none,
    /// `Some(None)` where its assignment names no brigade.
    AssignmentRead(Option<Option<i32>>),
    /// It was read whether the worker leads a brigade.
    BrigadierRead { assignment: Option<Option<i32>>, is_brigadier: bool },
}

impl WorkerUpdateProgress {
    /// The progress after it was read whether the worker leads a brigade:
    /// the assignment that was read before is kept.
    pub open spec fn spec_with_brigadier(self, is_brigadier: bool) -> WorkerUpdateProgress {
        WorkerUpdateProgress::BrigadierRead {
            assignment: match self {
                WorkerUpdateProgress::AssignmentRead(assignment) => assignment,
                WorkerUpdateProgress::BrigadierRead { assignment, .. } => assignment,
                _ => None,
            },
            is_brigadier,
        }
    }

    /// The progress after it was read whether the worker leads a brigade.
    pub fn with_brigadier(self, is_brigadier: bool) -> (p: WorkerUpdateProgress)
        ensures
            p == self.spec_with_brigadier(is_brigadier),
    {
        WorkerUpdateProgress::BrigadierRead {
            assignment: match self {
                WorkerUpdateProgress::AssignmentRead(assignment) => assignment,
                WorkerUpdateProgress::BrigadierRead { assignment, .. } => assignment,
                _ => None,
            },
            is_brigadier,
        }
    }
}

/// The brigade that an assignment names.
pub open spec fn assigned_brigade(assignment: Option<Option<i32>>) -> Option<i32> {
    match assignment {
        Some(brigade) => brigade,
        None => None,
    }
}

/// The steps that give the worker `id` the profession and the
/// profession-specific data of the form, for a worker whose profession is
/// `current`: the old profession-specific row is deleted where the
/// profession changes, the worker row is updated, and the new data is
/// written into the row of its profession, which is inserted where the
/// worker had none there.
pub open spec fn worker_retype(id: i32, form: WorkerUpdateForm, current: Profession) -> Seq<
    Meant<Profession>,
> {
    (if current != form.profession {
        seq![
            Meant {
                op: Op::DeleteSatellite(current),
                step: step(profession_delete(id, current), "Error removing old profession data: "@),
            },
        ]
    } else {
        Seq::empty()
    }) + seq![
        Meant {
            op: Op::UpdateBase(form.profession),
            step: step(
                fixed(WORKER_UPDATE_SQL@).arg(SqlValueView::Profession(form.profession)).arg(
                    opt_text_value(opt_text(form.union_name)),
                ).arg(SqlValueView::Int(id)),
                "Error updating worker data: "@,
            ),
        },
        Meant {
            op: write_satellite(current, form.profession_fields.spec_kind()),
            step: step(
                if form.profession_fields.spec_kind() == current {
                    profession_update(id, form.profession_fields)
                } else {
                    profession_insert(id, form.profession_fields)
                },
                "Error updating profession-specific data: "@,
            ),
        },
    ]
}

/// The steps that move the worker `id` from the brigade that its
/// assignment names to the brigade that the form names.
pub open spec fn worker_reassign(id: i32, wanted: Option<i32>, assignment: Option<Option<i32>>)
    -> Seq<StepView> {
    match (assignment, wanted) {
        (Some(current), Some(new)) => if current != Some(new) {
            seq![
                step(
                    fixed(ASSIGNMENT_DELETE_SQL@).arg(SqlValueView::Int(id)),
                    "Error removing worker from current brigade: "@,
                ),
                step(
                    fixed(ASSIGNMENT_INSERT_SQL@).arg(SqlValueView::Int(id)).arg(
                        SqlValueView::Int(new),
                    ),
                    "Error adding worker to new brigade: "@,
                ),
            ]
        } else {
            Seq::empty()
        },
        (None, Some(new)) => seq![
            step(
                fixed(ASSIGNMENT_INSERT_SQL@).arg(SqlValueView::Int(id)).arg(SqlValueView::Int(new)),
                "Error adding worker to brigade: "@,
            ),
        ],
        (Some(_), None) => seq![
            step(
                fixed(ASSIGNMENT_DELETE_SQL@).arg(SqlValueView::Int(id)),
                "Error removing worker from brigade: "@,
            ),
        ],
        (None, None) => Seq::empty(),
    }
}

/// Whether the form asks to move a worker who leads a brigade into
/// another one.
pub open spec fn moves_brigadier(
    wanted: Option<i32>,
    assignment: Option<Option<i32>>,
    is_brigadier: bool,
) -> bool {
    is_brigadier && wanted is Some && wanted != assigned_brigade(assignment)
}

/// The path of the form on which the worker `id` is edited.
pub open spec fn worker_edit_path(id: i32) -> Seq<char> {
    "/workers/"@ + int_text(id as int) + "/edit"@
}

/// Whether the form names the profession that its profession-specific data
/// belongs to.
pub open spec fn update_agrees(form: WorkerUpdateForm) -> bool {
    form.profession == form.profession_fields.spec_kind()
}

/// Whether the form names the profession that its profession-specific data
/// belongs to.
pub open spec fn create_agrees(form: WorkerCreateForm) -> bool {
    form.profession == form.profession_fields.spec_kind()
}

/// The stage without statements that refuses a form whose profession is
/// not the profession of its profession-specific data, with a notification
/// that leads back to the form.
pub open spec fn worker_form_refused(redirect: Seq<char>) -> StageView {
    StageView {
        steps: Seq::empty(),
        next: NextView::Abort(
            refuse_note("Profession does not match the profession-specific data"@, Some(redirect)),
        ),
    }
}

fn worker_form_refused_stage(redirect: String) -> (s: Stage)
    ensures
        s@ == worker_form_refused(redirect@),
{
    let s = Stage {
        steps: Vec::new(),
        next: Next::Abort(
            Reply::refuse(
                String::from_str("Profession does not match the profession-specific data"),
                Some(redirect),
            ),
        ),
    };
    assert(s@.steps =~= Seq::<StepView>::empty());
    s
}

/// The stage of the update of the worker `id` that follows `progress`.
pub open spec fn worker_update_plan(id: i32, form: WorkerUpdateForm, progress: WorkerUpdateProgress)
    -> StageView {
    if !update_agrees(form) {
        worker_form_refused(worker_edit_path(id))
    } else {
        worker_update_steps(id, form, progress)
    }
}

/// The stage of the update of the worker `id` that follows `progress`, for
/// a form that names the profession of its profession-specific data.
pub open spec fn worker_update_steps(id: i32, form: WorkerUpdateForm, progress: WorkerUpdateProgress)
    -> StageView {
    match progress {
        WorkerUpdateProgress::Begun => StageView {
            steps: seq![
                step(
                    employee_update(
                        id,
                        form.first_name@,
                        form.last_name@,
                        opt_text(form.middle_name),
                        form.gender,
                        form.phone_number@,
                        form.salary,
                    ),
                    "Error updating employee data: "@,
                ),
            ],
            next: NextView::Ask(
                FetchView {
                    statement: fixed(WORKER_PROFESSION_SQL@).arg(SqlValueView::Int(id)),
                    failure: "Error fetching current profession: "@,
                },
            ),
        },
        WorkerUpdateProgress::ProfessionRead(None) => StageView {
            steps: Seq::empty(),
            next: NextView::Abort(
                ReplyView::Html(paragraph_about("Worker with ID "@, id as int, " not found"@)),
            ),
        },
        WorkerUpdateProgress::ProfessionRead(Some(current)) => StageView {
            steps: steps_of(worker_retype(id, form, current)),
            next: NextView::Ask(
                FetchView {
                    statement: fixed(WORKER_ASSIGNMENT_SQL@).arg(SqlValueView::Int(id)),
                    failure: "Error checking worker's brigade status: "@,
                },
            ),
        },
        WorkerUpdateProgress::AssignmentRead(_) => StageView {
            steps: Seq::empty(),
            next: NextView::Ask(
                FetchView {
                    statement: fixed(WORKER_IS_BRIGADIER_SQL@).arg(SqlValueView::Int(id)),
                    failure: "Error checking worker's brigade status: "@,
                },
            ),
        },
        WorkerUpdateProgress::BrigadierRead { assignment, is_brigadier } => if moves_brigadier(
            form.brigade_id,
            assignment,
            is_brigadier,
        ) {
            StageView {
                steps: Seq::empty(),
                next: NextView::Abort(
                    refuse_note(
                        "Brigadier cannot be assigned to a different brigade"@,
                        Some(worker_edit_path(id)),
                    ),
                ),
            }
        } else {
            StageView {
                steps: worker_reassign(id, form.brigade_id, assignment),
                next: NextView::Commit(
                    success_note(
                        "Worker "@ + form.first_name@ + " "@ + form.last_name@
                            + " updated successfully"@,
                        Some("/workers/"@ + int_text(id as int)),
                    ),
                ),
            }
        },
    }
}

fn worker_retype_steps(id: i32, form: &WorkerUpdateForm, current: Profession) -> (steps: Vec<Step>)
    ensures
        steps_view(steps@) == steps_of(worker_retype(id, *form, current)),
{
    let mut steps: Vec<Step> = Vec::new();
    if current != form.profession {
        steps.push(
            Step::new(
                profession_delete_statement(id, current),
                "Error removing old profession data: ",
            ),
        );
    }
    steps.push(
        Step::new(
            Statement::new(WORKER_UPDATE_SQL).bind(SqlValue::Profession(form.profession)).bind(
                SqlValue::opt_text(&form.union_name),
            ).bind(SqlValue::Int(id)),
            "Error updating worker data: ",
        ),
    );
    let write = if form.profession_fields.kind() == current {
        profession_update_statement(id, &form.profession_fields)
    } else {
        profession_insert_statement(id, &form.profession_fields)
    };
    steps.push(Step::new(write, "Error updating profession-specific data: "));
    assert(steps_view(steps@) =~= steps_of(worker_retype(id, *form, current)));
    steps
}

fn worker_reassign_steps(id: i32, wanted: Option<i32>, assignment: Option<Option<i32>>) -> (steps:
    Vec<Step>)
    ensures
        steps_view(steps@) == worker_reassign(id, wanted, assignment),
{
    let mut steps: Vec<Step> = Vec::new();
    let leaves = match (assignment, wanted) {
        (Some(current), Some(new)) => match current {
            Some(c) => c != new,
            None => true,
        },
        (Some(_), None) => true,
        _ => false,
    };
    let joins = match (assignment, wanted) {
        (Some(current), Some(new)) => match current {
            Some(c) => c != new,
            None => true,
        },
        (None, Some(_)) => true,
        _ => false,
    };
    if leaves {
        steps.push(
            Step::new(
                by_id(ASSIGNMENT_DELETE_SQL, id),
                if joins {
                    "Error removing worker from current brigade: "
                } else {
                    "Error removing worker from brigade: "
                },
            ),
        );
    }
    if joins {
        match wanted {
            Some(new) => {
                steps.push(
                    Step::new(
                        by_id(ASSIGNMENT_INSERT_SQL, id).bind(SqlValue::Int(new)),
                        if leaves {
                            "Error adding worker to new brigade: "
                        } else {
                            "Error adding worker to brigade: "
                        },
                    ),
                );
            },
            None => {},
        }
    }
    assert(steps_view(steps@) =~= worker_reassign(id, wanted, assignment));
    steps
}

/// The stage of the update of the worker `id` that follows `progress`.
pub fn worker_update_stage(id: i32, form: &WorkerUpdateForm, progress: WorkerUpdateProgress) -> (s:
    Stage)
    ensures
        s@ == worker_update_plan(id, *form, progress),
{
    if form.profession != form.profession_fields.kind() {
        return worker_form_refused_stage(around_i32("/workers/", id, "/edit"));
    }
    match progress {
        WorkerUpdateProgress::Begun => {
            let mut steps: Vec<Step> = Vec::new();
            steps.push(
                Step::new(
                    employee_update_statement(
                        id,
                        form.first_name.as_str(),
                        form.last_name.as_str(),
                        &form.middle_name,
                        form.gender,
                        form.phone_number.as_str(),
                        form.salary,
                    ),
                    "Error updating employee data: ",
                ),
            );
            let s = Stage {
                steps,
                next: Next::Ask(
                    Fetch {
                        statement: by_id(WORKER_PROFESSION_SQL, id),
                        failure: "Error fetching current profession: ",
                    },
                ),
            };
            assert(s@.steps =~= worker_update_plan(id, *form, progress).steps);
            s
        },
        WorkerUpdateProgress::ProfessionRead(None) => {
            let s = Stage {
                steps: Vec::new(),
                next: Next::Abort(
                    Reply::Html(paragraph_about_id("Worker with ID ", id, " not found")),
                ),
            };
            assert(s@.steps =~= Seq::<StepView>::empty());
            s
        },
        WorkerUpdateProgress::ProfessionRead(Some(current)) => Stage {
            steps: worker_retype_steps(id, form, current),
            next: Next::Ask(
                Fetch {
                    statement: by_id(WORKER_ASSIGNMENT_SQL, id),
                    failure: "Error checking worker's brigade status: ",
                },
            ),
        },
        WorkerUpdateProgress::AssignmentRead(_) => {
            let s = Stage {
                steps: Vec::new(),
                next: Next::Ask(
                    Fetch {
                        statement: by_id(WORKER_IS_BRIGADIER_SQL, id),
                        failure: "Error checking worker's brigade status: ",
                    },
                ),
            };
            assert(s@.steps =~= Seq::<StepView>::empty());
            s
        },
        WorkerUpdateProgress::BrigadierRead { assignment, is_brigadier } => {
            let assigned = match assignment {
                Some(brigade) => brigade,
                None => None,
            };
            let differs = match (form.brigade_id, assigned) {
                (Some(wanted), Some(held)) => wanted != held,
                (Some(_), None) => true,
                (None, _) => false,
            };
            if is_brigadier && differs {
                let s = Stage {
                    steps: Vec::new(),
                    next: Next::Abort(
                        Reply::refuse(
                            String::from_str("Brigadier cannot be assigned to a different brigade"),
                            Some(around_i32("/workers/", id, "/edit")),
                        ),
                    ),
                };
                assert(s@.steps =~= Seq::<StepView>::empty());
                s
            } else {
                let mut message = String::from_str("Worker ");
                message.append(form.first_name.as_str());
                message.append(" ");
                message.append(form.last_name.as_str());
                message.append(" updated successfully");
                proof {
                    reveal_strlit("");
                    assert("/workers/"@ + int_text(id as int) + ""@ =~= "/workers/"@ + int_text(
                        id as int,
                    ));
                }
                Stage {
                    steps: worker_reassign_steps(id, form.brigade_id, assignment),
                    next: Next::Commit(
                        NotificationTemplate::success(message, Some(around_i32("/workers/", id, ""))),
                    ),
                }
            }
        },
    }
}

/// Every statement of an update that goes through, with what it does to
/// the rows of the worker. A form that names another profession than that
/// of its data is refused at once: no statement is executed for it.
pub open spec fn worker_update_run(
    id: i32,
    form: WorkerUpdateForm,
    current: Profession,
    assignment: Option<Option<i32>>,
) -> Seq<Meant<Profession>> {
    if update_agrees(form) {
        seq![other(worker_update_steps(id, form, WorkerUpdateProgress::Begun).steps[0])]
            + worker_retype(id, form, current) + Seq::new(
            worker_reassign(id, form.brigade_id, assignment).len(),
            |i: int| other(worker_reassign(id, form.brigade_id, assignment)[i]),
        )
    } else {
        Seq::empty()
    }
}

/// The statements of an update that goes through are those of its stages,
/// in order.
pub proof fn lemma_worker_update_run_is_the_stages(
    id: i32,
    form: WorkerUpdateForm,
    current: Profession,
    assignment: Option<Option<i32>>,
    is_brigadier: bool,
)
    requires
        !moves_brigadier(form.brigade_id, assignment, is_brigadier),
    ensures
        steps_of(worker_update_run(id, form, current, assignment)) == worker_update_plan(
            id,
            form,
            WorkerUpdateProgress::Begun,
        ).steps + worker_update_plan(
            id,
            form,
            WorkerUpdateProgress::ProfessionRead(Some(current)),
        ).steps + worker_update_plan(id, form, WorkerUpdateProgress::AssignmentRead(assignment)).steps
            + worker_update_plan(
            id,
            form,
            WorkerUpdateProgress::BrigadierRead { assignment, is_brigadier },
        ).steps,
{
    assert(steps_of(worker_update_run(id, form, current, assignment)) =~= worker_update_plan(
        id,
        form,
        WorkerUpdateProgress::Begun,
    ).steps + worker_update_plan(
        id,
        form,
        WorkerUpdateProgress::ProfessionRead(Some(current)),
    ).steps + worker_update_plan(id, form, WorkerUpdateProgress::AssignmentRead(assignment)).steps
        + worker_update_plan(
        id,
        form,
        WorkerUpdateProgress::BrigadierRead { assignment, is_brigadier },
    ).steps);
}

/// An update keeps the rows of a worker in order, whatever the form
/// holds. A worker with the one row of its profession has, after an update
/// that was committed with a form that names the profession of its data,
/// the one row of the profession of the form. It has the rows it had where
/// the transaction was rolled back, and where the form names another
/// profession than that of its data.
pub proof fn lemma_worker_update_keeps_order(
    id: i32,
    form: WorkerUpdateForm,
    current: Profession,
    assignment: Option<Option<i32>>,
    committed: bool,
)
    ensures
        !update_agrees(form) ==> forall|progress: WorkerUpdateProgress|
            (#[trigger] worker_update_plan(id, form, progress)).steps == Seq::<StepView>::empty()
                && worker_update_plan(id, form, progress).next is Abort,
        transact(
            live(current),
            ops_of(worker_update_run(id, form, current, assignment)),
            committed,
        ) == (if committed && update_agrees(form) {
            live(form.profession)
        } else {
            live(current)
        }),
        in_order(
            transact(
                live(current),
                ops_of(worker_update_run(id, form, current, assignment)),
                committed,
            ),
        ),
{
    let e = live(current);
    if update_agrees(form) {
        let first = seq![other::<Profession>(worker_update_steps(id, form, WorkerUpdateProgress::Begun).steps[0])];
        let middle = worker_retype(id, form, current);
        let last = Seq::new(
            worker_reassign(id, form.brigade_id, assignment).len(),
            |i: int| other::<Profession>(worker_reassign(id, form.brigade_id, assignment)[i]),
        );
        lemma_ops_of_parts(first + middle, last);
        lemma_ops_of_parts(first, middle);
        lemma_apply_parts(e, ops_of(first) + ops_of(middle), ops_of(last));
        lemma_apply_parts(e, ops_of(first), ops_of(middle));
        lemma_others_change_nothing(e, ops_of(first));
        lemma_others_change_nothing(apply_all(e, ops_of(middle)), ops_of(last));
        lemma_retype_in_order(current, form.profession);
        let drop = drop_satellite(current, form.profession);
        let write = seq![Op::UpdateBase(form.profession), write_satellite(current, form.profession)];
        assert(ops_of(middle) =~= drop + write);
        lemma_apply_parts(e, drop, write);
        let dropped = apply_all(e, drop);
        assert(write.drop_last() =~= seq![Op::UpdateBase(form.profession)]);
        lemma_apply_one(dropped, Op::UpdateBase(form.profession));
        assert(apply_all(dropped, write) == apply(
            apply(dropped, Op::UpdateBase(form.profession)),
            write_satellite(current, form.profession),
        ));
    } else {
        assert(ops_of(worker_update_run(id, form, current, assignment)) =~= Seq::<
            Op<Profession>,
        >::empty());
    }
}

/// How far the creation of a worker has come, with what was read on the
/// way.
#[derive(Clone, Copy, Debug, PartialEq, Eq, Structural)]
pub enum WorkerCreateProgress {
    /// The transaction was begun.
    Begun,
    /// The employee row was inserted, and this is its id.
    EmployeeCreated(i32),
    /// It was read whether the brigade of the form exists.
    BrigadeChecked { employee_id: i32, exists: bool },
}

impl WorkerCreateProgress {
    /// The progress after it was read whether the brigade of the form
    /// exists: the id of the employee that was created before is kept.
    /// Before an employee is created, nothing is changed.
    pub open spec fn spec_with_brigade(self, exists: bool) -> WorkerCreateProgress {
        match self {
            WorkerCreateProgress::Begun => WorkerCreateProgress::Begun,
            WorkerCreateProgress::EmployeeCreated(employee_id) => WorkerCreateProgress::BrigadeChecked {
                employee_id,
                exists,
            },
            WorkerCreateProgress::BrigadeChecked { employee_id, .. } => {
                WorkerCreateProgress::BrigadeChecked { employee_id, exists }
            },
        }
    }

    /// The progress after it was read whether the brigade of the form
    /// exists.
    pub fn with_brigade(self, exists: bool) -> (p: WorkerCreateProgress)
        ensures
            p == self.spec_with_brigade(exists),
    {
        match self {
            WorkerCreateProgress::Begun => WorkerCreateProgress::Begun,
            WorkerCreateProgress::EmployeeCreated(employee_id) => WorkerCreateProgress::BrigadeChecked {
                employee_id,
                exists,
            },
            WorkerCreateProgress::BrigadeChecked { employee_id, .. } => {
                WorkerCreateProgress::BrigadeChecked { employee_id, exists }
            },
        }
    }
}

/// The notification of a worker that was created.
pub open spec fn worker_created(form: WorkerCreateForm, employee_id: i32) -> NextView {
    NextView::Commit(
        success_note(
            "Worker "@ + form.first_name@ + " "@ + form.last_name@ + " created successfully"@,
            Some("/workers/"@ + int_text(employee_id as int)),
        ),
    )
}

/// The steps that insert the worker row and the profession-specific row
/// of the employee `employee_id`.
pub open spec fn worker_insert(form: WorkerCreateForm, employee_id: i32) -> Seq<Meant<Profession>> {
    seq![
        Meant {
            op: Op::InsertBase(form.profession),
            step: step(
                fixed(WORKER_INSERT_SQL@).arg(SqlValueView::Int(employee_id)).arg(
                    SqlValueView::Profession(form.profession),
                ).arg(opt_text_value(opt_text(form.union_name))),
                "Error creating worker: "@,
            ),
        },
        Meant {
            op: Op::InsertSatellite(form.profession_fields.spec_kind()),
            step: step(
                profession_insert(employee_id, form.profession_fields),
                "Error creating profession-specific data: "@,
            ),
        },
    ]
}

/// The stage of the creation of a worker that follows `progress`.
pub open spec fn worker_create_plan(form: WorkerCreateForm, progress: WorkerCreateProgress)
    -> StageView {
    if !create_agrees(form) {
        worker_form_refused("/workers/new"@)
    } else {
        worker_create_steps(form, progress)
    }
}

/// The stage of the creation of a worker that follows `progress`, for a
/// form that names the profession of its profession-specific data.
pub open spec fn worker_create_steps(form: WorkerCreateForm, progress: WorkerCreateProgress)
    -> StageView {
    match progress {
        WorkerCreateProgress::Begun => StageView {
            steps: Seq::empty(),
            next: NextView::Insert(
                FetchView {
                    statement: employee_insert(
                        WORKER_EMPLOYEE_INSERT_SQL@,
                        form.first_name@,
                        form.last_name@,
                        opt_text(form.middle_name),
                        form.gender,
                        form.phone_number@,
                        form.salary,
                    ),
                    failure: "Error creating employee: "@,
                },
            ),
        },
        WorkerCreateProgress::EmployeeCreated(employee_id) => StageView {
            steps: steps_of(worker_insert(form, employee_id)),
            next: match form.brigade_id {
                Some(brigade_id) => NextView::Ask(
                    FetchView {
                        statement: fixed(exists_sql("brigade"@)).arg(SqlValueView::Int(brigade_id)),
                        failure: "Error checking brigade existence: "@,
                    },
                ),
                None => worker_created(form, employee_id),
            },
        },
        WorkerCreateProgress::BrigadeChecked { employee_id, exists } => match form.brigade_id {
            Some(brigade_id) => if exists {
                StageView {
                    steps: seq![
                        step(
                            fixed(ASSIGNMENT_INSERT_SQL@).arg(SqlValueView::Int(employee_id)).arg(
                                SqlValueView::Int(brigade_id),
                            ),
                            "Error assigning worker to brigade: "@,
                        ),
                    ],
                    next: worker_created(form, employee_id),
                }
            } else {
                StageView {
                    steps: Seq::empty(),
                    next: NextView::Abort(
                        refuse_note(
                            "Brigade with ID "@ + int_text(brigade_id as int) + " does not exist"@,
                            Some("/workers/new"@),
                        ),
                    ),
                }
            },
            None => StageView { steps: Seq::empty(), next: worker_created(form, employee_id) },
        },
    }
}

fn worker_created_next(form: &WorkerCreateForm, employee_id: i32) -> (n: Next)
    ensures
        n@ == worker_created(*form, employee_id),
{
    let mut message = String::from_str("Worker ");
    message.append(form.first_name.as_str());
    message.append(" ");
    message.append(form.last_name.as_str());
    message.append(" created successfully");
    proof {
        reveal_strlit("");
        assert("/workers/"@ + int_text(employee_id as int) + ""@ =~= "/workers/"@ + int_text(
            employee_id as int,
        ));
    }
    Next::Commit(NotificationTemplate::success(message, Some(around_i32("/workers/", employee_id, ""))))
}

/// The stage of the creation of a worker that follows `progress`.
pub fn worker_create_stage(form: &WorkerCreateForm, progress: WorkerCreateProgress) -> (s: Stage)
    ensures
        s@ == worker_create_plan(*form, progress),
{
    if form.profession != form.profession_fields.kind() {
        return worker_form_refused_stage(String::from_str("/workers/new"));
    }
    match progress {
        WorkerCreateProgress::Begun => {
            let s = Stage {
                steps: Vec::new(),
                next: Next::Insert(
                    Fetch {
                        statement: employee_insert_statement(
                            WORKER_EMPLOYEE_INSERT_SQL,
                            form.first_name.as_str(),
                            form.last_name.as_str(),
                            &form.middle_name,
                            form.gender,
                            form.phone_number.as_str(),
                            form.salary,
                        ),
                        failure: "Error creating employee: ",
                    },
                ),
            };
            assert(s@.steps =~= Seq::<StepView>::empty());
            s
        },
        WorkerCreateProgress::EmployeeCreated(employee_id) => {
            let mut steps: Vec<Step> = Vec::new();
            steps.push(
                Step::new(
                    Statement::new(WORKER_INSERT_SQL).bind(SqlValue::Int(employee_id)).bind(
                        SqlValue::Profession(form.profession),
                    ).bind(SqlValue::opt_text(&form.union_name)),
                    "Error creating worker: ",
                ),
            );
            steps.push(
                Step::new(
                    profession_insert_statement(employee_id, &form.profession_fields),
                    "Error creating profession-specific data: ",
                ),
            );
            assert(steps_view(steps@) =~= steps_of(worker_insert(*form, employee_id)));
            let next = match form.brigade_id {
                Some(brigade_id) => Next::Ask(
                    Fetch {
                        statement: exists_by_id("brigade", brigade_id),
                        failure: "Error checking brigade existence: ",
                    },
                ),
                None => worker_created_next(form, employee_id),
            };
            Stage { steps, next }
        },
        WorkerCreateProgress::BrigadeChecked { employee_id, exists } => match form.brigade_id {
            Some(brigade_id) => if exists {
                let mut steps: Vec<Step> = Vec::new();
                steps.push(
                    Step::new(
                        by_id(ASSIGNMENT_INSERT_SQL, employee_id).bind(SqlValue::Int(brigade_id)),
                        "Error assigning worker to brigade: ",
                    ),
                );
                let s = Stage { steps, next: worker_created_next(form, employee_id) };
                assert(s@.steps =~= worker_create_plan(*form, progress).steps);
                s
            } else {
                let s = Stage {
                    steps: Vec::new(),
                    next: Next::Abort(
                        Reply::refuse(
                            around_i32("Brigade with ID ", brigade_id, " does not exist"),
                            Some(String::from_str("/workers/new")),
                        ),
                    ),
                };
                assert(s@.steps =~= Seq::<StepView>::empty());
                s
            },
            None => {
                let s = Stage { steps: Vec::new(), next: worker_created_next(form, employee_id) };
                assert(s@.steps =~= Seq::<StepView>::empty());
                s
            },
        },
    }
}

/// The steps that insert the rows of the new worker `employee_id`: those
/// of the worker row and of the row of its profession where the form names
/// the profession of its profession-specific data, and none where it does
/// not.
pub open spec fn worker_create_run(form: WorkerCreateForm, employee_id: i32) -> Seq<
    Meant<Profession>,
> {
    if create_agrees(form) {
        worker_insert(form, employee_id)
    } else {
        Seq::empty()
    }
}

/// A creation leaves the rows in order, whatever the form holds. Committed
/// with a form that names the profession of its data, it leaves a worker
/// with the one row of its profession. It leaves no row where the
/// transaction was rolled back, and where the form names another
/// profession than that of its data: such a form is refused at once, and
/// no statement is executed for it.
pub proof fn lemma_worker_create_in_order(form: WorkerCreateForm, employee_id: i32, committed: bool)
    ensures
        !create_agrees(form) ==> forall|progress: WorkerCreateProgress|
            (#[trigger] worker_create_plan(form, progress)).steps == Seq::<StepView>::empty()
                && worker_create_plan(form, progress).next is Abort,
        worker_create_plan(form, WorkerCreateProgress::EmployeeCreated(employee_id)).steps
            == steps_of(worker_create_run(form, employee_id)),
        transact(absent(), ops_of(worker_create_run(form, employee_id)), committed) == (
        if committed && create_agrees(form) {
            live(form.profession)
        } else {
            absent()
        }),
        in_order(transact(absent(), ops_of(worker_create_run(form, employee_id)), committed)),
{
    assert(worker_create_plan(form, WorkerCreateProgress::EmployeeCreated(employee_id)).steps
        =~= steps_of(worker_create_run(form, employee_id)));
    let ops = ops_of(worker_create_run(form, employee_id));
    if create_agrees(form) {
        let insert = Op::InsertBase(form.profession);
        assert(ops =~= seq![insert, Op::InsertSatellite(form.profession)]);
        assert(ops.drop_last() =~= seq![insert]);
        lemma_apply_one(absent(), insert);
        lemma_create_in_order(form.profession);
    } else {
        assert(ops =~= Seq::<Op<Profession>>::empty());
    }
}

/// The check before a worker is deleted: a worker who leads a brigade
/// stays.
pub fn worker_delete_guard(id: i32) -> (g: Guard)
    ensures
        g@ == strict(
            fixed(WORKER_IS_BRIGADIER_SQL@).arg(SqlValueView::Int(id)),
            false,
            refuse_note(
                "Cannot delete worker: Worker is a brigadier. Remove brigade first."@,
                Some("/workers/"@ + int_text(id as int)),
            ),
            "Error checking if worker is a brigadier: "@,
        ),
{
    proof {
        reveal_strlit("");
        assert("/workers/"@ + int_text(id as int) + ""@ =~= "/workers/"@ + int_text(id as int));
    }
    Guard::strict(
        by_id(WORKER_IS_BRIGADIER_SQL, id),
        false,
        Reply::refuse(
            String::from_str("Cannot delete worker: Worker is a brigadier. Remove brigade first."),
            Some(around_i32("/workers/", id, "")),
        ),
        "Error checking if worker is a brigadier: ",
    )
}

/// How far the deletion of a worker has come.
#[derive(Clone, Copy, Debug, PartialEq, Eq, Structural)]
pub enum WorkerDeleteProgress {
    /// The transaction was begun.
    Begun,
    /// The profession of the worker was read: `None` where there is no
    /// such worker.
    ProfessionRead(Option<Profession>),
}

/// The steps that delete the worker `id` of the profession `current`: its
/// assignment, its profession-specific row, its worker row and its employee
/// row.
pub open spec fn worker_removal(id: i32, current: Profession) -> Seq<Meant<Profession>> {
    seq![
        other(
            step(
                fixed(ASSIGNMENT_DELETE_SQL@).arg(SqlValueView::Int(id)),
                "Error removing worker from assignments: "@,
            ),
        ),
        Meant {
            op: Op::DeleteSatellite(current),
            step: step(profession_delete(id, current), "Error deleting profession data: "@),
        },
        Meant {
            op: Op::DeleteBase,
            step: step(
                fixed(WORKER_DELETE_SQL@).arg(SqlValueView::Int(id)),
                "Error deleting worker: "@,
            ),
        },
        other(
            step(
                fixed(EMPLOYEE_DELETE_SQL@).arg(SqlValueView::Int(id)),
                "Error deleting employee: "@,
            ),
        ),
    ]
}

/// The stage of the deletion of the worker `id` that follows `progress`.
pub open spec fn worker_delete_plan(id: i32, progress: WorkerDeleteProgress) -> StageView {
    match progress {
        WorkerDeleteProgress::Begun => StageView {
            steps: Seq::empty(),
            next: NextView::Ask(
                FetchView {
                    statement: fixed(WORKER_PROFESSION_SQL@).arg(SqlValueView::Int(id)),
                    failure: "Error fetching worker's profession: "@,
                },
            ),
        },
        WorkerDeleteProgress::ProfessionRead(None) => StageView {
            steps: Seq::empty(),
            next: NextView::Abort(
                ReplyView::Html(paragraph_about("Worker with ID "@, id as int, " not found"@)),
            ),
        },
        WorkerDeleteProgress::ProfessionRead(Some(current)) => StageView {
            steps: steps_of(worker_removal(id, current)),
            next: NextView::Commit(
                success_note("Worker deleted successfully"@, Some("/workers"@)),
            ),
        },
    }
}

/// The stage of the deletion of the worker `id` that follows `progress`.
pub fn worker_delete_stage(id: i32, progress: WorkerDeleteProgress) -> (s: Stage)
    ensures
        s@ == worker_delete_plan(id, progress),
{
    match progress {
        WorkerDeleteProgress::Begun => {
            let s = Stage {
                steps: Vec::new(),
                next: Next::Ask(
                    Fetch {
                        statement: by_id(WORKER_PROFESSION_SQL, id),
                        failure: "Error fetching worker's profession: ",
                    },
                ),
            };
            assert(s@.steps =~= Seq::<StepView>::empty());
            s
        },
        WorkerDeleteProgress::ProfessionRead(None) => {
            let s = Stage {
                steps: Vec::new(),
                next: Next::Abort(
                    Reply::Html(paragraph_about_id("Worker with ID ", id, " not found")),
                ),
            };
            assert(s@.steps =~= Seq::<StepView>::empty());
            s
        },
        WorkerDeleteProgress::ProfessionRead(Some(current)) => {
            let mut steps: Vec<Step> = Vec::new();
            steps.push(
                Step::new(
                    by_id(ASSIGNMENT_DELETE_SQL, id),
                    "Error removing worker from assignments: ",
                ),
            );
            steps.push(
                Step::new(
                    profession_delete_statement(id, current),
                    "Error deleting profession data: ",
                ),
            );
            steps.push(Step::new(by_id(WORKER_DELETE_SQL, id), "Error deleting worker: "));
            steps.push(Step::new(by_id(EMPLOYEE_DELETE_SQL, id), "Error deleting employee: "));
            assert(steps_view(steps@) =~= steps_of(worker_removal(id, current)));
            Stage {
                steps,
                next: Next::Commit(
                    NotificationTemplate::success(
                        String::from_str("Worker deleted successfully"),
                        Some(String::from_str("/workers")),
                    ),
                ),
            }
        },
    }
}

/// A deletion that is committed leaves no row of the worker; one that is
/// rolled back leaves the worker as it was.
pub proof fn lemma_worker_delete_leaves_nothing(id: i32, current: Profession, committed: bool)
    ensures
        transact(live(current), ops_of(worker_removal(id, current)), committed) == (if committed {
            absent()
        } else {
            live(current)
        }),
        in_order(transact(live(current), ops_of(worker_removal(id, current)), committed)),
{
    let e = live(current);
    let ops = ops_of(worker_removal(id, current));
    let a = seq![Op::<Profession>::Other];
    let b = seq![Op::DeleteSatellite(current)];
    let c = seq![Op::<Profession>::DeleteBase];
    assert(ops =~= a + b + c + a);
    lemma_apply_parts(e, a + b + c, a);
    lemma_apply_parts(e, a + b, c);
    lemma_apply_parts(e, a, b);
    lemma_apply_one(e, Op::Other);
    lemma_apply_one(e, Op::DeleteSatellite(current));
    lemma_apply_one(apply(e, Op::DeleteSatellite(current)), Op::DeleteBase);
    lemma_apply_one(absent::<Profession>(), Op::Other);
    lemma_delete_leaves_nothing(current);
}

/// The life of a worker: created, changed to another profession, updated
/// without a change of profession, and deleted, each in a transaction that
/// is committed or rolled back, with forms that hold anything at all. At
/// every point the rows are in order: no worker row and no row of a
/// profession, or a worker row and exactly the one row of its profession.
/// A worker that was created stays until it is deleted, and after a
/// deletion that was committed it has no row.
pub proof fn lemma_worker_life_keeps_one_row(
    id: i32,
    create: WorkerCreateForm,
    change: WorkerUpdateForm,
    update: WorkerUpdateForm,
    assignment: Option<Option<i32>>,
    created: bool,
    changed: bool,
    updated: bool,
    deleted: bool,
)
    ensures
        ({
            let born = transact(absent(), ops_of(worker_create_run(create, id)), created);
            let second = transact(
                born,
                ops_of(worker_update_run(id, change, born.base->0, assignment)),
                changed,
            );
            let third = transact(
                second,
                ops_of(worker_update_run(id, update, second.base->0, assignment)),
                updated,
            );
            let last = transact(third, ops_of(worker_removal(id, third.base->0)), deleted);
            &&& in_order(born)
            &&& born.base is Some <==> created && create_agrees(create)
            &&& born.base is Some ==> {
                &&& second.base is Some && in_order(second)
                &&& third.base is Some && in_order(third)
                &&& changed && update_agrees(change) ==> second == live(change.profession)
                &&& updated && update_agrees(update) ==> third == live(update.profession)
                &&& in_order(last)
                &&& last == (if deleted {
                    absent()
                } else {
                    third
                })
            }
        }),
{
    lemma_worker_create_in_order(create, id, created);
    let born = transact(absent(), ops_of(worker_create_run(create, id)), created);
    if born.base is Some {
        let kind1 = born.base->0;
        lemma_worker_update_keeps_order(id, change, kind1, assignment, changed);
        let second = transact(
            born,
            ops_of(worker_update_run(id, change, kind1, assignment)),
            changed,
        );
        let kind2 = second.base->0;
        lemma_worker_update_keeps_order(id, update, kind2, assignment, updated);
        let third = transact(
            second,
            ops_of(worker_update_run(id, update, kind2, assignment)),
            updated,
        );
        let kind3 = third.base->0;
        lemma_worker_delete_leaves_nothing(id, kind3, deleted);
    }
}

/// The order that a sort key of the worker listing stands for. A key that
/// the listing does not know orders by the primary key.
pub open spec fn worker_order(key: Seq<char>) -> OrderView {
    if key == "name"@ {
        by_columns("e.last_name"@, "e.first_name"@)
    } else if key == "profession"@ {
        by_column("w.profession"@)
    } else if key == "is_brigadier"@ {
        by_column("is_brigadier"@)
    } else {
        by_column("w.id"@)
    }
}

/// The order that a sort key of the worker listing stands for.
pub fn worker_order_column(key: &str) -> (order: Order)
    ensures
        order@ == worker_order(key@),
{
    if str_eq(key, "name") {
        Order::by_columns("e.last_name", "e.first_name")
    } else if str_eq(key, "profession") {
        Order::by_column("w.profession")
    } else if str_eq(key, "is_brigadier") {
        Order::by_column("is_brigadier")
    } else {
        Order::by_column("w.id")
    }
}

/// Whatever the sort key, the listing is ordered by one of its own columns,
/// never by the key itself; and a key that the listing does not know orders
/// by the primary key.
pub proof fn lemma_worker_order_is_listed(key: Seq<char>)
    ensures
        worker_order(key) == by_columns("e.last_name"@, "e.first_name"@) || worker_order(key) == by_column("w.profession"@) || worker_order(key) == by_column("is_brigadier"@) || worker_order(key) == by_column("w.id"@),
        key != "name"@ && key != "profession"@ && key != "is_brigadier"@ ==> worker_order(key) == by_column("w.id"@),
{
}

/// The condition on a worker that leads a brigade, or that leads none.
pub open spec fn brigadier_condition(leads: bool) -> Seq<char> {
    if leads {
        "EXISTS (SELECT 1 FROM brigade b WHERE b.brigadier_id = w.id)"@
    } else {
        "NOT EXISTS (SELECT 1 FROM brigade b WHERE b.brigadier_id = w.id)"@
    }
}

/// The conditions of the worker listing: one for each field of the filter
/// that is present.
pub open spec fn worker_conditions(filter: WorkerListFilter) -> Seq<Seq<PieceView>> {
    when_present(
        match filter.profession {
            Some(p) => Some(SqlValueView::Profession(p)),
            None => None,
        },
        "w.profession = "@,
        ""@,
    ) + when_present(int_filter(filter.brigade_id), "a.brigade_id = "@, ""@) + when_chosen(
        match filter.is_brigadier {
            Some(leads) => Some(brigadier_condition(leads)),
            None => None,
        },
    ) + when_present_twice(
        pattern_filter(opt_text(filter.name)),
        "(e.last_name ILIKE "@,
        " OR e.first_name ILIKE "@,
        ")"@,
    )
}

/// The conditions of the worker listing.
pub fn worker_predicates(filter: &WorkerListFilter) -> (p: Predicates)
    ensures
        p@ == worker_conditions(*filter),
{
    let mut p = Predicates::new();
    p.add_bound(
        match filter.profession {
            Some(profession) => Some(SqlValue::Profession(profession)),
            None => None,
        },
        "w.profession = ",
        "",
    );
    p.add_bound(filter_int(filter.brigade_id), "a.brigade_id = ", "");
    p.add_chosen(
        match filter.is_brigadier {
            Some(true) => Some("EXISTS (SELECT 1 FROM brigade b WHERE b.brigadier_id = w.id)"),
            Some(false) => Some("NOT EXISTS (SELECT 1 FROM brigade b WHERE b.brigadier_id = w.id)"),
            None => None,
        },
    );
    p.add_bound_twice(
        filter_pattern(&filter.name),
        "(e.last_name ILIKE ",
        " OR e.first_name ILIKE ",
        ")",
    );
    assert(p@ =~= worker_conditions(*filter));
    p
}

/// The listing of workers: the count of the workers that the filter
/// admits, and the page of them that `pagination` asks for, in the order
/// that the filter asks for.
pub fn workers_list_queries(pagination: &Pagination, filter: &WorkerListFilter) -> (l: Listing)
    ensures
        l@.count.statement == filtered(WORKER_LIST_SQL@, worker_conditions(*filter)).wrapped(
            "SELECT COUNT(*) FROM ("@,
            ") as count_query"@,
        ),
        l@.count.failure == "Error counting workers: "@,
        l@.page.statement == paged(
            filtered(WORKER_LIST_SQL@, worker_conditions(*filter)),
            worker_order(filter.sort.sort_by@),
            filter.sort.sort_direction,
            *pagination,
        ),
        l@.page.failure == "Error fetching workers: "@,
{
    let rows = Statement::filtered(WORKER_LIST_SQL, &worker_predicates(filter));
    let count = rows.wrap("SELECT COUNT(*) FROM (", ") as count_query");
    let page = rows.paged(
        worker_order_column(filter.sort.sort_by.as_str()),
        filter.sort.sort_direction,
        pagination,
    );
    Listing {
        count: Fetch { statement: count, failure: "Error counting workers: " },
        page: Fetch { statement: page, failure: "Error fetching workers: " },
    }
}

} // verus!
