//! Technical personnel: employees with a qualification, and one row of
//! qualification-specific data in the table of that qualification.

use crate::flow::{Fetch, FetchView, Guard, Listing, refuse_note, strict};
use crate::general::{
    Gender, NotificationTemplate, Pagination, paragraph, paragraph_about, paragraph_about_id,
    Position, Qualification, QueryInfo, Reply, ReplyView, Sort, success_note,
};
use crate::sql::{
    by_column, by_columns, by_id, filter_int, filter_pattern, filtered, fixed, int_filter,
    opt_int_value, opt_position_value, Order, OrderView, paged, pattern_filter, PieceView,
    Predicates, SqlValue, SqlValueView, Statement, StatementView, when_present,
    when_present_twice,
};
use crate::subtype::{
    absent, apply, apply_all, drop_satellite, in_order, lemma_apply_one, lemma_apply_parts,
    lemma_create_in_order, lemma_delete_leaves_nothing, lemma_ops_of_parts,
    lemma_others_change_nothing, lemma_retype_in_order, live, Meant, Op, ops_of, other, steps_of,
    transact, write_satellite,
};
use crate::text::{around_i32, int_text, opt_text, str_eq, texts};
use crate::transaction::{Next, NextView, Stage, StageView, step, Step, steps_view, StepView};
use crate::workers::{
    EMPLOYEE_DELETE_SQL, employee_insert, employee_insert_statement, employee_update,
    employee_update_statement,
};
use vstd::prelude::*;
use vstd::string::*;

verus! {

/// The data that is specific to the qualification of a person.
#[derive(Clone, Debug, PartialEq, Eq)]
pub enum QualificationFields {
    Technician(TechnicianFields),
    Technologist(TechnologistFields),
    Engineer(EngineerFields),
}

#[derive(Clone, Debug, PartialEq, Eq)]
pub struct TechnicianFields {
    pub safety_training_level: String,
}

#[derive(Clone, Debug, PartialEq, Eq)]
pub struct TechnologistFields {
    pub management_tools: Vec<String>,
}

#[derive(Clone, Copy, Debug, PartialEq, Eq, Structural)]
pub struct EngineerFields {
    pub pe_license_id: i32,
}

#[derive(Clone, Copy, Debug, PartialEq, Eq, Structural)]
pub struct TechnicalPersonnelListTemplate;

#[derive(Clone, Copy, Debug, PartialEq, Eq, Structural)]
pub struct TechnicalPersonnelDetailsTemplate {
    pub id: i32,
}

#[derive(Clone, Copy, Debug, PartialEq, Eq, Structural)]
pub struct TechnicalPersonnelNewTemplate;

#[derive(Clone, Debug, PartialEq, Eq)]
pub struct TechnicalPersonnelEditTemplate {
    pub id: i32,
    pub first_name: String,
    pub last_name: String,
    pub middle_name: Option<String>,
    pub gender: Gender,
    pub phone_number: String,
    pub salary: i32,
    pub qualification: Qualification,
    pub position: Option<Position>,
    pub education_level: String,
    pub software_skills: Vec<String>,
    pub is_project_manager: bool,
}

#[derive(Clone, Copy, Debug, PartialEq, Eq, Structural)]
pub struct TechnicalPersonnelQualificationQuery {
    pub qualification: Qualification,
}

#[derive(Clone, Debug, PartialEq, Eq)]
pub struct TechnicalPersonnelApiDetailsTemplate {
    pub id: i32,
    pub first_name: String,
    pub last_name: String,
    pub middle_name: Option<String>,
    pub gender: Gender,
    pub photo: Option<String>,
    pub phone_number: String,
    pub salary: i32,
    pub qualification: Qualification,
    pub position: Option<Position>,
    pub education_level: String,
    pub software_skills: Vec<String>,
    pub is_project_manager: bool,
    pub qualification_fields: QualificationFields,
    pub supervising_department_id: Option<i32>,
    pub supervising_department_name: Option<String>,
    pub supervising_area_id: Option<i32>,
    pub supervising_area_name: Option<String>,
    pub area_id: Option<i32>,
    pub area_name: Option<String>,
}

#[derive(Clone, Copy, Debug, PartialEq, Eq, Structural)]
pub struct TechnicalPersonnelQualificationFieldsTemplate {
    pub qualification: Qualification,
}

#[derive(Clone, Debug, PartialEq, Eq)]
pub struct TechnicalPersonnelUpdateForm {
    pub first_name: String,
    pub last_name: String,
    pub middle_name: Option<String>,
    pub gender: Gender,
    pub phone_number: String,
    pub salary: i32,
    pub qualification: Qualification,
    pub position: Option<Position>,
    pub education_level: String,
    pub software_skills: Vec<String>,
    pub is_project_manager: bool,
    pub area_id: Option<i32>,
    pub qualification_fields: QualificationFields,
}

#[derive(Clone, Debug, PartialEq, Eq)]
pub struct TechnicalPersonnelCreateForm {
    pub first_name: String,
    pub last_name: String,
    pub middle_name: Option<String>,
    pub gender: Gender,
    pub phone_number: String,
    pub salary: i32,
    pub qualification: Qualification,
    pub position: Option<Position>,
    pub education_level: String,
    pub software_skills: Vec<String>,
    pub is_project_manager: bool,
    pub area_id: Option<i32>,
    pub qualification_fields: QualificationFields,
}

#[derive(Clone, Debug, PartialEq, Eq)]
pub struct TechnicalPersonnelListFilter {
    pub sort: Sort,
    pub qualification: Option<Qualification>,
    pub position: Option<Position>,
    pub department_id: Option<i32>,
    pub area_id: Option<i32>,
    pub name: Option<String>,
}

#[derive(Clone, Debug, PartialEq, Eq)]
pub struct TechnicalPersonnelApiListTemplate {
    pub technical_personnel: Vec<TechnicalPersonnelListItem>,
    pub pagination: Pagination,
    pub query_info: QueryInfo,
}

#[derive(Clone, Debug, PartialEq, Eq)]
pub struct TechnicalPersonnelListItem {
    pub id: i32,
    pub first_name: String,
    pub last_name: String,
    pub qualification: Qualification,
    pub position: Option<Position>,
    pub area_id: Option<i32>,
    pub area_name: Option<String>,
}

/// The row of a person as an employee and as technical personnel.
#[derive(Clone, Debug, PartialEq, Eq)]
pub struct TechnicalPersonnelBasicInfo {
    pub id: i32,
    pub first_name: String,
    pub last_name: String,
    pub middle_name: Option<String>,
    pub gender: Gender,
    pub photo: Option<String>,
    pub phone_number: String,
    pub salary: i32,
    pub qualification: Qualification,
    pub position: Option<Position>,
    pub education_level: String,
    pub software_skills: Vec<String>,
    pub is_project_manager: bool,
}

/// What a person supervises, and the area it is assigned to.
#[derive(Clone, Debug, PartialEq, Eq)]
pub struct SupervisorInfo {
    pub department_id: Option<i32>,
    pub department_name: Option<String>,
    pub supervising_area_id: Option<i32>,
    pub supervising_area_name: Option<String>,
    pub area_id: Option<i32>,
    pub area_name: Option<String>,
}

/// Selects one person as an employee and as technical personnel.
pub const TECHNICAL_PERSONNEL_SQL: &'static str =
    "SELECT e.id, e.first_name, e.last_name, e.middle_name, e.gender, 
         e.photo, e.phone_number, e.salary, tp.qualification, tp.position, 
         tp.education_level, tp.software_skills, tp.is_project_manager
         FROM employee e
         JOIN technical_personnel tp ON e.id = tp.id
         WHERE e.id = $1";

/// Selects what one person supervises, and the area it is assigned to.
pub const SUPERVISOR_SQL: &'static str =
    "SELECT 
            d.id as department_id, 
            d.name as department_name,
            s_area.id as supervising_area_id, 
            s_area.name as supervising_area_name,
            a.id as area_id,
            a.name as area_name
         FROM technical_personnel tp
         LEFT JOIN department d ON tp.id = d.supervisor_id
         LEFT JOIN area s_area ON tp.id = s_area.supervisor_id
         LEFT JOIN area a ON tp.area_id = a.id
         WHERE tp.id = $1";

pub const PERSONNEL_EMPLOYEE_INSERT_SQL: &'static str =
    "INSERT INTO employee (class, first_name, last_name, middle_name, gender, phone_number, salary) 
         VALUES ('technical_personnel', $1, $2, $3, $4, $5, $6) 
         RETURNING id";

pub const TECHNICAL_PERSONNEL_INSERT_SQL: &'static str =
    "INSERT INTO technical_personnel (id, qualification, position, education_level, software_skills, is_project_manager, area_id) 
         VALUES ($1, $2, $3, $4, $5, $6, $7)";

pub const TECHNICAL_PERSONNEL_UPDATE_SQL: &'static str =
    "UPDATE technical_personnel 
         SET qualification = $1, position = $2, education_level = $3,
             software_skills = $4, is_project_manager = $5, area_id = $6
         WHERE id = $7";

pub const QUALIFICATION_SQL: &'static str =
    "SELECT qualification FROM technical_personnel WHERE id = $1";

pub const IS_SUPERVISOR_SQL: &'static str =
    "SELECT EXISTS(
            SELECT 1 FROM department WHERE supervisor_id = $1
            UNION
            SELECT 1 FROM area WHERE supervisor_id = $1
        )";

pub const TECHNICAL_PERSONNEL_DELETE_SQL: &'static str =
    "DELETE FROM technical_personnel WHERE id = $1";

pub const TECHNICAL_PERSONNEL_LIST_SQL: &'static str =
    "SELECT 
            tp.id, 
            e.first_name, 
            e.last_name, 
            tp.qualification,
            tp.position,
            tp.area_id,
            a.name as area_name
        FROM technical_personnel tp
        JOIN employee e ON tp.id = e.id
        LEFT JOIN area a ON tp.area_id = a.id";

pub const TECHNICAL_PERSONNEL_COUNT_SQL: &'static str =
    "SELECT COUNT(*) FROM technical_personnel tp
        JOIN employee e ON tp.id = e.id
        LEFT JOIN area a ON tp.area_id = a.id";

pub const TECHNICIAN_INSERT_SQL: &'static str =
    "INSERT INTO technician (id, safety_training_level) VALUES ($1, $2)";

pub const TECHNICIAN_UPDATE_SQL: &'static str = "UPDATE technician SET safety_training_level = $1 WHERE id = $2";

pub const TECHNICIAN_SELECT_SQL: &'static str = "SELECT safety_training_level FROM technician WHERE id = $1";

pub const TECHNICIAN_DELETE_SQL: &'static str = "DELETE FROM technician WHERE id = $1";

pub const TECHNOLOGIST_INSERT_SQL: &'static str =
    "INSERT INTO technologist (id, management_tools) VALUES ($1, $2)";

pub const TECHNOLOGIST_UPDATE_SQL: &'static str = "UPDATE technologist SET management_tools = $1 WHERE id = $2";

pub const TECHNOLOGIST_SELECT_SQL: &'static str = "SELECT management_tools FROM technologist WHERE id = $1";

pub const TECHNOLOGIST_DELETE_SQL: &'static str = "DELETE FROM technologist WHERE id = $1";

pub const ENGINEER_INSERT_SQL: &'static str =
    "INSERT INTO engineer (id, pe_license_id) VALUES ($1, $2)";

pub const ENGINEER_UPDATE_SQL: &'static str = "UPDATE engineer SET pe_license_id = $1 WHERE id = $2";

pub const ENGINEER_SELECT_SQL: &'static str = "SELECT pe_license_id FROM engineer WHERE id = $1";

pub const ENGINEER_DELETE_SQL: &'static str = "DELETE FROM engineer WHERE id = $1";

impl QualificationFields {
    /// The qualification that the data belongs to.
    pub open spec fn spec_kind(self) -> Qualification {
        match self {
            QualificationFields::Technician(_) => Qualification::Technician,
            QualificationFields::Technologist(_) => Qualification::Technologist,
            QualificationFields::Engineer(_) => Qualification::Engineer,
        }
    }

    /// The qualification that the data belongs to.
    pub fn kind(&self) -> (k: Qualification)
        ensures
            k == self.spec_kind(),
    {
        match self {
            QualificationFields::Technician(_) => Qualification::Technician,
            QualificationFields::Technologist(_) => Qualification::Technologist,
            QualificationFields::Engineer(_) => Qualification::Engineer,
        }
    }
}

/// The statement that deletes the qualification-specific row of the person `id`
/// from the table of `qualification`.
pub open spec fn qualification_delete(id: i32, qualification: Qualification) -> StatementView {
    fixed(
        match qualification {
            Qualification::Technician => TECHNICIAN_DELETE_SQL@,
            Qualification::Technologist => TECHNOLOGIST_DELETE_SQL@,
            Qualification::Engineer => ENGINEER_DELETE_SQL@,
        },
    ).arg(SqlValueView::Int(id))
}

/// The statement that deletes the qualification-specific row of the person `id`
/// from the table of `qualification`.
pub fn qualification_delete_statement(id: i32, qualification: Qualification) -> (s: Statement)
    ensures
        s@ == qualification_delete(id, qualification),
{
    match qualification {
        Qualification::Technician => by_id(TECHNICIAN_DELETE_SQL, id),
        Qualification::Technologist => by_id(TECHNOLOGIST_DELETE_SQL, id),
        Qualification::Engineer => by_id(ENGINEER_DELETE_SQL, id),
    }
}

/// The statement that inserts the qualification-specific row of the person `id`.
pub open spec fn qualification_insert(id: i32, fields: QualificationFields) -> StatementView {
    match fields {
        QualificationFields::Technician(f) => fixed(TECHNICIAN_INSERT_SQL@).arg(SqlValueView::Int(id)).arg(SqlValueView::Text(f.safety_training_level@)),
        QualificationFields::Technologist(f) => fixed(TECHNOLOGIST_INSERT_SQL@).arg(SqlValueView::Int(id)).arg(SqlValueView::TextArray(texts(f.management_tools@))),
        QualificationFields::Engineer(f) => fixed(ENGINEER_INSERT_SQL@).arg(SqlValueView::Int(id)).arg(SqlValueView::Int(f.pe_license_id)),
    }
}

/// The statement that inserts the qualification-specific row of the person `id`.
pub fn qualification_insert_statement(id: i32, fields: &QualificationFields) -> (s: Statement)
    ensures
        s@ == qualification_insert(id, *fields),
{
    match fields {
        QualificationFields::Technician(f) => Statement::new(TECHNICIAN_INSERT_SQL).bind(SqlValue::Int(id)).bind(SqlValue::text(f.safety_training_level.as_str())),
        QualificationFields::Technologist(f) => Statement::new(TECHNOLOGIST_INSERT_SQL).bind(SqlValue::Int(id)).bind(SqlValue::text_array(&f.management_tools)),
        QualificationFields::Engineer(f) => Statement::new(ENGINEER_INSERT_SQL).bind(SqlValue::Int(id)).bind(SqlValue::Int(f.pe_license_id)),
    }
}

/// The statement that updates the qualification-specific row of the person `id`.
pub open spec fn qualification_update(id: i32, fields: QualificationFields) -> StatementView {
    match fields {
        QualificationFields::Technician(f) => fixed(TECHNICIAN_UPDATE_SQL@).arg(SqlValueView::Text(f.safety_training_level@)).arg(SqlValueView::Int(id)),
        QualificationFields::Technologist(f) => fixed(TECHNOLOGIST_UPDATE_SQL@).arg(SqlValueView::TextArray(texts(f.management_tools@))).arg(SqlValueView::Int(id)),
        QualificationFields::Engineer(f) => fixed(ENGINEER_UPDATE_SQL@).arg(SqlValueView::Int(f.pe_license_id)).arg(SqlValueView::Int(id)),
    }
}

/// The statement that updates the qualification-specific row of the person `id`.
pub fn qualification_update_statement(id: i32, fields: &QualificationFields) -> (s: Statement)
    ensures
        s@ == qualification_update(id, *fields),
{
    match fields {
        QualificationFields::Technician(f) => Statement::new(TECHNICIAN_UPDATE_SQL).bind(SqlValue::text(f.safety_training_level.as_str())).bind(SqlValue::Int(id)),
        QualificationFields::Technologist(f) => Statement::new(TECHNOLOGIST_UPDATE_SQL).bind(SqlValue::text_array(&f.management_tools)).bind(SqlValue::Int(id)),
        QualificationFields::Engineer(f) => Statement::new(ENGINEER_UPDATE_SQL).bind(SqlValue::Int(f.pe_license_id)).bind(SqlValue::Int(id)),
    }
}

/// The read of the qualification-specific row of the person `id`.
pub fn qualification_fields_query(id: i32, qualification: Qualification) -> (f: Fetch)
    ensures
        f@ == (match qualification {
            Qualification::Technician => FetchView {
                statement: fixed(TECHNICIAN_SELECT_SQL@).arg(SqlValueView::Int(id)),
                failure: "Error fetching technician data: "@,
            },
            Qualification::Technologist => FetchView {
                statement: fixed(TECHNOLOGIST_SELECT_SQL@).arg(SqlValueView::Int(id)),
                failure: "Error fetching technologist data: "@,
            },
            Qualification::Engineer => FetchView {
                statement: fixed(ENGINEER_SELECT_SQL@).arg(SqlValueView::Int(id)),
                failure: "Error fetching engineer data: "@,
            },
        }),
{
    match qualification {
        Qualification::Technician => Fetch {
            statement: by_id(TECHNICIAN_SELECT_SQL, id),
            failure: "Error fetching technician data: ",
        },
        Qualification::Technologist => Fetch {
            statement: by_id(TECHNOLOGIST_SELECT_SQL, id),
            failure: "Error fetching technologist data: ",
        },
        Qualification::Engineer => Fetch {
            statement: by_id(ENGINEER_SELECT_SQL, id),
            failure: "Error fetching engineer data: ",
        },
    }
}

/// The read of the person `id`.
pub fn technical_personnel_query(id: i32) -> (f: Fetch)
    ensures
        f@ == (FetchView {
            statement: fixed(TECHNICAL_PERSONNEL_SQL@).arg(SqlValueView::Int(id)),
            failure: "Error fetching technical personnel: "@,
        }),
{
    Fetch {
        statement: by_id(TECHNICAL_PERSONNEL_SQL, id),
        failure: "Error fetching technical personnel: ",
    }
}

/// The person that was read; or the paragraph that says that there is no
/// person `id`, or that the read failed.
pub fn technical_personnel_found(
    id: i32,
    fetched: Result<Option<TechnicalPersonnelBasicInfo>, String>,
) -> (r: Result<TechnicalPersonnelBasicInfo, String>)
    ensures
        match fetched {
            Ok(Some(row)) => r == Ok::<TechnicalPersonnelBasicInfo, String>(row),
            Ok(None) => r is Err && r->Err_0@ == paragraph_about(
                "Technical personnel with ID "@,
                id as int,
                " not found"@,
            ),
            Err(e) => r is Err && r->Err_0@ == paragraph(
                "Error fetching technical personnel: "@,
                e@,
            ),
        },
{
    technical_personnel_query(id).row(fetched, id, "Technical personnel with ID ", " not found")
}

/// The edit form of a person.
pub fn technical_personnel_edit_page(person: TechnicalPersonnelBasicInfo) -> (t:
    TechnicalPersonnelEditTemplate)
    ensures
        t == (TechnicalPersonnelEditTemplate {
            id: person.id,
            first_name: person.first_name,
            last_name: person.last_name,
            middle_name: person.middle_name,
            gender: person.gender,
            phone_number: person.phone_number,
            salary: person.salary,
            qualification: person.qualification,
            position: person.position,
            education_level: person.education_level,
            software_skills: person.software_skills,
            is_project_manager: person.is_project_manager,
        }),
{
    TechnicalPersonnelEditTemplate {
        id: person.id,
        first_name: person.first_name,
        last_name: person.last_name,
        middle_name: person.middle_name,
        gender: person.gender,
        phone_number: person.phone_number,
        salary: person.salary,
        qualification: person.qualification,
        position: person.position,
        education_level: person.education_level,
        software_skills: person.software_skills,
        is_project_manager: person.is_project_manager,
    }
}

/// The read of what the person `id` supervises.
pub fn supervisor_query(id: i32) -> (s: Statement)
    ensures
        s@ == fixed(SUPERVISOR_SQL@).arg(SqlValueView::Int(id)),
{
    by_id(SUPERVISOR_SQL, id)
}

/// What a person supervises, as it was read. A person without a row
/// supervises nothing, and so does one for whom the read failed.
pub fn supervisor_found(fetched: Result<Option<SupervisorInfo>, String>) -> (s: SupervisorInfo)
    ensures
        s == (match fetched {
            Ok(Some(row)) => row,
            _ => SupervisorInfo {
                department_id: None,
                department_name: None,
                supervising_area_id: None,
                supervising_area_name: None,
                area_id: None,
                area_name: None,
            },
        }),
{
    match fetched {
        Ok(Some(row)) => row,
        _ => SupervisorInfo {
            department_id: None,
            department_name: None,
            supervising_area_id: None,
            supervising_area_name: None,
            area_id: None,
            area_name: None,
        },
    }
}

/// The details of a person, what it supervises, and the data of its
/// qualification.
pub fn technical_personnel_api_details_page(
    person: TechnicalPersonnelBasicInfo,
    supervisor: SupervisorInfo,
    qualification_fields: QualificationFields,
) -> (t: TechnicalPersonnelApiDetailsTemplate)
    ensures
        t == (TechnicalPersonnelApiDetailsTemplate {
            id: person.id,
            first_name: person.first_name,
            last_name: person.last_name,
            middle_name: person.middle_name,
            gender: person.gender,
            photo: person.photo,
            phone_number: person.phone_number,
            salary: person.salary,
            qualification: person.qualification,
            position: person.position,
            education_level: person.education_level,
            software_skills: person.software_skills,
            is_project_manager: person.is_project_manager,
            qualification_fields,
            supervising_department_id: supervisor.department_id,
            supervising_department_name: supervisor.department_name,
            supervising_area_id: supervisor.supervising_area_id,
            supervising_area_name: supervisor.supervising_area_name,
            area_id: supervisor.area_id,
            area_name: supervisor.area_name,
        }),
{
    TechnicalPersonnelApiDetailsTemplate {
        id: person.id,
        first_name: person.first_name,
        last_name: person.last_name,
        middle_name: person.middle_name,
        gender: person.gender,
        photo: person.photo,
        phone_number: person.phone_number,
        salary: person.salary,
        qualification: person.qualification,
        position: person.position,
        education_level: person.education_level,
        software_skills: person.software_skills,
        is_project_manager: person.is_project_manager,
        qualification_fields,
        supervising_department_id: supervisor.department_id,
        supervising_department_name: supervisor.department_name,
        supervising_area_id: supervisor.supervising_area_id,
        supervising_area_name: supervisor.supervising_area_name,
        area_id: supervisor.area_id,
        area_name: supervisor.area_name,
    }
}

/// How far a mutation of a person has come, with what was read on the way.
#[derive(Clone, Copy, Debug, PartialEq, Eq, Structural)]
pub enum PersonnelProgress {
    /// The transaction was begun.
    Begun,
    /// The qualification of the person was read: `None` where there is no
    /// such person.
    QualificationRead(Option<Qualification>),
}

/// The steps that give the person `id` the qualification and the
/// qualification-specific data of the form, for a person whose
/// qualification is `current`: the old qualification-specific row is
/// deleted where the qualification changes, the personnel row is updated,
/// and the new data is written into the row of its qualification, which is
/// inserted where the person had none there.
pub open spec fn personnel_retype(id: i32, form: TechnicalPersonnelUpdateForm, current: Qualification)
    -> Seq<Meant<Qualification>> {
    (if current != form.qualification {
        seq![
            Meant {
                op: Op::DeleteSatellite(current),
                step: step(
                    qualification_delete(id, current),
                    "Error removing old qualification data: "@,
                ),
            },
        ]
    } else {
        Seq::empty()
    }) + seq![
        Meant {
            op: Op::UpdateBase(form.qualification),
            step: step(
                fixed(TECHNICAL_PERSONNEL_UPDATE_SQL@).arg(
                    SqlValueView::Qualification(form.qualification),
                ).arg(opt_position_value(form.position)).arg(
                    SqlValueView::Text(form.education_level@),
                ).arg(SqlValueView::TextArray(texts(form.software_skills@))).arg(
                    SqlValueView::Bool(form.is_project_manager),
                ).arg(opt_int_value(form.area_id)).arg(SqlValueView::Int(id)),
                "Error updating technical personnel data: "@,
            ),
        },
        Meant {
            op: write_satellite(current, form.qualification_fields.spec_kind()),
            step: step(
                if form.qualification_fields.spec_kind() == current {
                    qualification_update(id, form.qualification_fields)
                } else {
                    qualification_insert(id, form.qualification_fields)
                },
                "Error updating qualification-specific data: "@,
            ),
        },
    ]
}

/// The path of the form on which the person `id` is edited.
pub open spec fn personnel_edit_path(id: i32) -> Seq<char> {
    "/technical-personnel/"@ + int_text(id as int) + "/edit"@
}

/// Whether the form names the qualification that its
/// qualification-specific data belongs to.
pub open spec fn update_agrees(form: TechnicalPersonnelUpdateForm) -> bool {
    form.qualification == form.qualification_fields.spec_kind()
}

/// Whether the form names the qualification that its
/// qualification-specific data belongs to.
pub open spec fn create_agrees(form: TechnicalPersonnelCreateForm) -> bool {
    form.qualification == form.qualification_fields.spec_kind()
}

/// The stage without statements that refuses a form whose qualification is
/// not the qualification of its qualification-specific data, with a
/// notification that leads back to the form.
pub open spec fn personnel_form_refused(redirect: Seq<char>) -> StageView {
    StageView {
        steps: Seq::empty(),
        next: NextView::Abort(
            refuse_note(
                "Qualification does not match the qualification-specific data"@,
                Some(redirect),
            ),
        ),
    }
}

fn personnel_form_refused_stage(redirect: String) -> (s: Stage)
    ensures
        s@ == personnel_form_refused(redirect@),
{
    let s = Stage {
        steps: Vec::new(),
        next: Next::Abort(
            Reply::refuse(
                String::from_str("Qualification does not match the qualification-specific data"),
                Some(redirect),
            ),
        ),
    };
    assert(s@.steps =~= Seq::<StepView>::empty());
    s
}

/// The stage of the update of the person `id` that follows `progress`.
pub open spec fn technical_personnel_update_plan(
    id: i32,
    form: TechnicalPersonnelUpdateForm,
    progress: PersonnelProgress,
) -> StageView {
    if !update_agrees(form) {
        personnel_form_refused(personnel_edit_path(id))
    } else {
        technical_personnel_update_steps(id, form, progress)
    }
}

/// The stage of the update of the person `id` that follows `progress`, for
/// a form that names the qualification of its qualification-specific data.
pub open spec fn technical_personnel_update_steps(
    id: i32,
    form: TechnicalPersonnelUpdateForm,
    progress: PersonnelProgress,
) -> StageView {
    match progress {
        PersonnelProgress::Begun => StageView {
            steps: seq![
                step(
                    employee_update(
                        id,
                        form.first_name@,
                        form.last_name@,
                        opt_text(form.middle_name),
                        form.gender,
                        form.phone_number@,
                        form.salary,
                    ),
                    "Error updating employee data: "@,
                ),
            ],
            next: NextView::Ask(
                FetchView {
                    statement: fixed(QUALIFICATION_SQL@).arg(SqlValueView::Int(id)),
                    failure: "Error fetching current qualification: "@,
                },
            ),
        },
        PersonnelProgress::QualificationRead(None) => StageView {
            steps: Seq::empty(),
            next: NextView::Abort(
                ReplyView::Html(
                    paragraph_about("Technical personnel with ID "@, id as int, " not found"@),
                ),
            ),
        },
        PersonnelProgress::QualificationRead(Some(current)) => StageView {
            steps: steps_of(personnel_retype(id, form, current)),
            next: NextView::Commit(
                success_note(
                    "Technical personnel "@ + form.first_name@ + " "@ + form.last_name@
                        + " updated successfully"@,
                    Some("/technical-personnel/"@ + int_text(id as int)),
                ),
            ),
        },
    }
}

fn personnel_note(before: &str, first_name: &str, last_name: &str, after: &str, id: i32) -> (n:
    NotificationTemplate)
    ensures
        n@ == success_note(
            before@ + first_name@ + " "@ + last_name@ + after@,
            Some("/technical-personnel/"@ + int_text(id as int)),
        ),
{
    let mut message = String::from_str(before);
    message.append(first_name);
    message.append(" ");
    message.append(last_name);
    message.append(after);
    proof {
        reveal_strlit("");
        assert("/technical-personnel/"@ + int_text(id as int) + ""@ =~= "/technical-personnel/"@
            + int_text(id as int));
    }
    NotificationTemplate::success(message, Some(around_i32("/technical-personnel/", id, "")))
}

fn not_found_stage(id: i32) -> (s: Stage)
    ensures
        s@ == (StageView {
            steps: Seq::empty(),
            next: NextView::Abort(
                ReplyView::Html(
                    paragraph_about("Technical personnel with ID "@, id as int, " not found"@),
                ),
            ),
        }),
{
    let s = Stage {
        steps: Vec::new(),
        next: Next::Abort(
            Reply::Html(paragraph_about_id("Technical personnel with ID ", id, " not found")),
        ),
    };
    assert(s@.steps =~= Seq::<StepView>::empty());
    s
}

/// The stage of the update of the person `id` that follows `progress`.
pub fn technical_personnel_update_stage(
    id: i32,
    form: &TechnicalPersonnelUpdateForm,
    progress: PersonnelProgress,
) -> (s: Stage)
    ensures
        s@ == technical_personnel_update_plan(id, *form, progress),
{
    if form.qualification != form.qualification_fields.kind() {
        return personnel_form_refused_stage(around_i32("/technical-personnel/", id, "/edit"));
    }
    match progress {
        PersonnelProgress::Begun => {
            let mut steps: Vec<Step> = Vec::new();
            steps.push(
                Step::new(
                    employee_update_statement(
                        id,
                        form.first_name.as_str(),
                        form.last_name.as_str(),
                        &form.middle_name,
                        form.gender,
                        form.phone_number.as_str(),
                        form.salary,
                    ),
                    "Error updating employee data: ",
                ),
            );
            let s = Stage {
                steps,
                next: Next::Ask(
                    Fetch {
                        statement: by_id(QUALIFICATION_SQL, id),
                        failure: "Error fetching current qualification: ",
                    },
                ),
            };
            assert(s@.steps =~= technical_personnel_update_plan(id, *form, progress).steps);
            s
        },
        PersonnelProgress::QualificationRead(None) => not_found_stage(id),
        PersonnelProgress::QualificationRead(Some(current)) => {
            let mut steps: Vec<Step> = Vec::new();
            if current != form.qualification {
                steps.push(
                    Step::new(
                        qualification_delete_statement(id, current),
                        "Error removing old qualification data: ",
                    ),
                );
            }
            steps.push(
                Step::new(
                    Statement::new(TECHNICAL_PERSONNEL_UPDATE_SQL).bind(
                        SqlValue::Qualification(form.qualification),
                    ).bind(SqlValue::opt_position(form.position)).bind(
                        SqlValue::text(form.education_level.as_str()),
                    ).bind(SqlValue::text_array(&form.software_skills)).bind(
                        SqlValue::Bool(form.is_project_manager),
                    ).bind(SqlValue::opt_int(form.area_id)).bind(SqlValue::Int(id)),
                    "Error updating technical personnel data: ",
                ),
            );
            let write = if form.qualification_fields.kind() == current {
                qualification_update_statement(id, &form.qualification_fields)
            } else {
                qualification_insert_statement(id, &form.qualification_fields)
            };
            steps.push(Step::new(write, "Error updating qualification-specific data: "));
            assert(steps_view(steps@) =~= steps_of(personnel_retype(id, *form, current)));
            Stage {
                steps,
                next: Next::Commit(
                    personnel_note(
                        "Technical personnel ",
                        form.first_name.as_str(),
                        form.last_name.as_str(),
                        " updated successfully",
                        id,
                    ),
                ),
            }
        },
    }
}

/// Every statement of an update that goes through, with what it does to
/// the rows of the person. A form that names another qualification than
/// that of its data is refused at once: no statement is executed for it.
pub open spec fn personnel_update_run(id: i32, form: TechnicalPersonnelUpdateForm, current: Qualification)
    -> Seq<Meant<Qualification>> {
    if update_agrees(form) {
        seq![other(technical_personnel_update_steps(id, form, PersonnelProgress::Begun).steps[0])]
            + personnel_retype(id, form, current)
    } else {
        Seq::empty()
    }
}

/// An update keeps the rows of a person in order, whatever the form
/// holds. The statements of the update are those of its stages, in order.
/// A person with the one row of its qualification has, after an update
/// that was committed with a form that names the qualification of its
/// data, the one row of the qualification of the form. It has the rows it
/// had where the transaction was rolled back, and where the form names
/// another qualification than that of its data.
pub proof fn lemma_personnel_update_keeps_order(
    id: i32,
    form: TechnicalPersonnelUpdateForm,
    current: Qualification,
    committed: bool,
)
    ensures
        steps_of(personnel_update_run(id, form, current)) == technical_personnel_update_plan(
            id,
            form,
            PersonnelProgress::Begun,
        ).steps + technical_personnel_update_plan(
            id,
            form,
            PersonnelProgress::QualificationRead(Some(current)),
        ).steps,
        !update_agrees(form) ==> technical_personnel_update_plan(
            id,
            form,
            PersonnelProgress::Begun,
        ).next is Abort,
        transact(live(current), ops_of(personnel_update_run(id, form, current)), committed) == (
        if committed && update_agrees(form) {
            live(form.qualification)
        } else {
            live(current)
        }),
        in_order(transact(live(current), ops_of(personnel_update_run(id, form, current)), committed)),
{
    let e = live(current);
    assert(steps_of(personnel_update_run(id, form, current)) =~= technical_personnel_update_plan(
        id,
        form,
        PersonnelProgress::Begun,
    ).steps + technical_personnel_update_plan(
        id,
        form,
        PersonnelProgress::QualificationRead(Some(current)),
    ).steps);
    if update_agrees(form) {
        let first = seq![
            other::<Qualification>(
                technical_personnel_update_steps(id, form, PersonnelProgress::Begun).steps[0],
            ),
        ];
        let middle = personnel_retype(id, form, current);
        lemma_ops_of_parts(first, middle);
        lemma_apply_parts(e, ops_of(first), ops_of(middle));
        lemma_others_change_nothing(e, ops_of(first));
        lemma_retype_in_order(current, form.qualification);
        let drop = drop_satellite(current, form.qualification);
        let write = seq![
            Op::UpdateBase(form.qualification),
            write_satellite(current, form.qualification),
        ];
        assert(ops_of(middle) =~= drop + write);
        lemma_apply_parts(e, drop, write);
        let dropped = apply_all(e, drop);
        assert(write.drop_last() =~= seq![Op::UpdateBase(form.qualification)]);
        lemma_apply_one(dropped, Op::UpdateBase(form.qualification));
        assert(apply_all(dropped, write) == apply(
            apply(dropped, Op::UpdateBase(form.qualification)),
            write_satellite(current, form.qualification),
        ));
    } else {
        assert(ops_of(personnel_update_run(id, form, current)) =~= Seq::<
            Op<Qualification>,
        >::empty());
    }
}

/// How far the creation of a person has come.
#[derive(Clone, Copy, Debug, PartialEq, Eq, Structural)]
pub enum PersonnelCreateProgress {
    /// The transaction was begun.
    Begun,
    /// The employee row was inserted, and this is its id.
    EmployeeCreated(i32),
}

/// The steps that insert the personnel row and the qualification-specific
/// row of the employee `employee_id`.
pub open spec fn personnel_insert(form: TechnicalPersonnelCreateForm, employee_id: i32) -> Seq<
    Meant<Qualification>,
> {
    seq![
        Meant {
            op: Op::InsertBase(form.qualification),
            step: step(
                fixed(TECHNICAL_PERSONNEL_INSERT_SQL@).arg(SqlValueView::Int(employee_id)).arg(
                    SqlValueView::Qualification(form.qualification),
                ).arg(opt_position_value(form.position)).arg(
                    SqlValueView::Text(form.education_level@),
                ).arg(SqlValueView::TextArray(texts(form.software_skills@))).arg(
                    SqlValueView::Bool(form.is_project_manager),
                ).arg(opt_int_value(form.area_id)),
                "Error creating technical personnel: "@,
            ),
        },
        Meant {
            op: Op::InsertSatellite(form.qualification_fields.spec_kind()),
            step: step(
                qualification_insert(employee_id, form.qualification_fields),
                "Error creating qualification-specific data: "@,
            ),
        },
    ]
}

/// The stage of the creation of a person that follows `progress`.
pub open spec fn technical_personnel_create_plan(
    form: TechnicalPersonnelCreateForm,
    progress: PersonnelCreateProgress,
) -> StageView {
    if !create_agrees(form) {
        personnel_form_refused("/technical-personnel/new"@)
    } else {
        technical_personnel_create_steps(form, progress)
    }
}

/// The stage of the creation of a person that follows `progress`, for a
/// form that names the qualification of its qualification-specific data.
pub open spec fn technical_personnel_create_steps(
    form: TechnicalPersonnelCreateForm,
    progress: PersonnelCreateProgress,
) -> StageView {
    match progress {
        PersonnelCreateProgress::Begun => StageView {
            steps: Seq::empty(),
            next: NextView::Insert(
                FetchView {
                    statement: employee_insert(
                        PERSONNEL_EMPLOYEE_INSERT_SQL@,
                        form.first_name@,
                        form.last_name@,
                        opt_text(form.middle_name),
                        form.gender,
                        form.phone_number@,
                        form.salary,
                    ),
                    failure: "Error creating employee: "@,
                },
            ),
        },
        PersonnelCreateProgress::EmployeeCreated(employee_id) => StageView {
            steps: steps_of(personnel_insert(form, employee_id)),
            next: NextView::Commit(
                success_note(
                    "Technical personnel "@ + form.first_name@ + " "@ + form.last_name@
                        + " created successfully"@,
                    Some("/technical-personnel/"@ + int_text(employee_id as int)),
                ),
            ),
        },
    }
}

/// The stage of the creation of a person that follows `progress`.
pub fn technical_personnel_create_stage(
    form: &TechnicalPersonnelCreateForm,
    progress: PersonnelCreateProgress,
) -> (s: Stage)
    ensures
        s@ == technical_personnel_create_plan(*form, progress),
{
    if form.qualification != form.qualification_fields.kind() {
        return personnel_form_refused_stage(String::from_str("/technical-personnel/new"));
    }
    match progress {
        PersonnelCreateProgress::Begun => {
            let s = Stage {
                steps: Vec::new(),
                next: Next::Insert(
                    Fetch {
                        statement: employee_insert_statement(
                            PERSONNEL_EMPLOYEE_INSERT_SQL,
                            form.first_name.as_str(),
                            form.last_name.as_str(),
                            &form.middle_name,
                            form.gender,
                            form.phone_number.as_str(),
                            form.salary,
                        ),
                        failure: "Error creating employee: ",
                    },
                ),
            };
            assert(s@.steps =~= Seq::<StepView>::empty());
            s
        },
        PersonnelCreateProgress::EmployeeCreated(employee_id) => {
            let mut steps: Vec<Step> = Vec::new();
            steps.push(
                Step::new(
                    Statement::new(TECHNICAL_PERSONNEL_INSERT_SQL).bind(
                        SqlValue::Int(employee_id),
                    ).bind(SqlValue::Qualification(form.qualification)).bind(
                        SqlValue::opt_position(form.position),
                    ).bind(SqlValue::text(form.education_level.as_str())).bind(
                        SqlValue::text_array(&form.software_skills),
                    ).bind(SqlValue::Bool(form.is_project_manager)).bind(
                        SqlValue::opt_int(form.area_id),
                    ),
                    "Error creating technical personnel: ",
                ),
            );
            steps.push(
                Step::new(
                    qualification_insert_statement(employee_id, &form.qualification_fields),
                    "Error creating qualification-specific data: ",
                ),
            );
            assert(steps_view(steps@) =~= steps_of(personnel_insert(*form, employee_id)));
            Stage {
                steps,
                next: Next::Commit(
                    personnel_note(
                        "Technical personnel ",
                        form.first_name.as_str(),
                        form.last_name.as_str(),
                        " created successfully",
                        employee_id,
                    ),
                ),
            }
        },
    }
}

/// The steps that insert the rows of the new person `employee_id`: those
/// of the personnel row and of the row of its qualification where the form
/// names the qualification of its qualification-specific data, and none
/// where it does not.
pub open spec fn personnel_create_run(form: TechnicalPersonnelCreateForm, employee_id: i32) -> Seq<
    Meant<Qualification>,
> {
    if create_agrees(form) {
        personnel_insert(form, employee_id)
    } else {
        Seq::empty()
    }
}

/// A creation leaves the rows in order, whatever the form holds. Committed
/// with a form that names the qualification of its data, it leaves a
/// person with the one row of its qualification. It leaves no row where
/// the transaction was rolled back, and where the form names another
/// qualification than that of its data: such a form is refused at once,
/// and no statement is executed for it.
pub proof fn lemma_personnel_create_in_order(
    form: TechnicalPersonnelCreateForm,
    employee_id: i32,
    committed: bool,
)
    ensures
        !create_agrees(form) ==> forall|progress: PersonnelCreateProgress|
            (#[trigger] technical_personnel_create_plan(form, progress)).steps == Seq::<
                StepView,
            >::empty() && technical_personnel_create_plan(form, progress).next is Abort,
        technical_personnel_create_plan(
            form,
            PersonnelCreateProgress::EmployeeCreated(employee_id),
        ).steps == steps_of(personnel_create_run(form, employee_id)),
        transact(absent(), ops_of(personnel_create_run(form, employee_id)), committed) == (
        if committed && create_agrees(form) {
            live(form.qualification)
        } else {
            absent()
        }),
        in_order(transact(absent(), ops_of(personnel_create_run(form, employee_id)), committed)),
{
    assert(technical_personnel_create_plan(
        form,
        PersonnelCreateProgress::EmployeeCreated(employee_id),
    ).steps =~= steps_of(personnel_create_run(form, employee_id)));
    let ops = ops_of(personnel_create_run(form, employee_id));
    if create_agrees(form) {
        let insert = Op::InsertBase(form.qualification);
        assert(ops =~= seq![insert, Op::InsertSatellite(form.qualification)]);
        assert(ops.drop_last() =~= seq![insert]);
        lemma_apply_one(absent(), insert);
        lemma_create_in_order(form.qualification);
    } else {
        assert(ops =~= Seq::<Op<Qualification>>::empty());
    }
}

/// The check before a person is deleted: a person who supervises a
/// department or an area stays.
pub fn technical_personnel_delete_guard(id: i32) -> (g: Guard)
    ensures
        g@ == strict(
            fixed(IS_SUPERVISOR_SQL@).arg(SqlValueView::Int(id)),
            false,
            refuse_note(
                "Cannot delete technical personnel: they are supervising a department or area"@,
                Some("/technical-personnel/"@ + int_text(id as int)),
            ),
            "Error checking if personnel is a supervisor: "@,
        ),
{
    proof {
        reveal_strlit("");
        assert("/technical-personnel/"@ + int_text(id as int) + ""@ =~= "/technical-personnel/"@
            + int_text(id as int));
    }
    Guard::strict(
        by_id(IS_SUPERVISOR_SQL, id),
        false,
        Reply::refuse(
            String::from_str(
                "Cannot delete technical personnel: they are supervising a department or area",
            ),
            Some(around_i32("/technical-personnel/", id, "")),
        ),
        "Error checking if personnel is a supervisor: ",
    )
}

/// The steps that delete the person `id` of the qualification `current`:
/// its qualification-specific row, its personnel row and its employee row.
pub open spec fn personnel_removal(id: i32, current: Qualification) -> Seq<Meant<Qualification>> {
    seq![
        Meant {
            op: Op::DeleteSatellite(current),
            step: step(qualification_delete(id, current), "Error deleting qualification data: "@),
        },
        Meant {
            op: Op::DeleteBase,
            step: step(
                fixed(TECHNICAL_PERSONNEL_DELETE_SQL@).arg(SqlValueView::Int(id)),
                "Error deleting technical personnel: "@,
            ),
        },
        other(
            step(
                fixed(EMPLOYEE_DELETE_SQL@).arg(SqlValueView::Int(id)),
                "Error deleting employee: "@,
            ),
        ),
    ]
}

/// The stage of the deletion of the person `id` that follows `progress`.
pub open spec fn technical_personnel_delete_plan(id: i32, progress: PersonnelProgress) -> StageView {
    match progress {
        PersonnelProgress::Begun => StageView {
            steps: Seq::empty(),
            next: NextView::Ask(
                FetchView {
                    statement: fixed(QUALIFICATION_SQL@).arg(SqlValueView::Int(id)),
                    failure: "Error fetching personnel's qualification: "@,
                },
            ),
        },
        PersonnelProgress::QualificationRead(None) => StageView {
            steps: Seq::empty(),
            next: NextView::Abort(
                ReplyView::Html(
                    paragraph_about("Technical personnel with ID "@, id as int, " not found"@),
                ),
            ),
        },
        PersonnelProgress::QualificationRead(Some(current)) => StageView {
            steps: steps_of(personnel_removal(id, current)),
            next: NextView::Commit(
                success_note(
                    "Technical personnel deleted successfully"@,
                    Some("/technical-personnel"@),
                ),
            ),
        },
    }
}

/// The stage of the deletion of the person `id` that follows `progress`.
pub fn technical_personnel_delete_stage(id: i32, progress: PersonnelProgress) -> (s: Stage)
    ensures
        s@ == technical_personnel_delete_plan(id, progress),
{
    match progress {
        PersonnelProgress::Begun => {
            let s = Stage {
                steps: Vec::new(),
                next: Next::Ask(
                    Fetch {
                        statement: by_id(QUALIFICATION_SQL, id),
                        failure: "Error fetching personnel's qualification: ",
                    },
                ),
            };
            assert(s@.steps =~= Seq::<StepView>::empty());
            s
        },
        PersonnelProgress::QualificationRead(None) => not_found_stage(id),
        PersonnelProgress::QualificationRead(Some(current)) => {
            let mut steps: Vec<Step> = Vec::new();
            steps.push(
                Step::new(
                    qualification_delete_statement(id, current),
                    "Error deleting qualification data: ",
                ),
            );
            steps.push(
                Step::new(
                    by_id(TECHNICAL_PERSONNEL_DELETE_SQL, id),
                    "Error deleting technical personnel: ",
                ),
            );
            steps.push(Step::new(by_id(EMPLOYEE_DELETE_SQL, id), "Error deleting employee: "));
            assert(steps_view(steps@) =~= steps_of(personnel_removal(id, current)));
            Stage {
                steps,
                next: Next::Commit(
                    NotificationTemplate::success(
                        String::from_str("Technical personnel deleted successfully"),
                        Some(String::from_str("/technical-personnel")),
                    ),
                ),
            }
        },
    }
}

/// A deletion that is committed leaves no row of the person; one that is
/// rolled back leaves the person as it was.
pub proof fn lemma_personnel_delete_leaves_nothing(id: i32, current: Qualification, committed: bool)
    ensures
        transact(live(current), ops_of(personnel_removal(id, current)), committed) == (
        if committed {
            absent()
        } else {
            live(current)
        }),
        in_order(transact(live(current), ops_of(personnel_removal(id, current)), committed)),
{
    let e = live(current);
    let ops = ops_of(personnel_removal(id, current));
    let a = seq![Op::<Qualification>::Other];
    let b = seq![Op::DeleteSatellite(current)];
    let c = seq![Op::<Qualification>::DeleteBase];
    assert(ops =~= b + c + a);
    lemma_apply_parts(e, b + c, a);
    lemma_apply_parts(e, b, c);
    lemma_apply_one(e, Op::DeleteSatellite(current));
    lemma_apply_one(apply(e, Op::DeleteSatellite(current)), Op::DeleteBase);
    lemma_apply_one(absent::<Qualification>(), Op::Other);
    lemma_delete_leaves_nothing(current);
}

/// The life of a person: created, changed to another qualification,
/// updated without a change of qualification, and deleted, each in a
/// transaction that is committed or rolled back, with forms that hold
/// anything at all. At every point the rows are in order: no personnel row
/// and no row of a qualification, or a personnel row and exactly the one
/// row of its qualification. A person that was created stays until it is
/// deleted, and after a deletion that was committed it has no row.
pub proof fn lemma_personnel_life_keeps_one_row(
    id: i32,
    create: TechnicalPersonnelCreateForm,
    change: TechnicalPersonnelUpdateForm,
    update: TechnicalPersonnelUpdateForm,
    created: bool,
    changed: bool,
    updated: bool,
    deleted: bool,
)
    ensures
        ({
            let born = transact(absent(), ops_of(personnel_create_run(create, id)), created);
            let second = transact(
                born,
                ops_of(personnel_update_run(id, change, born.base->0)),
                changed,
            );
            let third = transact(
                second,
                ops_of(personnel_update_run(id, update, second.base->0)),
                updated,
            );
            let last = transact(third, ops_of(personnel_removal(id, third.base->0)), deleted);
            &&& in_order(born)
            &&& born.base is Some <==> created && create_agrees(create)
            &&& born.base is Some ==> {
                &&& second.base is Some && in_order(second)
                &&& third.base is Some && in_order(third)
                &&& changed && update_agrees(change) ==> second == live(change.qualification)
                &&& updated && update_agrees(update) ==> third == live(update.qualification)
                &&& in_order(last)
                &&& last == (if deleted {
                    absent()
                } else {
                    third
                })
            }
        }),
{
    lemma_personnel_create_in_order(create, id, created);
    let born = transact(absent(), ops_of(personnel_create_run(create, id)), created);
    if born.base is Some {
        let kind1 = born.base->0;
        lemma_personnel_update_keeps_order(id, change, kind1, changed);
        let second = transact(born, ops_of(personnel_update_run(id, change, kind1)), changed);
        let kind2 = second.base->0;
        lemma_personnel_update_keeps_order(id, update, kind2, updated);
        let third = transact(second, ops_of(personnel_update_run(id, update, kind2)), updated);
        let kind3 = third.base->0;
        lemma_personnel_delete_leaves_nothing(id, kind3, deleted);
    }
}

/// The order that a sort key of the personnel listing stands for. A key
/// that the listing does not know orders by the primary key.
pub open spec fn technical_personnel_order(key: Seq<char>) -> OrderView {
    if key == "name"@ {
        by_columns("e.last_name"@, "e.first_name"@)
    } else if key == "qualification"@ {
        by_column("tp.qualification"@)
    } else if key == "position"@ {
        by_column("tp.position"@)
    } else {
        by_column("tp.id"@)
    }
}

/// The order that a sort key of the personnel listing stands for.
pub fn technical_personnel_order_column(key: &str) -> (order: Order)
    ensures
        order@ == technical_personnel_order(key@),
{
    if str_eq(key, "name") {
        Order::by_columns("e.last_name", "e.first_name")
    } else if str_eq(key, "qualification") {
        Order::by_column("tp.qualification")
    } else if str_eq(key, "position") {
        Order::by_column("tp.position")
    } else {
        Order::by_column("tp.id")
    }
}

/// Whatever the sort key, the listing is ordered by one of its own columns,
/// never by the key itself; and a key that the listing does not know orders
/// by the primary key.
pub proof fn lemma_technical_personnel_order_is_listed(key: Seq<char>)
    ensures
        technical_personnel_order(key) == by_columns("e.last_name"@, "e.first_name"@) || technical_personnel_order(key) == by_column("tp.qualification"@) || technical_personnel_order(key) == by_column("tp.position"@) || technical_personnel_order(key) == by_column("tp.id"@),
        key != "name"@ && key != "qualification"@ && key != "position"@ ==> technical_personnel_order(key) == by_column("tp.id"@),
{
}

/// The conditions of the personnel listing: one for each field of the
/// filter that is present.
pub open spec fn technical_personnel_conditions(filter: TechnicalPersonnelListFilter) -> Seq<
    Seq<PieceView>,
> {
    when_present(
        match filter.qualification {
            Some(q) => Some(SqlValueView::Qualification(q)),
            None => None,
        },
        "tp.qualification = "@,
        ""@,
    ) + when_present(
        match filter.position {
            Some(p) => Some(SqlValueView::Position(p)),
            None => None,
        },
        "tp.position = "@,
        ""@,
    ) + when_present(
        int_filter(filter.department_id),
        "EXISTS (SELECT 1 FROM area WHERE department_id = "@,
        " AND id = tp.area_id)"@,
    ) + when_present(int_filter(filter.area_id), "tp.area_id = "@, ""@) + when_present_twice(
        pattern_filter(opt_text(filter.name)),
        "(e.last_name ILIKE "@,
        " OR e.first_name ILIKE "@,
        ")"@,
    )
}

/// The conditions of the personnel listing.
pub fn technical_personnel_predicates(filter: &TechnicalPersonnelListFilter) -> (p: Predicates)
    ensures
        p@ == technical_personnel_conditions(*filter),
{
    let mut p = Predicates::new();
    p.add_bound(
        match filter.qualification {
            Some(q) => Some(SqlValue::Qualification(q)),
            None => None,
        },
        "tp.qualification = ",
        "",
    );
    p.add_bound(
        match filter.position {
            Some(position) => Some(SqlValue::Position(position)),
            None => None,
        },
        "tp.position = ",
        "",
    );
    p.add_bound(
        filter_int(filter.department_id),
        "EXISTS (SELECT 1 FROM area WHERE department_id = ",
        " AND id = tp.area_id)",
    );
    p.add_bound(filter_int(filter.area_id), "tp.area_id = ", "");
    p.add_bound_twice(
        filter_pattern(&filter.name),
        "(e.last_name ILIKE ",
        " OR e.first_name ILIKE ",
        ")",
    );
    assert(p@ =~= technical_personnel_conditions(*filter));
    p
}

/// The listing of technical personnel: the count of the persons that the
/// filter admits, and the page of them that `pagination` asks for, in the
/// order that the filter asks for.
pub fn technical_personnel_list_queries(
    pagination: &Pagination,
    filter: &TechnicalPersonnelListFilter,
) -> (l: Listing)
    ensures
        l@.count.statement == filtered(
            TECHNICAL_PERSONNEL_COUNT_SQL@,
            technical_personnel_conditions(*filter),
        ),
        l@.count.failure == "Error counting technical personnel: "@,
        l@.page.statement == paged(
            filtered(TECHNICAL_PERSONNEL_LIST_SQL@, technical_personnel_conditions(*filter)),
            technical_personnel_order(filter.sort.sort_by@),
            filter.sort.sort_direction,
            *pagination,
        ),
        l@.page.failure == "Error fetching technical personnel: "@,
{
    let conditions = technical_personnel_predicates(filter);
    let count = Statement::filtered(TECHNICAL_PERSONNEL_COUNT_SQL, &conditions);
    let page = Statement::filtered(TECHNICAL_PERSONNEL_LIST_SQL, &conditions).paged(
        technical_personnel_order_column(filter.sort.sort_by.as_str()),
        filter.sort.sort_direction,
        pagination,
    );
    Listing {
        count: Fetch { statement: count, failure: "Error counting technical personnel: " },
        page: Fetch { statement: page, failure: "Error fetching technical personnel: " },
    }
}

} // verus!
