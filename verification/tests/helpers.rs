use onyx_core_builders::flow::Fetch;
use onyx_core_builders::general::{Position, Profession, Qualification, SiteType};
use onyx_core_builders::helpers::{
    areas_selector, brigades_selector, clients_selector, departments_selector,
    equipment_selector, error_paragraph_of, materials_selector, selector_render_failure,
    selector_rows, sites_selector, tasks_selector, technical_personnel_selector,
    workers_selector, AreaFilter, AreaQuery, BrigadeFilter, BrigadeQuery, ClientFilter,
    DepartmentFilter, EquipmentFilter, EquipmentQuery, MaterialFilter, SiteFilter, SiteQuery,
    TaskFilter, TaskQuery, TechnicalPersonnelFilter, TechnicalPersonnelQuery, WorkerFilter,
    WorkerQuery, BRIGADE_SELECTOR_SQL, PERSONNEL_SELECTOR_SQL, TASK_SELECTOR_SQL,
    WORKER_SELECTOR_SQL,
};
use onyx_core_builders::sql::{SqlValue, Statement};

fn name(n: &str) -> Option<String> {
    Some(String::from(n))
}

#[test]
fn selector_errors_are_marked() {
    assert_eq!(
        error_paragraph_of("Error loading areas: ", "down"),
        "<p class=\"text-error\">Error loading areas: down</p>"
    );
    assert_eq!(
        selector_render_failure("bad"),
        "<p class=\"text-error\">Error rendering template: bad</p>"
    );
    let f = Fetch { statement: Statement::new("SELECT 1"), failure: "Error loading sites: " };
    assert_eq!(selector_rows(&f, Ok(vec![1])), Ok(vec![1]));
    assert_eq!(
        selector_rows(&f, Err::<Vec<i32>, String>(String::from("down"))),
        Err(String::from("<p class=\"text-error\">Error loading sites: down</p>"))
    );
}

#[test]
fn selectors_by_name() {
    let d = departments_selector(&DepartmentFilter { name: None });
    assert_eq!(d.statement.sql, "SELECT id, name FROM department ORDER BY name");
    assert!(d.statement.binds.is_empty());
    assert_eq!(d.failure, "Error loading departments: ");
    let d = departments_selector(&DepartmentFilter { name: name("ro") });
    assert_eq!(d.statement.sql, "SELECT id, name FROM department WHERE name ILIKE $1 ORDER BY name");
    assert_eq!(d.statement.binds, vec![SqlValue::Text(String::from("%ro%"))]);
    let c = clients_selector(&ClientFilter { name: name("x") });
    assert_eq!(c.statement.sql, "SELECT id, name FROM client WHERE name ILIKE $1 ORDER BY name");
    assert_eq!(c.failure, "Error loading clients: ");
    let m = materials_selector(&MaterialFilter { name: None });
    assert_eq!(m.statement.sql, "SELECT id, name, units FROM material ORDER BY name");
    assert_eq!(m.failure, "Error loading materials: ");
}

#[test]
fn area_and_site_selectors() {
    let a = areas_selector(
        &AreaQuery { department_id: Some(3), selected_id: Some(1) },
        &AreaFilter { name: name("n") },
    );
    assert_eq!(
        a.statement.sql,
        "SELECT id, name FROM area WHERE department_id = $1 AND name ILIKE $2 ORDER BY name"
    );
    assert_eq!(a.statement.binds, vec![SqlValue::BigInt(3), SqlValue::Text(String::from("%n%"))]);
    let a = areas_selector(&AreaQuery { department_id: None, selected_id: None }, &AreaFilter { name: name("n") });
    assert_eq!(a.statement.sql, "SELECT id, name FROM area WHERE name ILIKE $1 ORDER BY name");
    let s = sites_selector(
        &SiteQuery {
            area_id: Some(1),
            department_id: Some(2),
            client_id: Some(3),
            type_: Some(SiteType::Bridge),
            selected_id: None,
        },
        &SiteFilter { name: name("g") },
    );
    assert_eq!(
        s.statement.sql,
        "SELECT id, name, type FROM site WHERE area_id = $1 AND EXISTS (SELECT 1 FROM area a WHERE a.id = site.area_id AND a.department_id = $2) AND client_id = $3 AND type = $4 AND name ILIKE $5 ORDER BY name"
    );
    assert_eq!(
        s.statement.binds,
        vec![
            SqlValue::Int(1),
            SqlValue::Int(2),
            SqlValue::Int(3),
            SqlValue::SiteType(SiteType::Bridge),
            SqlValue::Text(String::from("%g%")),
        ]
    );
    assert_eq!(s.failure, "Error loading sites: ");
}

#[test]
fn people_selectors() {
    let p = technical_personnel_selector(
        &TechnicalPersonnelQuery {
            qualification: Some(Qualification::Engineer),
            position: Some(Position::Master),
            department_id: Some(1),
            area_id: Some(2),
            selected_id: None,
        },
        &TechnicalPersonnelFilter { name: name("e") },
    );
    assert_eq!(
        p.statement.sql,
        format!(
            "{} WHERE tp.qualification = $1 AND tp.position = $2 AND EXISTS (SELECT 1 FROM department d WHERE d.supervisor_id = tp.id AND d.id = $3) AND EXISTS (SELECT 1 FROM area a WHERE a.supervisor_id = tp.id AND a.id = $4) AND (e.last_name ILIKE $5 OR e.first_name ILIKE $6) ORDER BY name",
            PERSONNEL_SELECTOR_SQL
        )
    );
    assert_eq!(p.statement.binds.len(), 6);
    assert_eq!(p.statement.binds[2], SqlValue::BigInt(1));
    assert_eq!(p.failure, "Error loading technical personnel: ");
    let w = workers_selector(
        &WorkerQuery {
            profession: Some(Profession::Welder),
            brigade_id: Some(4),
            is_brigadier: Some(true),
            selected_id: None,
        },
        &WorkerFilter { name: None },
    );
    assert_eq!(
        w.statement.sql,
        format!(
            "{} WHERE w.profession = $1 AND EXISTS (SELECT 1 FROM assignment a WHERE a.worker_id = w.id AND a.brigade_id = $2) AND  EXISTS (SELECT 1 FROM brigade b WHERE b.brigadier_id = w.id) ORDER BY name",
            WORKER_SELECTOR_SQL
        )
    );
    assert_eq!(w.statement.binds, vec![SqlValue::Profession(Profession::Welder), SqlValue::BigInt(4)]);
    let b = brigades_selector(
        &BrigadeQuery { site_id: None, available: Some(true), selected_id: None },
        &BrigadeFilter { brigadier_name: name("k") },
    );
    assert_eq!(
        b.statement.sql,
        format!(
            "{} WHERE  NOT EXISTS (SELECT 1 FROM task t WHERE t.brigade_id = b.id AND t.actual_period_end IS NULL) AND (e.last_name ILIKE $1 OR e.first_name ILIKE $2) ORDER BY brigadier_name",
            BRIGADE_SELECTOR_SQL
        )
    );
    assert_eq!(b.failure, "Error loading brigades: ");
}

#[test]
fn equipment_and_task_selectors() {
    let e = equipment_selector(
        &EquipmentQuery { available: Some(false), selected_id: None },
        &EquipmentFilter { name: name("c") },
    );
    assert_eq!(
        e.statement.sql,
        "SELECT id, name, amount as available_amount FROM equipment WHERE amount = 0 AND name ILIKE $1 ORDER BY name"
    );
    let e = equipment_selector(
        &EquipmentQuery { available: Some(true), selected_id: None },
        &EquipmentFilter { name: None },
    );
    assert_eq!(
        e.statement.sql,
        "SELECT id, name, amount as available_amount FROM equipment WHERE amount > 0 ORDER BY name"
    );
    let query = |status: Option<&str>| TaskQuery {
        site_id: Some(1),
        brigade_id: None,
        status: status.map(String::from),
        selected_id: None,
    };
    let filter = TaskFilter { name: name("d") };
    for (status, text) in [
        ("completed", " AND t.actual_period_end IS NOT NULL"),
        ("in_progress", " AND t.actual_period_end IS NULL AND t.brigade_id IS NOT NULL"),
        ("unassigned", " AND t.brigade_id IS NULL"),
        ("planned", ""),
    ] {
        let t = tasks_selector(&query(Some(status)), &filter);
        assert_eq!(
            t.statement.sql,
            format!("{} WHERE t.site_id = $1{} AND t.name ILIKE $2 ORDER BY t.name", TASK_SELECTOR_SQL, text)
        );
        assert_eq!(t.statement.binds, vec![SqlValue::Int(1), SqlValue::Text(String::from("%d%"))]);
    }
    assert_eq!(tasks_selector(&query(None), &filter), tasks_selector(&query(Some("planned")), &filter));
    assert_eq!(tasks_selector(&query(None), &filter).failure, "Error loading tasks: ");
}
