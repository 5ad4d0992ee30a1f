use onyx_core_builders::sql::Order;
use onyx_core_builders::flow::Fetch;
use onyx_core_builders::general::{
    Gender, NotificationResult, NotificationTemplate, Pagination, Profession, Reply, Sort,
    SortDirection,
};
use onyx_core_builders::sql::{SqlType, SqlValue, Statement};
use onyx_core_builders::transaction::{Failure, Move, Next, Stage};
use onyx_core_builders::workers::{
    profession_fields_query, worker_api_details_page, worker_brigade_found, worker_create_stage,
    worker_delete_guard, worker_delete_stage, worker_edit_page, worker_found, worker_order_column,
    worker_update_stage, workers_list_queries, BrigadeInfo, DriverFields, ElectricianFields,
    MasonFields, PlumberFields, ProfessionFields, WelderFields, WorkerBasicInfo,
    WorkerCreateForm, WorkerCreateProgress, WorkerDeleteProgress, WorkerListFilter,
    WorkerUpdateForm, WorkerUpdateProgress, WORKER_LIST_SQL,
};

fn driver() -> ProfessionFields {
    ProfessionFields::Driver(DriverFields { vehicle_type: String::from("truck"), number_of_accidents: 1 })
}

fn update_form(profession: Profession, fields: ProfessionFields, brigade_id: Option<i32>) -> WorkerUpdateForm {
    WorkerUpdateForm {
        first_name: String::from("Ann"),
        last_name: String::from("Lee"),
        middle_name: None,
        gender: Gender::Female,
        phone_number: String::from("555"),
        salary: 1000,
        profession,
        union_name: Some(String::from("U1")),
        brigade_id,
        profession_fields: fields,
    }
}

fn create_form(brigade_id: Option<i32>) -> WorkerCreateForm {
    WorkerCreateForm {
        first_name: String::from("Bo"),
        last_name: String::from("Kim"),
        middle_name: Some(String::from("J")),
        gender: Gender::Male,
        phone_number: String::from("777"),
        salary: 900,
        profession: Profession::Driver,
        union_name: None,
        brigade_id,
        profession_fields: driver(),
    }
}

fn sqls(stage: &Stage) -> Vec<String> {
    stage.steps.iter().map(|s| s.statement.sql.clone()).collect()
}

fn words(stage: &Stage) -> Vec<&'static str> {
    stage
        .steps
        .iter()
        .map(|s| match &s.failure {
            Failure::Paragraph(w) => *w,
            Failure::Notification { before, .. } => *before,
        })
        .collect()
}

fn html(text: &str) -> Reply {
    Reply::Html(String::from(text))
}

#[test]
fn worker_update_starts_with_the_employee_row() {
    let form = update_form(Profession::Driver, driver(), None);
    let stage = worker_update_stage(3, &form, WorkerUpdateProgress::Begun);
    assert_eq!(stage.steps.len(), 1);
    assert!(stage.steps[0].statement.sql.starts_with("UPDATE employee"));
    assert_eq!(
        stage.steps[0].statement.binds,
        vec![
            SqlValue::Text(String::from("Ann")),
            SqlValue::Text(String::from("Lee")),
            SqlValue::Null(SqlType::Text),
            SqlValue::Gender(Gender::Female),
            SqlValue::Text(String::from("555")),
            SqlValue::Int(1000),
            SqlValue::Int(3),
        ]
    );
    assert_eq!(words(&stage), vec!["Error updating employee data: "]);
    assert_eq!(
        stage.next,
        Next::Ask(Fetch {
            statement: Statement::new("SELECT profession FROM worker WHERE id = $1").bind(SqlValue::Int(3)),
            failure: "Error fetching current profession: ",
        })
    );
}

#[test]
fn worker_update_of_a_missing_worker_is_aborted() {
    let form = update_form(Profession::Driver, driver(), None);
    let stage = worker_update_stage(3, &form, WorkerUpdateProgress::ProfessionRead(None));
    assert!(stage.steps.is_empty());
    assert_eq!(stage.next, Next::Abort(html("<p>Worker with ID 3 not found</p>")));
}

#[test]
fn worker_update_that_keeps_the_profession_updates_its_row() {
    let form = update_form(Profession::Driver, driver(), None);
    let stage = worker_update_stage(3, &form, WorkerUpdateProgress::ProfessionRead(Some(Profession::Driver)));
    let all = sqls(&stage);
    assert_eq!(all.len(), 2);
    assert!(all[0].starts_with("UPDATE worker"));
    assert_eq!(all[1], "UPDATE driver SET vehicle_type = $1, number_of_accidents = $2 WHERE id = $3");
    assert_eq!(
        stage.steps[0].statement.binds,
        vec![SqlValue::Profession(Profession::Driver), SqlValue::Text(String::from("U1")), SqlValue::Int(3)]
    );
    assert_eq!(
        stage.steps[1].statement.binds,
        vec![SqlValue::Text(String::from("truck")), SqlValue::Int(1), SqlValue::Int(3)]
    );
    assert_eq!(words(&stage), vec!["Error updating worker data: ", "Error updating profession-specific data: "]);
    assert!(matches!(stage.next, Next::Ask(_)));
}

#[test]
fn worker_update_that_changes_the_profession_replaces_its_row() {
    let form = update_form(Profession::Driver, driver(), None);
    let stage = worker_update_stage(3, &form, WorkerUpdateProgress::ProfessionRead(Some(Profession::Mason)));
    let all = sqls(&stage);
    assert_eq!(all.len(), 3);
    assert_eq!(all[0], "DELETE FROM mason WHERE id = $1");
    assert!(all[1].starts_with("UPDATE worker"));
    assert_eq!(all[2], "INSERT INTO driver (id, vehicle_type, number_of_accidents) VALUES ($1, $2, $3)");
    assert_eq!(
        stage.steps[2].statement.binds,
        vec![SqlValue::Int(3), SqlValue::Text(String::from("truck")), SqlValue::Int(1)]
    );
    assert_eq!(
        words(&stage),
        vec![
            "Error removing old profession data: ",
            "Error updating worker data: ",
            "Error updating profession-specific data: ",
        ]
    );
}

#[test]
fn every_profession_has_its_own_table() {
    let all = [
        (
            Profession::Electrician,
            ProfessionFields::Electrician(ElectricianFields { voltage_specialization: String::from("hv") }),
            "electrician",
            "voltage_specialization",
        ),
        (
            Profession::Plumber,
            ProfessionFields::Plumber(PlumberFields { pipe_specialization: String::from("pvc") }),
            "plumber",
            "pipe_specialization",
        ),
        (
            Profession::Welder,
            ProfessionFields::Welder(WelderFields { welding_machine: String::from("mig") }),
            "welder",
            "welding_machine",
        ),
        (Profession::Driver, driver(), "driver", "vehicle_type, number_of_accidents"),
        (
            Profession::Mason,
            ProfessionFields::Mason(MasonFields { hq_restoration_skills: true }),
            "mason",
            "hq_restoration_skills",
        ),
    ];
    for (profession, fields, table, columns) in all {
        assert_eq!(fields.kind(), profession);
        let query = profession_fields_query(8, profession);
        assert_eq!(query.statement.sql, format!("SELECT {} FROM {} WHERE id = $1", columns, table));
        assert_eq!(query.statement.binds, vec![SqlValue::Int(8)]);
        assert_eq!(query.failure, format!("Error fetching {} data: ", table));
        let stage = worker_delete_stage(8, WorkerDeleteProgress::ProfessionRead(Some(profession)));
        assert_eq!(sqls(&stage)[1], format!("DELETE FROM {} WHERE id = $1", table));
    }
}

#[test]
fn worker_update_reads_assignment_and_brigadier() {
    let form = update_form(Profession::Driver, driver(), Some(4));
    let a = worker_update_stage(3, &form, WorkerUpdateProgress::AssignmentRead(Some(Some(4))));
    assert!(a.steps.is_empty());
    assert_eq!(
        a.next,
        Next::Ask(Fetch {
            statement: Statement::new("SELECT EXISTS(SELECT 1 FROM brigade WHERE brigadier_id = $1)")
                .bind(SqlValue::Int(3)),
            failure: "Error checking worker's brigade status: ",
        })
    );
}

#[test]
fn a_brigadier_cannot_move_to_another_brigade() {
    let form = update_form(Profession::Driver, driver(), Some(5));
    for assignment in [Some(Some(4)), Some(None), None] {
        let stage = worker_update_stage(
            3,
            &form,
            WorkerUpdateProgress::BrigadierRead { assignment, is_brigadier: true },
        );
        assert!(stage.steps.is_empty());
        assert_eq!(
            stage.next,
            Next::Abort(Reply::Notification(NotificationTemplate {
                result: NotificationResult::Error,
                message: Some(String::from("Brigadier cannot be assigned to a different brigade")),
                redirect: Some(String::from("/workers/3/edit")),
            }))
        );
    }
    let stays = worker_update_stage(
        3,
        &form,
        WorkerUpdateProgress::BrigadierRead { assignment: Some(Some(5)), is_brigadier: true },
    );
    assert!(stays.steps.is_empty());
    assert!(matches!(stays.next, Next::Commit(_)));
    let leaves = update_form(Profession::Driver, driver(), None);
    let stage = worker_update_stage(
        3,
        &leaves,
        WorkerUpdateProgress::BrigadierRead { assignment: Some(Some(5)), is_brigadier: true },
    );
    assert_eq!(sqls(&stage), vec![String::from("DELETE FROM assignment WHERE worker_id = $1")]);
}

#[test]
fn worker_update_moves_between_brigades() {
    let commit = Next::Commit(NotificationTemplate {
        result: NotificationResult::Success,
        message: Some(String::from("Worker Ann Lee updated successfully")),
        redirect: Some(String::from("/workers/3")),
    });
    let run = |wanted: Option<i32>, assignment: Option<Option<i32>>| {
        worker_update_stage(
            3,
            &update_form(Profession::Driver, driver(), wanted),
            WorkerUpdateProgress::BrigadierRead { assignment, is_brigadier: false },
        )
    };
    let moved = run(Some(5), Some(Some(4)));
    assert_eq!(
        sqls(&moved),
        vec![
            String::from("DELETE FROM assignment WHERE worker_id = $1"),
            String::from("INSERT INTO assignment (worker_id, brigade_id) VALUES ($1, $2)"),
        ]
    );
    assert_eq!(moved.steps[1].statement.binds, vec![SqlValue::Int(3), SqlValue::Int(5)]);
    assert_eq!(
        words(&moved),
        vec!["Error removing worker from current brigade: ", "Error adding worker to new brigade: "]
    );
    assert_eq!(moved.next, commit);
    let from_null = run(Some(5), Some(None));
    assert_eq!(sqls(&from_null).len(), 2);
    let joined = run(Some(5), None);
    assert_eq!(sqls(&joined), vec![String::from("INSERT INTO assignment (worker_id, brigade_id) VALUES ($1, $2)")]);
    assert_eq!(words(&joined), vec!["Error adding worker to brigade: "]);
    let left = run(None, Some(Some(4)));
    assert_eq!(sqls(&left), vec![String::from("DELETE FROM assignment WHERE worker_id = $1")]);
    assert_eq!(words(&left), vec!["Error removing worker from brigade: "]);
    assert!(run(None, None).steps.is_empty());
    assert!(run(Some(4), Some(Some(4))).steps.is_empty());
    assert_eq!(run(None, None).next, commit);
}

#[test]
fn worker_creation() {
    let form = create_form(Some(6));
    let begun = worker_create_stage(&form, WorkerCreateProgress::Begun);
    assert!(begun.steps.is_empty());
    match begun.next {
        Next::Insert(fetch) => {
            assert!(fetch.statement.sql.contains("VALUES ('worker', $1, $2, $3, $4, $5, $6)"));
            assert_eq!(
                fetch.statement.binds,
                vec![
                    SqlValue::Text(String::from("Bo")),
                    SqlValue::Text(String::from("Kim")),
                    SqlValue::Text(String::from("J")),
                    SqlValue::Gender(Gender::Male),
                    SqlValue::Text(String::from("777")),
                    SqlValue::Int(900),
                ]
            );
            assert_eq!(fetch.failure, "Error creating employee: ");
        }
        other => panic!("unexpected: {:?}", other),
    }
    let created = worker_create_stage(&form, WorkerCreateProgress::EmployeeCreated(12));
    let all = sqls(&created);
    assert_eq!(all.len(), 2);
    assert!(all[0].starts_with("INSERT INTO worker (id, profession, union_name)"));
    assert_eq!(all[1], "INSERT INTO driver (id, vehicle_type, number_of_accidents) VALUES ($1, $2, $3)");
    assert_eq!(
        created.steps[0].statement.binds,
        vec![SqlValue::Int(12), SqlValue::Profession(Profession::Driver), SqlValue::Null(SqlType::Text)]
    );
    assert_eq!(words(&created), vec!["Error creating worker: ", "Error creating profession-specific data: "]);
    assert_eq!(
        created.next,
        Next::Ask(Fetch {
            statement: Statement::new("SELECT EXISTS(SELECT 1 FROM brigade WHERE id = $1)").bind(SqlValue::Int(6)),
            failure: "Error checking brigade existence: ",
        })
    );
    let commit = Next::Commit(NotificationTemplate {
        result: NotificationResult::Success,
        message: Some(String::from("Worker Bo Kim created successfully")),
        redirect: Some(String::from("/workers/12")),
    });
    let assigned =
        worker_create_stage(&form, WorkerCreateProgress::BrigadeChecked { employee_id: 12, exists: true });
    assert_eq!(sqls(&assigned), vec![String::from("INSERT INTO assignment (worker_id, brigade_id) VALUES ($1, $2)")]);
    assert_eq!(assigned.steps[0].statement.binds, vec![SqlValue::Int(12), SqlValue::Int(6)]);
    assert_eq!(words(&assigned), vec!["Error assigning worker to brigade: "]);
    assert_eq!(assigned.next, commit);
    let missing =
        worker_create_stage(&form, WorkerCreateProgress::BrigadeChecked { employee_id: 12, exists: false });
    assert!(missing.steps.is_empty());
    assert_eq!(
        missing.next,
        Next::Abort(Reply::Notification(NotificationTemplate {
            result: NotificationResult::Error,
            message: Some(String::from("Brigade with ID 6 does not exist")),
            redirect: Some(String::from("/workers/new")),
        }))
    );
    let alone = worker_create_stage(&create_form(None), WorkerCreateProgress::EmployeeCreated(12));
    assert_eq!(alone.next, commit);
}

#[test]
fn a_failed_satellite_insert_rolls_the_creation_back() {
    let stage = worker_create_stage(&create_form(None), WorkerCreateProgress::EmployeeCreated(12));
    assert_eq!(stage.start(), Move::Execute(0));
    assert_eq!(stage.advance(1, Ok(1)), Move::Execute(1));
    assert_eq!(
        stage.advance(2, Err(String::from("unique violation"))),
        Move::RollBack(html("<p>Error creating profession-specific data: unique violation</p>"))
    );
    assert_eq!(
        stage.advance(1, Err(String::from("e"))),
        Move::RollBack(html("<p>Error creating worker: e</p>"))
    );
}

#[test]
fn worker_deletion() {
    let guard = worker_delete_guard(3);
    assert_eq!(guard.probe.sql, "SELECT EXISTS(SELECT 1 FROM brigade WHERE brigadier_id = $1)");
    assert_eq!(guard.clone().verdict(Ok(false)), None);
    assert_eq!(
        guard.clone().verdict(Ok(true)),
        Some(Reply::Notification(NotificationTemplate {
            result: NotificationResult::Error,
            message: Some(String::from("Cannot delete worker: Worker is a brigadier. Remove brigade first.")),
            redirect: Some(String::from("/workers/3")),
        }))
    );
    assert_eq!(
        guard.verdict(Err(String::from("down"))),
        Some(html("<p>Error checking if worker is a brigadier: down</p>"))
    );
    let begun = worker_delete_stage(3, WorkerDeleteProgress::Begun);
    assert!(begun.steps.is_empty());
    assert_eq!(
        begun.next,
        Next::Ask(Fetch {
            statement: Statement::new("SELECT profession FROM worker WHERE id = $1").bind(SqlValue::Int(3)),
            failure: "Error fetching worker's profession: ",
        })
    );
    assert_eq!(
        worker_delete_stage(3, WorkerDeleteProgress::ProfessionRead(None)).next,
        Next::Abort(html("<p>Worker with ID 3 not found</p>"))
    );
    let stage = worker_delete_stage(3, WorkerDeleteProgress::ProfessionRead(Some(Profession::Welder)));
    assert_eq!(
        sqls(&stage),
        vec![
            String::from("DELETE FROM assignment WHERE worker_id = $1"),
            String::from("DELETE FROM welder WHERE id = $1"),
            String::from("DELETE FROM worker WHERE id = $1"),
            String::from("DELETE FROM employee WHERE id = $1"),
        ]
    );
    assert_eq!(
        words(&stage),
        vec![
            "Error removing worker from assignments: ",
            "Error deleting profession data: ",
            "Error deleting worker: ",
            "Error deleting employee: ",
        ]
    );
    assert_eq!(
        stage.next,
        Next::Commit(NotificationTemplate {
            result: NotificationResult::Success,
            message: Some(String::from("Worker deleted successfully")),
            redirect: Some(String::from("/workers")),
        })
    );
}

#[test]
fn worker_list() {
    let filter = WorkerListFilter {
        sort: Sort { sort_by: String::from("name"), sort_direction: SortDirection::Ascending },
        profession: Some(Profession::Mason),
        brigade_id: Some(2),
        is_brigadier: Some(false),
        name: Some(String::from("ee")),
    };
    let l = workers_list_queries(&Pagination { page_number: 2, page_size: 20 }, &filter);
    let clause = " WHERE w.profession = $1 AND a.brigade_id = $2 AND NOT EXISTS (SELECT 1 FROM brigade b WHERE b.brigadier_id = w.id) AND (e.last_name ILIKE $3 OR e.first_name ILIKE $4)";
    assert_eq!(
        l.count.statement.sql,
        format!("SELECT COUNT(*) FROM ({}{}) as count_query", WORKER_LIST_SQL, clause)
    );
    assert_eq!(
        l.page.statement.sql,
        format!("{}{} ORDER BY e.last_name ASC, e.first_name ASC LIMIT $5 OFFSET $6", WORKER_LIST_SQL, clause)
    );
    let conditions = vec![
        SqlValue::Profession(Profession::Mason),
        SqlValue::Int(2),
        SqlValue::Text(String::from("%ee%")),
        SqlValue::Text(String::from("%ee%")),
    ];
    assert_eq!(l.count.statement.binds, conditions);
    assert_eq!(l.page.statement.binds[..4], conditions[..]);
    assert_eq!(l.page.statement.binds[4..], [SqlValue::BigInt(20), SqlValue::BigInt(20)]);
    assert_eq!(worker_order_column("profession"), Order::by_column("w.profession"));
    assert_eq!(worker_order_column("is_brigadier"), Order::by_column("is_brigadier"));
    assert_eq!(worker_order_column("salary"), Order::by_column("w.id"));
    assert_eq!(worker_order_column("name"), Order::by_columns("e.last_name", "e.first_name"));
}

#[test]
fn a_descending_sort_by_name_turns_both_columns() {
    let filter = WorkerListFilter {
        sort: Sort { sort_by: String::from("name"), sort_direction: SortDirection::Descending },
        profession: None,
        brigade_id: None,
        is_brigadier: None,
        name: None,
    };
    let l = workers_list_queries(&Pagination { page_number: 1, page_size: 10 }, &filter);
    assert_eq!(
        l.page.statement.sql,
        format!("{} ORDER BY e.last_name DESC, e.first_name DESC LIMIT $1 OFFSET $2", WORKER_LIST_SQL)
    );
}

#[test]
fn a_sort_by_brigadier_takes_the_direction_once() {
    for (direction, keyword) in [(SortDirection::Ascending, "ASC"), (SortDirection::Descending, "DESC")] {
        let filter = WorkerListFilter {
            sort: Sort { sort_by: String::from("is_brigadier"), sort_direction: direction },
            profession: None,
            brigade_id: None,
            is_brigadier: None,
            name: None,
        };
        let l = workers_list_queries(&Pagination { page_number: 1, page_size: 10 }, &filter);
        assert_eq!(
            l.page.statement.sql,
            format!("{} ORDER BY is_brigadier {} LIMIT $1 OFFSET $2", WORKER_LIST_SQL, keyword)
        );
    }
}

#[test]
fn worker_pages() {
    let worker = WorkerBasicInfo {
        id: 3,
        first_name: String::from("Ann"),
        last_name: String::from("Lee"),
        middle_name: None,
        gender: Gender::Female,
        photo: Some(String::from("a.png")),
        phone_number: String::from("555"),
        salary: 1000,
        profession: Profession::Driver,
        union_name: None,
    };
    assert_eq!(worker_found(3, Ok(Some(worker.clone()))), Ok(worker.clone()));
    assert_eq!(worker_found(3, Ok(None)), Err(String::from("<p>Worker with ID 3 not found</p>")));
    assert_eq!(
        worker_found(3, Err(String::from("down"))),
        Err(String::from("<p>Error fetching worker: down</p>"))
    );
    let none = BrigadeInfo { brigade_id: None, brigade_name: None, is_brigadier: false };
    assert_eq!(worker_brigade_found(3, Ok(None)), Ok(none.clone()));
    let some = BrigadeInfo { brigade_id: Some(4), brigade_name: Some(String::from("Kim Bo")), is_brigadier: true };
    assert_eq!(worker_brigade_found(3, Ok(Some(some.clone()))), Ok(some.clone()));
    assert_eq!(
        worker_brigade_found(3, Err(String::from("down"))),
        Err(String::from("<p>Error fetching brigade information: down</p>"))
    );
    let edit = worker_edit_page(worker.clone(), some.clone());
    assert_eq!(edit.id, 3);
    assert_eq!(edit.brigade_id, Some(4));
    assert_eq!(edit.brigade_name.as_deref(), Some("Kim Bo"));
    assert_eq!(edit.profession, Profession::Driver);
    let details = worker_api_details_page(worker, some, driver());
    assert_eq!(details.photo.as_deref(), Some("a.png"));
    assert!(details.is_brigadier);
    assert_eq!(details.profession_fields, driver());
}

#[test]
fn a_worker_form_whose_profession_is_not_that_of_its_data_is_refused() {
    let mason = ProfessionFields::Mason(MasonFields { hq_restoration_skills: true });
    let update = update_form(Profession::Driver, mason.clone(), None);
    for progress in [
        WorkerUpdateProgress::Begun,
        WorkerUpdateProgress::ProfessionRead(Some(Profession::Mason)),
        WorkerUpdateProgress::AssignmentRead(None),
        WorkerUpdateProgress::BrigadierRead { assignment: None, is_brigadier: false },
    ] {
        let stage = worker_update_stage(3, &update, progress);
        assert!(stage.steps.is_empty());
        assert_eq!(
            stage.next,
            Next::Abort(Reply::Notification(NotificationTemplate {
                result: NotificationResult::Error,
                message: Some(String::from("Profession does not match the profession-specific data")),
                redirect: Some(String::from("/workers/3/edit")),
            }))
        );
    }
    let mut create = create_form(None);
    create.profession_fields = mason;
    for progress in [
        WorkerCreateProgress::Begun,
        WorkerCreateProgress::EmployeeCreated(12),
        WorkerCreateProgress::BrigadeChecked { employee_id: 12, exists: true },
    ] {
        let stage = worker_create_stage(&create, progress);
        assert!(stage.steps.is_empty());
        assert_eq!(
            stage.next,
            Next::Abort(Reply::Notification(NotificationTemplate {
                result: NotificationResult::Error,
                message: Some(String::from("Profession does not match the profession-specific data")),
                redirect: Some(String::from("/workers/new")),
            }))
        );
    }
}
