use onyx_core_builders::sql::Order;
use onyx_core_builders::general::{
    NotificationResult, NotificationTemplate, Pagination, Reply, Sort, SortDirection,
};
use onyx_core_builders::sql::{SqlType, SqlValue};
use onyx_core_builders::tasks::{
    task_add_material, task_add_material_guards, task_add_material_outcome,
    task_api_details_page, task_complete, task_complete_outcome, task_create,
    task_create_outcome, task_delete, task_delete_outcome, task_edit_page, task_list_item,
    task_materials_query, task_order_column, task_update, task_update_material,
    task_update_material_outcome, task_update_outcome, tasks_list_queries, TaskCompleteForm,
    TaskCreateForm, TaskDetails, TaskListFilter, TaskListRow, TaskMaterialForm,
    TaskMaterialUpdateForm, TaskPeriod, TaskStatus, TaskTab, TaskUpdateForm, NOT_BOOKED, TASK_COUNT_SQL,
    TASK_LIST_SQL,
};
use onyx_core_builders::values::{Date, Float32};

fn date(year: i32, month: u32, day: u32) -> Date {
    Date { year, month, day }
}

fn error(message: &str, redirect: &str) -> NotificationTemplate {
    NotificationTemplate {
        result: NotificationResult::Error,
        message: Some(String::from(message)),
        redirect: Some(String::from(redirect)),
    }
}

fn success(message: &str, redirect: &str) -> NotificationTemplate {
    NotificationTemplate {
        result: NotificationResult::Success,
        message: Some(String::from(message)),
        redirect: Some(String::from(redirect)),
    }
}

fn update_form(start: Date, end: Date, brigade_id: Option<i32>) -> TaskUpdateForm {
    TaskUpdateForm {
        name: String::from("Dig"),
        description: None,
        site_id: 2,
        brigade_id,
        period_start: start,
        expected_period_end: end,
    }
}

#[test]
fn task_status_follows_end_and_brigade() {
    assert_eq!(TaskStatus::of(Some(date(2024, 1, 1)), Some(1)), TaskStatus::Completed);
    assert_eq!(TaskStatus::of(Some(date(2024, 1, 1)), None), TaskStatus::Completed);
    assert_eq!(TaskStatus::of(None, Some(1)), TaskStatus::InProgress);
    assert_eq!(TaskStatus::of(None, None), TaskStatus::Planned);
}

#[test]
fn task_update_checks_and_rule() {
    let m = task_update(8, &update_form(date(2024, 1, 1), date(2024, 2, 1), Some(5)));
    assert_eq!(m.guards.len(), 2);
    assert_eq!(m.guards[0].probe.sql, "SELECT EXISTS(SELECT 1 FROM site WHERE id = $1)");
    assert_eq!(
        m.guards[0].refusal,
        Reply::Notification(error("Site with ID 2 does not exist", "/tasks/8/edit"))
    );
    assert_eq!(m.guards[1].probe.sql, "SELECT EXISTS(SELECT 1 FROM brigade WHERE id = $1)");
    assert_eq!(
        m.guards[1].refusal,
        Reply::Notification(error("Brigade with ID 5 does not exist", "/tasks/8/edit"))
    );
    assert_eq!(m.refusal, None);
    assert_eq!(
        m.statement.binds,
        vec![
            SqlValue::Text(String::from("Dig")),
            SqlValue::Null(SqlType::Text),
            SqlValue::Int(2),
            SqlValue::Int(5),
            SqlValue::Date(date(2024, 1, 1)),
            SqlValue::Date(date(2024, 2, 1)),
            SqlValue::Int(8),
        ]
    );
    assert!(m.statement.sql.starts_with("UPDATE task SET name = $1"));
}

#[test]
fn a_task_must_end_after_it_starts() {
    let refusal = Some(Reply::Notification(error(
        "Expected end date must be after start date",
        "/tasks/8/edit",
    )));
    assert_eq!(task_update(8, &update_form(date(2024, 2, 1), date(2024, 2, 1), None)).refusal, refusal);
    assert_eq!(task_update(8, &update_form(date(2024, 2, 2), date(2024, 2, 1), None)).refusal, refusal);
    assert_eq!(task_update(8, &update_form(date(2024, 1, 31), date(2024, 2, 1), None)).refusal, None);
    assert_eq!(task_update(8, &update_form(date(2024, 2, 1), date(2024, 2, 1), None)).guards.len(), 1);
    let create = TaskCreateForm {
        name: String::from("Dig"),
        description: Some(String::from("deep")),
        site_id: 2,
        brigade_id: None,
        period_start: date(2024, 3, 1),
        expected_period_end: date(2024, 1, 1),
    };
    let m = task_create(&create);
    assert_eq!(
        m.refusal,
        Some(Reply::Notification(error("Expected end date must be after start date", "/tasks/new")))
    );
    assert_eq!(
        m.guards[0].refusal,
        Reply::Notification(error("Site with ID 2 does not exist", "/tasks/new"))
    );
    assert_eq!(m.statement.binds.len(), 6);
    assert_eq!(m.statement.binds[3], SqlValue::Null(SqlType::Int));
    assert!(m.statement.sql.ends_with("RETURNING id"));
}

#[test]
fn task_outcomes() {
    let form = update_form(date(2024, 1, 1), date(2024, 2, 1), None);
    assert_eq!(task_update_outcome(8, &form, Ok(1)), success("Task 'Dig' updated successfully", "/tasks/8"));
    assert_eq!(
        task_update_outcome(8, &form, Err(String::from("e"))),
        error("Failed to update task: e", "/tasks/8")
    );
    let create = TaskCreateForm {
        name: String::from("Dig"),
        description: None,
        site_id: 2,
        brigade_id: None,
        period_start: date(2024, 1, 1),
        expected_period_end: date(2024, 2, 1),
    };
    assert_eq!(
        task_create_outcome(&create, Ok(Some(3))),
        success("Task 'Dig' created successfully", "/tasks/3")
    );
    assert_eq!(
        task_create_outcome(&create, Ok(None)),
        error("Failed to create task: no ID returned", "/tasks")
    );
    assert_eq!(
        task_create_outcome(&create, Err(String::from("e"))),
        error("Failed to create task: e", "/tasks")
    );
    assert_eq!(task_delete_outcome(Ok(1)), success("Task deleted successfully", "/tasks"));
    assert_eq!(
        task_delete_outcome(Err(String::from("e"))),
        error("Failed to delete task: e", "/tasks")
    );
}

#[test]
fn task_deletion_is_refused_while_materials_are_booked() {
    let d = task_delete(8);
    assert_eq!(d.guard.probe.sql, "SELECT COUNT(*) FROM expenditure WHERE task_id = $1");
    assert_eq!(d.statement.sql, "DELETE FROM task WHERE id = $1");
    assert_eq!(d.guard.clone().verdict(Ok(0)), None);
    assert_eq!(
        d.guard.verdict(Ok(2)),
        Some(Reply::Notification(error(
            "Cannot delete task: it has 2 material expenditures. Remove them first.",
            "/tasks"
        )))
    );
}

#[test]
fn task_list() {
    let filter = TaskListFilter {
        sort: Sort { sort_by: String::from("status"), sort_direction: SortDirection::Ascending },
        site_id: Some(2),
        brigade_id: None,
        status: Some(TaskStatus::InProgress),
        date_from: Some(date(2024, 1, 1)),
        date_to: Some(date(2024, 12, 31)),
        name: Some(String::from("dig")),
        exceeded_deadline: Some(true),
    };
    let l = tasks_list_queries(&Pagination { page_number: 1, page_size: 10 }, &filter);
    let clause = " WHERE t.name ILIKE $1 AND t.site_id = $2 AND t.actual_period_end IS NULL AND t.brigade_id IS NOT NULL AND t.period_start >= $3 AND t.period_start <= $4 AND ((t.actual_period_end IS NOT NULL AND t.actual_period_end > t.expected_period_end) OR (t.actual_period_end IS NULL AND CURRENT_DATE > t.expected_period_end))";
    assert_eq!(l.count.statement.sql, format!("{}{}", TASK_COUNT_SQL, clause));
    assert_eq!(
        l.page.statement.sql,
        format!("{}{} ORDER BY t.actual_period_end ASC, t.brigade_id ASC LIMIT $5 OFFSET $6", TASK_LIST_SQL, clause)
    );
    let conditions = vec![
        SqlValue::Text(String::from("%dig%")),
        SqlValue::Int(2),
        SqlValue::Date(date(2024, 1, 1)),
        SqlValue::Date(date(2024, 12, 31)),
    ];
    assert_eq!(l.count.statement.binds, conditions);
    assert_eq!(l.page.statement.binds[..4], conditions[..]);
}

#[test]
fn a_deadline_filter_that_is_off_asks_for_nothing() {
    let base = TaskListFilter {
        sort: Sort { sort_by: String::new(), sort_direction: SortDirection::Ascending },
        site_id: None,
        brigade_id: None,
        status: None,
        date_from: None,
        date_to: None,
        name: None,
        exceeded_deadline: None,
    };
    let off = TaskListFilter { exceeded_deadline: Some(false), ..base.clone() };
    let p = Pagination { page_number: 1, page_size: 10 };
    assert_eq!(tasks_list_queries(&p, &off), tasks_list_queries(&p, &base));
    assert_eq!(tasks_list_queries(&p, &base).count.statement.sql, TASK_COUNT_SQL);
    assert_eq!(
        tasks_list_queries(&p, &base).page.statement.sql,
        format!("{} ORDER BY t.id ASC LIMIT $1 OFFSET $2", TASK_LIST_SQL)
    );
    for (status, text) in [
        (TaskStatus::Completed, "t.actual_period_end IS NOT NULL"),
        (TaskStatus::InProgress, "t.actual_period_end IS NULL AND t.brigade_id IS NOT NULL"),
        (TaskStatus::Planned, "t.brigade_id IS NULL"),
    ] {
        let f = TaskListFilter { status: Some(status), ..base.clone() };
        assert_eq!(
            tasks_list_queries(&p, &f).count.statement.sql,
            format!("{} WHERE {}", TASK_COUNT_SQL, text)
        );
    }
}

#[test]
fn task_sort_keys() {
    assert_eq!(task_order_column("name"), Order::by_column("t.name"));
    assert_eq!(task_order_column("site"), Order::by_column("site_name"));
    assert_eq!(task_order_column("brigade"), Order::by_column("brigade_name"));
    assert_eq!(task_order_column("period_start"), Order::by_column("t.period_start"));
    assert_eq!(task_order_column("expected_period_end"), Order::by_column("t.expected_period_end"));
    assert_eq!(task_order_column("status"), Order::by_columns("t.actual_period_end", "t.brigade_id"));
    assert_eq!(task_order_column("anything else"), Order::by_column("t.id"));
}

#[test]
fn task_list_items() {
    let row = |actual: Option<Date>, brigade_id: Option<i32>, today: Date| TaskListRow {
        id: 1,
        name: String::from("Dig"),
        site_id: 2,
        site_name: String::from("Green"),
        brigade_id,
        brigade_name: Some(String::from("Kim Bo")),
        period_start: date(2024, 1, 1),
        expected_period_end: date(2024, 2, 1),
        actual_period_end: actual,
        current_date: today,
    };
    let late = task_list_item(row(Some(date(2024, 2, 2)), Some(3), date(2024, 1, 15)));
    assert_eq!(late.status, TaskStatus::Completed);
    assert!(late.deadline_exceeded);
    assert_eq!(late.brigadier_name.as_deref(), Some("Kim Bo"));
    let on_time = task_list_item(row(Some(date(2024, 2, 1)), Some(3), date(2025, 1, 1)));
    assert!(!on_time.deadline_exceeded);
    let open_late = task_list_item(row(None, Some(3), date(2024, 2, 2)));
    assert_eq!(open_late.status, TaskStatus::InProgress);
    assert!(open_late.deadline_exceeded);
    let open = task_list_item(row(None, None, date(2024, 2, 1)));
    assert_eq!(open.status, TaskStatus::Planned);
    assert!(!open.deadline_exceeded);
}

#[test]
fn task_pages() {
    let details = TaskDetails {
        id: 8,
        name: String::from("Dig"),
        description: None,
        site_id: 2,
        site_name: String::from("Green"),
        brigade_id: Some(3),
        brigade_name: None,
        period_start: date(2024, 1, 1),
        expected_period_end: date(2024, 2, 1),
        actual_period_end: None,
    };
    let page = task_api_details_page(8, TaskTab::Progress, Ok(Some(details))).unwrap();
    assert_eq!(page.status, TaskStatus::InProgress);
    assert_eq!(page.tab, TaskTab::Progress);
    assert_eq!(
        task_api_details_page(8, TaskTab::Materials, Ok(None)),
        Err(String::from("<p>Task with ID 8 not found</p>"))
    );
    assert_eq!(
        task_api_details_page(8, TaskTab::Materials, Err(String::from("x"))),
        Err(String::from("<p>Error fetching task details: x</p>"))
    );
    assert_eq!(task_edit_page(8, Ok(None)), Err(String::from("<p>Task with ID 8 not found</p>")));
    assert_eq!(
        task_edit_page(8, Err(String::from("x"))),
        Err(String::from("<p>Error fetching task: x</p>"))
    );
    let q = task_materials_query(8, &Pagination { page_number: 1, page_size: 10 });
    assert_eq!(q.statement.binds, vec![SqlValue::Int(8), SqlValue::BigInt(10), SqlValue::BigInt(0)]);
    assert_eq!(q.failure, "Error fetching task materials: ");
}

#[test]
fn booking_a_material() {
    let amount = Float32 { bits: 2.5f32.to_bits() };
    let form = TaskMaterialForm { material_id: 4, expected_amount: amount };
    let guards = task_add_material_guards(8, &form);
    assert_eq!(guards.len(), 2);
    assert_eq!(guards[0].refusal, Reply::Notification(error("Material with ID 4 does not exist", "/tasks/8")));
    assert_eq!(guards[1].refusal, Reply::Notification(error("Task with ID 8 does not exist", "/tasks")));
    let insert = task_add_material(8, &form, &Ok(false));
    assert!(insert.sql.starts_with("INSERT INTO expenditure"));
    assert_eq!(insert.binds, vec![SqlValue::Int(8), SqlValue::Int(4), SqlValue::Real(amount)]);
    assert_eq!(task_add_material(8, &form, &Err(String::from("down"))), insert);
    let update = task_add_material(8, &form, &Ok(true));
    assert_eq!(update.sql, "UPDATE expenditure SET expected_amount = $1 WHERE task_id = $2 AND material_id = $3");
    assert_eq!(update.binds, vec![SqlValue::Real(amount), SqlValue::Int(8), SqlValue::Int(4)]);
    assert_eq!(
        task_add_material_outcome(8, &Ok(true), Ok(1)),
        success("Material expenditure updated successfully", "/tasks/8")
    );
    assert_eq!(
        task_add_material_outcome(8, &Ok(true), Err(String::from("e"))),
        error("Failed to update material expenditure: e", "/tasks/8")
    );
    assert_eq!(
        task_add_material_outcome(8, &Ok(false), Ok(1)),
        success("Material expenditure added successfully", "/tasks/8")
    );
    assert_eq!(
        task_add_material_outcome(8, &Err(String::from("x")), Err(String::from("e"))),
        error("Failed to add material expenditure: e", "/tasks/8")
    );
}

#[test]
fn recording_a_used_amount() {
    assert!(NOT_BOOKED.starts_with(" is not assigned to "));
    assert!(NOT_BOOKED.ends_with(" task"));
    assert_eq!(NOT_BOOKED.len(), 29);
    let amount = Float32 { bits: 1.0f32.to_bits() };
    let m = task_update_material(8, 4, &TaskMaterialUpdateForm { actual_amount: amount });
    assert_eq!(m.guards.len(), 1);
    assert_eq!(m.guards[0].probe.binds, vec![SqlValue::Int(8), SqlValue::Int(4)]);
    assert_eq!(
        m.guards[0].clone().verdict(Ok(false)),
        Some(Reply::Notification(error(&format!("Material with ID 4{}", NOT_BOOKED), "/tasks/8")))
    );
    assert_eq!(m.guards[0].clone().verdict(Ok(true)), None);
    assert_eq!(m.guards[0].clone().verdict(Err(String::from("down"))), None);
    assert_eq!(m.statement.binds, vec![SqlValue::Real(amount), SqlValue::Int(8), SqlValue::Int(4)]);
    assert_eq!(
        task_update_material_outcome(8, Ok(1)),
        success("Material usage updated successfully", "/tasks/8")
    );
    assert_eq!(
        task_update_material_outcome(8, Err(String::from("e"))),
        error("Failed to update material usage: e", "/tasks/8")
    );
}

#[test]
fn completing_a_task() {
    let period = TaskPeriod { period_start: date(2024, 1, 10), expected_period_end: date(2024, 2, 1) };
    let form = |d: Date| TaskCompleteForm { actual_period_end: d };
    assert_eq!(
        task_complete(8, &form(date(2024, 1, 9)), Ok(Some(period))),
        Err(error("Completion date cannot be before the start date", "/tasks/8"))
    );
    assert_eq!(
        task_complete(8, &form(date(2024, 1, 20)), Ok(None)),
        Err(error("Task with ID 8 does not exist", "/tasks"))
    );
    assert_eq!(
        task_complete(8, &form(date(2024, 1, 20)), Err(String::from("down"))),
        Err(error("Failed to fetch task: down", "/tasks/8"))
    );
    let done = task_complete(8, &form(date(2024, 1, 10)), Ok(Some(period))).unwrap();
    assert_eq!(done.statement.sql, "UPDATE task SET actual_period_end = $1 WHERE id = $2");
    assert_eq!(done.statement.binds, vec![SqlValue::Date(date(2024, 1, 10)), SqlValue::Int(8)]);
    assert_eq!(done.period, period);
    assert_eq!(
        task_complete_outcome(8, &form(date(2024, 2, 1)), &period, Ok(1)),
        success("Task marked as completed", "/tasks/8")
    );
    assert_eq!(
        task_complete_outcome(8, &form(date(2024, 2, 2)), &period, Ok(1)),
        success("Task marked as completed (deadline exceeded)", "/tasks/8")
    );
    assert_eq!(
        task_complete_outcome(8, &form(date(2024, 2, 2)), &period, Err(String::from("e"))),
        error("Failed to complete task: e", "/tasks/8")
    );
}
