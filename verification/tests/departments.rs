use onyx_core_builders::sql::Order;
use onyx_core_builders::departments::{
    department_api_details_page, department_areas_page, department_areas_query,
    department_create, department_create_outcome, department_delete, department_delete_outcome,
    department_edit_page, department_equipment_item, department_equipment_page,
    department_equipment_query, department_order_column, department_personnel_page,
    department_personnel_query, department_query, department_sites_page, department_sites_query,
    department_update, department_update_outcome, departments_list_queries, AreaListItem,
    DepartmentCreateForm, DepartmentEditTemplate, DepartmentListFilter, DepartmentTab,
    DepartmentUpdateForm, EquipmentListItem, DEPARTMENT_COUNT_SQL, DEPARTMENT_LIST_SQL,
};
use onyx_core_builders::general::{
    NotificationResult, NotificationTemplate, Pagination, Reply, Sort, SortDirection,
};
use onyx_core_builders::sql::{SqlType, SqlValue};

fn error(message: &str, redirect: &str) -> NotificationTemplate {
    NotificationTemplate {
        result: NotificationResult::Error,
        message: Some(String::from(message)),
        redirect: Some(String::from(redirect)),
    }
}

fn success(message: &str, redirect: &str) -> NotificationTemplate {
    NotificationTemplate {
        result: NotificationResult::Success,
        message: Some(String::from(message)),
        redirect: Some(String::from(redirect)),
    }
}

#[test]
fn department_mutations() {
    let form = DepartmentUpdateForm { name: String::from("Roads"), supervisor_id: None };
    let m = department_update(2, &form);
    assert!(m.guards.is_empty());
    assert_eq!(m.statement.sql, "UPDATE department SET name = $1, supervisor_id = $2 WHERE id = $3");
    assert_eq!(
        m.statement.binds,
        vec![SqlValue::Text(String::from("Roads")), SqlValue::Null(SqlType::Int), SqlValue::Int(2)]
    );
    assert_eq!(
        department_update_outcome(2, &form, Ok(1)),
        success("Department 'Roads' updated successfully", "/departments/2")
    );
    assert_eq!(
        department_update_outcome(2, &form, Err(String::from("e"))),
        error("Failed to update department: e", "/departments/2")
    );
    let create = DepartmentCreateForm { name: String::from("Roads"), supervisor_id: Some(4) };
    let m = department_create(&create);
    assert!(m.guards.is_empty());
    assert_eq!(m.statement.binds, vec![SqlValue::Text(String::from("Roads")), SqlValue::Int(4)]);
    assert_eq!(
        department_create_outcome(&create, Ok(Some(8))),
        success("Department 'Roads' created successfully", "/departments/8")
    );
    assert_eq!(
        department_create_outcome(&create, Ok(None)),
        error("Failed to create department: no ID returned", "/departments")
    );
    assert_eq!(
        department_create_outcome(&create, Err(String::from("e"))),
        error("Failed to create department: e", "/departments")
    );
    let d = department_delete(2);
    assert_eq!(d.guard.probe.sql, "SELECT COUNT(*) FROM area WHERE department_id = $1");
    assert_eq!(d.guard.clone().verdict(Ok(0)), None);
    assert_eq!(
        d.guard.verdict(Ok(4)),
        Some(Reply::Notification(error(
            "Cannot delete department: it has 4 areas. Remove areas first.",
            "/departments"
        )))
    );
    assert_eq!(department_delete_outcome(Ok(1)), success("Department deleted successfully", "/departments"));
    assert_eq!(
        department_delete_outcome(Err(String::from("e"))),
        error("Failed to delete department: e", "/departments")
    );
}

#[test]
fn department_list() {
    let filter = DepartmentListFilter {
        sort: Sort { sort_by: String::from("supervisor"), sort_direction: SortDirection::Ascending },
        supervisor_id: Some(3),
        name: Some(String::from("ro")),
    };
    let l = departments_list_queries(&Pagination { page_number: 2, page_size: 10 }, &filter);
    let clause = " WHERE d.name ILIKE $1 AND d.supervisor_id = $2";
    assert_eq!(l.count.statement.sql, format!("{}{}", DEPARTMENT_COUNT_SQL, clause));
    assert_eq!(
        l.page.statement.sql,
        format!("{}{} ORDER BY supervisor_name ASC LIMIT $3 OFFSET $4", DEPARTMENT_LIST_SQL, clause)
    );
    assert_eq!(l.count.statement.binds, vec![SqlValue::Text(String::from("%ro%")), SqlValue::Int(3)]);
    assert_eq!(l.page.statement.binds[2..], [SqlValue::BigInt(10), SqlValue::BigInt(10)]);
    assert_eq!(department_order_column("name"), Order::by_column("d.name"));
    assert_eq!(department_order_column("nope"), Order::by_column("d.id"));
}

#[test]
fn department_pages() {
    let row = DepartmentEditTemplate {
        id: 2,
        name: String::from("Roads"),
        supervisor_id: None,
        supervisor_name: None,
    };
    assert_eq!(department_query(2).binds, vec![SqlValue::Int(2)]);
    assert_eq!(department_edit_page(Ok(Some(row.clone()))), Ok(row.clone()));
    assert_eq!(department_edit_page(Ok(None)), Err(String::from("<p>Department not found</p>")));
    assert_eq!(
        department_edit_page(Err(String::from("anything"))),
        Err(String::from("<p>Error fetching department</p>"))
    );
    let page = department_api_details_page(DepartmentTab::Equipment, Ok(Some(row))).unwrap();
    assert_eq!(page.tab, DepartmentTab::Equipment);
    assert_eq!(page.name, "Roads");
    assert_eq!(
        department_api_details_page(DepartmentTab::Areas, Ok(None)),
        Err(String::from("<p>Department not found</p>"))
    );
    assert_eq!(
        department_api_details_page(DepartmentTab::Areas, Err(String::from("anything"))),
        Err(String::from("<p>Error fetching department details</p>"))
    );
}

#[test]
fn department_nested_lists_are_lenient() {
    let p = Pagination { page_number: 1, page_size: 10 };
    assert_eq!(
        department_areas_query(2, &p).binds,
        vec![SqlValue::Int(2), SqlValue::BigInt(10), SqlValue::BigInt(0)]
    );
    assert_eq!(department_equipment_query(2).binds, vec![SqlValue::Int(2)]);
    assert_eq!(department_sites_query(2).binds, vec![SqlValue::Int(2)]);
    assert_eq!(department_personnel_query(2).binds, vec![SqlValue::Int(2)]);
    let area = AreaListItem { id: 1, name: String::from("N"), supervisor_id: None, supervisor_name: None };
    assert_eq!(department_areas_page(Ok(vec![area.clone()])).areas, vec![area]);
    assert!(department_areas_page(Err(String::from("down"))).areas.is_empty());
    let page = department_equipment_page(2, Err(String::from("down")));
    assert_eq!(page.id, 2);
    assert!(page.equipment.is_empty());
    assert!(department_sites_page(2, Err(String::from("down"))).sites.is_empty());
    assert!(department_personnel_page(2, Err(String::from("down"))).personnel.is_empty());
    assert_eq!(
        department_equipment_item(1, String::from("Crane"), 3),
        EquipmentListItem { id: 1, name: String::from("Crane"), amount: 3 }
    );
    assert_eq!(department_equipment_item(1, String::from("Crane"), -1).amount, u32::MAX);
}
