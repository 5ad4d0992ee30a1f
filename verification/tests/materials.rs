use onyx_core_builders::sql::Order;
use onyx_core_builders::general::{
    NotificationResult, NotificationTemplate, Pagination, Reply, Sort, SortDirection,
};
use onyx_core_builders::materials::{
    material_create, material_create_outcome, material_delete, material_delete_outcome,
    material_edit_page, material_found, material_order_column, material_totals_query,
    material_update, material_update_outcome, material_usage_query, materials_list_queries,
    MaterialCreateForm, MaterialEditTemplate, MaterialListFilter, MaterialUpdateForm,
    MATERIAL_LIST_SQL,
};
use onyx_core_builders::sql::SqlValue;
use onyx_core_builders::values::Float64;

fn cost(v: f64) -> Float64 {
    Float64 { bits: v.to_bits() }
}

fn error(message: &str, redirect: &str) -> NotificationTemplate {
    NotificationTemplate {
        result: NotificationResult::Error,
        message: Some(String::from(message)),
        redirect: Some(String::from(redirect)),
    }
}

fn success(message: &str, redirect: &str) -> NotificationTemplate {
    NotificationTemplate {
        result: NotificationResult::Success,
        message: Some(String::from(message)),
        redirect: Some(String::from(redirect)),
    }
}

#[test]
fn material_list() {
    let filter = MaterialListFilter {
        sort: Sort { sort_by: String::from("cost"), sort_direction: SortDirection::Ascending },
        name: Some(String::from("sand")),
        cost_min: Some(cost(1.5)),
        cost_max: Some(cost(9.0)),
        excess_usage: Some(true),
    };
    let l = materials_list_queries(&Pagination { page_number: 1, page_size: 10 }, &filter);
    let clause = " WHERE m.name ILIKE $1 AND m.cost >= $2 AND m.cost <= $3 AND  EXISTS (SELECT 1 FROM expenditure e WHERE e.material_id = m.id AND e.actual_amount > e.expected_amount)";
    assert_eq!(
        l.count.statement.sql,
        format!("SELECT COUNT(*) FROM ({}{}) as count_query", MATERIAL_LIST_SQL, clause)
    );
    assert_eq!(
        l.page.statement.sql,
        format!("{}{} ORDER BY m.cost ASC LIMIT $4 OFFSET $5", MATERIAL_LIST_SQL, clause)
    );
    let conditions =
        vec![SqlValue::Text(String::from("%sand%")), SqlValue::Double(cost(1.5)), SqlValue::Double(cost(9.0))];
    assert_eq!(l.count.statement.binds, conditions);
    assert_eq!(l.page.statement.binds[..3], conditions[..]);
    let off = MaterialListFilter { excess_usage: Some(false), name: None, cost_min: None, cost_max: None, ..filter };
    assert_eq!(
        materials_list_queries(&Pagination { page_number: 1, page_size: 10 }, &off).count.statement.sql,
        format!("SELECT COUNT(*) FROM ({}) as count_query", MATERIAL_LIST_SQL)
    );
    assert_eq!(material_order_column("name"), Order::by_column("m.name"));
    assert_eq!(material_order_column("units"), Order::by_column("m.units"));
    assert_eq!(material_order_column("estimated_spendings"), Order::by_column("estimated_spendings"));
    assert_eq!(material_order_column("actual_spendings"), Order::by_column("actual_spendings"));
    assert_eq!(material_order_column("m.cost"), Order::by_column("m.id"));
}

#[test]
fn material_mutations() {
    let form = MaterialUpdateForm { name: String::from("Sand"), cost: cost(3.0), units: String::from("t") };
    let m = material_update(2, &form);
    assert!(m.guards.is_empty());
    assert_eq!(
        m.statement.binds,
        vec![
            SqlValue::Text(String::from("Sand")),
            SqlValue::Double(cost(3.0)),
            SqlValue::Text(String::from("t")),
            SqlValue::Int(2),
        ]
    );
    assert_eq!(
        material_update_outcome(2, &form, Ok(1)),
        success("Material 'Sand' updated successfully", "/materials/2")
    );
    assert_eq!(
        material_update_outcome(2, &form, Err(String::from("e"))),
        error("Failed to update material: e", "/materials/2")
    );
    let create = MaterialCreateForm { name: String::from("Sand"), cost: cost(3.0), units: String::from("t") };
    let m = material_create(&create);
    assert!(m.guards.is_empty());
    assert_eq!(m.statement.binds.len(), 3);
    assert_eq!(
        material_create_outcome(&create, Ok(Some(5))),
        success("Material 'Sand' created successfully", "/materials/5")
    );
    assert_eq!(
        material_create_outcome(&create, Ok(None)),
        error("Failed to create material: no ID returned", "/materials")
    );
    let d = material_delete(2);
    assert_eq!(d.guard.probe.sql, "SELECT COUNT(*) FROM expenditure WHERE material_id = $1");
    assert_eq!(
        d.guard.verdict(Ok(3)),
        Some(Reply::Notification(error("Cannot delete material: it is used in 3 expenditures", "/materials")))
    );
    assert_eq!(material_delete_outcome(Ok(1)), success("Material deleted successfully", "/materials"));
    assert_eq!(
        material_delete_outcome(Err(String::from("e"))),
        error("Failed to delete material: e", "/materials")
    );
}

#[test]
fn material_pages() {
    let row = MaterialEditTemplate { id: 2, name: String::from("Sand"), cost: cost(3.0), units: String::from("t") };
    assert_eq!(material_edit_page(2, Ok(Some(row.clone()))), Ok(row.clone()));
    assert_eq!(material_edit_page(2, Ok(None)), Err(String::from("<p>Material with ID 2 not found</p>")));
    assert_eq!(
        material_edit_page(2, Err(String::from("x"))),
        Err(String::from("<p>Error fetching material: x</p>"))
    );
    assert_eq!(
        material_found(2, Err(String::from("x"))),
        Err(String::from("<p>Error fetching material details: x</p>"))
    );
    assert_eq!(material_totals_query(2).failure, "Error fetching usage statistics: ");
    let q = material_usage_query(2, &Pagination { page_number: 1, page_size: 10 });
    assert_eq!(q.statement.binds, vec![SqlValue::Int(2), SqlValue::BigInt(10), SqlValue::BigInt(0)]);
    assert_eq!(q.failure, "Error fetching material usage: ");
}
