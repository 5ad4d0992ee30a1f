use onyx_core_builders::general::{Pagination, Position, SiteType, SortDirection};
use onyx_core_builders::sql::{
    by_id, exists_by_id, filter_big_int, filter_int, filter_pattern, filter_text, page_by_id,
    Order, Predicates, SqlType, SqlValue, Statement,
};

#[test]
fn a_new_statement_binds_nothing() {
    let s = Statement::new("SELECT 1");
    assert_eq!(s.sql, "SELECT 1");
    assert!(s.binds.is_empty());
}

#[test]
fn placeholders_are_numbered_from_one() {
    let mut s = Statement::new("SELECT * FROM t WHERE a = ");
    s.push_bind(SqlValue::Int(7));
    s.push(" AND b = ");
    s.push_bind(SqlValue::text("x"));
    assert_eq!(s.sql, "SELECT * FROM t WHERE a = $1 AND b = $2");
    assert_eq!(s.binds, vec![SqlValue::Int(7), SqlValue::Text(String::from("x"))]);
}

#[test]
fn placeholders_beyond_nine_have_two_digits() {
    let mut s = Statement::new("");
    for i in 0..12 {
        s.push(",");
        s.push_bind(SqlValue::Int(i));
    }
    assert_eq!(s.sql, ",$1,$2,$3,$4,$5,$6,$7,$8,$9,$10,$11,$12");
    assert_eq!(s.binds.len(), 12);
    assert_eq!(s.binds[11], SqlValue::Int(11));
}

#[test]
fn a_value_never_becomes_text() {
    let hostile = "'; DROP TABLE area; --";
    let mut s = Statement::new("SELECT * FROM area WHERE name = ");
    s.push_bind(SqlValue::text(hostile));
    assert_eq!(s.sql, "SELECT * FROM area WHERE name = $1");
    assert_eq!(s.binds, vec![SqlValue::Text(String::from(hostile))]);
}

#[test]
fn bind_leaves_the_text_alone() {
    let s = Statement::new("UPDATE t SET a = $1 WHERE id = $2").bind(SqlValue::Bool(true)).bind(SqlValue::Int(3));
    assert_eq!(s.sql, "UPDATE t SET a = $1 WHERE id = $2");
    assert_eq!(s.binds, vec![SqlValue::Bool(true), SqlValue::Int(3)]);
}

#[test]
fn wrapping_keeps_the_values() {
    let mut s = Statement::new("SELECT * FROM t WHERE a = ");
    s.push_bind(SqlValue::Int(1));
    let w = s.wrap("SELECT COUNT(*) FROM (", ") as count_query");
    assert_eq!(w.sql, "SELECT COUNT(*) FROM (SELECT * FROM t WHERE a = $1) as count_query");
    assert_eq!(w.binds, s.binds);
}

#[test]
fn no_condition_makes_no_where_clause() {
    let s = Statement::filtered("SELECT * FROM t", &Predicates::new());
    assert_eq!(s.sql, "SELECT * FROM t");
    assert!(s.binds.is_empty());
}

#[test]
fn first_condition_takes_where_and_the_others_and() {
    let mut p = Predicates::new();
    p.add_bound(filter_int(Some(4)), "a = ", "");
    p.add_bound(filter_int(None), "b = ", "");
    p.add_chosen(Some("c IS NULL"));
    p.add_bound_twice(filter_pattern(&Some(String::from("ann"))), "(x ILIKE ", " OR y ILIKE ", ")");
    p.add_bound(filter_big_int(Some(9)), "EXISTS (SELECT 1 FROM u WHERE u.id = ", ")");
    let s = Statement::filtered("SELECT * FROM t", &p);
    assert_eq!(
        s.sql,
        "SELECT * FROM t WHERE a = $1 AND c IS NULL AND (x ILIKE $2 OR y ILIKE $3) AND EXISTS (SELECT 1 FROM u WHERE u.id = $4)"
    );
    assert_eq!(
        s.binds,
        vec![
            SqlValue::Int(4),
            SqlValue::Text(String::from("%ann%")),
            SqlValue::Text(String::from("%ann%")),
            SqlValue::BigInt(9),
        ]
    );
}

#[test]
fn absent_fields_add_nothing() {
    let mut with_absent = Predicates::new();
    with_absent.add_bound(filter_int(None), "a = ", "");
    with_absent.add_bound(filter_int(Some(2)), "b = ", "");
    with_absent.add_chosen(None);
    with_absent.add_bound_twice(None, "(", " OR ", ")");
    let mut without = Predicates::new();
    without.add_bound(filter_int(Some(2)), "b = ", "");
    assert_eq!(with_absent, without);
    assert_eq!(Statement::filtered("SELECT 1", &with_absent), Statement::filtered("SELECT 1", &without));
    assert_eq!(Statement::filtered("SELECT 1", &without).sql, "SELECT 1 WHERE b = $1");
}

#[test]
fn the_same_conditions_bind_the_same_values_on_any_text() {
    let mut p = Predicates::new();
    p.add_bound(filter_int(Some(1)), "a = ", "");
    p.add_bound(filter_pattern(&Some(String::from("z"))), "n ILIKE ", "");
    let rows = Statement::filtered("SELECT * FROM t", &p);
    let count = Statement::filtered("SELECT COUNT(*) FROM t", &p);
    assert_eq!(rows.binds, count.binds);
    assert_eq!(count.sql, "SELECT COUNT(*) FROM t WHERE a = $1 AND n ILIKE $2");
}

#[test]
fn a_page_is_ordered_and_limited() {
    let mut p = Predicates::new();
    p.add_bound(filter_int(Some(1)), "a = ", "");
    let page = Statement::filtered("SELECT * FROM t", &p).paged(
        Order::by_column("t.name"),
        SortDirection::Descending,
        &Pagination { page_number: 3, page_size: 10 },
    );
    assert_eq!(page.sql, "SELECT * FROM t WHERE a = $1 ORDER BY t.name DESC LIMIT $2 OFFSET $3");
    assert_eq!(page.binds, vec![SqlValue::Int(1), SqlValue::BigInt(10), SqlValue::BigInt(20)]);
    let first = Statement::new("SELECT * FROM t").paged(
        Order::by_column("t.id"),
        SortDirection::Ascending,
        &Pagination { page_number: 1, page_size: 25 },
    );
    assert_eq!(first.sql, "SELECT * FROM t ORDER BY t.id ASC LIMIT $1 OFFSET $2");
    assert_eq!(first.binds, vec![SqlValue::BigInt(25), SqlValue::BigInt(0)]);
}

#[test]
fn every_column_of_an_order_takes_the_direction() {
    let down = Statement::new("SELECT * FROM t").paged(
        Order::by_columns("t.last", "t.first"),
        SortDirection::Descending,
        &Pagination { page_number: 1, page_size: 10 },
    );
    assert_eq!(down.sql, "SELECT * FROM t ORDER BY t.last DESC, t.first DESC LIMIT $1 OFFSET $2");
    let up = Statement::new("SELECT * FROM t").paged(
        Order::by_columns("t.last", "t.first"),
        SortDirection::Ascending,
        &Pagination { page_number: 1, page_size: 10 },
    );
    assert_eq!(up.sql, "SELECT * FROM t ORDER BY t.last ASC, t.first ASC LIMIT $1 OFFSET $2");
}

#[test]
fn an_empty_text_is_an_absent_one() {
    assert_eq!(filter_pattern(&Some(String::new())), None);
    assert_eq!(filter_pattern(&None), None);
    assert_eq!(filter_pattern(&Some(String::from("a"))), Some(SqlValue::Text(String::from("%a%"))));
    assert_eq!(filter_text(&Some(String::new())), None);
    assert_eq!(filter_text(&None), None);
    assert_eq!(filter_text(&Some(String::from("77"))), Some(SqlValue::Text(String::from("77"))));
    let mut with_empty = Predicates::new();
    with_empty.add_bound(filter_int(Some(1)), "a = ", "");
    with_empty.add_bound(filter_text(&Some(String::new())), "b = ", "");
    with_empty.add_bound(filter_pattern(&Some(String::new())), "c ILIKE ", "");
    let mut without = Predicates::new();
    without.add_bound(filter_int(Some(1)), "a = ", "");
    assert_eq!(Statement::filtered("SELECT 1", &with_empty), Statement::filtered("SELECT 1", &without));
}

#[test]
fn statements_by_id() {
    let s = by_id("DELETE FROM area WHERE id = $1", 9);
    assert_eq!(s.sql, "DELETE FROM area WHERE id = $1");
    assert_eq!(s.binds, vec![SqlValue::Int(9)]);
    let e = exists_by_id("department", -4);
    assert_eq!(e.sql, "SELECT EXISTS(SELECT 1 FROM department WHERE id = $1)");
    assert_eq!(e.binds, vec![SqlValue::Int(-4)]);
    let p = page_by_id("SELECT x LIMIT $2 OFFSET $3", 5, &Pagination { page_number: 2, page_size: 4 });
    assert_eq!(p.sql, "SELECT x LIMIT $2 OFFSET $3");
    assert_eq!(p.binds, vec![SqlValue::Int(5), SqlValue::BigInt(4), SqlValue::BigInt(4)]);
}

#[test]
fn optional_values_bind_null_where_absent() {
    assert_eq!(SqlValue::opt_int(Some(3)), SqlValue::Int(3));
    assert_eq!(SqlValue::opt_int(None), SqlValue::Null(SqlType::Int));
    assert_eq!(SqlValue::opt_text(&Some(String::from("a"))), SqlValue::Text(String::from("a")));
    assert_eq!(SqlValue::opt_text(&None), SqlValue::Null(SqlType::Text));
    assert_eq!(SqlValue::opt_position(Some(Position::Master)), SqlValue::Position(Position::Master));
    assert_eq!(SqlValue::opt_position(None), SqlValue::Null(SqlType::Position));
    assert_eq!(SqlValue::opt_date_time(None), SqlValue::Null(SqlType::DateTime));
    assert_eq!(SqlValue::opt_fuel_type(None), SqlValue::Null(SqlType::FuelType));
}

#[test]
fn values_copy_and_patterns() {
    let values = vec![
        SqlValue::Int(1),
        SqlValue::Text(String::from("t")),
        SqlValue::TextArray(vec![String::from("a"), String::from("b")]),
        SqlValue::SiteType(SiteType::Park),
        SqlValue::Null(SqlType::Int),
    ];
    for v in &values {
        assert_eq!(&v.copy(), v);
    }
    assert_eq!(SqlValue::pattern("oak"), SqlValue::Text(String::from("%oak%")));
    assert_eq!(SqlValue::pattern(""), SqlValue::Text(String::from("%%")));
    assert_eq!(
        SqlValue::text_array(&vec![String::from("x")]),
        SqlValue::TextArray(vec![String::from("x")])
    );
}
