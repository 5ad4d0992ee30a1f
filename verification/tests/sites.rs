use onyx_core_builders::sql::Order;
use onyx_core_builders::flow::Fetch;
use onyx_core_builders::general::{
    NotificationResult, NotificationTemplate, Pagination, Reply, RiskLevel, SiteType, Sort,
    SortDirection,
};
use onyx_core_builders::sites::{
    site_api_details_page, site_brigades_query, site_create_stage, site_delete_guard,
    site_delete_stage, site_edit_page, site_equipment_query, site_exists_guard, site_fields_found,
    site_fields_query, site_found, site_materials_query, site_order_column, site_reports_query,
    site_schedule_query, site_status_text, site_update_stage, sites_list_queries, BridgeFields,
    HousingFields, ParkFields, PowerPlantFields, RoadFields, SiteCreateForm, SiteEditTemplate,
    SiteFields, SiteListFilter, SiteProgress, SiteTab, SiteUpdateForm, SITE_COUNT_SQL,
    SITE_LIST_SQL,
};
use onyx_core_builders::sql::{SqlType, SqlValue, Statement};
use onyx_core_builders::transaction::{Failure, Move, Next, Stage};
use onyx_core_builders::values::{Float32, Float64, Point};

fn single(v: f32) -> Float32 {
    Float32 { bits: v.to_bits() }
}

fn point(x: f64, y: f64) -> Point {
    Point { x: Float64 { bits: x.to_bits() }, y: Float64 { bits: y.to_bits() } }
}

fn park() -> SiteFields {
    SiteFields::Park(ParkFields { area: single(12.5), has_playground: true, has_lighting: false })
}

fn update_form(type_: SiteType, type_fields: SiteFields) -> SiteUpdateForm {
    SiteUpdateForm {
        name: String::from("Green"),
        area_id: 2,
        client_id: 3,
        type_,
        location: point(1.0, 2.0),
        risk_level: RiskLevel::Low,
        description: None,
        type_fields,
    }
}

fn create_form(type_: SiteType, type_fields: SiteFields) -> SiteCreateForm {
    SiteCreateForm {
        name: String::from("Green"),
        area_id: 2,
        client_id: 3,
        type_,
        location: String::from("(1,2)"),
        risk_level: RiskLevel::High,
        description: Some(String::from("by the river")),
        type_fields,
    }
}

fn sqls(stage: &Stage) -> Vec<String> {
    stage.steps.iter().map(|s| s.statement.sql.clone()).collect()
}

fn words(stage: &Stage) -> Vec<&'static str> {
    stage
        .steps
        .iter()
        .map(|s| match &s.failure {
            Failure::Paragraph(w) => *w,
            Failure::Notification { before, .. } => *before,
        })
        .collect()
}

fn html(text: &str) -> Reply {
    Reply::Html(String::from(text))
}

#[test]
fn a_road_that_becomes_a_park_loses_its_road_row_and_gains_a_park_row() {
    let form = update_form(SiteType::Park, park());
    let stage = site_update_stage(7, &form, SiteProgress::TypeRead(Some(SiteType::Road)));
    assert_eq!(
        sqls(&stage),
        vec![
            String::from(onyx_core_builders::sites::SITE_UPDATE_SQL),
            String::from("DELETE FROM road WHERE site_id = $1"),
            String::from("INSERT INTO park (site_id, area, has_playground, has_lighting) VALUES ($1, $2, $3, $4)"),
        ]
    );
    assert_eq!(
        stage.steps[0].statement.binds,
        vec![
            SqlValue::Text(String::from("Green")),
            SqlValue::Int(2),
            SqlValue::Int(3),
            SqlValue::SiteType(SiteType::Park),
            SqlValue::Point(point(1.0, 2.0)),
            SqlValue::RiskLevel(RiskLevel::Low),
            SqlValue::Null(SqlType::Text),
            SqlValue::Int(7),
        ]
    );
    assert_eq!(stage.steps[1].statement.binds, vec![SqlValue::Int(7)]);
    assert_eq!(
        stage.steps[2].statement.binds,
        vec![SqlValue::Int(7), SqlValue::Real(single(12.5)), SqlValue::Bool(true), SqlValue::Bool(false)]
    );
    assert_eq!(
        words(&stage),
        vec!["Error updating site: ", "Error removing old site type data: ", "Error updating site type data: "]
    );
    assert_eq!(
        stage.next,
        Next::Commit(NotificationTemplate {
            result: NotificationResult::Success,
            message: Some(String::from("Site 'Green' updated successfully")),
            redirect: Some(String::from("/sites/7")),
        })
    );
}

#[test]
fn a_park_that_stays_a_park_keeps_its_row() {
    let form = update_form(SiteType::Park, park());
    let stage = site_update_stage(7, &form, SiteProgress::TypeRead(Some(SiteType::Park)));
    assert_eq!(
        sqls(&stage),
        vec![
            String::from(onyx_core_builders::sites::SITE_UPDATE_SQL),
            String::from("UPDATE park SET area = $1, has_playground = $2, has_lighting = $3 WHERE site_id = $4"),
        ]
    );
    assert_eq!(
        stage.steps[1].statement.binds,
        vec![SqlValue::Real(single(12.5)), SqlValue::Bool(true), SqlValue::Bool(false), SqlValue::Int(7)]
    );
}

#[test]
fn every_change_of_type_deletes_one_row_and_inserts_one() {
    let types = [SiteType::PowerPlant, SiteType::Road, SiteType::Housing, SiteType::Bridge, SiteType::Park];
    let tables = ["power_plant", "road", "housing", "bridge", "park"];
    let fields = |t: SiteType| match t {
        SiteType::PowerPlant => SiteFields::PowerPlant(PowerPlantFields {
            energy_output: single(1.0),
            energy_source: String::from("wind"),
            is_grid_connected: true,
        }),
        SiteType::Road => {
            SiteFields::Road(RoadFields { length: single(2.0), lanes: 2, surface: String::from("asphalt") })
        }
        SiteType::Housing => SiteFields::Housing(HousingFields {
            number_of_floors: 3,
            number_of_entrances: 1,
            type_: String::from("block"),
            energy_efficiency: String::from("A"),
        }),
        SiteType::Bridge => SiteFields::Bridge(BridgeFields {
            length: single(3.0),
            road_material: String::from("steel"),
            max_load: single(40.0),
        }),
        SiteType::Park => park(),
    };
    for (i, current) in types.iter().enumerate() {
        for (j, wanted) in types.iter().enumerate() {
            let form = update_form(*wanted, fields(*wanted));
            assert_eq!(form.type_fields.kind(), *wanted);
            let stage = site_update_stage(1, &form, SiteProgress::TypeRead(Some(*current)));
            let all = sqls(&stage);
            let deletes: Vec<&String> = all.iter().filter(|s| s.starts_with("DELETE FROM ")).collect();
            let inserts: Vec<&String> = all.iter().filter(|s| s.starts_with("INSERT INTO ")).collect();
            if i == j {
                assert_eq!(all.len(), 2);
                assert!(deletes.is_empty() && inserts.is_empty());
                assert!(all[1].starts_with(&format!("UPDATE {} SET ", tables[j])));
            } else {
                assert_eq!(all.len(), 3);
                assert_eq!(deletes, vec![&format!("DELETE FROM {} WHERE site_id = $1", tables[i])]);
                assert_eq!(inserts.len(), 1);
                assert!(inserts[0].starts_with(&format!("INSERT INTO {} (site_id, ", tables[j])));
            }
        }
    }
}

#[test]
fn the_update_checks_area_and_client_before_it_reads_the_type() {
    let form = update_form(SiteType::Park, park());
    let first = site_update_stage(7, &form, SiteProgress::Begun);
    assert!(first.steps.is_empty());
    match first.next {
        Next::Check(guard) => {
            assert_eq!(guard.probe.sql, "SELECT EXISTS(SELECT 1 FROM area WHERE id = $1)");
            assert_eq!(guard.probe.binds, vec![SqlValue::Int(2)]);
            let refusal = Reply::Notification(NotificationTemplate {
                result: NotificationResult::Error,
                message: Some(String::from("Area with ID 2 does not exist")),
                redirect: Some(String::from("/sites/7/edit")),
            });
            assert_eq!(guard.refusal, refusal);
            assert_eq!(guard.clone().verdict(Ok(false)), Some(refusal));
            assert_eq!(guard.clone().verdict(Ok(true)), None);
            assert_eq!(guard.verdict(Err(String::from("down"))), None);
        }
        other => panic!("unexpected: {:?}", other),
    }
    match site_update_stage(7, &form, SiteProgress::AreaChecked).next {
        Next::Check(guard) => {
            assert_eq!(guard.probe.sql, "SELECT EXISTS(SELECT 1 FROM client WHERE id = $1)");
            assert_eq!(guard.probe.binds, vec![SqlValue::Int(3)]);
            assert_eq!(
                guard.refusal,
                Reply::Notification(NotificationTemplate {
                    result: NotificationResult::Error,
                    message: Some(String::from("Client with ID 3 does not exist")),
                    redirect: Some(String::from("/sites/7/edit")),
                })
            );
        }
        other => panic!("unexpected: {:?}", other),
    }
    assert_eq!(
        site_update_stage(7, &form, SiteProgress::ClientChecked).next,
        Next::Ask(Fetch {
            statement: Statement::new("SELECT type FROM site WHERE id = $1").bind(SqlValue::Int(7)),
            failure: "Error fetching site type: ",
        })
    );
    let missing = site_update_stage(7, &form, SiteProgress::TypeRead(None));
    assert!(missing.steps.is_empty());
    assert_eq!(missing.next, Next::Abort(html("<p>Site with ID 7 not found</p>")));
}

#[test]
fn a_failed_step_of_the_update_rolls_everything_back() {
    let form = update_form(SiteType::Park, park());
    let stage = site_update_stage(7, &form, SiteProgress::TypeRead(Some(SiteType::Road)));
    assert_eq!(stage.start(), Move::Execute(0));
    assert_eq!(stage.advance(1, Err(String::from("e"))), Move::RollBack(html("<p>Error updating site: e</p>")));
    assert_eq!(stage.advance(1, Ok(1)), Move::Execute(1));
    assert_eq!(
        stage.advance(2, Err(String::from("e"))),
        Move::RollBack(html("<p>Error removing old site type data: e</p>"))
    );
    assert_eq!(stage.advance(2, Ok(1)), Move::Execute(2));
    assert_eq!(
        stage.advance(3, Err(String::from("e"))),
        Move::RollBack(html("<p>Error updating site type data: e</p>"))
    );
    assert_eq!(stage.advance(3, Ok(1)), Move::Follow);
}

#[test]
fn site_creation_inserts_the_site_and_the_row_of_its_type() {
    let form = create_form(SiteType::Park, park());
    assert!(matches!(site_create_stage(&form, SiteProgress::Begun).next, Next::Check(_)));
    assert!(matches!(site_create_stage(&form, SiteProgress::AreaChecked).next, Next::Check(_)));
    let insert = site_create_stage(&form, SiteProgress::ClientChecked);
    assert!(insert.steps.is_empty());
    match insert.next {
        Next::Insert(fetch) => {
            assert!(fetch.statement.sql.starts_with("INSERT INTO site (name, area_id, client_id, type, location, risk_level, description)"));
            assert!(fetch.statement.sql.ends_with("RETURNING id"));
            assert_eq!(
                fetch.statement.binds,
                vec![
                    SqlValue::Text(String::from("Green")),
                    SqlValue::Int(2),
                    SqlValue::Int(3),
                    SqlValue::SiteType(SiteType::Park),
                    SqlValue::Text(String::from("(1,2)")),
                    SqlValue::RiskLevel(RiskLevel::High),
                    SqlValue::Text(String::from("by the river")),
                ]
            );
            assert_eq!(fetch.failure, "Error creating site: ");
        }
        other => panic!("unexpected: {:?}", other),
    }
    let rest = site_create_stage(&form, SiteProgress::Created(44));
    assert_eq!(
        sqls(&rest),
        vec![String::from("INSERT INTO park (site_id, area, has_playground, has_lighting) VALUES ($1, $2, $3, $4)")]
    );
    assert_eq!(rest.steps[0].statement.binds[0], SqlValue::Int(44));
    assert_eq!(words(&rest), vec!["Error creating site type data: "]);
    assert_eq!(
        rest.advance(1, Err(String::from("e"))),
        Move::RollBack(html("<p>Error creating site type data: e</p>"))
    );
    assert_eq!(
        rest.next,
        Next::Commit(NotificationTemplate {
            result: NotificationResult::Success,
            message: Some(String::from("Site 'Green' created successfully")),
            redirect: Some(String::from("/sites/44")),
        })
    );
}

#[test]
fn site_deletion() {
    let guard = site_delete_guard(5);
    assert_eq!(guard.probe.binds, vec![SqlValue::Int(5)]);
    assert_eq!(guard.clone().verdict(Ok(false)), None);
    assert_eq!(
        guard.clone().verdict(Ok(true)),
        Some(Reply::Notification(NotificationTemplate {
            result: NotificationResult::Error,
            message: Some(String::from("Cannot delete site with active tasks")),
            redirect: Some(String::from("/sites/5")),
        }))
    );
    assert_eq!(
        guard.verdict(Err(String::from("down"))),
        Some(html("<p>Error checking for active tasks: down</p>"))
    );
    let begun = site_delete_stage(5, SiteProgress::Begun);
    assert!(begun.steps.is_empty());
    assert!(matches!(begun.next, Next::Ask(_)));
    assert_eq!(
        site_delete_stage(5, SiteProgress::TypeRead(None)).next,
        Next::Abort(html("<p>Site with ID 5 not found</p>"))
    );
    let stage = site_delete_stage(5, SiteProgress::TypeRead(Some(SiteType::Bridge)));
    let all = sqls(&stage);
    assert_eq!(all.len(), 5);
    assert_eq!(all[0], "DELETE FROM bridge WHERE site_id = $1");
    assert!(all[1].starts_with("DELETE FROM expenditure"));
    assert_eq!(all[2], "DELETE FROM task WHERE site_id = $1 AND actual_period_end IS NOT NULL");
    assert_eq!(all[3], "DELETE FROM equipment_allocation WHERE site_id = $1");
    assert_eq!(all[4], "DELETE FROM site WHERE id = $1");
    assert!(stage.steps.iter().all(|s| s.statement.binds == vec![SqlValue::Int(5)]));
    assert_eq!(
        words(&stage),
        vec![
            "Error deleting site type data: ",
            "Error removing task materials: ",
            "Error removing tasks: ",
            "Error removing equipment allocations: ",
            "Error deleting site: ",
        ]
    );
    assert_eq!(
        stage.next,
        Next::Commit(NotificationTemplate {
            result: NotificationResult::Success,
            message: Some(String::from("Site successfully deleted")),
            redirect: Some(String::from("/sites")),
        })
    );
}

#[test]
fn site_list() {
    let filter = SiteListFilter {
        sort: Sort { sort_by: String::from("client"), sort_direction: SortDirection::Descending },
        area_id: Some(1),
        department_id: None,
        client_id: Some(2),
        type_: Some(SiteType::Road),
        name: Some(String::from("a")),
        status: Some(String::from("planned")),
    };
    let l = sites_list_queries(&Pagination { page_number: 1, page_size: 10 }, &filter);
    let clause = " WHERE s.area_id = $1 AND s.client_id = $2 AND s.type = $3 AND s.name ILIKE $4 AND NOT EXISTS (SELECT 1 FROM task t WHERE t.site_id = s.id)";
    assert_eq!(l.count.statement.sql, format!("{}{}", SITE_COUNT_SQL, clause));
    assert_eq!(
        l.page.statement.sql,
        format!("{}{} ORDER BY c.name DESC LIMIT $5 OFFSET $6", SITE_LIST_SQL, clause)
    );
    let conditions = vec![
        SqlValue::Int(1),
        SqlValue::Int(2),
        SqlValue::SiteType(SiteType::Road),
        SqlValue::Text(String::from("%a%")),
    ];
    assert_eq!(l.count.statement.binds, conditions);
    assert_eq!(l.page.statement.binds[..4], conditions[..]);
    assert_eq!(l.page.statement.binds[4..], [SqlValue::BigInt(10), SqlValue::BigInt(0)]);
    assert_eq!(l.count.failure, "Error counting sites: ");
    assert_eq!(l.page.failure, "Error fetching sites: ");
}

#[test]
fn site_sort_keys_and_status() {
    assert_eq!(site_order_column("name"), Order::by_column("s.name"));
    assert_eq!(site_order_column("type"), Order::by_column("s.type"));
    assert_eq!(site_order_column("area"), Order::by_column("a.name"));
    assert_eq!(site_order_column("client"), Order::by_column("c.name"));
    assert_eq!(site_order_column("status"), Order::by_column("s.id"));
    assert_eq!(site_order_column("s.name"), Order::by_column("s.id"));
    assert!(site_status_text("in_progress").unwrap().starts_with("EXISTS (SELECT 1 FROM task t"));
    assert_eq!(
        site_status_text("planned"),
        Some("NOT EXISTS (SELECT 1 FROM task t WHERE t.site_id = s.id)")
    );
    assert!(site_status_text("completed").unwrap().starts_with("NOT EXISTS"));
    assert_eq!(site_status_text("unknown"), None);
    assert_eq!(site_status_text(""), None);
}

#[test]
fn site_pages() {
    let row = SiteEditTemplate {
        id: 7,
        name: String::from("Green"),
        type_: SiteType::Park,
        area_id: 2,
        area_name: String::from("North"),
        client_id: 3,
        client_name: String::from("City"),
        location: point(0.5, -0.5),
        risk_level: RiskLevel::Meidum,
        description: None,
    };
    assert_eq!(site_edit_page(7, Ok(Some(row.clone()))), Ok(row.clone()));
    assert_eq!(site_edit_page(7, Ok(None)), Err(String::from("<p>Site with ID 7 not found</p>")));
    assert_eq!(
        site_edit_page(7, Err(String::from("down"))),
        Err(String::from("<p>Error fetching site: down</p>"))
    );
    assert_eq!(
        site_found(7, Err(String::from("down"))),
        Err(String::from("<p>Error fetching site details: down</p>"))
    );
    let fetch = site_fields_query(7, SiteType::PowerPlant);
    assert_eq!(
        fetch.statement.sql,
        "SELECT energy_output, energy_source, is_grid_connected FROM power_plant WHERE site_id = $1"
    );
    assert_eq!(fetch.failure, "Error fetching power plant data: ");
    assert_eq!(
        site_fields_query(7, SiteType::Housing).statement.sql,
        "SELECT number_of_floors, number_of_entrances, type, energy_efficiency FROM housing WHERE site_id = $1"
    );
    assert_eq!(site_fields_found(7, SiteType::Park, Ok(Some(park()))), Ok(park()));
    assert_eq!(
        site_fields_found(7, SiteType::PowerPlant, Ok(None)),
        Err(String::from("<p>Power plant data for site ID 7 not found</p>"))
    );
    assert_eq!(
        site_fields_found(7, SiteType::Road, Ok(None)),
        Err(String::from("<p>Road data for site ID 7 not found</p>"))
    );
    assert_eq!(
        site_fields_found(7, SiteType::Bridge, Err(String::from("down"))),
        Err(String::from("<p>Error fetching bridge data: down</p>"))
    );
    let page = site_api_details_page(row.clone(), SiteTab::Reports, park());
    assert_eq!(page.id, 7);
    assert_eq!(page.name, "Green");
    assert_eq!(page.location, row.location);
    assert_eq!(page.tab, SiteTab::Reports);
    assert_eq!(page.type_fields, park());
}

#[test]
fn site_nested_lists() {
    let guard = site_exists_guard(9);
    assert_eq!(guard.probe.sql, "SELECT EXISTS(SELECT 1 FROM site WHERE id = $1)");
    assert_eq!(guard.clone().verdict(Ok(true)), None);
    assert_eq!(guard.clone().verdict(Ok(false)), Some(html("<p>Site with ID 9 does not exist</p>")));
    assert_eq!(guard.verdict(Err(String::from("down"))), Some(html("<p>Error checking site: down</p>")));
    let p = Pagination { page_number: 4, page_size: 5 };
    let binds = vec![SqlValue::Int(9), SqlValue::BigInt(5), SqlValue::BigInt(15)];
    let all = [
        (site_schedule_query(9, &p), "Error fetching tasks: "),
        (site_materials_query(9, &p), "Error fetching materials: "),
        (site_equipment_query(9, &p), "Error fetching equipment: "),
        (site_brigades_query(9, &p), "Error fetching brigades: "),
        (site_reports_query(9, &p), "Error fetching reports: "),
    ];
    for (fetch, failure) in all {
        assert_eq!(fetch.statement.binds, binds);
        assert_eq!(fetch.failure, failure);
        assert!(fetch.statement.sql.ends_with("LIMIT $2 OFFSET $3"));
    }
}

/// The tables in which a row of one site stands, kept as the statements of
/// a committed transaction change them.
#[derive(Clone, Debug, PartialEq)]
struct Rows {
    tables: Vec<String>,
}

impl Rows {
    fn apply(&mut self, sql: &str) {
        let words: Vec<&str> = sql.split_whitespace().collect();
        match (words[0], words[1]) {
            ("INSERT", "INTO") => self.tables.push(words[2].to_string()),
            ("DELETE", "FROM") => self.tables.retain(|t| t != words[2]),
            _ => {}
        }
    }

    fn satellites(&self) -> Vec<&str> {
        self.tables.iter().map(|t| t.as_str()).filter(|t| *t != "site").collect()
    }

    fn has_site(&self) -> bool {
        self.tables.iter().any(|t| t == "site")
    }
}

/// Runs the stages of a transaction on the rows; `fails_at` is the number
/// of the statement that fails, counted over the whole transaction.
fn transact(
    rows: &Rows,
    mut stage_for: impl FnMut(SiteProgress) -> Stage,
    current: Option<SiteType>,
    fails_at: Option<usize>,
) -> Rows {
    let mut working = rows.clone();
    let mut progress = SiteProgress::Begun;
    let mut run = 0usize;
    loop {
        let stage = stage_for(progress);
        let mut mv = stage.start();
        loop {
            match mv {
                Move::Execute(i) => {
                    let failed = fails_at == Some(run);
                    run += 1;
                    if failed {
                        mv = stage.advance(i + 1, Err(String::from("injected")));
                    } else {
                        working.apply(&stage.steps[i].statement.sql);
                        mv = stage.advance(i + 1, Ok(1));
                    }
                }
                Move::Follow => break,
                Move::RollBack(_) => return rows.clone(),
            }
        }
        progress = match stage.next {
            Next::Check(_) => progress.passed(),
            Next::Ask(_) => SiteProgress::TypeRead(current),
            Next::Insert(fetch) => {
                let failed = fails_at == Some(run);
                run += 1;
                if failed {
                    return rows.clone();
                }
                working.apply(&fetch.statement.sql);
                SiteProgress::Created(1)
            }
            Next::Commit(_) => return working,
            Next::Abort(_) => return rows.clone(),
        };
    }
}

#[test]
fn a_site_has_one_satellite_row_through_its_whole_life() {
    let nothing = Rows { tables: Vec::new() };
    let road = SiteFields::Road(RoadFields { length: single(2.0), lanes: 2, surface: String::from("asphalt") });
    let create = create_form(SiteType::Road, road);
    let created = transact(&nothing, |p| site_create_stage(&create, p), None, None);
    assert!(created.has_site());
    assert_eq!(created.satellites(), vec!["road"]);

    let to_park = update_form(SiteType::Park, park());
    let changed = transact(&created, |p| site_update_stage(1, &to_park, p), Some(SiteType::Road), None);
    assert!(changed.has_site());
    assert_eq!(changed.satellites(), vec!["park"]);

    let kept = transact(&changed, |p| site_update_stage(1, &to_park, p), Some(SiteType::Park), None);
    assert!(kept.has_site());
    assert_eq!(kept.satellites(), vec!["park"]);

    let deleted = transact(&kept, |p| site_delete_stage(1, p), Some(SiteType::Park), None);
    assert!(!deleted.has_site());
    assert!(deleted.satellites().is_empty());
}

#[test]
fn a_failure_at_any_statement_leaves_the_rows_as_they_were() {
    let nothing = Rows { tables: Vec::new() };
    let road = SiteFields::Road(RoadFields { length: single(2.0), lanes: 2, surface: String::from("asphalt") });
    let create = create_form(SiteType::Road, road);
    for fails_at in 0..2 {
        assert_eq!(transact(&nothing, |p| site_create_stage(&create, p), None, Some(fails_at)), nothing);
    }
    let live = Rows { tables: vec![String::from("site"), String::from("road")] };
    let to_park = update_form(SiteType::Park, park());
    for fails_at in 0..3 {
        let after =
            transact(&live, |p| site_update_stage(1, &to_park, p), Some(SiteType::Road), Some(fails_at));
        assert_eq!(after, live);
    }
    for fails_at in 0..5 {
        let after = transact(&live, |p| site_delete_stage(1, p), Some(SiteType::Road), Some(fails_at));
        assert_eq!(after, live);
    }
    let done = transact(&live, |p| site_update_stage(1, &to_park, p), Some(SiteType::Road), Some(3));
    assert_eq!(done.satellites(), vec!["park"]);
}

#[test]
fn a_form_whose_type_is_not_that_of_its_data_is_refused_before_any_statement() {
    let road = SiteFields::Road(RoadFields { length: single(1.0), lanes: 2, surface: String::from("asphalt") });
    let create = create_form(SiteType::Park, road.clone());
    let refused_new = Next::Abort(Reply::Notification(NotificationTemplate {
        result: NotificationResult::Error,
        message: Some(String::from("Site type does not match the type-specific data")),
        redirect: Some(String::from("/sites/new")),
    }));
    for progress in [
        SiteProgress::Begun,
        SiteProgress::AreaChecked,
        SiteProgress::ClientChecked,
        SiteProgress::Created(4),
    ] {
        let stage = site_create_stage(&create, progress);
        assert!(stage.steps.is_empty());
        assert_eq!(stage.next, refused_new);
    }
    let update = update_form(SiteType::Park, road);
    let refused_edit = Next::Abort(Reply::Notification(NotificationTemplate {
        result: NotificationResult::Error,
        message: Some(String::from("Site type does not match the type-specific data")),
        redirect: Some(String::from("/sites/7/edit")),
    }));
    for progress in [
        SiteProgress::Begun,
        SiteProgress::AreaChecked,
        SiteProgress::ClientChecked,
        SiteProgress::TypeRead(Some(SiteType::Road)),
        SiteProgress::TypeRead(Some(SiteType::Park)),
    ] {
        let stage = site_update_stage(7, &update, progress);
        assert!(stage.steps.is_empty());
        assert_eq!(stage.next, refused_edit);
    }
    let nothing = Rows { tables: Vec::new() };
    assert_eq!(transact(&nothing, |p| site_create_stage(&create, p), None, None), nothing);
    let live = Rows { tables: vec![String::from("site"), String::from("road")] };
    assert_eq!(transact(&live, |p| site_update_stage(1, &update, p), Some(SiteType::Road), None), live);
}

#[test]
fn site_creation_checks_what_it_refers_to() {
    let form = create_form(SiteType::Park, park());
    match site_create_stage(&form, SiteProgress::Begun).next {
        Next::Check(guard) => {
            assert_eq!(guard.probe.sql, "SELECT EXISTS(SELECT 1 FROM area WHERE id = $1)");
            assert_eq!(
                guard.verdict(Ok(false)),
                Some(Reply::Notification(NotificationTemplate {
                    result: NotificationResult::Error,
                    message: Some(String::from("Area with ID 2 does not exist")),
                    redirect: Some(String::from("/sites/new")),
                }))
            );
        }
        other => panic!("unexpected: {:?}", other),
    }
    match site_create_stage(&form, SiteProgress::AreaChecked).next {
        Next::Check(guard) => {
            assert_eq!(guard.probe.sql, "SELECT EXISTS(SELECT 1 FROM client WHERE id = $1)");
            assert_eq!(
                guard.verdict(Ok(false)),
                Some(Reply::Notification(NotificationTemplate {
                    result: NotificationResult::Error,
                    message: Some(String::from("Client with ID 3 does not exist")),
                    redirect: Some(String::from("/sites/new")),
                }))
            );
        }
        other => panic!("unexpected: {:?}", other),
    }
}

#[test]
fn an_unknown_status_adds_no_condition() {
    let filter = |status: Option<&str>| SiteListFilter {
        sort: Sort { sort_by: String::from("name"), sort_direction: SortDirection::Ascending },
        area_id: None,
        department_id: None,
        client_id: None,
        type_: None,
        name: None,
        status: status.map(String::from),
    };
    let page = Pagination { page_number: 1, page_size: 10 };
    let omitted = sites_list_queries(&page, &filter(None));
    assert_eq!(sites_list_queries(&page, &filter(Some("unknown"))), omitted);
    assert_eq!(sites_list_queries(&page, &filter(Some(""))), omitted);
    assert_eq!(
        omitted.page.statement.sql,
        format!("{} ORDER BY s.name ASC LIMIT $1 OFFSET $2", SITE_LIST_SQL)
    );
    assert_eq!(
        sites_list_queries(&page, &filter(Some("planned"))).page.statement.sql,
        format!(
            "{} WHERE NOT EXISTS (SELECT 1 FROM task t WHERE t.site_id = s.id) ORDER BY s.name ASC LIMIT $1 OFFSET $2",
            SITE_LIST_SQL
        )
    );
}
