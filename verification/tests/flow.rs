use onyx_core_builders::flow::{
    created, must_exist_or_notify, rows_or_none, written, CountGuard, Fetch, Guard, Listing,
};
use onyx_core_builders::general::{
    NotificationResult, NotificationTemplate, Pagination, QueryInfo, Reply,
};
use onyx_core_builders::sql::{by_id, exists_by_id, SqlValue, Statement};

fn fetch(words: &'static str) -> Fetch {
    Fetch { statement: Statement::new("SELECT 1"), failure: words }
}

fn error(message: &str, redirect: Option<&str>) -> NotificationTemplate {
    NotificationTemplate {
        result: NotificationResult::Error,
        message: Some(String::from(message)),
        redirect: redirect.map(String::from),
    }
}

fn success(message: &str, redirect: Option<&str>) -> NotificationTemplate {
    NotificationTemplate {
        result: NotificationResult::Success,
        message: Some(String::from(message)),
        redirect: redirect.map(String::from),
    }
}

#[test]
fn a_row_that_was_read_is_handed_on() {
    let f = fetch("Error fetching area: ");
    assert_eq!(f.row(Ok(Some(5)), 1, "Area with ID ", " not found"), Ok(5));
    assert_eq!(f.rows(Ok(vec![1, 2])), Ok(vec![1, 2]));
    assert_eq!(f.value(Ok(true)), Ok(true));
}

#[test]
fn a_missing_row_and_a_failed_read_are_reported() {
    let f = fetch("Error fetching area: ");
    assert_eq!(
        f.row(Ok(None::<i32>), 12, "Area with ID ", " not found"),
        Err(String::from("<p>Area with ID 12 not found</p>"))
    );
    assert_eq!(
        f.row(Err::<Option<i32>, String>(String::from("timeout")), 12, "Area with ID ", " not found"),
        Err(String::from("<p>Error fetching area: timeout</p>"))
    );
    assert_eq!(
        f.rows(Err::<Vec<i32>, String>(String::from("x"))),
        Err(String::from("<p>Error fetching area: x</p>"))
    );
    assert_eq!(
        f.value(Err::<i32, String>(String::from("y"))),
        Err(String::from("<p>Error fetching area: y</p>"))
    );
}

#[test]
fn lenient_reads_give_no_rows_on_failure() {
    assert_eq!(rows_or_none(Ok(vec![1, 2, 3])), vec![1, 2, 3]);
    assert_eq!(rows_or_none(Err::<Vec<i32>, String>(String::from("down"))), Vec::<i32>::new());
}

#[test]
fn a_lenient_guard_refuses_only_a_clear_no() {
    let make = || {
        must_exist_or_notify("department", 3, "Department with ID ", String::from("/areas/new"))
    };
    assert_eq!(make().probe, exists_by_id("department", 3));
    assert_eq!(make().verdict(Ok(true)), None);
    assert_eq!(make().verdict(Err(String::from("down"))), None);
    assert_eq!(
        make().verdict(Ok(false)),
        Some(Reply::Notification(error("Department with ID 3 does not exist", Some("/areas/new"))))
    );
}

#[test]
fn a_strict_guard_reports_its_own_failure() {
    let make = |pass_on: bool| {
        Guard::strict(
            by_id("SELECT EXISTS(...)", 1),
            pass_on,
            Reply::Html(String::from("<p>no</p>")),
            "Error checking worker: ",
        )
    };
    assert_eq!(make(true).verdict(Ok(true)), None);
    assert_eq!(make(true).verdict(Ok(false)), Some(Reply::Html(String::from("<p>no</p>"))));
    assert_eq!(make(false).verdict(Ok(false)), None);
    assert_eq!(make(false).verdict(Ok(true)), Some(Reply::Html(String::from("<p>no</p>"))));
    assert_eq!(
        make(true).verdict(Err(String::from("down"))),
        Some(Reply::Html(String::from("<p>Error checking worker: down</p>")))
    );
}

#[test]
fn a_count_guard_names_the_count() {
    let make = || CountGuard {
        probe: by_id("SELECT COUNT(*) FROM site WHERE area_id = $1", 1),
        before: "Cannot delete area: it has ",
        after: " sites. Remove sites first.",
        redirect: Some(String::from("/areas")),
    };
    assert_eq!(make().verdict(Ok(0)), None);
    assert_eq!(make().verdict(Ok(-1)), None);
    assert_eq!(make().verdict(Err(String::from("down"))), None);
    assert_eq!(
        make().verdict(Ok(1)),
        Some(Reply::Notification(error(
            "Cannot delete area: it has 1 sites. Remove sites first.",
            Some("/areas")
        )))
    );
    assert_eq!(
        make().verdict(Ok(1234)),
        Some(Reply::Notification(error(
            "Cannot delete area: it has 1234 sites. Remove sites first.",
            Some("/areas")
        )))
    );
}

#[test]
fn notifications_after_a_write() {
    assert_eq!(
        written(Ok(1), String::from("done"), "Failed: ", Some(String::from("/a"))),
        success("done", Some("/a"))
    );
    assert_eq!(
        written(Ok(0), String::from("done"), "Failed: ", None),
        success("done", None)
    );
    assert_eq!(
        written(Err(String::from("locked")), String::from("done"), "Failed: ", Some(String::from("/a"))),
        error("Failed: locked", Some("/a"))
    );
}

#[test]
fn notifications_after_an_insert() {
    assert_eq!(
        created(Ok(Some(17)), String::from("made"), "/areas/", "Failed to create area: ", "/areas"),
        success("made", Some("/areas/17"))
    );
    assert_eq!(
        created(Ok(None), String::from("made"), "/areas/", "Failed to create area: ", "/areas"),
        error("Failed to create area: no ID returned", Some("/areas"))
    );
    assert_eq!(
        created(
            Err(String::from("duplicate key")),
            String::from("made"),
            "/areas/",
            "Failed to create area: ",
            "/areas"
        ),
        error("Failed to create area: duplicate key", Some("/areas"))
    );
}

#[test]
fn a_listing_reports_items_and_pages() {
    let l = Listing { count: fetch("Error counting areas: "), page: fetch("Error fetching areas: ") };
    let p = Pagination { page_number: 3, page_size: 10 };
    assert_eq!(l.counted(&p, Ok(25)), Ok(QueryInfo { num_pages: 3, num_items: 25 }));
    assert_eq!(l.counted(&p, Ok(0)), Ok(QueryInfo { num_pages: 0, num_items: 0 }));
    assert_eq!(
        l.counted(&p, Err(String::from("down"))),
        Err(String::from("<p>Error counting areas: down</p>"))
    );
    assert_eq!(
        l.page.rows(Err::<Vec<i32>, String>(String::from("down"))),
        Err(String::from("<p>Error fetching areas: down</p>"))
    );
    assert_eq!(by_id("x", 1).binds, vec![SqlValue::Int(1)]);
}
