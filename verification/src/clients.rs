//! Clients: the statements and replies of their pages, their listing and
//! their mutations.

use crate::flow::{
    answer_view, CountGuard, CountGuardView, created, created_note, Fetch, FetchView, Guard,
    guards_of, GuardView, Listing, Mutation, no_guards, path_of, refuse_note, Removal, RemovalView,
    written, written_note,
};
use crate::general::{
    NotificationTemplate, Pagination, paragraph, paragraph_about, QueryInfo, Reply, SiteType, Sort,
};
use crate::sql::{
    by_column, by_id, filter_pattern, filter_text, filtered, fixed, Order, OrderView, paged,
    pattern_filter, PieceView, Predicates, SqlValue, SqlValueView, Statement, StatementView,
    text_filter, when_present,
};
use crate::text::{around_i32, int_text, join3, opt_text, str_eq};
use vstd::prelude::*;
use vstd::string::*;

verus! {

#[derive(Clone, Copy, Debug, PartialEq, Eq, Structural)]
pub struct ClientsListTemplate;

#[derive(Clone, Copy, Debug, PartialEq, Eq, Structural)]
pub struct ClientDetailsTemplate {
    pub id: i32,
}

#[derive(Clone, Copy, Debug, PartialEq, Eq, Structural)]
pub struct ClientNewTemplate;

#[derive(Clone, Debug, PartialEq, Eq)]
pub struct ClientEditTemplate {
    pub id: i32,
    pub name: String,
    pub inn: String,
    pub address: String,
    pub contact_person_email: String,
    pub contact_person_name: String,
    pub is_vip: bool,
}

#[derive(Clone, Debug, PartialEq, Eq)]
pub struct ClientApiDetailsTemplate {
    pub id: i32,
    pub name: String,
    pub inn: String,
    pub address: String,
    pub contact_person_email: String,
    pub contact_person_name: String,
    pub is_vip: bool,
    pub sites: Vec<ClientSite>,
}

#[derive(Clone, Debug, PartialEq, Eq)]
pub struct ClientSite {
    pub id: i32,
    pub name: String,
    pub type_: SiteType,
    pub status: String,
}

#[derive(Clone, Debug, PartialEq, Eq)]
pub struct ClientUpdateForm {
    pub name: String,
    pub inn: String,
    pub address: String,
    pub contact_person_email: String,
    pub contact_person_name: String,
    pub is_vip: bool,
}

#[derive(Clone, Debug, PartialEq, Eq)]
pub struct ClientCreateForm {
    pub name: String,
    pub inn: String,
    pub address: String,
    pub contact_person_email: String,
    pub contact_person_name: String,
    pub is_vip: bool,
}

#[derive(Clone, Debug, PartialEq, Eq)]
pub struct ClientListFilter {
    pub sort: Sort,
    pub name: Option<String>,
    pub inn: Option<String>,
    pub is_vip: Option<bool>,
}

#[derive(Clone, Debug, PartialEq, Eq)]
pub struct ClientListTemplate {
    pub clients: Vec<ClientListItem>,
    pub pagination: Pagination,
    pub query_info: QueryInfo,
}

#[derive(Clone, Debug, PartialEq, Eq)]
pub struct ClientListItem {
    pub id: i32,
    pub name: String,
    pub inn: String,
    pub is_vip: bool,
}

pub const CLIENT_EDIT_SQL: &'static str =
    "SELECT id, name, inn, address, contact_person_email, contact_person_name, is_vip 
         FROM client
         WHERE id = $1";

pub const CLIENT_DETAILS_SQL: &'static str =
    "SELECT id, name, inn, address, contact_person_email, contact_person_name, is_vip
         FROM client
         WHERE id = $1";

/// Selects the sites of one client with their status, by name.
pub const CLIENT_SITES_SQL: &'static str =
    "SELECT id, name, type,
         CASE
            WHEN EXISTS (SELECT 1 FROM task WHERE site_id = site.id AND actual_period_end IS NULL) THEN 'In Progress'
            WHEN NOT EXISTS (SELECT 1 FROM task WHERE site_id = site.id) THEN 'Planned'
            ELSE 'Completed'
         END as status
         FROM site
         WHERE client_id = $1
         ORDER BY name";

pub const CLIENT_INN_SQL: &'static str = "SELECT inn FROM client WHERE id = $1";

pub const CLIENT_OTHER_INN_SQL: &'static str =
    "SELECT EXISTS(SELECT 1 FROM client WHERE inn = $1 AND id != $2)";

pub const CLIENT_ANY_INN_SQL: &'static str = "SELECT EXISTS(SELECT 1 FROM client WHERE inn = $1)";

pub const CLIENT_UPDATE_SQL: &'static str =
    "UPDATE client SET name = $1, inn = $2, address = $3, 
         contact_person_email = $4, contact_person_name = $5, is_vip = $6 
         WHERE id = $7";

pub const CLIENT_INSERT_SQL: &'static str =
    "INSERT INTO client (name, inn, address, contact_person_email, contact_person_name, is_vip) 
         VALUES ($1, $2, $3, $4, $5, $6) 
         RETURNING id";

pub const CLIENT_DELETE_SQL: &'static str = "DELETE FROM client WHERE id = $1";

pub const CLIENT_SITE_COUNT_SQL: &'static str = "SELECT COUNT(*) FROM site WHERE client_id = $1";

pub const CLIENT_LIST_SQL: &'static str = "SELECT id, name, inn, is_vip FROM client";

/// The read behind the edit form of the client `id`.
pub fn client_edit_query(id: i32) -> (f: Fetch)
    ensures
        f@ == (FetchView {
            statement: fixed(CLIENT_EDIT_SQL@).arg(SqlValueView::Int(id)),
            failure: "Error fetching client: "@,
        }),
{
    Fetch { statement: by_id(CLIENT_EDIT_SQL, id), failure: "Error fetching client: " }
}

/// The edit form of the client `id` for the row that was read; or the
/// paragraph that says that there is no such client, or that the read
/// failed.
pub fn client_edit_page(id: i32, fetched: Result<Option<ClientEditTemplate>, String>) -> (r: Result<
    ClientEditTemplate,
    String,
>)
    ensures
        match fetched {
            Ok(Some(row)) => r == Ok::<ClientEditTemplate, String>(row),
            Ok(None) => r is Err && r->Err_0@ == paragraph_about(
                "Client with ID "@,
                id as int,
                " not found"@,
            ),
            Err(e) => r is Err && r->Err_0@ == paragraph("Error fetching client: "@, e@),
        },
{
    client_edit_query(id).row(fetched, id, "Client with ID ", " not found")
}

/// The read behind the details of the client `id`.
pub fn client_api_details_query(id: i32) -> (f: Fetch)
    ensures
        f@ == (FetchView {
            statement: fixed(CLIENT_DETAILS_SQL@).arg(SqlValueView::Int(id)),
            failure: "Error fetching client details: "@,
        }),
{
    Fetch { statement: by_id(CLIENT_DETAILS_SQL, id), failure: "Error fetching client details: " }
}

/// The client that was read for its details; or the paragraph that says
/// that there is no client `id`, or that the read failed.
pub fn client_found(id: i32, fetched: Result<Option<ClientEditTemplate>, String>) -> (r: Result<
    ClientEditTemplate,
    String,
>)
    ensures
        match fetched {
            Ok(Some(row)) => r == Ok::<ClientEditTemplate, String>(row),
            Ok(None) => r is Err && r->Err_0@ == paragraph_about(
                "Client with ID "@,
                id as int,
                " not found"@,
            ),
            Err(e) => r is Err && r->Err_0@ == paragraph("Error fetching client details: "@, e@),
        },
{
    client_api_details_query(id).row(fetched, id, "Client with ID ", " not found")
}

/// The read of the sites of the client `id`.
pub fn client_sites_query(id: i32) -> (f: Fetch)
    ensures
        f@ == (FetchView {
            statement: fixed(CLIENT_SITES_SQL@).arg(SqlValueView::Int(id)),
            failure: "Error fetching client sites: "@,
        }),
{
    Fetch { statement: by_id(CLIENT_SITES_SQL, id), failure: "Error fetching client sites: " }
}

/// The details of a client with its sites; or the paragraph that reports
/// that the read of the sites failed.
pub fn client_api_details_page(client: ClientEditTemplate, sites: Result<Vec<ClientSite>, String>)
    -> (r: Result<ClientApiDetailsTemplate, String>)
    ensures
        match sites {
            Ok(rows) => r == Ok::<ClientApiDetailsTemplate, String>(
                ClientApiDetailsTemplate {
                    id: client.id,
                    name: client.name,
                    inn: client.inn,
                    address: client.address,
                    contact_person_email: client.contact_person_email,
                    contact_person_name: client.contact_person_name,
                    is_vip: client.is_vip,
                    sites: rows,
                },
            ),
            Err(e) => r is Err && r->Err_0@ == paragraph("Error fetching client sites: "@, e@),
        },
{
    match client_sites_query(client.id).rows(sites) {
        Ok(rows) => Ok(
            ClientApiDetailsTemplate {
                id: client.id,
                name: client.name,
                inn: client.inn,
                address: client.address,
                contact_person_email: client.contact_person_email,
                contact_person_name: client.contact_person_name,
                is_vip: client.is_vip,
                sites: rows,
            },
        ),
        Err(html) => Err(html),
    }
}

/// The statement that reads the INN of the client `id`.
pub fn client_inn_query(id: i32) -> (s: Statement)
    ensures
        s@ == fixed(CLIENT_INN_SQL@).arg(SqlValueView::Int(id)),
{
    by_id(CLIENT_INN_SQL, id)
}

/// The lenient check that no client holds the INN yet: `probe` asks
/// whether one does.
pub open spec fn inn_is_free(probe: StatementView, inn: Seq<char>, redirect: Seq<char>) -> GuardView {
    GuardView {
        probe,
        pass_on: false,
        refusal: refuse_note("Client with INN "@ + inn + " already exists"@, Some(redirect)),
        failure: None,
    }
}

fn inn_guard(probe: Statement, inn: &str, redirect: String) -> (g: Guard)
    ensures
        g@ == inn_is_free(probe@, inn@, redirect@),
{
    Guard {
        probe,
        pass_on: false,
        refusal: Reply::refuse(join3("Client with INN ", inn, " already exists"), Some(redirect)),
        failure: None,
    }
}

/// Whether the form gives the client another INN than the one that was
/// read. A client whose INN could not be read is taken to keep it.
pub open spec fn inn_changes(form: ClientUpdateForm, current: Result<Option<String>, String>) -> bool {
    match current {
        Ok(Some(inn)) => inn@ != form.inn@,
        _ => false,
    }
}

/// The update of the client `id`, whose INN was read as `current`: where
/// the form changes the INN, the check that no other client holds the new
/// one; and the statement.
pub fn client_update(id: i32, form: &ClientUpdateForm, current: Result<Option<String>, String>) -> (m:
    Mutation)
    ensures
        m@.guards == (if inn_changes(*form, current) {
            seq![
                inn_is_free(
                    fixed(CLIENT_OTHER_INN_SQL@).arg(SqlValueView::Text(form.inn@)).arg(
                        SqlValueView::Int(id),
                    ),
                    form.inn@,
                    "/clients/"@ + int_text(id as int) + "/edit"@,
                ),
            ]
        } else {
            Seq::<GuardView>::empty()
        }),
        m@.statement == fixed(CLIENT_UPDATE_SQL@).arg(SqlValueView::Text(form.name@)).arg(
            SqlValueView::Text(form.inn@),
        ).arg(SqlValueView::Text(form.address@)).arg(
            SqlValueView::Text(form.contact_person_email@),
        ).arg(SqlValueView::Text(form.contact_person_name@)).arg(SqlValueView::Bool(form.is_vip)).arg(
            SqlValueView::Int(id),
        ),
{
    let changes = match current {
        Ok(Some(inn)) => !str_eq(inn.as_str(), form.inn.as_str()),
        _ => false,
    };
    let guards = if changes {
        guards_of(
            inn_guard(
                Statement::new(CLIENT_OTHER_INN_SQL).bind(SqlValue::text(form.inn.as_str())).bind(
                    SqlValue::Int(id),
                ),
                form.inn.as_str(),
                around_i32("/clients/", id, "/edit"),
            ),
        )
    } else {
        no_guards()
    };
    Mutation {
        guards,
        statement: Statement::new(CLIENT_UPDATE_SQL).bind(SqlValue::text(form.name.as_str())).bind(
            SqlValue::text(form.inn.as_str()),
        ).bind(SqlValue::text(form.address.as_str())).bind(
            SqlValue::text(form.contact_person_email.as_str()),
        ).bind(SqlValue::text(form.contact_person_name.as_str())).bind(
            SqlValue::Bool(form.is_vip),
        ).bind(SqlValue::Int(id)),
    }
}

/// The notification after the update of the client `id` was run.
pub fn client_update_outcome(id: i32, form: &ClientUpdateForm, result: Result<u64, String>) -> (n:
    NotificationTemplate)
    ensures
        n@ == written_note(
            answer_view(result),
            "Client '"@ + form.name@ + "' updated successfully"@,
            "Failed to update client: "@,
            Some("/clients/"@ + int_text(id as int)),
        ),
{
    written(
        result,
        join3("Client '", form.name.as_str(), "' updated successfully"),
        "Failed to update client: ",
        Some(path_of("/clients/", id)),
    )
}

/// The removal of the client `id`: refused while the client has sites.
pub fn client_delete(id: i32) -> (d: Removal)
    ensures
        d@ == (RemovalView {
            guard: CountGuardView {
                probe: fixed(CLIENT_SITE_COUNT_SQL@).arg(SqlValueView::Int(id)),
                before: "Cannot delete client: client has "@,
                after: " sites. Remove sites first."@,
                redirect: Some("/clients"@),
            },
            statement: fixed(CLIENT_DELETE_SQL@).arg(SqlValueView::Int(id)),
        }),
{
    Removal {
        guard: CountGuard {
            probe: by_id(CLIENT_SITE_COUNT_SQL, id),
            before: "Cannot delete client: client has ",
            after: " sites. Remove sites first.",
            redirect: Some(String::from_str("/clients")),
        },
        statement: by_id(CLIENT_DELETE_SQL, id),
    }
}

/// The notification after the removal of a client was run.
pub fn client_delete_outcome(result: Result<u64, String>) -> (n: NotificationTemplate)
    ensures
        n@ == written_note(
            answer_view(result),
            "Client deleted successfully"@,
            "Failed to delete client: "@,
            Some("/clients"@),
        ),
{
    written(
        result,
        String::from_str("Client deleted successfully"),
        "Failed to delete client: ",
        Some(String::from_str("/clients")),
    )
}

/// The order that a sort key of the client listing stands for. A key that
/// the listing does not know orders by the primary key.
pub open spec fn client_order(key: Seq<char>) -> OrderView {
    if key == "name"@ {
        by_column("name"@)
    } else if key == "inn"@ {
        by_column("inn"@)
    } else {
        by_column("id"@)
    }
}

/// The order that a sort key of the client listing stands for.
pub fn client_order_column(key: &str) -> (order: Order)
    ensures
        order@ == client_order(key@),
{
    if str_eq(key, "name") {
        Order::by_column("name")
    } else if str_eq(key, "inn") {
        Order::by_column("inn")
    } else {
        Order::by_column("id")
    }
}

/// Whatever the sort key, the listing is ordered by one of its own columns,
/// never by the key itself; and a key that the listing does not know orders
/// by the primary key.
pub proof fn lemma_client_order_is_listed(key: Seq<char>)
    ensures
        client_order(key) == by_column("name"@) || client_order(key) == by_column("inn"@) || client_order(key) == by_column("id"@),
        key != "name"@ && key != "inn"@ ==> client_order(key) == by_column("id"@),
{
}

/// The conditions of the client listing: one for each field of the filter
/// that is present.
pub open spec fn client_conditions(filter: ClientListFilter) -> Seq<Seq<PieceView>> {
    when_present(pattern_filter(opt_text(filter.name)), "name ILIKE "@, ""@) + when_present(
        text_filter(opt_text(filter.inn)),
        "inn = "@,
        ""@,
    ) + when_present(
        match filter.is_vip {
            Some(flag) => Some(SqlValueView::Bool(flag)),
            None => None,
        },
        "is_vip = "@,
        ""@,
    )
}

/// The conditions of the client listing.
pub fn client_predicates(filter: &ClientListFilter) -> (p: Predicates)
    ensures
        p@ == client_conditions(*filter),
{
    let mut p = Predicates::new();
    p.add_bound(filter_pattern(&filter.name), "name ILIKE ", "");
    p.add_bound(filter_text(&filter.inn), "inn = ", "");
    p.add_bound(
        match filter.is_vip {
            Some(flag) => Some(SqlValue::Bool(flag)),
            None => None,
        },
        "is_vip = ",
        "",
    );
    assert(p@ =~= client_conditions(*filter));
    p
}

/// The listing of clients: the count of the clients that the filter
/// admits, and the page of them that `pagination` asks for, in the order
/// that the filter asks for.
pub fn clients_list_queries(pagination: &Pagination, filter: &ClientListFilter) -> (l: Listing)
    ensures
        l@.count.statement == filtered(CLIENT_LIST_SQL@, client_conditions(*filter)).wrapped(
            "SELECT COUNT(*) FROM ("@,
            ") as count_query"@,
        ),
        l@.count.failure == "Error counting clients: "@,
        l@.page.statement == paged(
            filtered(CLIENT_LIST_SQL@, client_conditions(*filter)),
            client_order(filter.sort.sort_by@),
            filter.sort.sort_direction,
            *pagination,
        ),
        l@.page.failure == "Error fetching clients: "@,
{
    let rows = Statement::filtered(CLIENT_LIST_SQL, &client_predicates(filter));
    let count = rows.wrap("SELECT COUNT(*) FROM (", ") as count_query");
    let page = rows.paged(
        client_order_column(filter.sort.sort_by.as_str()),
        filter.sort.sort_direction,
        pagination,
    );
    Listing {
        count: Fetch { statement: count, failure: "Error counting clients: " },
        page: Fetch { statement: page, failure: "Error fetching clients: " },
    }
}

/// The creation of a client: the check that no client holds its INN yet,
/// and the statement, which returns the new id.
pub fn client_create(form: &ClientCreateForm) -> (m: Mutation)
    ensures
        m@.guards == seq![
            inn_is_free(
                fixed(CLIENT_ANY_INN_SQL@).arg(SqlValueView::Text(form.inn@)),
                form.inn@,
                "/clients/new"@,
            ),
        ],
        m@.statement == fixed(CLIENT_INSERT_SQL@).arg(SqlValueView::Text(form.name@)).arg(
            SqlValueView::Text(form.inn@),
        ).arg(SqlValueView::Text(form.address@)).arg(
            SqlValueView::Text(form.contact_person_email@),
        ).arg(SqlValueView::Text(form.contact_person_name@)).arg(SqlValueView::Bool(form.is_vip)),
{
    Mutation {
        guards: guards_of(
            inn_guard(
                Statement::new(CLIENT_ANY_INN_SQL).bind(SqlValue::text(form.inn.as_str())),
                form.inn.as_str(),
                String::from_str("/clients/new"),
            ),
        ),
        statement: Statement::new(CLIENT_INSERT_SQL).bind(SqlValue::text(form.name.as_str())).bind(
            SqlValue::text(form.inn.as_str()),
        ).bind(SqlValue::text(form.address.as_str())).bind(
            SqlValue::text(form.contact_person_email.as_str()),
        ).bind(SqlValue::text(form.contact_person_name.as_str())).bind(SqlValue::Bool(form.is_vip)),
    }
}

/// The notification after the creation of a client was run: `inserted` is
/// the id that the statement returned, if it returned any.
pub fn client_create_outcome(form: &ClientCreateForm, inserted: Result<Option<i32>, String>) -> (n:
    NotificationTemplate)
    ensures
        n@ == created_note(
            answer_view(inserted),
            "Client '"@ + form.name@ + "' created successfully"@,
            "/clients/"@,
            "Failed to create client: "@,
            "/clients"@,
        ),
{
    created(
        inserted,
        join3("Client '", form.name.as_str(), "' created successfully"),
        "/clients/",
        "Failed to create client: ",
        "/clients",
    )
}

} // verus!
