//! Values shared by every resource: the closed enumerations of the domain,
//! pagination and sorting parameters, and the notification that every
//! mutation answers with.

use crate::text::{int_text, opt_text, push_i32, str_eq};
use vstd::prelude::*;
use vstd::string::*;

verus! {

#[derive(Clone, Copy, Debug, PartialEq, Eq, Structural)]
pub enum SiteType {
    PowerPlant,
    Road,
    Housing,
    Bridge,
    Park,
}

#[derive(Clone, Copy, Debug, PartialEq, Eq, Structural)]
pub enum RiskLevel {
    Low,
    Meidum,
    High,
}

#[derive(Clone, Copy, Debug, PartialEq, Eq, Structural)]
pub enum Gender {
    Male,
    Female,
}

#[derive(Clone, Copy, Debug, PartialEq, Eq, Structural)]
pub enum Profession {
    Electrician,
    Plumber,
    Welder,
    Driver,
    Mason,
}

#[derive(Clone, Copy, Debug, PartialEq, Eq, Structural)]
pub enum Qualification {
    Technician,
    Technologist,
    Engineer,
}

#[derive(Clone, Copy, Debug, PartialEq, Eq, Structural)]
pub enum Position {
    Master,
    Foreman,
}

#[derive(Clone, Copy, Debug, PartialEq, Eq, Structural)]
pub enum FuelType {
    Gasoline,
    Diesel,
    Electric,
    Hybrid,
}

#[derive(Clone, Copy, Debug, PartialEq, Eq, Structural)]
pub enum SortDirection {
    Ascending,
    Descending,
}

#[derive(Clone, Copy, Debug, PartialEq, Eq, Structural)]
pub enum NotificationResult {
    Success,
    Error,
}

/// Which page of a listing is asked for, and how many rows a page holds.
///
/// Both numbers count from one. A zero in either field is read as one, so
/// that no request produces a negative offset or a division by zero.
#[derive(Clone, Copy, Debug, PartialEq, Eq, Structural)]
pub struct Pagination {
    pub page_number: u32,
    pub page_size: u32,
}

/// The page number of a request that names none.
pub fn one() -> (n: u32)
    ensures
        n == 1,
{
    1
}

/// The page size of a request that names none.
pub fn ten() -> (n: u32)
    ensures
        n == 10,
{
    10
}

/// The largest value of a 64-bit signed integer.
pub open spec fn max_i64() -> int {
    0x7fff_ffff_ffff_ffff
}

/// The number of pages that `items` rows fill at `size` rows per page:
/// `items / size`, rounded up.
pub open spec fn pages_for(items: int, size: int) -> int
    recommends
        items >= 0,
        size >= 1,
{
    (items + size - 1) / size
}

/// The number of rows that `LIMIT size OFFSET (page - 1) * size` selects out
/// of `items` rows.
pub open spec fn rows_on_page(items: int, size: int, page: int) -> int
    recommends
        items >= 0,
        size >= 1,
        page >= 1,
{
    let skipped = (page - 1) * size;
    if skipped >= items {
        0
    } else if items - skipped >= size {
        size
    } else {
        items - skipped
    }
}

/// The number of rows on the pages `1..=pages` together.
pub open spec fn rows_on_pages(items: int, size: int, pages: int) -> int
    decreases pages,
{
    if pages <= 0 {
        0
    } else {
        rows_on_pages(items, size, pages - 1) + rows_on_page(items, size, pages)
    }
}

impl Pagination {
    /// The page size in effect: at least one.
    pub open spec fn size(self) -> int {
        if self.page_size == 0 {
            1
        } else {
            self.page_size as int
        }
    }

    /// The page number in effect: at least one.
    pub open spec fn number(self) -> int {
        if self.page_number == 0 {
            1
        } else {
            self.page_number as int
        }
    }

    /// The value of `LIMIT`.
    pub open spec fn spec_limit(self) -> int {
        self.size()
    }

    /// The value of `OFFSET`: the rows of all earlier pages, capped at the
    /// largest 64-bit integer.
    pub open spec fn spec_offset(self) -> int {
        let skipped = (self.number() - 1) * self.size();
        if skipped > max_i64() {
            max_i64()
        } else {
            skipped
        }
    }

    /// The pagination of a request: absent parameters take their defaults,
    /// page one and ten rows per page.
    pub fn from_query(page_number: Option<u32>, page_size: Option<u32>) -> (p: Pagination)
        ensures
            p.page_number == (match page_number {
                Some(n) => n,
                None => 1u32,
            }),
            p.page_size == (match page_size {
                Some(n) => n,
                None => 10u32,
            }),
    {
        Pagination {
            page_number: match page_number {
                Some(n) => n,
                None => one(),
            },
            page_size: match page_size {
                Some(n) => n,
                None => ten(),
            },
        }
    }

    /// The value to bind to `LIMIT`.
    pub fn limit(&self) -> (l: i64)
        ensures
            l == self.spec_limit(),
            1 <= l <= u32::MAX,
    {
        if self.page_size == 0 {
            1
        } else {
            self.page_size as i64
        }
    }

    /// The value to bind to `OFFSET`.
    pub fn offset(&self) -> (o: i64)
        ensures
            o == self.spec_offset(),
            o >= 0,
    {
        let number: u64 = if self.page_number == 0 {
            1
        } else {
            self.page_number as u64
        };
        let size: u64 = if self.page_size == 0 {
            1
        } else {
            self.page_size as u64
        };
        assert((number - 1) * size <= 0xffff_ffff * 0xffff_ffff) by (nonlinear_arith)
            requires
                1 <= number <= 0xffff_ffff,
                1 <= size <= 0xffff_ffff,
        ;
        assert((number - 1) * size >= 0) by (nonlinear_arith)
            requires
                1 <= number,
                1 <= size,
        ;
        let skipped: u64 = (number - 1) * size;
        if skipped > 0x7fff_ffff_ffff_ffff {
            0x7fff_ffff_ffff_ffff
        } else {
            skipped as i64
        }
    }
}

/// How to order a listing: a free-text key, which each resource resolves
/// against its own list of sortable columns, and a direction.
#[derive(Clone, Debug, PartialEq, Eq)]
pub struct Sort {
    pub sort_by: String,
    pub sort_direction: SortDirection,
}

impl SortDirection {
    /// The SQL keyword of the direction, with the blank in front of it.
    pub open spec fn spec_keyword(self) -> Seq<char> {
        match self {
            SortDirection::Ascending => " ASC"@,
            SortDirection::Descending => " DESC"@,
        }
    }

    /// The SQL keyword of the direction, with the blank in front of it.
    pub fn keyword(&self) -> (k: &'static str)
        ensures
            k@ == self.spec_keyword(),
    {
        match self {
            SortDirection::Ascending => " ASC",
            SortDirection::Descending => " DESC",
        }
    }

    /// Reads the direction of a request: `asc` or `desc`.
    pub fn from_key(key: &str) -> (d: Option<SortDirection>)
        ensures
            d == (if key@ == "asc"@ {
                Some(SortDirection::Ascending)
            } else if key@ == "desc"@ {
                Some(SortDirection::Descending)
            } else {
                None::<SortDirection>
            }),
    {
        if str_eq(key, "asc") {
            Some(SortDirection::Ascending)
        } else if str_eq(key, "desc") {
            Some(SortDirection::Descending)
        } else {
            None
        }
    }
}

/// What a listing reports beside its rows.
#[derive(Clone, Copy, Debug, PartialEq, Eq, Structural)]
pub struct QueryInfo {
    pub num_pages: u32,
    pub num_items: u32,
}

/// The count of a listing as the number of items reported: negative counts
/// read as zero, counts beyond 32 bits as the largest 32-bit number.
pub open spec fn items_of(count: int) -> int {
    if count < 0 {
        0
    } else if count > u32::MAX {
        u32::MAX as int
    } else {
        count
    }
}

/// `pages_for` never exceeds the number of items, and is zero for none.
pub proof fn lemma_pages_for_bounds(items: int, size: int)
    requires
        items >= 0,
        size >= 1,
    ensures
        0 <= pages_for(items, size) <= items,
        items == 0 ==> pages_for(items, size) == 0,
        items > 0 ==> pages_for(items, size) >= 1,
        (pages_for(items, size) - 1) * size < items || items == 0,
        pages_for(items, size) * size >= items,
{
    let q = (items + size - 1) / size;
    let r = (items + size - 1) % size;
    assert(items + size - 1 == size * q + r && 0 <= r < size) by {
        vstd::arithmetic::div_mod::lemma_fundamental_div_mod(items + size - 1, size);
        vstd::arithmetic::div_mod::lemma_mod_bound(items + size - 1, size);
    }
    assert(q >= 0 && q <= items && (items == 0 ==> q == 0) && (items > 0 ==> q >= 1) && ((q - 1)
        * size < items || items == 0) && q * size >= items) by (nonlinear_arith)
        requires
            items + size - 1 == size * q + r,
            0 <= r < size,
            items >= 0,
            size >= 1,
    ;
}

impl QueryInfo {
    /// The report for a listing of `count` rows in all.
    pub fn new(count: i64, pagination: &Pagination) -> (info: QueryInfo)
        ensures
            info.num_items == items_of(count as int),
            info.num_pages == pages_for(items_of(count as int), pagination.size()),
    {
        let items: u32 = if count < 0 {
            0
        } else if count > 0xffff_ffff {
            0xffff_ffff
        } else {
            count as u32
        };
        let size: u64 = if pagination.page_size == 0 {
            1
        } else {
            pagination.page_size as u64
        };
        proof {
            lemma_pages_for_bounds(items as int, size as int);
        }
        let pages: u64 = (items as u64 + size - 1) / size;
        QueryInfo { num_pages: pages as u32, num_items: items }
    }
}

/// Iterating over all pages of a listing meets every row once: the pages
/// `1..=pages_for(items, size)` hold `items` rows together, and no page
/// beyond them holds any.
pub proof fn lemma_pages_cover_all_rows(items: int, size: int)
    requires
        items >= 0,
        size >= 1,
    ensures
        rows_on_pages(items, size, pages_for(items, size)) == items,
        forall|page: int| page > pages_for(items, size) ==> rows_on_page(items, size, page) == 0,
{
    lemma_pages_for_bounds(items, size);
    let pages = pages_for(items, size);
    if items > 0 {
        let before = (pages - 1) * size;
        lemma_rows_on_full_pages(items, size, pages - 1);
        assert(before + size >= items) by (nonlinear_arith)
            requires
                before == (pages - 1) * size,
                pages * size >= items,
        ;
        assert(rows_on_page(items, size, pages) == items - before);
        assert(rows_on_pages(items, size, pages) == rows_on_pages(items, size, pages - 1)
            + rows_on_page(items, size, pages));
    }
    assert forall|page: int| page > pages implies rows_on_page(items, size, page) == 0 by {
        assert((page - 1) * size >= items) by (nonlinear_arith)
            requires
                page > pages,
                pages * size >= items,
                size >= 1,
        ;
    }
}

/// Pages that lie wholly inside the listing are full.
proof fn lemma_rows_on_full_pages(items: int, size: int, pages: int)
    requires
        items >= 0,
        size >= 1,
        pages >= 0,
        pages * size <= items,
    ensures
        rows_on_pages(items, size, pages) == pages * size,
    decreases pages,
{
    if pages > 0 {
        let before = (pages - 1) * size;
        assert(before + size == pages * size && before >= 0) by (nonlinear_arith)
            requires
                before == (pages - 1) * size,
                size >= 1,
                pages >= 1,
        ;
        lemma_rows_on_full_pages(items, size, pages - 1);
        assert(rows_on_page(items, size, pages) == size);
    } else {
        assert(pages * size == 0) by (nonlinear_arith)
            requires
                pages == 0,
        ;
    }
}

/// The landing page.
#[derive(Clone, Copy, Debug, PartialEq, Eq, Structural)]
pub struct IndexTemplate;

/// The page for an unknown address.
#[derive(Clone, Copy, Debug, PartialEq, Eq, Structural)]
pub struct NotFoundTemplate;

/// The page for a failure of the server.
#[derive(Clone, Copy, Debug, PartialEq, Eq, Structural)]
pub struct ServerErrorTemplate;

/// The answer to a mutation: whether it went through, a message for the
/// user, and where the client should go next.
#[derive(Clone, Debug, PartialEq, Eq)]
pub struct NotificationTemplate {
    pub result: NotificationResult,
    pub message: Option<String>,
    pub redirect: Option<String>,
}

/// A notification as plain values.
pub struct NotificationView {
    pub result: NotificationResult,
    pub message: Option<Seq<char>>,
    pub redirect: Option<Seq<char>>,
}

impl View for NotificationTemplate {
    type V = NotificationView;

    open spec fn view(&self) -> NotificationView {
        NotificationView {
            result: self.result,
            message: opt_text(self.message),
            redirect: opt_text(self.redirect),
        }
    }
}

/// The success notification with the given message and redirect.
pub open spec fn success_note(message: Seq<char>, redirect: Option<Seq<char>>) -> NotificationView {
    NotificationView { result: NotificationResult::Success, message: Some(message), redirect }
}

/// The error notification with the given message and redirect.
pub open spec fn error_note(message: Seq<char>, redirect: Option<Seq<char>>) -> NotificationView {
    NotificationView { result: NotificationResult::Error, message: Some(message), redirect }
}

impl NotificationTemplate {
    /// A notification of success.
    pub fn success(message: String, redirect: Option<String>) -> (n: NotificationTemplate)
        ensures
            n@ == success_note(message@, opt_text(redirect)),
    {
        NotificationTemplate { result: NotificationResult::Success, message: Some(message), redirect }
    }

    /// A notification of failure.
    pub fn error(message: String, redirect: Option<String>) -> (n: NotificationTemplate)
        ensures
            n@ == error_note(message@, opt_text(redirect)),
    {
        NotificationTemplate { result: NotificationResult::Error, message: Some(message), redirect }
    }
}

/// What a handler answers with: a notification to render, or a fragment of
/// HTML that is sent as it stands.
#[derive(Clone, Debug, PartialEq, Eq)]
pub enum Reply {
    Notification(NotificationTemplate),
    Html(String),
}

/// A reply as plain values.
pub enum ReplyView {
    Notification(NotificationView),
    Html(Seq<char>),
}

impl View for Reply {
    type V = ReplyView;

    open spec fn view(&self) -> ReplyView {
        match self {
            Reply::Notification(n) => ReplyView::Notification(n@),
            Reply::Html(h) => ReplyView::Html(h@),
        }
    }
}

/// The paragraph `<p>` + `before` + `detail` + `</p>`.
pub open spec fn paragraph(before: Seq<char>, detail: Seq<char>) -> Seq<char> {
    "<p>"@ + before + detail + "</p>"@
}

/// The paragraph that reports `detail` after the words of `before`.
pub fn paragraph_of(before: &str, detail: &str) -> (html: String)
    ensures
        html@ == paragraph(before@, detail@),
{
    let mut html = String::from_str("<p>");
    html.append(before);
    html.append(detail);
    html.append("</p>");
    html
}

/// The paragraph `<p>` + `before` + the number + `after` + `</p>`.
pub open spec fn paragraph_about(before: Seq<char>, id: int, after: Seq<char>) -> Seq<char> {
    "<p>"@ + before + int_text(id) + after + "</p>"@
}

/// The paragraph that names the row `id` between `before` and `after`.
pub fn paragraph_about_id(before: &str, id: i32, after: &str) -> (html: String)
    ensures
        html@ == paragraph_about(before@, id as int, after@),
{
    let mut html = String::from_str("<p>");
    html.append(before);
    push_i32(&mut html, id);
    html.append(after);
    html.append("</p>");
    html
}

/// The fragment sent in place of a template that failed to render.
pub fn render_failure(error: &str) -> (html: String)
    ensures
        html@ == paragraph("Error rendering template: "@, error@),
{
    paragraph_of("Error rendering template: ", error)
}

} // verus!
