//! What a request does besides its statements: how a read that fails is
//! reported, which checks stand before a mutation, and what a listing
//! reports.
//!
//! Nothing here talks to the database. A caller runs the statement it is
//! given and hands back what came of it: a row, a flag, a count, or the
//! text of the driver's error.

use crate::general::{
    error_note, items_of, NotificationTemplate, NotificationView, pages_for, Pagination, paragraph,
    paragraph_about, paragraph_about_id, paragraph_of, QueryInfo, Reply, ReplyView, success_note,
};
use crate::sql::{exists_by_id, exists_sql, fixed, SqlValueView, Statement, StatementView};
use crate::text::{around_i32, around_i64, int_text, join2, opt_text};
use vstd::prelude::*;
use vstd::string::*;

verus! {

/// A read, and the words in front of the driver's message when it fails.
#[derive(Clone, Debug, PartialEq, Eq)]
pub struct Fetch {
    pub statement: Statement,
    pub failure: &'static str,
}

/// A read as plain values.
pub struct FetchView {
    pub statement: StatementView,
    pub failure: Seq<char>,
}

impl View for Fetch {
    type V = FetchView;

    open spec fn view(&self) -> FetchView {
        FetchView { statement: self.statement@, failure: self.failure@ }
    }
}

impl Fetch {
    /// The rows of the read, or the paragraph that reports its failure.
    pub fn rows<T>(&self, fetched: Result<Vec<T>, String>) -> (r: Result<Vec<T>, String>)
        ensures
            match fetched {
                Ok(rows) => r == Ok::<Vec<T>, String>(rows),
                Err(e) => r is Err && r->Err_0@ == paragraph(self.failure@, e@),
            },
    {
        match fetched {
            Ok(rows) => Ok(rows),
            Err(e) => Err(paragraph_of(self.failure, e.as_str())),
        }
    }

    /// The row of the read; or the paragraph that says that the row `id`
    /// is missing, in the words `missing_before` and `missing_after`; or
    /// the paragraph that reports the failure of the read.
    pub fn row<T>(
        &self,
        fetched: Result<Option<T>, String>,
        id: i32,
        missing_before: &str,
        missing_after: &str,
    ) -> (r: Result<T, String>)
        ensures
            match fetched {
                Ok(Some(row)) => r == Ok::<T, String>(row),
                Ok(None) => r is Err && r->Err_0@ == paragraph_about(
                    missing_before@,
                    id as int,
                    missing_after@,
                ),
                Err(e) => r is Err && r->Err_0@ == paragraph(self.failure@, e@),
            },
    {
        match fetched {
            Ok(Some(row)) => Ok(row),
            Ok(None) => Err(paragraph_about_id(missing_before, id, missing_after)),
            Err(e) => Err(paragraph_of(self.failure, e.as_str())),
        }
    }

    /// The value of the read, or the paragraph that reports its failure.
    pub fn value<T>(&self, fetched: Result<T, String>) -> (r: Result<T, String>)
        ensures
            match fetched {
                Ok(v) => r == Ok::<T, String>(v),
                Err(e) => r is Err && r->Err_0@ == paragraph(self.failure@, e@),
            },
    {
        match fetched {
            Ok(v) => Ok(v),
            Err(e) => Err(paragraph_of(self.failure, e.as_str())),
        }
    }
}

/// A check that stands before an action: a statement that answers yes or
/// no, the answer that lets the action go on, and what to reply otherwise.
///
/// A check without `failure` is lenient: when the statement itself fails,
/// the action goes on. With `failure`, the failure is reported in a
/// paragraph that starts with these words.
#[derive(Clone, Debug, PartialEq, Eq)]
pub struct Guard {
    pub probe: Statement,
    pub pass_on: bool,
    pub refusal: Reply,
    pub failure: Option<&'static str>,
}

/// A check as plain values.
pub struct GuardView {
    pub probe: StatementView,
    pub pass_on: bool,
    pub refusal: ReplyView,
    pub failure: Option<Seq<char>>,
}

/// The text of an optional fragment of the program's own.
pub open spec fn opt_str_view(o: Option<&'static str>) -> Option<Seq<char>> {
    match o {
        Some(s) => Some(s@),
        None => None,
    }
}

impl View for Guard {
    type V = GuardView;

    open spec fn view(&self) -> GuardView {
        GuardView {
            probe: self.probe@,
            pass_on: self.pass_on,
            refusal: self.refusal@,
            failure: opt_str_view(self.failure),
        }
    }
}

impl GuardView {
    /// What the check answers to the outcome of its statement: `None` to
    /// let the action go on, or the reply that ends the request.
    pub open spec fn verdict(self, answer: Result<bool, Seq<char>>) -> Option<ReplyView> {
        match answer {
            Ok(flag) => if flag == self.pass_on {
                None
            } else {
                Some(self.refusal)
            },
            Err(e) => match self.failure {
                Some(words) => Some(ReplyView::Html(paragraph(words, e))),
                None => None,
            },
        }
    }
}

/// The outcome of a statement with the driver's message as plain text.
pub open spec fn answer_view<T>(answer: Result<T, String>) -> Result<T, Seq<char>> {
    match answer {
        Ok(v) => Ok(v),
        Err(e) => Err(e@),
    }
}

/// An optional reply as plain values.
pub open spec fn opt_reply_view(o: Option<Reply>) -> Option<ReplyView> {
    match o {
        Some(r) => Some(r@),
        None => None,
    }
}

impl Guard {
    /// What the check answers to the outcome of its statement: `None` to
    /// let the action go on, or the reply that ends the request.
    pub fn verdict(self, answer: Result<bool, String>) -> (r: Option<Reply>)
        ensures
            opt_reply_view(r) == self@.verdict(answer_view(answer)),
    {
        match answer {
            Ok(flag) => if flag == self.pass_on {
                None
            } else {
                Some(self.refusal)
            },
            Err(e) => match self.failure {
                Some(words) => Some(Reply::Html(paragraph_of(words, e.as_str()))),
                None => None,
            },
        }
    }
}

/// The reply that refuses with an error notification.
pub open spec fn refuse_note(message: Seq<char>, redirect: Option<Seq<char>>) -> ReplyView {
    ReplyView::Notification(error_note(message, redirect))
}

/// The lenient check that `table` holds the row `id`.
pub open spec fn must_exist(table: Seq<char>, id: i32, refusal: ReplyView) -> GuardView {
    GuardView {
        probe: fixed(exists_sql(table)).arg(SqlValueView::Int(id)),
        pass_on: true,
        refusal,
        failure: None,
    }
}

/// The check `probe` that passes on `pass_on` and reports its own failure
/// after the words `failure`.
pub open spec fn strict(probe: StatementView, pass_on: bool, refusal: ReplyView, failure: Seq<char>)
    -> GuardView {
    GuardView { probe, pass_on, refusal, failure: Some(failure) }
}

impl Reply {
    /// The reply that refuses with an error notification.
    pub fn refuse(message: String, redirect: Option<String>) -> (r: Reply)
        ensures
            r@ == refuse_note(message@, opt_text(redirect)),
    {
        Reply::Notification(NotificationTemplate::error(message, redirect))
    }
}

impl Guard {
    /// The lenient check that `table` holds the row `id`.
    pub fn must_exist(table: &'static str, id: i32, refusal: Reply) -> (g: Guard)
        ensures
            g@ == must_exist(table@, id, refusal@),
    {
        Guard { probe: exists_by_id(table, id), pass_on: true, refusal, failure: None }
    }

    /// The check `probe` that passes on `pass_on` and reports its own
    /// failure after the words `failure`.
    pub fn strict(probe: Statement, pass_on: bool, refusal: Reply, failure: &'static str) -> (g:
        Guard)
        ensures
            g@ == strict(probe@, pass_on, refusal@, failure@),
    {
        Guard { probe, pass_on, refusal, failure: Some(failure) }
    }
}

/// The lenient check that refuses with a notification that `table` holds
/// no row `id`: the message is `before`, the id, ` does not exist`.
pub open spec fn must_exist_or_note(table: Seq<char>, id: i32, before: Seq<char>, redirect: Seq<char>)
    -> GuardView {
    must_exist(
        table,
        id,
        refuse_note(before + int_text(id as int) + " does not exist"@, Some(redirect)),
    )
}

/// The lenient check that refuses with a notification that `table` holds
/// no row `id`.
pub fn must_exist_or_notify(table: &'static str, id: i32, before: &str, redirect: String) -> (g:
    Guard)
    ensures
        g@ == must_exist_or_note(table@, id, before@, redirect@),
{
    Guard::must_exist(
        table,
        id,
        Reply::refuse(around_i32(before, id, " does not exist"), Some(redirect)),
    )
}

/// A lenient check that refuses an action while rows still depend on its
/// subject: a statement that counts them, and the notification that names
/// the count between `before` and `after`.
#[derive(Clone, Debug, PartialEq, Eq)]
pub struct CountGuard {
    pub probe: Statement,
    pub before: &'static str,
    pub after: &'static str,
    pub redirect: Option<String>,
}

/// A counting check as plain values.
pub struct CountGuardView {
    pub probe: StatementView,
    pub before: Seq<char>,
    pub after: Seq<char>,
    pub redirect: Option<Seq<char>>,
}

impl View for CountGuard {
    type V = CountGuardView;

    open spec fn view(&self) -> CountGuardView {
        CountGuardView {
            probe: self.probe@,
            before: self.before@,
            after: self.after@,
            redirect: opt_text(self.redirect),
        }
    }
}

impl CountGuardView {
    /// What the check answers to the outcome of its statement: the error
    /// notification for a count above zero; else `None`, and also `None`
    /// where the statement failed.
    pub open spec fn verdict(self, answer: Result<i64, Seq<char>>) -> Option<ReplyView> {
        match answer {
            Ok(count) => if count > 0 {
                Some(
                    ReplyView::Notification(
                        error_note(self.before + int_text(count as int) + self.after, self.redirect),
                    ),
                )
            } else {
                None
            },
            Err(_) => None,
        }
    }
}

impl CountGuard {
    /// What the check answers to the outcome of its statement.
    pub fn verdict(self, answer: Result<i64, String>) -> (r: Option<Reply>)
        ensures
            opt_reply_view(r) == self@.verdict(answer_view(answer)),
    {
        match answer {
            Ok(count) => if count > 0 {
                Some(
                    Reply::Notification(
                        NotificationTemplate::error(
                            around_i64(self.before, count, self.after),
                            self.redirect,
                        ),
                    ),
                )
            } else {
                None
            },
            Err(_) => None,
        }
    }
}

/// The plain values of a list of checks.
pub open spec fn guards_view(g: Seq<Guard>) -> Seq<GuardView> {
    Seq::new(g.len(), |i: int| g[i]@)
}

/// A mutation of one statement: the checks that stand before it, in order,
/// and the statement.
#[derive(Clone, Debug, PartialEq, Eq)]
pub struct Mutation {
    pub guards: Vec<Guard>,
    pub statement: Statement,
}

/// A mutation as plain values.
pub struct MutationView {
    pub guards: Seq<GuardView>,
    pub statement: StatementView,
}

impl View for Mutation {
    type V = MutationView;

    open spec fn view(&self) -> MutationView {
        MutationView { guards: guards_view(self.guards@), statement: self.statement@ }
    }
}

/// The checks `g` as a list, for an action that has them all.
pub fn guards_of(first: Guard) -> (g: Vec<Guard>)
    ensures
        guards_view(g@) == seq![first@],
{
    let mut g: Vec<Guard> = Vec::new();
    g.push(first);
    assert(guards_view(g@) =~= seq![first@]);
    g
}

/// Adds `next` to the checks where there is one.
pub fn guard_also(guards: Vec<Guard>, next: Option<Guard>) -> (g: Vec<Guard>)
    ensures
        guards_view(g@) == guards_view(guards@) + (match next {
            Some(n) => seq![n@],
            None => Seq::<GuardView>::empty(),
        }),
{
    let mut g = guards;
    match next {
        Some(n) => {
            g.push(n);
            assert(guards_view(g@) =~= guards_view(guards@) + seq![n@]);
        },
        None => {
            assert(guards_view(g@) =~= guards_view(guards@) + Seq::<GuardView>::empty());
        },
    }
    g
}

/// The removal of one row: the check that nothing depends on it any more,
/// and the statement that deletes it.
#[derive(Clone, Debug, PartialEq, Eq)]
pub struct Removal {
    pub guard: CountGuard,
    pub statement: Statement,
}

/// A removal as plain values.
pub struct RemovalView {
    pub guard: CountGuardView,
    pub statement: StatementView,
}

impl View for Removal {
    type V = RemovalView;

    open spec fn view(&self) -> RemovalView {
        RemovalView { guard: self.guard@, statement: self.statement@ }
    }
}

/// The rows of a read that may fail without a report: none where it
/// failed.
pub fn rows_or_none<T>(fetched: Result<Vec<T>, String>) -> (rows: Vec<T>)
    ensures
        match fetched {
            Ok(r) => rows == r,
            Err(_) => rows@ == Seq::<T>::empty(),
        },
{
    match fetched {
        Ok(rows) => rows,
        Err(_) => Vec::new(),
    }
}

/// The notification after a statement that changes rows: of success with
/// the message `success`, or of failure with the driver's message after
/// the words `failure`; both send the client to `redirect`.
pub open spec fn written_note(
    result: Result<u64, Seq<char>>,
    success: Seq<char>,
    failure: Seq<char>,
    redirect: Option<Seq<char>>,
) -> NotificationView {
    match result {
        Ok(_) => success_note(success, redirect),
        Err(e) => error_note(failure + e, redirect),
    }
}

/// The notification after a statement that changes rows.
pub fn written(result: Result<u64, String>, success: String, failure: &str, redirect: Option<String>)
    -> (n: NotificationTemplate)
    ensures
        n@ == written_note(answer_view(result), success@, failure@, opt_text(redirect)),
{
    match result {
        Ok(_) => NotificationTemplate::success(success, redirect),
        Err(e) => NotificationTemplate::error(join2(failure, e.as_str()), redirect),
    }
}

/// The notification after an insert that returns the new id: of success
/// with the message `success`, sending the client to `path` followed by
/// the id; or of failure, sending the client to `fallback`, with the
/// message `failure` followed by `no ID returned` where no row came back
/// and by the driver's message where the insert failed.
pub open spec fn created_note(
    created: Result<Option<i32>, Seq<char>>,
    success: Seq<char>,
    path: Seq<char>,
    failure: Seq<char>,
    fallback: Seq<char>,
) -> NotificationView {
    match created {
        Ok(Some(id)) => success_note(success, Some(path + int_text(id as int))),
        Ok(None) => error_note(failure + "no ID returned"@, Some(fallback)),
        Err(e) => error_note(failure + e, Some(fallback)),
    }
}

/// The notification after an insert that returns the new id.
pub fn created(
    inserted: Result<Option<i32>, String>,
    success: String,
    path: &str,
    failure: &str,
    fallback: &str,
) -> (n: NotificationTemplate)
    ensures
        n@ == created_note(answer_view(inserted), success@, path@, failure@, fallback@),
{
    match inserted {
        Ok(Some(id)) => {
            proof {
                reveal_strlit("");
                assert(path@ + int_text(id as int) + ""@ =~= path@ + int_text(id as int));
            }
            NotificationTemplate::success(success, Some(around_i32(path, id, "")))
        },
        Ok(None) => NotificationTemplate::error(
            join2(failure, "no ID returned"),
            Some(String::from_str(fallback)),
        ),
        Err(e) => NotificationTemplate::error(
            join2(failure, e.as_str()),
            Some(String::from_str(fallback)),
        ),
    }
}

/// The path `before` followed by the number `id`.
pub fn path_of(before: &str, id: i32) -> (path: String)
    ensures
        path@ == before@ + int_text(id as int),
{
    proof {
        reveal_strlit("");
        assert(before@ + int_text(id as int) + ""@ =~= before@ + int_text(id as int));
    }
    around_i32(before, id, "")
}

/// No check at all.
pub fn no_guards() -> (g: Vec<Guard>)
    ensures
        guards_view(g@) == Seq::<GuardView>::empty(),
{
    let g: Vec<Guard> = Vec::new();
    assert(guards_view(g@) =~= Seq::<GuardView>::empty());
    g
}

/// A listing: the statement that counts the rows that the filter admits,
/// the statement that fetches a page of them, and the words in front of the
/// driver's message when either fails.
#[derive(Clone, Debug, PartialEq, Eq)]
pub struct Listing {
    pub count: Fetch,
    pub page: Fetch,
}

/// A listing as plain values.
pub struct ListingView {
    pub count: FetchView,
    pub page: FetchView,
}

impl View for Listing {
    type V = ListingView;

    open spec fn view(&self) -> ListingView {
        ListingView { count: self.count@, page: self.page@ }
    }
}

impl Listing {
    /// What the listing reports for the count that came back: the number
    /// of items and of pages, or the paragraph that reports the failure.
    pub fn counted(&self, pagination: &Pagination, count: Result<i64, String>) -> (r: Result<
        QueryInfo,
        String,
    >)
        ensures
            match count {
                Ok(n) => r is Ok && r->Ok_0.num_items == items_of(n as int) && r->Ok_0.num_pages
                    == pages_for(items_of(n as int), pagination.size()),
                Err(e) => r is Err && r->Err_0@ == paragraph(self.count.failure@, e@),
            },
    {
        match count {
            Ok(n) => Ok(QueryInfo::new(n, pagination)),
            Err(e) => Err(paragraph_of(self.count.failure, e.as_str())),
        }
    }
}

} // verus!
