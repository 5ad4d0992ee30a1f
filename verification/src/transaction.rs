//! Mutations of several statements, run in one database transaction.
//!
//! A transaction is worked off in stages. A stage is a run of statements
//! and what follows them: a read whose answer decides the next stage, the
//! commit, or the end of the request without one. The caller executes; the
//! functions here decide. Whatever fails, the decision is to roll back: a
//! commit is only ever asked for after every statement of every stage has
//! succeeded.

use crate::flow::{answer_view, Fetch, FetchView, Guard, GuardView};
use crate::general::{
    error_note, NotificationTemplate, NotificationView, paragraph, paragraph_of, Reply, ReplyView,
};
use crate::sql::{Statement, StatementView};
use crate::text::{clone_opt, join2, opt_text};
use vstd::prelude::*;
use vstd::string::*;

verus! {

/// How the failure of a statement is reported: in a paragraph after the
/// given words, or in an error notification whose message starts with the
/// given words.
#[derive(Clone, Debug, PartialEq, Eq)]
pub enum Failure {
    Paragraph(&'static str),
    Notification { before: &'static str, redirect: Option<String> },
}

/// A way to report a failure, as plain values.
pub enum FailureView {
    Paragraph(Seq<char>),
    Notification { before: Seq<char>, redirect: Option<Seq<char>> },
}

impl View for Failure {
    type V = FailureView;

    open spec fn view(&self) -> FailureView {
        match self {
            Failure::Paragraph(words) => FailureView::Paragraph(words@),
            Failure::Notification { before, redirect } => FailureView::Notification {
                before: before@,
                redirect: opt_text(*redirect),
            },
        }
    }
}

impl FailureView {
    /// The reply that reports the driver's message `e`.
    pub open spec fn report(self, e: Seq<char>) -> ReplyView {
        match self {
            FailureView::Paragraph(words) => ReplyView::Html(paragraph(words, e)),
            FailureView::Notification { before, redirect } => ReplyView::Notification(
                error_note(before + e, redirect),
            ),
        }
    }
}

impl Failure {
    /// The reply that reports the driver's message `e`.
    pub fn report(&self, e: &str) -> (r: Reply)
        ensures
            r@ == self@.report(e@),
    {
        match self {
            Failure::Paragraph(words) => Reply::Html(paragraph_of(words, e)),
            Failure::Notification { before, redirect } => Reply::Notification(
                NotificationTemplate::error(join2(before, e), clone_opt(redirect)),
            ),
        }
    }
}

/// One statement of a transaction, and how its failure is reported.
#[derive(Clone, Debug, PartialEq, Eq)]
pub struct Step {
    pub statement: Statement,
    pub failure: Failure,
}

/// A step as plain values.
pub struct StepView {
    pub statement: StatementView,
    pub failure: FailureView,
}

impl View for Step {
    type V = StepView;

    open spec fn view(&self) -> StepView {
        StepView { statement: self.statement@, failure: self.failure@ }
    }
}

/// The step that runs `statement` and reports a failure in a paragraph
/// after `words`.
pub open spec fn step(statement: StatementView, words: Seq<char>) -> StepView {
    StepView { statement, failure: FailureView::Paragraph(words) }
}

impl Step {
    /// The step that runs `statement` and reports a failure in a paragraph
    /// after `words`.
    pub fn new(statement: Statement, words: &'static str) -> (s: Step)
        ensures
            s@ == step(statement@, words@),
    {
        Step { statement, failure: Failure::Paragraph(words) }
    }
}

/// What follows the statements of a stage.
#[derive(Clone, Debug, PartialEq, Eq)]
pub enum Next {
    /// Run the read and come back with its answer.
    Ask(Fetch),
    /// Run the insert inside the transaction, and come back with the id
    /// that it returns.
    Insert(Fetch),
    /// Run the check: roll back and reply where it refuses, come back
    /// where it lets the request go on.
    Check(Guard),
    /// Commit, and reply with the notification.
    Commit(NotificationTemplate),
    /// Roll back, and reply.
    Abort(Reply),
}

/// What follows the statements of a stage, as plain values.
pub enum NextView {
    Ask(FetchView),
    Insert(FetchView),
    Check(GuardView),
    Commit(NotificationView),
    Abort(ReplyView),
}

impl View for Next {
    type V = NextView;

    open spec fn view(&self) -> NextView {
        match self {
            Next::Ask(f) => NextView::Ask(f@),
            Next::Insert(f) => NextView::Insert(f@),
            Next::Check(g) => NextView::Check(g@),
            Next::Commit(n) => NextView::Commit(n@),
            Next::Abort(r) => NextView::Abort(r@),
        }
    }
}

/// The plain values of a list of steps.
pub open spec fn steps_view(s: Seq<Step>) -> Seq<StepView> {
    Seq::new(s.len(), |i: int| s[i]@)
}

/// A stage of a transaction: statements to run in order, and what follows
/// when all of them have succeeded.
#[derive(Clone, Debug, PartialEq, Eq)]
pub struct Stage {
    pub steps: Vec<Step>,
    pub next: Next,
}

/// A stage as plain values.
pub struct StageView {
    pub steps: Seq<StepView>,
    pub next: NextView,
}

impl View for Stage {
    type V = StageView;

    open spec fn view(&self) -> StageView {
        StageView { steps: steps_view(self.steps@), next: self.next@ }
    }
}

/// What the caller does next inside a stage.
#[derive(Clone, Debug, PartialEq, Eq)]
pub enum Move {
    /// Execute the step with this index.
    Execute(usize),
    /// Every step is done: go on with what follows the stage.
    Follow,
    /// Roll the transaction back, and reply.
    RollBack(Reply),
}

/// A move as plain values.
pub enum MoveView {
    Execute(int),
    Follow,
    RollBack(ReplyView),
}

impl View for Move {
    type V = MoveView;

    open spec fn view(&self) -> MoveView {
        match self {
            Move::Execute(i) => MoveView::Execute(*i as int),
            Move::Follow => MoveView::Follow,
            Move::RollBack(r) => MoveView::RollBack(r@),
        }
    }
}

impl StageView {
    /// The move after `done` steps were executed, the last of them with
    /// the outcome `last`: roll back if it failed; else execute the next
    /// step, or follow on when none is left.
    pub open spec fn advance(self, done: int, last: Result<u64, Seq<char>>) -> MoveView {
        match last {
            Err(e) => MoveView::RollBack(
                if 1 <= done <= self.steps.len() {
                    self.steps[done - 1].failure.report(e)
                } else {
                    ReplyView::Html(paragraph(Seq::empty(), e))
                },
            ),
            Ok(_) => if 0 <= done < self.steps.len() {
                MoveView::Execute(done)
            } else {
                MoveView::Follow
            },
        }
    }

    /// The moves of the stage from the point where `done` steps have
    /// succeeded, when the step `fails_at` fails with the message `e` and
    /// every other step succeeds.
    pub open spec fn moves(self, done: int, fails_at: Option<int>, e: Seq<char>) -> Seq<MoveView>
        decreases self.steps.len() - done,
    {
        if done < 0 || done >= self.steps.len() {
            seq![self.advance(done, Ok(0))]
        } else if fails_at == Some(done) {
            seq![self.advance(done, Ok(0)), self.advance(done + 1, Err(e))]
        } else {
            seq![self.advance(done, Ok(0))] + self.moves(done + 1, fails_at, e)
        }
    }
}

impl Stage {
    /// The first move of the stage.
    pub fn start(&self) -> (m: Move)
        ensures
            m@ == self@.advance(0, Ok(0)),
    {
        self.advance(0, Ok(0))
    }

    /// The move after `done` steps were executed, the last of them with
    /// the outcome `last`.
    pub fn advance(&self, done: usize, last: Result<u64, String>) -> (m: Move)
        ensures
            m@ == self@.advance(done as int, answer_view(last)),
    {
        match last {
            Err(e) => {
                if 1 <= done && done <= self.steps.len() {
                    Move::RollBack(self.steps[done - 1].failure.report(e.as_str()))
                } else {
                    proof {
                        reveal_strlit("");
                        assert(""@ =~= Seq::<char>::empty());
                    }
                    Move::RollBack(Reply::Html(paragraph_of("", e.as_str())))
                }
            },
            Ok(_) => if done < self.steps.len() {
                Move::Execute(done)
            } else {
                Move::Follow
            },
        }
    }
}

/// The reply to a transaction that could not be started.
pub fn begin_failed(e: &str) -> (r: Reply)
    ensures
        r@ == ReplyView::Html(paragraph("Error starting transaction: "@, e@)),
{
    Reply::Html(paragraph_of("Error starting transaction: ", e))
}

/// The reply to a transaction that could not be committed.
pub fn commit_failed(e: &str) -> (r: Reply)
    ensures
        r@ == ReplyView::Html(paragraph("Error committing transaction: "@, e@)),
{
    Reply::Html(paragraph_of("Error committing transaction: ", e))
}

/// The reply to a read inside a transaction that failed: the transaction
/// is rolled back, and the failure reported after the words of the read.
pub fn ask_failed(fetch: &Fetch, e: &str) -> (r: Reply)
    ensures
        r@ == ReplyView::Html(paragraph(fetch.failure@, e@)),
{
    Reply::Html(paragraph_of(fetch.failure, e))
}

/// The reply to a stage that asks for something where the request has no
/// answer to give: the transaction is rolled back.
pub fn out_of_turn() -> (r: Reply)
    ensures
        r@ == ReplyView::Html(paragraph("Error: "@, "the transaction asked out of turn"@)),
{
    Reply::Html(paragraph_of("Error: ", "the transaction asked out of turn"))
}

/// The indices of the steps that a run of moves executes.
pub open spec fn executed(moves: Seq<MoveView>) -> Seq<int>
    decreases moves.len(),
{
    if moves.len() == 0 {
        Seq::empty()
    } else {
        match moves.last() {
            MoveView::Execute(i) => executed(moves.drop_last()).push(i),
            _ => executed(moves.drop_last()),
        }
    }
}

/// Whether a run of moves ends by rolling back.
pub open spec fn rolls_back(moves: Seq<MoveView>) -> bool {
    moves.len() > 0 && moves.last() is RollBack
}

/// Whether a run of moves ends by following on to what comes after the
/// stage.
pub open spec fn follows_on(moves: Seq<MoveView>) -> bool {
    moves.len() > 0 && moves.last() is Follow
}

/// The numbers `from`, `from + 1`, ..., `to - 1`.
pub open spec fn range(from: int, to: int) -> Seq<int> {
    Seq::new(
        if to >= from {
            (to - from) as nat
        } else {
            0
        },
        |i: int| from + i,
    )
}

/// A stage in which a step fails ends by rolling back, with the report of
/// that step; it executes the steps up to the failing one and none after
/// it, and it never follows on to a commit. A stage in which no step fails
/// executes every step once, in order, and then follows on.
pub proof fn lemma_stage_is_atomic(stage: StageView, fails_at: Option<int>, e: Seq<char>)
    requires
        fails_at is Some ==> 0 <= fails_at->0 < stage.steps.len(),
    ensures
        fails_at is Some ==> rolls_back(stage.moves(0, fails_at, e)) && !follows_on(
            stage.moves(0, fails_at, e),
        ) && stage.moves(0, fails_at, e).last() == MoveView::RollBack(
            stage.steps[fails_at->0].failure.report(e),
        ) && executed(stage.moves(0, fails_at, e)) == range(0, fails_at->0 + 1),
        fails_at is None ==> follows_on(stage.moves(0, fails_at, e)) && executed(
            stage.moves(0, fails_at, e),
        ) == range(0, stage.steps.len() as int),
        forall|i: int|
            0 <= i < stage.moves(0, fails_at, e).len() - 1 ==> stage.moves(0, fails_at, e)[i]
                is Execute,
{
    lemma_moves_from(stage, 0, fails_at, e);
    assert(range(0, 0) =~= Seq::<int>::empty());
}

/// The moves of a stage from any point on.
proof fn lemma_moves_from(stage: StageView, done: int, fails_at: Option<int>, e: Seq<char>)
    requires
        0 <= done <= stage.steps.len(),
        fails_at is Some ==> done <= fails_at->0 < stage.steps.len(),
    ensures
        stage.moves(done, fails_at, e).len() > 0,
        fails_at is Some ==> stage.moves(done, fails_at, e).last() == MoveView::RollBack(
            stage.steps[fails_at->0].failure.report(e),
        ) && executed(stage.moves(done, fails_at, e)) == range(done, fails_at->0 + 1),
        fails_at is None ==> stage.moves(done, fails_at, e).last() is Follow && executed(
            stage.moves(done, fails_at, e),
        ) == range(done, stage.steps.len() as int),
        forall|i: int|
            0 <= i < stage.moves(done, fails_at, e).len() - 1 ==> stage.moves(done, fails_at, e)[i]
                is Execute,
    decreases stage.steps.len() - done,
{
    let moves = stage.moves(done, fails_at, e);
    if done >= stage.steps.len() {
        assert(moves =~= seq![MoveView::Follow]);
        lemma_executed_after(MoveView::Follow, Seq::empty());
        assert(seq![MoveView::Follow] + Seq::<MoveView>::empty() =~= moves);
        assert(executed(Seq::<MoveView>::empty()) =~= Seq::<int>::empty());
        assert(range(done, stage.steps.len() as int) =~= Seq::<int>::empty());
    } else if fails_at == Some(done) {
        let first = MoveView::Execute(done);
        let report = MoveView::RollBack(stage.steps[done].failure.report(e));
        assert(moves =~= seq![first] + seq![report]);
        lemma_executed_after(first, seq![report]);
        lemma_executed_after(report, Seq::empty());
        assert(seq![report] + Seq::<MoveView>::empty() =~= seq![report]);
        assert(executed(Seq::<MoveView>::empty()) =~= Seq::<int>::empty());
        assert(range(done, done + 1) =~= seq![done]);
    } else {
        lemma_moves_from(stage, done + 1, fails_at, e);
        let rest = stage.moves(done + 1, fails_at, e);
        let first = MoveView::Execute(done);
        assert(moves =~= seq![first] + rest);
        lemma_executed_after(first, rest);
        if fails_at is Some {
            assert(seq![done] + range(done + 1, fails_at->0 + 1) =~= range(done, fails_at->0 + 1));
        } else {
            assert(seq![done] + range(done + 1, stage.steps.len() as int) =~= range(
                done,
                stage.steps.len() as int,
            ));
        }
    }
}

/// The steps that a run executes after a first move.
proof fn lemma_executed_after(first: MoveView, rest: Seq<MoveView>)
    ensures
        executed(seq![first] + rest) == (match first {
            MoveView::Execute(i) => seq![i],
            _ => Seq::<int>::empty(),
        }) + executed(rest),
    decreases rest.len(),
{
    let all = seq![first] + rest;
    let head = match first {
        MoveView::Execute(i) => seq![i],
        _ => Seq::<int>::empty(),
    };
    if rest.len() == 0 {
        assert(all =~= seq![first]);
        assert(all.drop_last() =~= Seq::<MoveView>::empty());
        assert(executed(all.drop_last()) =~= Seq::<int>::empty());
        assert(executed(rest) =~= Seq::<int>::empty());
        assert(all.last() == first);
        assert(Seq::<int>::empty().push(0int) =~= seq![0int]);
        match first {
            MoveView::Execute(i) => {
                assert(Seq::<int>::empty().push(i) =~= seq![i]);
            },
            _ => {},
        }
        assert(head + executed(rest) =~= head);
    } else {
        lemma_executed_after(first, rest.drop_last());
        assert(all.drop_last() =~= seq![first] + rest.drop_last());
        assert(all.last() == rest.last());
        match rest.last() {
            MoveView::Execute(i) => {
                assert((head + executed(rest.drop_last())).push(i) =~= head + executed(
                    rest.drop_last(),
                ).push(i));
            },
            _ => {},
        }
    }
}

} // verus!
