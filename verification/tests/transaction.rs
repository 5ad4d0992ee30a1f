use onyx_core_builders::flow::Fetch;
use onyx_core_builders::general::{NotificationResult, NotificationTemplate, Reply};
use onyx_core_builders::sql::{by_id, Statement};
use onyx_core_builders::transaction::{
    ask_failed, begin_failed, commit_failed, Failure, Move, Next, Stage, Step,
};

fn stage(n: usize) -> Stage {
    let words = ["Error in first: ", "Error in second: ", "Error in third: "];
    let mut steps = Vec::new();
    for i in 0..n {
        steps.push(Step::new(by_id("DELETE FROM t WHERE id = $1", i as i32), words[i]));
    }
    Stage {
        steps,
        next: Next::Commit(NotificationTemplate::success(String::from("done"), None)),
    }
}

#[test]
fn a_stage_executes_its_steps_in_order_and_then_follows_on() {
    let s = stage(3);
    assert_eq!(s.start(), Move::Execute(0));
    assert_eq!(s.advance(1, Ok(1)), Move::Execute(1));
    assert_eq!(s.advance(2, Ok(0)), Move::Execute(2));
    assert_eq!(s.advance(3, Ok(5)), Move::Follow);
}

#[test]
fn a_stage_without_steps_follows_on_at_once() {
    assert_eq!(stage(0).start(), Move::Follow);
}

#[test]
fn a_failure_at_any_step_rolls_back_with_the_words_of_that_step() {
    let s = stage(3);
    assert_eq!(
        s.advance(1, Err(String::from("boom"))),
        Move::RollBack(Reply::Html(String::from("<p>Error in first: boom</p>")))
    );
    assert_eq!(
        s.advance(2, Err(String::from("boom"))),
        Move::RollBack(Reply::Html(String::from("<p>Error in second: boom</p>")))
    );
    assert_eq!(
        s.advance(3, Err(String::from("boom"))),
        Move::RollBack(Reply::Html(String::from("<p>Error in third: boom</p>")))
    );
}

#[test]
fn injecting_a_failure_at_each_step_never_reaches_the_commit() {
    for n in 1..=3usize {
        for failing in 0..n {
            let s = stage(n);
            let mut executed = Vec::new();
            let mut mv = s.start();
            let mut done = 0usize;
            let last = loop {
                match mv {
                    Move::Execute(i) => {
                        executed.push(i);
                        done = i + 1;
                        let result = if i == failing { Err(String::from("e")) } else { Ok(1) };
                        mv = s.advance(done, result);
                    }
                    other => break other,
                }
            };
            assert!(matches!(last, Move::RollBack(_)));
            assert_eq!(executed, (0..=failing).collect::<Vec<usize>>());
            assert_eq!(done, failing + 1);
        }
    }
}

#[test]
fn a_failure_outside_the_steps_is_still_a_roll_back() {
    let s = stage(2);
    assert_eq!(
        s.advance(0, Err(String::from("x"))),
        Move::RollBack(Reply::Html(String::from("<p>x</p>")))
    );
    assert_eq!(
        s.advance(9, Err(String::from("x"))),
        Move::RollBack(Reply::Html(String::from("<p>x</p>")))
    );
    assert_eq!(s.advance(9, Ok(1)), Move::Follow);
}

#[test]
fn failures_are_reported_in_a_paragraph_or_a_notification() {
    assert_eq!(
        Failure::Paragraph("Error removing assignments: ").report("down"),
        Reply::Html(String::from("<p>Error removing assignments: down</p>"))
    );
    assert_eq!(
        Failure::Notification { before: "Failed to delete brigade: ", redirect: Some(String::from("/brigades/3")) }
            .report("down"),
        Reply::Notification(NotificationTemplate {
            result: NotificationResult::Error,
            message: Some(String::from("Failed to delete brigade: down")),
            redirect: Some(String::from("/brigades/3")),
        })
    );
}

#[test]
fn failures_of_the_transaction_itself() {
    assert_eq!(
        begin_failed("pool closed"),
        Reply::Html(String::from("<p>Error starting transaction: pool closed</p>"))
    );
    assert_eq!(
        commit_failed("conflict"),
        Reply::Html(String::from("<p>Error committing transaction: conflict</p>"))
    );
    let fetch = Fetch { statement: Statement::new("SELECT 1"), failure: "Error fetching site type: " };
    assert_eq!(
        ask_failed(&fetch, "down"),
        Reply::Html(String::from("<p>Error fetching site type: down</p>"))
    );
}
