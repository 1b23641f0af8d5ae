use schedule_bot::delivery::{ItemRun, Outcome, Stage};
use schedule_bot::dispatch::{plan_dispatch, DispatchPlan};
use schedule_bot::ledger::CompletedScheduled;
use schedule_bot::quiz::{OngoingQuiz, QuizData};
use schedule_bot::schedule::ScheduledMessage;
use schedule_bot::time::UtcTime;

fn plan(quiz: bool, pin: bool) -> DispatchPlan {
    let mut m = ScheduledMessage::new(21, "hi".to_string(), UtcTime::new(0, 0));
    m.to_pin = Some(pin);
    let mut quizzes = Vec::new();
    if quiz {
        m.quiz_id = Some(1);
        quizzes.push(QuizData::new(1, "a".to_string(), "r".to_string(), None, None, None));
    }
    plan_dispatch(&m, &vec![], &quizzes, false).unwrap()
}

/// Drives a run with the given outcomes, calling `record` when it is due.
fn drive(run: &mut ItemRun, outcomes: &[Outcome], slot: &mut OngoingQuiz, ledger: &mut CompletedScheduled) -> Vec<u64> {
    let mut waits = Vec::new();
    let mut next = outcomes.iter();
    while !run.is_finished() {
        if run.stage == Stage::Record {
            run.record(slot, ledger);
            continue;
        }
        match next.next() {
            Some(o) => waits.push(run.advance(*o)),
            None => break,
        }
    }
    waits
}

#[test]
fn quiz_item_is_sent_pinned_and_recorded() {
    let mut run = ItemRun::new(plan(true, true), 5);
    let mut slot = OngoingQuiz::new();
    let mut ledger = CompletedScheduled::new();
    let outcomes = [
        Outcome::Succeeded,
        Outcome::Channel(42),
        Outcome::Succeeded,
        Outcome::Succeeded,
        Outcome::Failed, // the pin fails: no matter
        Outcome::Succeeded,
    ];
    let waits = drive(&mut run, &outcomes, &mut slot, &mut ledger);
    assert_eq!(run.stage, Stage::Delivered);
    assert!(waits.iter().all(|w| *w == 0));
    assert!(ledger.is_completed(21));
    assert_eq!(slot.get_monitor_channel_id(), Some(42));
}

#[test]
fn failed_send_skips_without_ledger() {
    let mut run = ItemRun::new(plan(false, false), 5);
    let mut slot = OngoingQuiz::new();
    let mut ledger = CompletedScheduled::new();
    drive(&mut run, &[Outcome::Succeeded, Outcome::Succeeded, Outcome::Failed], &mut slot, &mut ledger);
    assert_eq!(run.stage, Stage::Skipped);
    assert!(!ledger.is_completed(21));
    assert!(!slot.quiz_ongoing());
}

#[test]
fn unresolved_quiz_place_skips() {
    let mut run = ItemRun::new(plan(true, false), 5);
    let mut slot = OngoingQuiz::new();
    let mut ledger = CompletedScheduled::new();
    drive(&mut run, &[Outcome::Succeeded, Outcome::Failed], &mut slot, &mut ledger);
    assert_eq!(run.stage, Stage::Skipped);
    assert!(!ledger.is_completed(21));
}

#[test]
fn store_failing_three_times_is_fatal() {
    let mut run = ItemRun::new(plan(false, false), 5);
    let mut slot = OngoingQuiz::new();
    let mut ledger = CompletedScheduled::new();
    let outcomes = [
        Outcome::Succeeded,
        Outcome::Succeeded,
        Outcome::Succeeded,
        Outcome::Failed,
        Outcome::Failed,
        Outcome::Failed,
    ];
    let waits = drive(&mut run, &outcomes, &mut slot, &mut ledger);
    assert_eq!(run.stage, Stage::Fatal);
    assert_eq!(waits, vec![0, 0, 0, 2, 2, 0]);
}

#[test]
fn store_recovering_on_second_write_delivers() {
    let mut run = ItemRun::new(plan(false, false), 5);
    let mut slot = OngoingQuiz::new();
    let mut ledger = CompletedScheduled::new();
    let outcomes = [Outcome::Succeeded, Outcome::Succeeded, Outcome::Succeeded, Outcome::Failed, Outcome::Succeeded];
    let waits = drive(&mut run, &outcomes, &mut slot, &mut ledger);
    assert_eq!(run.stage, Stage::Delivered);
    assert_eq!(waits, vec![0, 0, 0, 2, 0]);
    assert!(ledger.is_completed(21));
}
