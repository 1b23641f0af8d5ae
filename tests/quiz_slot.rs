use schedule_bot::quiz::{get_quiz_data, InstallPolicy, OngoingQuiz, QuizData, QuizVerdict};
use schedule_bot::time::UtcTime;

fn quiz(id: u32, answer: &str, end: Option<UtcTime>, channel: u64) -> QuizData {
    let mut q = QuizData::new(id, answer.to_string(), "well done".to_string(), end, None, None);
    q.set_monitor_channel_id(channel);
    q
}

fn is_won(v: &QuizVerdict) -> bool {
    matches!(v, QuizVerdict::Won(_))
}

#[test]
fn expired_quiz_clears_without_reply() {
    let end = UtcTime::new(1_000, 0);
    let mut slot = OngoingQuiz::new();
    slot.set_ongoing_quiz(quiz(1, "blue sky", Some(end), 7));
    let v = slot.evaluate_message(7, "blue sky", UtcTime::new(1_000, 0));
    assert!(matches!(v, QuizVerdict::Expired));
    assert!(!slot.quiz_ongoing());
}

#[test]
fn expired_quiz_later_time_clears() {
    let mut slot = OngoingQuiz::new();
    slot.set_ongoing_quiz(quiz(1, "yes", Some(UtcTime::new(1_000, 5)), 7));
    let v = slot.evaluate_message(7, "no", UtcTime::new(2_000, 0));
    assert!(matches!(v, QuizVerdict::Expired));
    assert!(slot.get_monitor_channel_id().is_none());
}

#[test]
fn quiz_before_end_still_answers() {
    let mut slot = OngoingQuiz::new();
    slot.set_ongoing_quiz(quiz(1, "yes", Some(UtcTime::new(1_000, 5)), 7));
    let v = slot.evaluate_message(7, "YES!", UtcTime::new(1_000, 4));
    match v {
        QuizVerdict::Won(reply) => assert_eq!(reply, "well done"),
        _ => panic!("expected a win"),
    }
}

#[test]
fn two_matching_messages_give_one_winner() {
    let mut slot = OngoingQuiz::new();
    slot.set_ongoing_quiz(quiz(1, "blue sky", None, 7));
    let now = UtcTime::new(50, 0);
    let first = slot.evaluate_message(7, "the blue sky", now);
    let second = slot.evaluate_message(7, "blue sky!", now);
    assert!(is_won(&first));
    assert!(matches!(second, QuizVerdict::Ignored));
    assert!(!slot.quiz_ongoing());
}

#[test]
fn other_channel_and_idle_are_ignored() {
    let mut slot = OngoingQuiz::new();
    assert!(matches!(slot.evaluate_message(7, "x", UtcTime::new(0, 0)), QuizVerdict::Ignored));
    slot.set_ongoing_quiz(quiz(1, "x", None, 7));
    assert!(matches!(slot.evaluate_message(8, "x", UtcTime::new(0, 0)), QuizVerdict::Ignored));
    assert!(slot.quiz_ongoing());
    assert!(matches!(slot.evaluate_message(7, "y", UtcTime::new(0, 0)), QuizVerdict::NoMatch));
    assert_eq!(slot.get_monitor_channel_id(), Some(7));
}

#[test]
fn wrong_answer_by_the_clock_keeps_quiz() {
    let mut slot = OngoingQuiz::new();
    slot.set_ongoing_quiz(quiz(1, "x", None, 7));
    assert!(matches!(slot.evaluate_message_now(7, "nothing here"), QuizVerdict::NoMatch));
    assert!(slot.quiz_ongoing());
}

#[test]
fn later_quiz_replaces_or_is_rejected() {
    let mut slot = OngoingQuiz::new();
    assert!(slot.try_install(quiz(1, "a", None, 1), InstallPolicy::RejectIfActive));
    assert!(!slot.try_install(quiz(2, "b", None, 2), InstallPolicy::RejectIfActive));
    assert_eq!(slot.get_monitor_channel_id(), Some(1));
    assert!(slot.try_install(quiz(3, "c", None, 3), InstallPolicy::Replace));
    assert_eq!(slot.get_monitor_channel_id(), Some(3));
    slot.remove_ongoing_quiz();
    assert!(!slot.quiz_ongoing());
}

#[test]
fn quiz_lookup_and_accessors() {
    let quizzes = vec![quiz(1, "a", None, 0), quiz(2, "b", Some(UtcTime::new(9, 0)), 0)];
    let q = get_quiz_data(&quizzes, 2).unwrap();
    assert_eq!(q.id(), 2);
    assert_eq!(q.answer(), "b");
    assert_eq!(q.reply_with(), "well done");
    assert_eq!(*q.end_at(), Some(UtcTime::new(9, 0)));
    assert!(get_quiz_data(&quizzes, 3).is_none());
    let g = QuizData::new(4, "a".to_string(), "r".to_string(), None, Some("g".to_string()), None);
    assert!(g.guild_no_channel());
    assert_eq!(g.get_monitor_channel_id(), 0);
}
