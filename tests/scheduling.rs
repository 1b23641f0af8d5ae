use schedule_bot::ledger::CompletedScheduled;
use schedule_bot::schedule::{select_due, select_due_now, ScheduledMessage};
use schedule_bot::time::{instant_from_clock, now_utc, seconds_until_next_minute, UtcTime};

fn item(id: u32, secs: i64) -> ScheduledMessage {
    ScheduledMessage::new(id, format!("message {id}"), UtcTime::new(secs, 0))
}

#[test]
fn completed_items_are_never_due() {
    let schedule = vec![item(1, 10), item(2, 10), item(3, 10)];
    let ledger = CompletedScheduled::from_ids(&vec![2]);
    assert_eq!(select_due(&schedule, &ledger, UtcTime::new(100, 0)), vec![0, 2]);
}

#[test]
fn future_items_are_not_due() {
    let schedule = vec![item(1, 100), item(2, 101), item(3, 99)];
    let ledger = CompletedScheduled::new();
    assert_eq!(select_due(&schedule, &ledger, UtcTime::new(100, 0)), vec![0, 2]);
    let just_before = UtcTime::new(100, 0);
    let mut later = item(4, 100);
    later.scheduled_at = UtcTime::new(100, 1);
    assert_eq!(select_due(&vec![later], &ledger, just_before), Vec::<usize>::new());
}

#[test]
fn due_selection_keeps_schedule_order() {
    let schedule = vec![item(5, 3), item(4, 2), item(3, 1)];
    let ledger = CompletedScheduled::new();
    assert_eq!(select_due(&schedule, &ledger, UtcTime::new(3, 0)), vec![0, 1, 2]);
    assert_eq!(select_due(&vec![], &ledger, UtcTime::new(3, 0)), Vec::<usize>::new());
}

#[test]
fn past_items_are_due_by_the_clock() {
    let schedule = vec![item(1, 0), item(2, i64::MAX)];
    assert_eq!(select_due_now(&schedule, &CompletedScheduled::new()), vec![0]);
}

#[test]
fn sleep_reaches_next_minute() {
    assert_eq!(seconds_until_next_minute(UtcTime::new(120, 0)), 60);
    assert_eq!(seconds_until_next_minute(UtcTime::new(179, 999)), 1);
    assert_eq!(seconds_until_next_minute(UtcTime::new(-1, 0)), 1);
    assert_eq!(UtcTime::new(-61, 0).second_of_minute(), 59);
}

#[test]
fn item_accessors() {
    let mut m = item(9, 5);
    assert_eq!(m.id(), 9);
    assert_eq!(m.message(), "message 9");
    assert_eq!(m.scheduled_at(), UtcTime::new(5, 0));
    assert!(!m.guild_no_channel());
    m.target_guild = Some("g".to_string());
    assert!(m.guild_no_channel());
}

#[test]
fn clock_readings_become_instants() {
    assert_eq!(instant_from_clock(true, 100, 5), UtcTime::new(100, 5));
    assert_eq!(instant_from_clock(false, 100, 0), UtcTime::new(-100, 0));
    assert_eq!(instant_from_clock(false, 100, 250_000_000), UtcTime::new(-101, 750_000_000));
    assert_eq!(instant_from_clock(true, u64::MAX, 1), UtcTime::new(i64::MAX, 999_999_999));
    assert_eq!(instant_from_clock(false, u64::MAX, 1), UtcTime::new(i64::MIN, 0));
    let now = now_utc();
    assert!(now.nanos < 1_000_000_000);
    assert!(now.secs > 1_600_000_000);
}
