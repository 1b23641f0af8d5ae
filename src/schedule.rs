use vstd::prelude::*;

use crate::ledger::CompletedScheduled;
use crate::time::{at_or_after, later_than, now_utc, UtcTime};

verus! {

/// One entry of the schedule: a message to send at a given time, with what
/// may go with it (a poll, a quiz, files, a pin, another destination).
pub struct ScheduledMessage {
    pub id: u32,
    pub message: String,
    pub attachments: Option<Vec<String>>,
    pub scheduled_at: UtcTime,
    pub poll_id: Option<u32>,
    pub quiz_id: Option<u32>,
    pub to_pin: Option<bool>,
    pub target_guild: Option<String>,
    pub target_channel: Option<String>,
}

impl ScheduledMessage {
    /// An entry with only a text and a time; the optional parts are absent.
    pub fn new(id: u32, message: String, scheduled_at: UtcTime) -> (r: ScheduledMessage)
        ensures
            r.id == id,
            r.message == message,
            r.scheduled_at == scheduled_at,
            r.attachments is None,
            r.poll_id is None,
            r.quiz_id is None,
            r.to_pin is None,
            r.target_guild is None,
            r.target_channel is None,
    {
        ScheduledMessage {
            id,
            message,
            attachments: None,
            scheduled_at,
            poll_id: None,
            quiz_id: None,
            to_pin: None,
            target_guild: None,
            target_channel: None,
        }
    }

    pub fn id(&self) -> (r: u32)
        ensures
            r == self.id,
    {
        self.id
    }

    pub fn message(&self) -> (r: String)
        ensures
            r == self.message,
    {
        self.message.clone()
    }

    pub fn scheduled_at(&self) -> (r: UtcTime)
        ensures
            r == self.scheduled_at,
    {
        self.scheduled_at
    }

    /// A destination guild is named but no channel in it: the entry cannot be sent.
    pub fn guild_no_channel(&self) -> (r: bool)
        ensures
            r == (self.target_guild is Some && self.target_channel is None),
    {
        self.target_guild.is_some() && self.target_channel.is_none()
    }
}

/// An entry is due at `now` when it is not in the ledger and its time has come.
pub open spec fn is_due(m: ScheduledMessage, completed: Set<u32>, now: UtcTime) -> bool {
    !completed.contains(m.id) && at_or_after(now, m.scheduled_at)
}

/// `r` lists, in schedule order, the positions of exactly the entries due at `now`.
pub open spec fn due_positions(
    r: Seq<usize>,
    schedule: Seq<ScheduledMessage>,
    completed: Set<u32>,
    now: UtcTime,
) -> bool {
    &&& forall|k: int| 0 <= k < r.len() ==> r[k] < schedule.len()
    &&& forall|k: int| 0 <= k < r.len() ==> is_due(#[trigger] schedule[r[k] as int], completed, now)
    &&& forall|k1: int, k2: int| 0 <= k1 < k2 < r.len() ==> r[k1] < r[k2]
    &&& forall|i: int|
        0 <= i < schedule.len() && is_due(#[trigger] schedule[i], completed, now) ==> r.contains(
            i as usize,
        )
}

/// The positions, in schedule order, of the entries due at `now`. None of
/// them is in the ledger, and none is set for a time after `now`.
pub fn select_due(schedule: &Vec<ScheduledMessage>, completed: &CompletedScheduled, now: UtcTime) -> (r:
    Vec<usize>)
    ensures
        due_positions(r@, schedule@, completed@, now),
        forall|i: int|
            0 <= i < schedule.len() && completed@.contains(#[trigger] schedule@[i].id)
                ==> !r@.contains(i as usize),
        forall|i: int|
            0 <= i < schedule.len() && later_than(#[trigger] schedule@[i].scheduled_at, now)
                ==> !r@.contains(i as usize),
{
    let mut out: Vec<usize> = Vec::new();
    let mut i: usize = 0;
    while i < schedule.len()
        invariant
            i <= schedule.len(),
            forall|k: int| 0 <= k < out.len() ==> out@[k] < i,
            forall|k: int| 0 <= k < out.len() ==> is_due(#[trigger] schedule@[out@[k] as int], completed@, now),
            forall|k1: int, k2: int| 0 <= k1 < k2 < out.len() ==> out@[k1] < out@[k2],
            forall|j: int|
                0 <= j < i && is_due(#[trigger] schedule@[j], completed@, now) ==> out@.contains(
                    j as usize,
                ),
        decreases schedule.len() - i,
    {
        let m = &schedule[i];
        if !completed.is_completed(m.id) && now.is_at_or_after(&m.scheduled_at) {
            let ghost before = out@;
            out.push(i);
            assert(out@[out.len() - 1] == i);
            assert forall|j: usize| #[trigger] before.contains(j) implies out@.contains(j) by {
                let k = choose|k: int| 0 <= k < before.len() && before[k] == j;
                assert(out@[k] == j);
            }
        }
        i += 1;
    }
    proof {
        assert forall|j: int| 0 <= j < schedule.len() && out@.contains(j as usize) implies is_due(
            #[trigger] schedule@[j],
            completed@,
            now,
        ) by {
            let k = choose|k: int| 0 <= k < out.len() && out@[k] == j as usize;
            assert(is_due(schedule@[out@[k] as int], completed@, now));
        }
    }
    out
}

/// The entries due now, by the system clock; `select_due` at an instant the
/// clock gave.
pub fn select_due_now(schedule: &Vec<ScheduledMessage>, completed: &CompletedScheduled) -> (r:
    Vec<usize>)
    ensures
        exists|now: UtcTime| now.nanos < 1_000_000_000 && due_positions(r@, schedule@, completed@, now),
{
    let now = now_utc();
    select_due(schedule, completed, now)
}

} // verus!
