use vstd::prelude::*;

use crate::dispatch::{record_sent, DispatchPlan};
use crate::ledger::{
    after_persist_attempt, persist_step, CompletedScheduled, PersistStep, PERSIST_BACKOFF_SECS,
};
use crate::quiz::{OngoingQuiz, QuizData};

verus! {

/// Where the delivery of one due entry stands. Each stage but the last three
/// names the outside work to do next.
#[derive(Clone, Copy, Debug, PartialEq, Eq, Structural)]
pub enum Stage {
    /// Build the message, reading its attached files.
    Build,
    /// Find the channel where the quiz's answers are watched.
    ResolveQuizPlace,
    /// Find the channel the message goes to.
    ResolveDestination,
    /// Send the message.
    Send,
    /// Pin the sent message.
    Pin,
    /// Start the quiz and mark the entry in the ledger (see `record`).
    Record,
    /// Write the ledger; the number counts the writes already failed.
    Persist(u32),
    /// Sent and stored in the ledger.
    Delivered,
    /// Not sent on this tick; the entry stays due.
    Skipped,
    /// Sent, but the ledger could not be stored: the process must stop.
    Fatal,
}

/// How the outside work of a stage went.
#[derive(Clone, Copy, Debug, PartialEq, Eq, Structural)]
pub enum Outcome {
    Succeeded,
    Failed,
    /// A channel was found: its id.
    Channel(u64),
}

/// The stage after `stage` when its work ended with `outcome`, for an entry
/// that starts a quiz or not and is pinned or not.
pub open spec fn next_stage(has_quiz: bool, pin: bool, stage: Stage, outcome: Outcome) -> Stage {
    match stage {
        Stage::Build => match outcome {
            Outcome::Failed => Stage::Skipped,
            _ => if has_quiz {
                Stage::ResolveQuizPlace
            } else {
                Stage::ResolveDestination
            },
        },
        Stage::ResolveQuizPlace => match outcome {
            Outcome::Channel(_) => Stage::ResolveDestination,
            _ => Stage::Skipped,
        },
        Stage::ResolveDestination => match outcome {
            Outcome::Failed => Stage::Skipped,
            _ => Stage::Send,
        },
        Stage::Send => match outcome {
            Outcome::Failed => Stage::Skipped,
            _ => if pin {
                Stage::Pin
            } else {
                Stage::Record
            },
        },
        Stage::Pin => Stage::Record,
        Stage::Persist(n) => match persist_step(n as nat, !(outcome is Failed)) {
            PersistStep::Done => Stage::Delivered,
            PersistStep::RetryAfter(_) => Stage::Persist((n + 1) as u32),
            PersistStep::Fatal => Stage::Fatal,
        },
        other => other,
    }
}

/// The delivery of one due entry, step by step.
pub struct ItemRun {
    pub plan: DispatchPlan,
    pub stage: Stage,
    /// The channel the quiz is watched in, once found.
    pub monitor_channel: u64,
}

impl ItemRun {
    /// A delivery about to build its message; the quiz, if any, is watched
    /// in `default_channel` unless its own place is found.
    pub fn new(plan: DispatchPlan, default_channel: u64) -> (r: ItemRun)
        ensures
            r.plan == plan,
            r.stage == Stage::Build,
            r.monitor_channel == default_channel,
    {
        ItemRun { plan, stage: Stage::Build, monitor_channel: default_channel }
    }

    /// Whether the delivery has ended, one way or the other.
    pub fn is_finished(&self) -> (r: bool)
        ensures
            r == (self.stage is Delivered || self.stage is Skipped || self.stage is Fatal),
    {
        match self.stage {
            Stage::Delivered | Stage::Skipped | Stage::Fatal => true,
            _ => false,
        }
    }

    /// Moves on after the outside work of the current stage. The result is
    /// the number of seconds to wait before the next stage's work.
    /// `Record` is left only through `record`.
    pub fn advance(&mut self, outcome: Outcome) -> (r: u64)
        requires
            !(old(self).stage is Record),
        ensures
            final(self).plan == old(self).plan,
            final(self).stage == next_stage(
                old(self).plan.quiz is Some,
                old(self).plan.pin,
                old(self).stage,
                outcome,
            ),
            final(self).monitor_channel == (match (old(self).stage, outcome) {
                (Stage::ResolveQuizPlace, Outcome::Channel(id)) => id,
                _ => old(self).monitor_channel,
            }),
            r == (if old(self).stage is Persist && final(self).stage is Persist {
                PERSIST_BACKOFF_SECS
            } else {
                0
            }),
    {
        let next = match self.stage {
            Stage::Build => match outcome {
                Outcome::Failed => Stage::Skipped,
                _ => if self.plan.quiz.is_some() {
                    Stage::ResolveQuizPlace
                } else {
                    Stage::ResolveDestination
                },
            },
            Stage::ResolveQuizPlace => match outcome {
                Outcome::Channel(id) => {
                    self.monitor_channel = id;
                    Stage::ResolveDestination
                },
                _ => Stage::Skipped,
            },
            Stage::ResolveDestination => match outcome {
                Outcome::Failed => Stage::Skipped,
                _ => Stage::Send,
            },
            Stage::Send => match outcome {
                Outcome::Failed => Stage::Skipped,
                _ => if self.plan.pin {
                    Stage::Pin
                } else {
                    Stage::Record
                },
            },
            Stage::Pin => Stage::Record,
            Stage::Persist(n) => {
                let succeeded = match outcome {
                    Outcome::Failed => false,
                    _ => true,
                };
                match after_persist_attempt(n, succeeded) {
                    PersistStep::Done => Stage::Delivered,
                    PersistStep::RetryAfter(secs) => {
                        self.stage = Stage::Persist(n + 1);
                        return secs;
                    },
                    PersistStep::Fatal => Stage::Fatal,
                }
            },
            other => other,
        };
        self.stage = next;
        0
    }

    /// After the send: starts the entry's quiz in the slot (replacing one
    /// still running) and marks the entry in the ledger, which is written next.
    pub fn record(&mut self, slot: &mut OngoingQuiz, ledger: &mut CompletedScheduled)
        requires
            old(self).stage is Record,
        ensures
            final(self).stage == Stage::Persist(0),
            final(self).plan.id == old(self).plan.id,
            final(self).plan.quiz is None,
            final(ledger)@ == old(ledger)@.insert(old(self).plan.id),
            match old(self).plan.quiz {
                Some(q) => final(slot).quiz == Some(
                    QuizData { monitor_channel_id: old(self).monitor_channel, ..q },
                ),
                None => *final(slot) == *old(slot),
            },
    {
        let quiz = self.plan.quiz.take();
        record_sent(self.plan.id, quiz, self.monitor_channel, slot, ledger);
        self.stage = Stage::Persist(0);
    }
}

/// The stage reached from `stage` after the outcomes in order.
pub open spec fn run_from(has_quiz: bool, pin: bool, stage: Stage, outcomes: Seq<Outcome>) -> Stage
    decreases outcomes.len(),
{
    if outcomes.len() == 0 {
        stage
    } else {
        run_from(has_quiz, pin, next_stage(has_quiz, pin, stage, outcomes[0]), outcomes.drop_first())
    }
}

/// `Record`, the one stage at which the ledger is marked, is entered only
/// from a send that went through, directly or by way of `Pin`; and `Pin`
/// only from such a send.
pub proof fn lemma_record_follows_send(has_quiz: bool, pin: bool, stage: Stage, outcome: Outcome)
    ensures
        next_stage(has_quiz, pin, stage, outcome) is Record && !(stage is Record) ==> (stage is Send
            && !(outcome is Failed)) || stage is Pin,
        next_stage(has_quiz, pin, stage, outcome) is Pin ==> stage is Send && !(outcome is Failed),
{
}

/// A failure at any stage up to and including the send ends the delivery
/// as skipped, so the entry stays out of the ledger and is due again.
pub proof fn lemma_failure_before_send_skips(has_quiz: bool, pin: bool, stage: Stage)
    requires
        stage is Build || stage is ResolveQuizPlace || stage is ResolveDestination || stage is Send,
    ensures
        next_stage(has_quiz, pin, stage, Outcome::Failed) == Stage::Skipped,
{
}

/// After the ledger is marked, three writes that all fail end the delivery
/// in `Fatal`, never in `Delivered`; if one of them succeeds it ends in
/// `Delivered`.
pub proof fn lemma_failed_writes_are_fatal(has_quiz: bool, pin: bool, outcomes: Seq<Outcome>)
    requires
        outcomes.len() == 3,
    ensures
        (forall|i: int| 0 <= i < 3 ==> outcomes[i] is Failed) ==> run_from(
            has_quiz,
            pin,
            Stage::Persist(0),
            outcomes,
        ) == Stage::Fatal,
        (exists|i: int| 0 <= i < 3 && !(outcomes[i] is Failed)) ==> run_from(
            has_quiz,
            pin,
            Stage::Persist(0),
            outcomes,
        ) == Stage::Delivered,
{
    let o1 = outcomes.drop_first();
    let o2 = o1.drop_first();
    let o3 = o2.drop_first();
    assert(o3.len() == 0);
    assert(o1[0] == outcomes[1] && o2[0] == outcomes[2]);
    reveal_with_fuel(run_from, 4);
}

} // verus!
