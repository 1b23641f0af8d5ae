use vstd::prelude::*;

use crate::matcher::{answer_found, answer_matches, words};
use crate::text::clone_opt_text;
use crate::time::{at_or_after, now_utc, UtcTime};

verus! {

/// A quiz from the catalog: the answer sought, the reply to the winner, an
/// optional closing time and an optional place to watch for answers.
pub struct QuizData {
    pub id: u32,
    pub answer: String,
    pub reply_with: String,
    pub end_at: Option<UtcTime>,
    pub monitor_guild: Option<String>,
    pub monitor_channel: Option<String>,
    /// The channel watched for answers, set once the quiz's place is resolved.
    pub monitor_channel_id: u64,
}

impl QuizData {
    pub fn new(
        id: u32,
        answer: String,
        reply_with: String,
        end_at: Option<UtcTime>,
        monitor_guild: Option<String>,
        monitor_channel: Option<String>,
    ) -> (r: QuizData)
        ensures
            r.id == id,
            r.answer == answer,
            r.reply_with == reply_with,
            r.end_at == end_at,
            r.monitor_guild == monitor_guild,
            r.monitor_channel == monitor_channel,
            r.monitor_channel_id == 0,
    {
        QuizData {
            id,
            answer,
            reply_with,
            end_at,
            monitor_guild,
            monitor_channel,
            monitor_channel_id: 0,
        }
    }

    pub fn id(&self) -> (r: u32)
        ensures
            r == self.id,
    {
        self.id
    }

    pub fn answer(&self) -> (r: String)
        ensures
            r == self.answer,
    {
        self.answer.clone()
    }

    pub fn end_at(&self) -> (r: &Option<UtcTime>)
        ensures
            *r == self.end_at,
    {
        &self.end_at
    }

    pub fn reply_with(&self) -> (r: String)
        ensures
            r == self.reply_with,
    {
        self.reply_with.clone()
    }

    /// A monitor guild is named but no channel in it: the quiz cannot be placed.
    pub fn guild_no_channel(&self) -> (r: bool)
        ensures
            r == (self.monitor_guild is Some && self.monitor_channel is None),
    {
        self.monitor_guild.is_some() && self.monitor_channel.is_none()
    }

    pub fn get_monitor_channel_id(&self) -> (r: u64)
        ensures
            r == self.monitor_channel_id,
    {
        self.monitor_channel_id
    }

    pub fn set_monitor_channel_id(&mut self, channel_id: u64)
        ensures
            *final(self) == (QuizData { monitor_channel_id: channel_id, ..*old(self) }),
    {
        self.monitor_channel_id = channel_id;
    }

    /// A field-for-field copy.
    pub fn duplicate(&self) -> (r: QuizData)
        ensures
            r == *self,
    {
        QuizData {
            id: self.id,
            answer: self.answer.clone(),
            reply_with: self.reply_with.clone(),
            end_at: self.end_at,
            monitor_guild: clone_opt_text(&self.monitor_guild),
            monitor_channel: clone_opt_text(&self.monitor_channel),
            monitor_channel_id: self.monitor_channel_id,
        }
    }
}

/// The quiz with the given id in a catalog, the first one if several share it.
pub open spec fn quiz_index(quizzes: Seq<QuizData>, id: u32) -> Option<int> {
    if exists|i: int| 0 <= i < quizzes.len() && quizzes[i].id == id {
        Some(
            choose|i: int|
                0 <= i < quizzes.len() && quizzes[i].id == id && forall|k: int|
                    0 <= k < i ==> quizzes[k].id != id,
        )
    } else {
        None
    }
}

/// Looks a quiz up by id in the catalog.
pub fn get_quiz_data(quizzes: &Vec<QuizData>, quiz_id: u32) -> (r: Option<QuizData>)
    ensures
        r == (match quiz_index(quizzes@, quiz_id) {
            Some(i) => Some(quizzes@[i]),
            None => None,
        }),
{
    let mut i: usize = 0;
    while i < quizzes.len()
        invariant
            i <= quizzes.len(),
            forall|k: int| 0 <= k < i ==> quizzes[k].id != quiz_id,
        decreases quizzes.len() - i,
    {
        if quizzes[i].id == quiz_id {
            let q = quizzes[i].duplicate();
            proof {
                let c = quiz_index(quizzes@, quiz_id)->Some_0;
                assert(quizzes@[i as int].id == quiz_id);
                assert(c == i);
            }
            return Some(q);
        }
        i += 1;
    }
    None
}

/// What an inbound message did to the quiz slot.
pub enum QuizVerdict {
    /// No quiz runs, or the message is not in the watched channel.
    Ignored,
    /// The quiz had closed: it is over, and nobody is answered.
    Expired,
    /// The message does not hold the answer; the quiz goes on.
    NoMatch,
    /// The message holds the answer: the quiz is over and its author gets this reply.
    Won(String),
}

/// Whether a second quiz may replace one that is still running.
pub enum InstallPolicy {
    Replace,
    RejectIfActive,
}

/// The effect of an inbound message on the quiz slot: the slot afterwards
/// and the verdict.
pub open spec fn quiz_step(slot: Option<QuizData>, channel_id: u64, content: Seq<char>, now: UtcTime) -> (
    Option<QuizData>,
    QuizVerdict,
) {
    match slot {
        None => (None, QuizVerdict::Ignored),
        Some(q) => {
            if channel_id != q.monitor_channel_id {
                (Some(q), QuizVerdict::Ignored)
            } else if q.end_at is Some && at_or_after(now, q.end_at->Some_0) {
                (None, QuizVerdict::Expired)
            } else if answer_matches(words(content), words(q.answer@)) {
                (None, QuizVerdict::Won(q.reply_with))
            } else {
                (Some(q), QuizVerdict::NoMatch)
            }
        },
    }
}

/// The single slot for the running quiz. It lives behind one lock, held
/// across a whole evaluation and the reply that follows it.
pub struct OngoingQuiz {
    pub quiz: Option<QuizData>,
}

impl OngoingQuiz {
    /// An empty slot.
    pub fn new() -> (r: OngoingQuiz)
        ensures
            r.quiz is None,
    {
        OngoingQuiz { quiz: None }
    }

    /// Whether a quiz runs.
    pub fn quiz_ongoing(&self) -> (r: bool)
        ensures
            r == self.quiz is Some,
    {
        self.quiz.is_some()
    }

    /// The channel watched by the running quiz.
    pub fn get_monitor_channel_id(&self) -> (r: Option<u64>)
        ensures
            r == (match self.quiz {
                Some(q) => Some(q.monitor_channel_id),
                None => None,
            }),
    {
        match &self.quiz {
            Some(q) => Some(q.monitor_channel_id),
            None => None,
        }
    }

    /// Starts a quiz, replacing any that still runs.
    pub fn set_ongoing_quiz(&mut self, quiz_data: QuizData)
        ensures
            final(self).quiz == Some(quiz_data),
    {
        self.quiz = Some(quiz_data);
    }

    /// Starts a quiz under a policy; false when the policy kept the running one.
    pub fn try_install(&mut self, quiz_data: QuizData, policy: InstallPolicy) -> (r: bool)
        ensures
            r == (policy is Replace || old(self).quiz is None),
            r ==> final(self).quiz == Some(quiz_data),
            !r ==> *final(self) == *old(self),
    {
        match policy {
            InstallPolicy::RejectIfActive => {
                if self.quiz.is_some() {
                    return false;
                }
            },
            InstallPolicy::Replace => {},
        }
        self.quiz = Some(quiz_data);
        true
    }

    /// Ends the running quiz, if any.
    pub fn remove_ongoing_quiz(&mut self)
        ensures
            final(self).quiz is None,
    {
        self.quiz = None;
    }

    /// Judges an inbound message posted in `channel_id` at `now`.
    /// A closed quiz ends before its answer is looked at; a found answer ends
    /// the quiz and hands back the reply.
    pub fn evaluate_message(&mut self, channel_id: u64, content: &str, now: UtcTime) -> (r:
        QuizVerdict)
        ensures
            (final(self).quiz, r) == quiz_step(old(self).quiz, channel_id, content@, now),
    {
        let verdict = match &self.quiz {
            None => QuizVerdict::Ignored,
            Some(q) => {
                if channel_id != q.monitor_channel_id {
                    QuizVerdict::Ignored
                } else if match q.end_at {
                    Some(end) => now.is_at_or_after(&end),
                    None => false,
                } {
                    QuizVerdict::Expired
                } else if answer_found(content, q.answer.as_str()) {
                    QuizVerdict::Won(q.reply_with.clone())
                } else {
                    QuizVerdict::NoMatch
                }
            },
        };
        match verdict {
            QuizVerdict::Expired | QuizVerdict::Won(_) => {
                self.quiz = None;
            },
            _ => {},
        }
        verdict
    }

    /// Judges an inbound message at the instant the system clock gives.
    pub fn evaluate_message_now(&mut self, channel_id: u64, content: &str) -> (r: QuizVerdict)
        ensures
            exists|now: UtcTime|
                now.nanos < 1_000_000_000 && (final(self).quiz, r) == quiz_step(
                    old(self).quiz,
                    channel_id,
                    content@,
                    now,
                ),
    {
        let now = now_utc();
        self.evaluate_message(channel_id, content, now)
    }
}

} // verus!

verus! {

/// A message in the watched channel at or after the quiz's closing time gets
/// no reply and leaves the slot empty, whatever it says.
pub proof fn lemma_expired_quiz_clears(q: QuizData, content: Seq<char>, now: UtcTime)
    requires
        q.end_at is Some,
        at_or_after(now, q.end_at->Some_0),
    ensures
        quiz_step(Some(q), q.monitor_channel_id, content, now) == (
            None::<QuizData>,
            QuizVerdict::Expired,
        ),
{
}

/// Two messages judged one after the other never both win: after a win the
/// slot is empty and the next message is ignored. When both hold the answer
/// of a running, unexpired quiz in its channel, the first wins.
pub proof fn lemma_single_winner(
    slot: Option<QuizData>,
    channel1: u64,
    content1: Seq<char>,
    now1: UtcTime,
    channel2: u64,
    content2: Seq<char>,
    now2: UtcTime,
)
    ensures
        ({
            let (after1, v1) = quiz_step(slot, channel1, content1, now1);
            let (after2, v2) = quiz_step(after1, channel2, content2, now2);
            &&& !(v1 is Won && v2 is Won)
            &&& v1 is Won ==> after1 is None && after2 is None && v2 is Ignored
            &&& (slot is Some && channel1 == slot->Some_0.monitor_channel_id && !(
            slot->Some_0.end_at is Some && at_or_after(now1, slot->Some_0.end_at->Some_0))
                && answer_matches(words(content1), words(slot->Some_0.answer@))) ==> v1 is Won
        }),
{
}

} // verus!

verus! {

proof fn least_quiz(quizzes: Seq<QuizData>, id: u32, j: int) -> (i: int)
    requires
        0 <= j < quizzes.len(),
        quizzes[j].id == id,
    ensures
        0 <= i <= j,
        quizzes[i].id == id,
        forall|k: int| 0 <= k < i ==> quizzes[k].id != id,
    decreases j,
{
    if exists|k: int| 0 <= k < j && quizzes[k].id == id {
        let k = choose|k: int| 0 <= k < j && quizzes[k].id == id;
        least_quiz(quizzes, id, k)
    } else {
        j
    }
}

/// The position `quiz_index` gives holds a quiz with the id, and no earlier one does; without one, no quiz has the id.
pub proof fn lemma_quiz_index(quizzes: Seq<QuizData>, id: u32)
    ensures
        match quiz_index(quizzes, id) {
            Some(i) => 0 <= i < quizzes.len() && quizzes[i].id == id && forall|k: int|
                0 <= k < i ==> quizzes[k].id != id,
            None => forall|k: int| 0 <= k < quizzes.len() ==> quizzes[k].id != id,
        },
{
    if exists|j: int| 0 <= j < quizzes.len() && quizzes[j].id == id {
        let j = choose|j: int| 0 <= j < quizzes.len() && quizzes[j].id == id;
        least_quiz(quizzes, id, j);
    }
}

} // verus!
