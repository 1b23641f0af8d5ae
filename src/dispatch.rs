use vstd::prelude::*;

use crate::ledger::CompletedScheduled;
use crate::poll::{find_poll, poll_index, poll_minutes, PollData};
use crate::quiz::{get_quiz_data, quiz_index, OngoingQuiz, QuizData};
use crate::schedule::ScheduledMessage;
use crate::text::{clone_opt_text, clone_texts};

verus! {

/// The longest a poll may stay open, in minutes (a week).
pub const MAX_POLL_MINUTES: u64 = 10_080;

/// A poll as it goes out with a message.
pub struct PollPayload {
    pub question: String,
    pub answers: Vec<String>,
    pub duration_secs: u64,
    pub allow_multiselect: bool,
}

/// A message ready to send: its text, and either a poll or files to attach.
pub struct OutgoingMessage {
    pub content: String,
    pub poll: Option<PollPayload>,
    /// Locations of files to attach, read when the message is sent.
    pub attachments: Vec<String>,
}

/// Where a message goes or where a quiz is watched.
pub enum Destination {
    /// The guild and channel of the bot's settings.
    Default,
    /// A channel by name, in the named guild or else in the default one.
    Named { guild: Option<String>, channel: String },
}

/// Why a due entry is skipped on this tick.
#[derive(Clone, Copy, Debug, PartialEq, Eq, Structural)]
pub enum DispatchError {
    /// The entry names a guild but no channel.
    TargetGuildWithoutChannel,
    /// No poll in the catalog has this id.
    PollNotFound(u32),
    /// The poll with this id has fewer than two answers.
    TooFewPollAnswers(u32),
    /// No quiz in the catalog has this id.
    QuizNotFound(u32),
    /// The quiz with this id names a monitor guild but no channel.
    MonitorGuildWithoutChannel(u32),
}

/// Everything needed to send one due entry and to record it afterwards.
pub struct DispatchPlan {
    pub id: u32,
    pub message: OutgoingMessage,
    /// The quiz to start once the message is sent.
    pub quiz: Option<QuizData>,
    /// Where the quiz's answers are watched for.
    pub quiz_place: Destination,
    pub destination: Destination,
    pub pin: bool,
}

/// The poll's duration in seconds, capped at a week.
pub open spec fn poll_duration_secs(p: PollData) -> int {
    60 * (if poll_minutes(p) > MAX_POLL_MINUTES {
        MAX_POLL_MINUTES
    } else {
        poll_minutes(p)
    })
}

/// `pp` is what goes out for the catalog poll `p`.
pub open spec fn poll_payload_of(pp: PollPayload, p: PollData) -> bool {
    &&& pp.question == p.question
    &&& pp.answers@ == p.answers@
    &&& pp.duration_secs == poll_duration_secs(p)
    &&& pp.allow_multiselect == (p.multi_answer == Some(true))
}

/// The place named by an optional guild and an optional channel.
pub open spec fn place_of(guild: Option<String>, channel: Option<String>) -> Destination {
    match channel {
        Some(c) => Destination::Named { guild, channel: c },
        None => Destination::Default,
    }
}

/// The first reason, in the order the checks are made, why an entry cannot
/// be sent with these catalogs.
pub open spec fn dispatch_error(
    item: ScheduledMessage,
    polls: Seq<PollData>,
    quizzes: Seq<QuizData>,
) -> Option<DispatchError> {
    if item.target_guild is Some && item.target_channel is None {
        Some(DispatchError::TargetGuildWithoutChannel)
    } else if item.poll_id is Some && poll_index(polls, item.poll_id->Some_0) is None {
        Some(DispatchError::PollNotFound(item.poll_id->Some_0))
    } else if item.poll_id is Some && polls[poll_index(
        polls,
        item.poll_id->Some_0,
    )->Some_0].answers.len() < 2 {
        Some(DispatchError::TooFewPollAnswers(item.poll_id->Some_0))
    } else if item.quiz_id is Some && quiz_index(quizzes, item.quiz_id->Some_0) is None {
        Some(DispatchError::QuizNotFound(item.quiz_id->Some_0))
    } else if item.quiz_id is Some && ({
        let q = quizzes[quiz_index(quizzes, item.quiz_id->Some_0)->Some_0];
        q.monitor_guild is Some && q.monitor_channel is None
    }) {
        Some(DispatchError::MonitorGuildWithoutChannel(item.quiz_id->Some_0))
    } else {
        None
    }
}

impl OutgoingMessage {
    /// A message of text alone.
    pub fn new(content: String) -> (r: OutgoingMessage)
        ensures
            r.content == content,
            r.poll is None,
            r.attachments@.len() == 0,
    {
        OutgoingMessage { content, poll: None, attachments: Vec::new() }
    }
}

/// Adds the catalog poll `id` to a message. The poll must exist and offer at
/// least two answers; its duration is capped at a week.
pub fn add_poll(message: OutgoingMessage, polls: &Vec<PollData>, id: u32) -> (r: Result<
    OutgoingMessage,
    DispatchError,
>)
    ensures
        match poll_index(polls@, id) {
            None => r == Err::<OutgoingMessage, DispatchError>(DispatchError::PollNotFound(id)),
            Some(i) => if polls@[i].answers.len() < 2 {
                r == Err::<OutgoingMessage, DispatchError>(DispatchError::TooFewPollAnswers(id))
            } else {
                &&& r is Ok
                &&& r->Ok_0.content == message.content
                &&& r->Ok_0.attachments@ == message.attachments@
                &&& r->Ok_0.poll is Some
                &&& poll_payload_of(r->Ok_0.poll->Some_0, polls@[i])
            },
        },
{
    let i = match find_poll(polls, id) {
        Some(i) => i,
        None => {
            return Err(DispatchError::PollNotFound(id));
        },
    };
    let poll_data = &polls[i];
    if poll_data.answers.len() < 2 {
        return Err(DispatchError::TooFewPollAnswers(id));
    }
    let mut minutes = poll_data.duration_minutes();
    if minutes > MAX_POLL_MINUTES {
        minutes = MAX_POLL_MINUTES;
    }
    let poll = PollPayload {
        question: poll_data.question(),
        answers: clone_texts(&poll_data.answers),
        duration_secs: 60 * minutes,
        allow_multiselect: poll_data.multi_answer(),
    };
    Ok(OutgoingMessage { content: message.content, poll: Some(poll), attachments: message.attachments })
}

/// Adds file locations to a message; the files are read when it is sent.
pub fn add_attachments(message: OutgoingMessage, locations: &Vec<String>) -> (r: OutgoingMessage)
    ensures
        r.content == message.content,
        r.poll == message.poll,
        r.attachments@ == message.attachments@ + locations@,
{
    let mut attachments = message.attachments;
    let ghost start = attachments@;
    let mut i: usize = 0;
    while i < locations.len()
        invariant
            i <= locations.len(),
            attachments@ == start + locations@.subrange(0, i as int),
        decreases locations.len() - i,
    {
        attachments.push(locations[i].clone());
        i += 1;
        assert(attachments@ =~= start + locations@.subrange(0, i as int));
    }
    assert(locations@.subrange(0, locations.len() as int) =~= locations@);
    OutgoingMessage { content: message.content, poll: message.poll, attachments }
}

fn place(guild: &Option<String>, channel: &Option<String>) -> (r: Destination)
    ensures
        r == place_of(*guild, *channel),
{
    match channel {
        Some(c) => Destination::Named { guild: clone_opt_text(guild), channel: c.clone() },
        None => Destination::Default,
    }
}

/// Works out how a due entry is sent: its message with the poll or the
/// files, the quiz it starts and where that quiz is watched, where it goes,
/// and whether it is pinned. A poll leaves no room for files: they are
/// dropped. The entry's own pin setting wins over `pin_all`.
pub fn plan_dispatch(
    item: &ScheduledMessage,
    polls: &Vec<PollData>,
    quizzes: &Vec<QuizData>,
    pin_all: bool,
) -> (r: Result<DispatchPlan, DispatchError>)
    ensures
        r is Err <==> dispatch_error(*item, polls@, quizzes@) is Some,
        r is Err ==> r->Err_0 == dispatch_error(*item, polls@, quizzes@)->Some_0,
        r is Ok ==> ({
            let plan = r->Ok_0;
            &&& plan.id == item.id
            &&& plan.message.content == item.message
            &&& (plan.message.poll is Some <==> item.poll_id is Some)
            &&& item.poll_id is Some ==> poll_payload_of(
                plan.message.poll->Some_0,
                polls@[poll_index(polls@, item.poll_id->Some_0)->Some_0],
            )
            &&& plan.message.attachments@ == (if item.poll_id is None && item.attachments is Some {
                item.attachments->Some_0@
            } else {
                Seq::<String>::empty()
            })
            &&& plan.quiz == (match item.quiz_id {
                Some(q) => Some(quizzes@[quiz_index(quizzes@, q)->Some_0]),
                None => None,
            })
            &&& plan.quiz_place == (match plan.quiz {
                Some(q) => place_of(q.monitor_guild, q.monitor_channel),
                None => Destination::Default,
            })
            &&& plan.destination == place_of(item.target_guild, item.target_channel)
            &&& plan.pin == (match item.to_pin {
                Some(p) => p,
                None => pin_all,
            })
        }),
        item.poll_id is Some && r is Ok ==> r->Ok_0.message.poll is Some
            && r->Ok_0.message.attachments@.len() == 0,
{
    if item.guild_no_channel() {
        return Err(DispatchError::TargetGuildWithoutChannel);
    }
    let mut message = OutgoingMessage::new(item.message());
    if let Some(id) = item.poll_id {
        message = add_poll(message, polls, id)?;
    } else if let Some(locations) = &item.attachments {
        message = add_attachments(message, locations);
    }
    let mut quiz: Option<QuizData> = None;
    let mut quiz_place = Destination::Default;
    if let Some(id) = item.quiz_id {
        let found = match get_quiz_data(quizzes, id) {
            Some(q) => q,
            None => {
                return Err(DispatchError::QuizNotFound(id));
            },
        };
        if found.guild_no_channel() {
            return Err(DispatchError::MonitorGuildWithoutChannel(id));
        }
        quiz_place = place(&found.monitor_guild, &found.monitor_channel);
        quiz = Some(found);
    }
    let destination = place(&item.target_guild, &item.target_channel);
    let pin = match item.to_pin {
        Some(p) => p,
        None => pin_all,
    };
    Ok(DispatchPlan { id: item.id, message, quiz, quiz_place, destination, pin })
}

/// Records a sent entry: its quiz, watched in `monitor_channel_id`, becomes
/// the running one (a quiz still running is replaced), and its id joins the
/// ledger in memory, to be written next.
pub fn record_sent(
    id: u32,
    quiz: Option<QuizData>,
    monitor_channel_id: u64,
    slot: &mut OngoingQuiz,
    ledger: &mut CompletedScheduled,
)
    ensures
        final(ledger)@ == old(ledger)@.insert(id),
        match quiz {
            Some(q) => final(slot).quiz == Some(QuizData { monitor_channel_id, ..q }),
            None => *final(slot) == *old(slot),
        },
{
    if let Some(mut q) = quiz {
        q.set_monitor_channel_id(monitor_channel_id);
        slot.set_ongoing_quiz(q);
    }
    ledger.add_new_completed(id);
}

/// An entry that names a poll offering two answers or more, starts no quiz
/// and names no guild without a channel is always planned, and it goes out
/// with the poll and without files, whatever files it lists.
pub proof fn lemma_poll_entry_is_planned(item: ScheduledMessage, polls: Seq<PollData>, quizzes: Seq<QuizData>)
    requires
        item.poll_id is Some,
        poll_index(polls, item.poll_id->Some_0) is Some,
        polls[poll_index(polls, item.poll_id->Some_0)->Some_0].answers.len() >= 2,
        item.quiz_id is None,
        !(item.target_guild is Some && item.target_channel is None),
    ensures
        dispatch_error(item, polls, quizzes) is None,
{
}

} // verus!
