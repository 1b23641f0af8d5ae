use vstd::prelude::*;

use crate::text::clone_texts;

verus! {

/// Minutes a poll stays open when its entry names no duration.
pub const DEFAULT_POLL_MINUTES: u64 = 1440;

/// A poll from the catalog: a question and its answer options.
pub struct PollData {
    pub id: u32,
    pub question: String,
    pub answers: Vec<String>,
    pub duration_minutes: Option<u64>,
    pub multi_answer: Option<bool>,
}

/// Two polls agree field for field.
pub open spec fn same_poll(a: PollData, b: PollData) -> bool {
    &&& a.id == b.id
    &&& a.question == b.question
    &&& a.answers@ == b.answers@
    &&& a.duration_minutes == b.duration_minutes
    &&& a.multi_answer == b.multi_answer
}

/// How long a poll stays open, in minutes.
pub open spec fn poll_minutes(p: PollData) -> u64 {
    match p.duration_minutes {
        Some(m) => m,
        None => DEFAULT_POLL_MINUTES,
    }
}

impl PollData {
    pub fn new(
        id: u32,
        question: String,
        answers: Vec<String>,
        duration_minutes: Option<u64>,
        multi_answer: Option<bool>,
    ) -> (r: PollData)
        ensures
            r.id == id,
            r.question == question,
            r.answers == answers,
            r.duration_minutes == duration_minutes,
            r.multi_answer == multi_answer,
    {
        PollData { id, question, answers, duration_minutes, multi_answer }
    }

    pub fn id(&self) -> (r: u32)
        ensures
            r == self.id,
    {
        self.id
    }

    pub fn question(&self) -> (r: String)
        ensures
            r == self.question,
    {
        self.question.clone()
    }

    pub fn answers(&self) -> (r: &Vec<String>)
        ensures
            r@ == self.answers@,
    {
        &self.answers
    }

    /// The duration given, a day when none is.
    pub fn duration_minutes(&self) -> (r: u64)
        ensures
            r == poll_minutes(*self),
    {
        if let Some(min) = self.duration_minutes {
            min
        } else {
            DEFAULT_POLL_MINUTES
        }
    }

    /// Whether several answers may be picked; no by default.
    pub fn multi_answer(&self) -> (r: bool)
        ensures
            r == (self.multi_answer == Some(true)),
    {
        if let Some(multi) = self.multi_answer {
            multi
        } else {
            false
        }
    }

    /// A field-for-field copy.
    pub fn duplicate(&self) -> (r: PollData)
        ensures
            same_poll(r, *self),
    {
        PollData {
            id: self.id,
            question: self.question.clone(),
            answers: clone_texts(&self.answers),
            duration_minutes: self.duration_minutes,
            multi_answer: self.multi_answer,
        }
    }

    /// Looks a poll up by id in the catalog.
    pub fn get_poll_data(polls: &Vec<PollData>, id: u32) -> (r: Option<PollData>)
        ensures
            match poll_index(polls@, id) {
                Some(i) => r is Some && same_poll(r->Some_0, polls@[i]),
                None => r is None,
            },
    {
        match find_poll(polls, id) {
            Some(i) => Some(polls[i].duplicate()),
            None => None,
        }
    }
}

/// The position of the first poll with the given id, if any.
pub open spec fn poll_index(polls: Seq<PollData>, id: u32) -> Option<int> {
    if exists|i: int| 0 <= i < polls.len() && polls[i].id == id {
        Some(
            choose|i: int|
                0 <= i < polls.len() && polls[i].id == id && forall|k: int|
                    0 <= k < i ==> polls[k].id != id,
        )
    } else {
        None
    }
}

/// The position of the first poll with the given id.
pub fn find_poll(polls: &Vec<PollData>, id: u32) -> (r: Option<usize>)
    ensures
        match poll_index(polls@, id) {
            Some(i) => 0 <= i < polls.len() && r == Some(i as usize),
            None => r is None,
        },
{
    let mut i: usize = 0;
    while i < polls.len()
        invariant
            i <= polls.len(),
            forall|k: int| 0 <= k < i ==> polls[k].id != id,
        decreases polls.len() - i,
    {
        if polls[i].id == id {
            proof {
                let c = poll_index(polls@, id)->Some_0;
                assert(polls@[i as int].id == id);
                assert(c == i);
            }
            return Some(i);
        }
        i += 1;
    }
    None
}

} // verus!

verus! {

proof fn least_poll(polls: Seq<PollData>, id: u32, j: int) -> (i: int)
    requires
        0 <= j < polls.len(),
        polls[j].id == id,
    ensures
        0 <= i <= j,
        polls[i].id == id,
        forall|k: int| 0 <= k < i ==> polls[k].id != id,
    decreases j,
{
    if exists|k: int| 0 <= k < j && polls[k].id == id {
        let k = choose|k: int| 0 <= k < j && polls[k].id == id;
        least_poll(polls, id, k)
    } else {
        j
    }
}

/// The position `poll_index` gives holds a poll with the id, and no earlier one does; without one, no poll has the id.
pub proof fn lemma_poll_index(polls: Seq<PollData>, id: u32)
    ensures
        match poll_index(polls, id) {
            Some(i) => 0 <= i < polls.len() && polls[i].id == id && forall|k: int|
                0 <= k < i ==> polls[k].id != id,
            None => forall|k: int| 0 <= k < polls.len() ==> polls[k].id != id,
        },
{
    if exists|j: int| 0 <= j < polls.len() && polls[j].id == id {
        let j = choose|j: int| 0 <= j < polls.len() && polls[j].id == id;
        least_poll(polls, id, j);
    }
}

} // verus!
