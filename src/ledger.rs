use vstd::prelude::*;

use std::collections::HashSet;
use vstd::std_specs::iter::IteratorSpec;

verus! {

broadcast use vstd::std_specs::hash::group_hash_axioms;

/// The completion ledger: ids of the scheduled items already sent.
pub struct CompletedScheduled {
    pub completed: HashSet<u32>,
}

impl View for CompletedScheduled {
    type V = Set<u32>;

    open spec fn view(&self) -> Set<u32> {
        self.completed@
    }
}

impl CompletedScheduled {
    /// An empty ledger.
    pub fn new() -> (r: CompletedScheduled)
        ensures
            r@ == Set::<u32>::empty(),
    {
        CompletedScheduled { completed: HashSet::new() }
    }

    /// A ledger holding exactly the listed ids.
    pub fn from_ids(ids: &Vec<u32>) -> (r: CompletedScheduled)
        ensures
            r@ == ids@.to_set(),
    {
        let mut set: HashSet<u32> = HashSet::new();
        let mut i: usize = 0;
        while i < ids.len()
            invariant
                i <= ids.len(),
                set@ == ids@.subrange(0, i as int).to_set(),
            decreases ids.len() - i,
        {
            set.insert(ids[i]);
            assert(ids@.subrange(0, i + 1) =~= ids@.subrange(0, i as int).push(ids[i as int]));
            proof {
                ids@.subrange(0, i as int).lemma_push_to_set_commute(ids[i as int]);
            }
            i += 1;
        }
        assert(ids@.subrange(0, ids.len() as int) =~= ids@);
        CompletedScheduled { completed: set }
    }

    /// The ids of the ledger, each once, in no particular order.
    pub fn to_ids(&self) -> (r: Vec<u32>)
        ensures
            r@.to_set() == self@,
            r@.no_duplicates(),
    {
        let mut out: Vec<u32> = Vec::new();
        let ghost keys = vstd::std_specs::hash::spec_hash_keys_iter(&self.completed).remaining();
        for id in it: self.completed.iter()
            invariant
                it.seq() == keys,
                out.len() == it.index(),
                forall|j: int| 0 <= j < out.len() ==> out@[j] == *it.seq()[j],
        {
            out.push(*id);
        }
        assert(out@ =~= keys.unref());
        out
    }

    /// Whether an item was already sent.
    pub fn is_completed(&self, id: u32) -> (r: bool)
        ensures
            r == self@.contains(id),
    {
        self.completed.contains(&id)
    }

    /// Records an item as sent.
    pub fn add_new_completed(&mut self, id: u32)
        ensures
            final(self)@ == old(self)@.insert(id),
    {
        self.completed.insert(id);
    }
}

} // verus!

verus! {

/// Writes of the ledger tried after a send before the process gives up.
pub const PERSIST_ATTEMPTS: u32 = 3;

/// Seconds waited between two writes of the ledger.
pub const PERSIST_BACKOFF_SECS: u64 = 2;

/// What follows one write of the ledger.
#[derive(Clone, Copy, Debug, PartialEq, Eq, Structural)]
pub enum PersistStep {
    /// The ledger is stored: go on with the next item.
    Done,
    /// Wait this many seconds, then write again.
    RetryAfter(u64),
    /// Every write failed: the message went out but its record did not, so
    /// the process must stop rather than send it again later.
    Fatal,
}

/// The step after write number `attempt` (counted from 0) came back.
pub open spec fn persist_step(attempt: nat, succeeded: bool) -> PersistStep {
    if succeeded {
        PersistStep::Done
    } else if attempt + 1 < PERSIST_ATTEMPTS {
        PersistStep::RetryAfter(PERSIST_BACKOFF_SECS)
    } else {
        PersistStep::Fatal
    }
}

/// Decides what follows write number `attempt` (counted from 0).
pub fn after_persist_attempt(attempt: u32, succeeded: bool) -> (r: PersistStep)
    ensures
        r == persist_step(attempt as nat, succeeded),
{
    if succeeded {
        PersistStep::Done
    } else if attempt < PERSIST_ATTEMPTS - 1 {
        PersistStep::RetryAfter(PERSIST_BACKOFF_SECS)
    } else {
        PersistStep::Fatal
    }
}

/// Writing a ledger's ids and building a ledger from them again gives back
/// the same set of ids.
pub proof fn lemma_ledger_round_trip(ledger: CompletedScheduled, written: Seq<u32>, reloaded: Set<u32>)
    requires
        written.to_set() == ledger@,
        reloaded == written.to_set(),
    ensures
        reloaded == ledger@,
{
}

} // verus!
