//! The ledger of processed events: at most one entry for each event.

use crate::models::EventTracker;
use vstd::prelude::*;

verus! {

/// Whether an entry for the event `event_id` is among `entries`.
pub open spec fn spec_contains(entries: Seq<EventTracker>, event_id: Seq<char>) -> bool {
    exists|i: int| 0 <= i < entries.len() && (#[trigger] entries[i]).event_id@ == event_id
}

/// How many of `entries` are entries for the event `event_id`.
pub open spec fn spec_count(entries: Seq<EventTracker>, event_id: Seq<char>) -> nat
    decreases entries.len(),
{
    if entries.len() == 0 {
        0
    } else {
        spec_count(entries.drop_last(), event_id) + if entries.last().event_id@ == event_id {
            1nat
        } else {
            0nat
        }
    }
}

/// No two of `entries` are entries for the same event.
pub open spec fn spec_write_once(entries: Seq<EventTracker>) -> bool {
    forall|i: int, j: int|
        0 <= i < entries.len() && 0 <= j < entries.len() && i != j ==> (#[trigger] entries[i]).event_id@
            != (#[trigger] entries[j]).event_id@
}

/// Every one of `entries` is well formed.
pub open spec fn spec_entries_wf(entries: Seq<EventTracker>) -> bool {
    forall|i: int| 0 <= i < entries.len() ==> (#[trigger] entries[i]).wf()
}

/// Pushing an entry raises the count of its own event by one and leaves
/// every other count alone.
pub proof fn lemma_count_push(entries: Seq<EventTracker>, entry: EventTracker, event_id: Seq<char>)
    ensures
        spec_count(entries.push(entry), event_id) == spec_count(entries, event_id) + if entry.event_id@
            == event_id {
            1nat
        } else {
            0nat
        },
{
    assert(entries.push(entry).drop_last() == entries);
}

/// An event has an entry exactly where its count is not zero.
pub proof fn lemma_count_contains(entries: Seq<EventTracker>, event_id: Seq<char>)
    ensures
        spec_contains(entries, event_id) <==> spec_count(entries, event_id) >= 1,
    decreases entries.len(),
{
    if entries.len() > 0 {
        let rest = entries.drop_last();
        lemma_count_contains(rest, event_id);
        if spec_contains(entries, event_id) {
            let i = choose|i: int|
                0 <= i < entries.len() && (#[trigger] entries[i]).event_id@ == event_id;
            if i < rest.len() {
                assert(rest[i].event_id@ == event_id);
            }
        }
        if spec_contains(rest, event_id) {
            let i = choose|i: int| 0 <= i < rest.len() && (#[trigger] rest[i]).event_id@ == event_id;
            assert(entries[i].event_id@ == event_id);
        }
        if entries.last().event_id@ == event_id {
            assert(entries[entries.len() - 1].event_id@ == event_id);
        }
    }
}

/// In a ledger that is written once for each event, no event has more than
/// one entry.
pub proof fn lemma_write_once_count(entries: Seq<EventTracker>, event_id: Seq<char>)
    requires
        spec_write_once(entries),
    ensures
        spec_count(entries, event_id) <= 1,
    decreases entries.len(),
{
    if entries.len() > 0 {
        let rest = entries.drop_last();
        assert(spec_write_once(rest)) by {
            assert forall|i: int, j: int|
                0 <= i < rest.len() && 0 <= j < rest.len() && i != j implies (#[trigger] rest[i]).event_id@
                != (#[trigger] rest[j]).event_id@ by {
                assert(entries[i].event_id@ != entries[j].event_id@);
            }
        }
        lemma_write_once_count(rest, event_id);
        if entries.last().event_id@ == event_id {
            lemma_count_contains(rest, event_id);
            if spec_contains(rest, event_id) {
                let i = choose|i: int|
                    0 <= i < rest.len() && (#[trigger] rest[i]).event_id@ == event_id;
                assert(entries[i].event_id@ != entries[entries.len() - 1].event_id@);
            }
        }
    }
}

/// The ledger of processed events.
pub struct EventLedger {
    events: Vec<EventTracker>,
}

impl View for EventLedger {
    type V = Seq<EventTracker>;

    closed spec fn view(&self) -> Seq<EventTracker> {
        self.events@
    }
}

impl EventLedger {
    /// The ledger holds at most one entry for each event, and every entry is
    /// well formed.
    pub open spec fn wf(&self) -> bool {
        spec_write_once(self@) && spec_entries_wf(self@)
    }

    /// A ledger without entries.
    pub fn new() -> (ledger: EventLedger)
        ensures
            ledger@.len() == 0,
            ledger.wf(),
    {
        EventLedger { events: Vec::new() }
    }

    /// Returns the number of entries.
    pub fn len(&self) -> (len: usize)
        ensures
            len == self@.len(),
    {
        self.events.len()
    }

    /// Looks up the entry of the event `event_id`.
    pub fn find_event_by_partition_key(&self, event_id: &String) -> (found: Option<&EventTracker>)
        ensures
            match found {
                Some(entry) => entry.event_id@ == event_id@ && self@.contains(*entry),
                None => !spec_contains(self@, event_id@),
            },
    {
        let mut index: usize = 0;
        while index < self.events.len()
            invariant
                index <= self.events.len(),
                forall|i: int| 0 <= i < index ==> (#[trigger] self.events@[i]).event_id@ != event_id@,
            decreases self.events.len() - index,
        {
            if self.events[index].event_id == *event_id {
                return Some(&self.events[index]);
            }
            index = index + 1;
        }
        None
    }

    /// Appends `event` unless the ledger already holds an entry for the same
    /// event, and tells whether it did append.
    pub fn insert_event(&mut self, event: EventTracker) -> (inserted: bool)
        requires
            old(self).wf(),
            event.wf(),
        ensures
            final(self).wf(),
            inserted == !spec_contains(old(self)@, event.event_id@),
            inserted ==> final(self)@ == old(self)@.push(event),
            !inserted ==> final(self)@ == old(self)@,
            spec_count(final(self)@, event.event_id@) == 1,
    {
        let present = self.find_event_by_partition_key(&event.event_id).is_some();
        proof {
            lemma_count_contains(self@, event.event_id@);
            lemma_write_once_count(self@, event.event_id@);
            lemma_count_push(self@, event, event.event_id@);
        }
        if present {
            false
        } else {
            self.events.push(event);
            true
        }
    }
}

} // verus!
