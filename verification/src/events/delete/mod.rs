//! Handling of deleted content: the experience that the deleted record had
//! awarded is taken back.

use crate::events::create::Actor;
use crate::events::{AppBskyEventRecord, CommitInfo, EventInfo};
use crate::leveling::{calculate_experience, spec_calculate_experience, LevelResponse};
use crate::models::ledger::{spec_contains, EventLedger};
use crate::models::{spec_experience_read, EventTracker};
use vstd::prelude::*;

verus! {

/// What a deleted like costs where its entry records no award.
pub const LIKE_LOST_EXPERIENCE: i32 = 15;

/// What a deleted repost costs where its entry records no award.
pub const REPOST_LOST_EXPERIENCE: i32 = 5;

/// The least experience that a deletion leaves.
pub const EXPERIENCE_FLOOR: i32 = 1;

/// The experience that deleting a record of the collection `kind` costs:
/// the award that its entry records; where the entry records none, fifteen
/// for a like, five for a repost and nothing for a post.
pub open spec fn spec_lost_experience(kind: AppBskyEventRecord, recorded: Option<i32>) -> int {
    match recorded {
        Some(xp) => xp as int,
        None => match kind {
            AppBskyEventRecord::Like => LIKE_LOST_EXPERIENCE as int,
            AppBskyEventRecord::Repost => REPOST_LOST_EXPERIENCE as int,
            AppBskyEventRecord::Post => 0,
        },
    }
}

/// The experience that is left of `current` after `lost` is taken back:
/// their difference, and one where the difference is less than one.
pub open spec fn spec_reversal_target(current: int, lost: int) -> int {
    if current - lost < EXPERIENCE_FLOOR {
        EXPERIENCE_FLOOR as int
    } else {
        current - lost
    }
}

/// Returns the experience that deleting a record of the collection `kind`
/// costs, given the entry of the record.
pub fn lost_experience(kind: AppBskyEventRecord, entry: &EventTracker) -> (lost: i32)
    requires
        entry.wf(),
    ensures
        lost == spec_lost_experience(kind, entry.xp),
        0 <= lost,
{
    match entry.xp {
        Some(xp) => xp,
        None => match kind {
            AppBskyEventRecord::Like => LIKE_LOST_EXPERIENCE,
            AppBskyEventRecord::Repost => REPOST_LOST_EXPERIENCE,
            AppBskyEventRecord::Post => 0,
        },
    }
}

/// Returns the experience that is left of `current` after `lost` is taken
/// back; it is never less than one.
pub fn reversal_target(current: i32, lost: i32) -> (target: i32)
    requires
        0 <= lost,
    ensures
        target == spec_reversal_target(current as int, lost as int),
        EXPERIENCE_FLOOR <= target,
        current - lost < 0 ==> target == EXPERIENCE_FLOOR,
{
    if current < EXPERIENCE_FLOOR || current - EXPERIENCE_FLOOR < lost {
        EXPERIENCE_FLOOR
    } else {
        current - lost
    }
}

/// Deletion floor: taking back more than there is leaves exactly one, and
/// whatever is taken back, what is left is at least one.
pub proof fn lemma_deletion_floor(current: int, lost: int)
    ensures
        spec_reversal_target(current, lost) >= 1,
        current - lost < 0 ==> spec_reversal_target(current, lost) == 1,
        current - lost >= 1 ==> spec_reversal_target(current, lost) == current - lost,
{
}

/// Whether `entry` is the placeholder for a deleted record of the
/// collection `kind` of which the ledger knew nothing: an entry for the
/// record's key that awards nothing.
pub open spec fn spec_placeholder(
    entry: EventTracker,
    user_info: EventInfo,
    commit: CommitInfo,
    kind: AppBskyEventRecord,
) -> bool {
    &&& entry.user_id == user_info.did
    &&& entry.event_type == kind
    &&& entry.event_id == commit.rkey
    &&& entry.event_data@.len() == 0
    &&& entry.xp == Some(0i32)
    &&& entry.event_at == user_info.time_us
}

/// Builds the placeholder for a deleted record of the collection `kind` of
/// which the ledger knows nothing.
pub fn placeholder(user_info: EventInfo, commit: CommitInfo, kind: AppBskyEventRecord) -> (entry:
    EventTracker)
    ensures
        spec_placeholder(entry, user_info, commit, kind),
        entry.wf(),
{
    EventTracker {
        user_id: user_info.did,
        event_type: kind,
        event_id: commit.rkey,
        event_data: Vec::new(),
        xp: Some(0),
        event_at: user_info.time_us,
    }
}

/// How the handling of a deleted record ended.
#[derive(Clone, Copy, Debug, PartialEq, Eq, Structural)]
pub enum DeleteOutcome {
    /// The record belongs to no supported collection; nothing happened.
    Dropped,
    /// The ledger knew nothing of the record; a placeholder was entered.
    NotFound,
    /// The experience that the record had awarded was taken back.
    Reversed { lost_experience: i32, response: LevelResponse },
}

/// The entry of the event `event_id` in a ledger that holds one.
pub open spec fn spec_entry(entries: Seq<EventTracker>, event_id: Seq<char>) -> EventTracker {
    let i = choose|i: int| 0 <= i < entries.len() && (#[trigger] entries[i]).event_id@ == event_id;
    entries[i]
}

/// Whether the actor can take the reversal within the machine's limits.
pub open spec fn spec_can_reverse(actor: Actor, lost: int) -> bool {
    let current = spec_experience_read(actor.experience.current_experience);
    i64::MIN <= actor.experience.current_experience + (spec_reversal_target(current, lost)
        - current) <= i64::MAX
}

/// Whether handling the deletion of a record leads from the actor `before`
/// and the ledger `ledger` to the actor `after`, the ledger `after_ledger`
/// and the outcome `outcome`.
///
/// A record of a collection that is none of the three is dropped, and
/// nothing changes. Where the ledger holds no entry for the record, a
/// placeholder that awards nothing is appended and the actor stays as it
/// is. Where it holds one, the experience that the entry stands for is
/// taken back from what the counter reads, down to one at the least; the
/// counter moves by the same difference, the progression state follows
/// without reporting any level as gained, and the alignment and the ledger
/// stay as they are.
pub open spec fn spec_deleted(
    before: Actor,
    ledger: Seq<EventTracker>,
    user_info: EventInfo,
    commit: CommitInfo,
    after: Actor,
    after_ledger: Seq<EventTracker>,
    outcome: DeleteOutcome,
) -> bool {
    match AppBskyEventRecord::spec_from_string(commit.collection@) {
        None => outcome is Dropped && after == before && after_ledger == ledger,
        Some(kind) => {
            if !spec_contains(ledger, commit.rkey@) {
                &&& outcome is NotFound
                &&& after == before
                &&& after_ledger.len() == ledger.len() + 1
                &&& after_ledger.drop_last() == ledger
                &&& spec_placeholder(after_ledger.last(), user_info, commit, kind)
            } else {
                let lost = spec_lost_experience(kind, spec_entry(ledger, commit.rkey@).xp);
                let current = spec_experience_read(before.experience.current_experience);
                let target = spec_reversal_target(current, lost);
                let response = spec_calculate_experience(target, 0);
                &&& outcome == (DeleteOutcome::Reversed { lost_experience: lost as i32, response })
                &&& after.character.user_did == before.character.user_did
                &&& after.character.name == before.character.name
                &&& after.character.posts_count == before.character.posts_count
                &&& after.character.alignment == before.character.alignment
                &&& after.character.leveling_state == response
                &&& after.experience.user_id == before.experience.user_id
                &&& after.experience.current_experience == before.experience.current_experience
                    + (target - current)
                &&& after_ledger == ledger
            }
        },
    }
}

/// Handles the deletion of a record against an actor and a ledger that are
/// held in memory.
pub fn delete_event_handler(
    actor: &mut Actor,
    ledger: &mut EventLedger,
    user_info: EventInfo,
    commit: CommitInfo,
) -> (outcome: DeleteOutcome)
    requires
        old(ledger).wf(),
        AppBskyEventRecord::spec_from_string(commit.collection@) matches Some(kind) ==> (
        spec_contains(old(ledger)@, commit.rkey@) ==> spec_can_reverse(
            *old(actor),
            spec_lost_experience(kind, spec_entry(old(ledger)@, commit.rkey@).xp),
        )),
    ensures
        final(ledger).wf(),
        spec_deleted(
            *old(actor),
            old(ledger)@,
            user_info,
            commit,
            *final(actor),
            final(ledger)@,
            outcome,
        ),
{
    let kind = match AppBskyEventRecord::from_string(commit.collection.as_str()) {
        Some(kind) => kind,
        None => {
            return DeleteOutcome::Dropped;
        },
    };
    let experience_lost: i32 = match ledger.find_event_by_partition_key(&commit.rkey) {
        None => {
            ledger.insert_event(placeholder(user_info, commit, kind));
            assert(ledger@.drop_last() == old(ledger)@);
            return DeleteOutcome::NotFound;
        },
        Some(event) => {
            proof {
                lemma_entry_is_unique(ledger@, commit.rkey@, *event);
            }
            lost_experience(kind, event)
        },
    };
    let current_experience: i32 = actor.experience.get_experience();
    let target: i32 = reversal_target(current_experience, experience_lost);
    let response = calculate_experience(target, 0);
    actor.character.leveling_state = response;
    actor.experience.increment_current_experience(target as i64 - current_experience as i64);
    DeleteOutcome::Reversed { lost_experience: experience_lost, response }
}

/// In a ledger that is written once for each event, the entry of an event
/// is the only entry that carries the event's key.
pub proof fn lemma_entry_is_unique(
    entries: Seq<EventTracker>,
    event_id: Seq<char>,
    entry: EventTracker,
)
    requires
        crate::models::ledger::spec_write_once(entries),
        entries.contains(entry),
        entry.event_id@ == event_id,
    ensures
        spec_contains(entries, event_id),
        spec_entry(entries, event_id) == entry,
{
    let i = choose|i: int| 0 <= i < entries.len() && entries[i] == entry;
    assert(entries[i].event_id@ == event_id);
    let j = choose|j: int| 0 <= j < entries.len() && (#[trigger] entries[j]).event_id@ == event_id;
    if i != j {
        assert(entries[i].event_id@ != entries[j].event_id@);
    }
}

} // verus!
