//! What holds of the handling of events across several of them: a second
//! delivery changes nothing, no credit is lost, and a deletion takes back
//! what the creation gave.

use crate::events::create::{
    spec_dispatched, spec_handled, spec_payload_handler, spec_resolution, spec_resolved_actor,
    Acknowledgement, Actor, DispatchOutcome, EventHandler, Resolution,
};
use crate::events::delete::{
    lemma_entry_is_unique, spec_deleted, spec_reversal_target, DeleteOutcome,
};
use crate::events::{CommitInfo, CreateEventPayload, EventInfo};
use crate::models::character::{Character, Profile, Sentiment};
use crate::models::ledger::{
    lemma_count_contains, lemma_write_once_count, spec_contains, spec_count, spec_write_once,
};
use crate::models::{spec_experience_read, CharacterExperience, EventTracker};
use vstd::prelude::*;

verus! {

/// A ledger that is written once for each event stays so when an entry
/// for an event that it does not hold yet is appended.
pub proof fn lemma_append_keeps_write_once(ledger: Seq<EventTracker>, after: Seq<EventTracker>)
    requires
        spec_write_once(ledger),
        after.len() == ledger.len() + 1,
        after.drop_last() == ledger,
        !spec_contains(ledger, after.last().event_id@),
    ensures
        spec_write_once(after),
        spec_contains(after, after.last().event_id@),
{
    assert forall|i: int, j: int|
        0 <= i < after.len() && 0 <= j < after.len() && i != j implies (#[trigger] after[i]).event_id@
        != (#[trigger] after[j]).event_id@ by {
        if i < ledger.len() {
            assert(after[i] == ledger[i]);
        }
        if j < ledger.len() {
            assert(after[j] == ledger[j]);
        }
    }
    assert(after[after.len() - 1].event_id@ == after.last().event_id@);
}

/// Once an event has been handled, the ledger holds exactly one entry for
/// it, whether the event was new or not.
pub proof fn lemma_handled_event_has_one_entry(
    base: Actor,
    handler: EventHandler,
    payload: CreateEventPayload,
    sentiment: Option<Sentiment>,
    ledger: Seq<EventTracker>,
    after: Actor,
    after_ledger: Seq<EventTracker>,
    acknowledgement: Acknowledgement,
)
    requires
        spec_write_once(ledger),
        spec_handled(
            base,
            handler,
            payload,
            sentiment,
            ledger,
            after,
            after_ledger,
            acknowledgement,
        ),
    ensures
        spec_write_once(after_ledger),
        spec_contains(after_ledger, payload.commit_data.info.rkey@),
        spec_count(after_ledger, payload.commit_data.info.rkey@) == 1,
{
    let event_id = payload.commit_data.info.rkey@;
    if !spec_contains(ledger, event_id) {
        lemma_append_keeps_write_once(ledger, after_ledger);
    }
    lemma_count_contains(after_ledger, event_id);
    lemma_write_once_count(after_ledger, event_id);
}

/// Idempotence: when an event that has been handled is delivered again,
/// under the same key, the second handling changes neither the actor nor
/// the ledger and gains nothing. The ledger holds exactly one entry for
/// the event. Where the actor was held before the first delivery and the
/// event was new then, the counter stands exactly one award above where
/// it stood; where the event was not new even then, the actor is as it
/// was.
pub proof fn lemma_second_delivery_changes_nothing(
    held: Option<Actor>,
    ledger: Seq<EventTracker>,
    first: CreateEventPayload,
    first_profile: Option<Profile>,
    first_sentiment: Option<Sentiment>,
    between: Option<Actor>,
    between_ledger: Seq<EventTracker>,
    first_outcome: DispatchOutcome,
    second: CreateEventPayload,
    second_profile: Option<Profile>,
    second_sentiment: Option<Sentiment>,
    after: Option<Actor>,
    after_ledger: Seq<EventTracker>,
    second_outcome: DispatchOutcome,
)
    requires
        spec_write_once(ledger),
        spec_dispatched(
            held,
            ledger,
            first,
            first_profile,
            first_sentiment,
            between,
            between_ledger,
            first_outcome,
        ),
        first_outcome is Acknowledged,
        spec_dispatched(
            between,
            between_ledger,
            second,
            second_profile,
            second_sentiment,
            after,
            after_ledger,
            second_outcome,
        ),
        second.commit_data.info.rkey@ == first.commit_data.info.rkey@,
    ensures
        after == between,
        after is Some,
        after_ledger == between_ledger,
        !(second_outcome is Failed),
        second_outcome matches DispatchOutcome::Acknowledged(acknowledgement)
            ==> acknowledgement.gained_experience == 0,
        spec_count(after_ledger, first.commit_data.info.rkey@) == 1,
        held matches Some(before) ==> {
            if spec_contains(ledger, first.commit_data.info.rkey@) {
                after == held
            } else {
                after->0.experience.current_experience == before.experience.current_experience
                    + spec_payload_handler(first)->0.spec_exp()
            }
        },
{
    let first_handler = spec_payload_handler(first)->0;
    let base = choose|base: Actor|
        {
            &&& spec_resolved_actor(held, first_profile, first, base)
            &&& #[trigger] spec_handled(
                base,
                first_handler,
                first,
                first_sentiment,
                ledger,
                between->0,
                between_ledger,
                first_outcome->0,
            )
        };
    lemma_handled_event_has_one_entry(
        base,
        first_handler,
        first,
        first_sentiment,
        ledger,
        between->0,
        between_ledger,
        first_outcome->0,
    );
    if spec_payload_handler(second) is Some {
        let second_handler = spec_payload_handler(second)->0;
        let again = choose|again: Actor|
            {
                &&& spec_resolved_actor(between, second_profile, second, again)
                &&& #[trigger] spec_handled(
                    again,
                    second_handler,
                    second,
                    second_sentiment,
                    between_ledger,
                    after->0,
                    after_ledger,
                    second_outcome->0,
                )
            };
    }
}

/// An actor is made from its profile once: where the store holds both
/// the character and the counter, resolving takes them as they are and
/// makes nothing, whatever the profile service says.
pub proof fn lemma_a_held_actor_is_not_seeded_again(
    user_did: String,
    character: Character,
    experience: CharacterExperience,
    profile: Option<Profile>,
    resolution: Option<Resolution>,
)
    requires
        spec_resolution(user_did, Some(character), Some(experience), profile, resolution),
    ensures
        resolution == Some(
            Resolution {
                actor: Actor { character, experience },
                bootstrapped: false,
                seeded: false,
            },
        ),
{
}

/// A like and a repost award exactly ten experience where they are new to
/// the ledger, and whether new or not, they leave the alignment as it is.
pub proof fn lemma_like_and_repost_award_ten(
    base: Actor,
    handler: EventHandler,
    payload: CreateEventPayload,
    sentiment: Option<Sentiment>,
    ledger: Seq<EventTracker>,
    after: Actor,
    after_ledger: Seq<EventTracker>,
    acknowledgement: Acknowledgement,
)
    requires
        handler is Like || handler is Repost,
        spec_handled(
            base,
            handler,
            payload,
            sentiment,
            ledger,
            after,
            after_ledger,
            acknowledgement,
        ),
    ensures
        after.character.alignment == base.character.alignment,
        !spec_contains(ledger, payload.commit_data.info.rkey@) ==> {
            &&& acknowledgement.gained_experience == 10
            &&& after_ledger.last().xp == Some(10i32)
            &&& after.experience.current_experience == base.experience.current_experience + 10
        },
{
}

/// The sum of a sequence of awards.
pub open spec fn spec_total(gains: Seq<int>) -> int
    decreases gains.len(),
{
    if gains.len() == 0 {
        0
    } else {
        spec_total(gains.drop_last()) + gains.last()
    }
}

/// What each of the handlers awards, in their order.
pub open spec fn spec_gains(handlers: Seq<EventHandler>) -> Seq<int> {
    Seq::new(handlers.len(), |i: int| handlers[i].spec_exp())
}

/// Removing one award from a sequence lowers its sum by that award.
pub proof fn lemma_total_remove(gains: Seq<int>, index: int)
    requires
        0 <= index < gains.len(),
    ensures
        spec_total(gains) == spec_total(gains.remove(index)) + gains[index],
    decreases gains.len(),
{
    if index == gains.len() - 1 {
        assert(gains.remove(index) == gains.drop_last());
    } else {
        lemma_total_remove(gains.drop_last(), index);
        assert(gains.remove(index).drop_last() == gains.drop_last().remove(index));
        assert(gains.remove(index).last() == gains.last());
    }
}

/// The sum of a sequence of awards does not depend on the order in which
/// the awards stand.
pub proof fn lemma_total_ignores_order(left: Seq<int>, right: Seq<int>)
    requires
        left.to_multiset() == right.to_multiset(),
    ensures
        spec_total(left) == spec_total(right),
    decreases left.len(),
{
    left.to_multiset_ensures();
    right.to_multiset_ensures();
    if left.len() == 0 {
        assert(right.len() == 0);
    } else {
        let last = left.last();
        let rest = left.drop_last();
        rest.to_multiset_ensures();
        assert(rest.push(last) == left);
        assert(left.to_multiset() == rest.to_multiset().insert(last));
        assert(right.to_multiset().count(last) > 0);
        assert(right.contains(last));
        let index = choose|index: int| 0 <= index < right.len() && right[index] == last;
        let others = right.remove(index);
        assert(others.to_multiset() == right.to_multiset().remove(last));
        assert(others.to_multiset() == rest.to_multiset());
        lemma_total_ignores_order(rest, others);
        lemma_total_remove(right, index);
    }
}

/// Whether the event at `turn` leads from the actor and the ledger before
/// it to the actor and the ledger after it.
pub open spec fn spec_turn(
    actors: Seq<Actor>,
    ledgers: Seq<Seq<EventTracker>>,
    handlers: Seq<EventHandler>,
    payloads: Seq<CreateEventPayload>,
    sentiments: Seq<Option<Sentiment>>,
    acknowledgements: Seq<Acknowledgement>,
    turn: int,
) -> bool {
    &&& !spec_contains(ledgers[turn], payloads[turn].commit_data.info.rkey@)
    &&& spec_handled(
        actors[turn],
        handlers[turn],
        payloads[turn],
        sentiments[turn],
        ledgers[turn],
        actors[turn + 1],
        ledgers[turn + 1],
        acknowledgements[turn],
    )
}

/// Whether the events of one actor, each new to the ledger when its turn
/// comes, are handled one after the other in the order in which they
/// stand: `actors[i]` and `ledgers[i]` are the actor and the ledger before
/// the event `i`, and those after it come next.
pub open spec fn spec_handled_in_turn(
    actors: Seq<Actor>,
    ledgers: Seq<Seq<EventTracker>>,
    handlers: Seq<EventHandler>,
    payloads: Seq<CreateEventPayload>,
    sentiments: Seq<Option<Sentiment>>,
    acknowledgements: Seq<Acknowledgement>,
) -> bool {
    &&& actors.len() == handlers.len() + 1
    &&& ledgers.len() == handlers.len() + 1
    &&& payloads.len() == handlers.len()
    &&& sentiments.len() == handlers.len()
    &&& acknowledgements.len() == handlers.len()
    &&& forall|turn: int|
        0 <= turn < handlers.len() ==> #[trigger] spec_turn(
            actors,
            ledgers,
            handlers,
            payloads,
            sentiments,
            acknowledgements,
            turn,
        )
}

/// After the first `count` events the counter stands above its start by
/// the sum of their awards, and no award is negative.
proof fn lemma_counter_after(
    actors: Seq<Actor>,
    ledgers: Seq<Seq<EventTracker>>,
    handlers: Seq<EventHandler>,
    payloads: Seq<CreateEventPayload>,
    sentiments: Seq<Option<Sentiment>>,
    acknowledgements: Seq<Acknowledgement>,
    count: int,
)
    requires
        spec_handled_in_turn(actors, ledgers, handlers, payloads, sentiments, acknowledgements),
        0 <= count <= handlers.len(),
    ensures
        actors[count].experience.current_experience == actors[0].experience.current_experience
            + spec_total(spec_gains(handlers).take(count)),
        0 <= spec_total(spec_gains(handlers).take(count)),
    decreases count,
{
    let gains = spec_gains(handlers);
    if count > 0 {
        lemma_counter_after(
            actors,
            ledgers,
            handlers,
            payloads,
            sentiments,
            acknowledgements,
            count - 1,
        );
    }
    if count > 0 {
        assert(gains.take(count).drop_last() == gains.take(count - 1));
        assert(gains.take(count).last() == handlers[count - 1].spec_exp());
        assert(spec_turn(
            actors,
            ledgers,
            handlers,
            payloads,
            sentiments,
            acknowledgements,
            count - 1,
        ));
    }
}

/// No lost updates: when the events of one actor are handled one after
/// the other, each of them new to the ledger, the counter ends above its
/// start by the sum of the awards. Where the counter starts at no less
/// than zero and the sum still fits the machine type of the experience,
/// the experience that the counter reads and the experience of the
/// progression state end at that same value. The order of the events
/// does not matter to the sum.
pub proof fn lemma_no_lost_updates(
    actors: Seq<Actor>,
    ledgers: Seq<Seq<EventTracker>>,
    handlers: Seq<EventHandler>,
    payloads: Seq<CreateEventPayload>,
    sentiments: Seq<Option<Sentiment>>,
    acknowledgements: Seq<Acknowledgement>,
)
    requires
        spec_handled_in_turn(actors, ledgers, handlers, payloads, sentiments, acknowledgements),
    ensures
        actors.last().experience.current_experience == actors[0].experience.current_experience
            + spec_total(spec_gains(handlers)),
        0 <= actors[0].experience.current_experience && actors[0].experience.current_experience
            + spec_total(spec_gains(handlers)) <= i32::MAX ==> {
            &&& spec_experience_read(actors.last().experience.current_experience)
                == actors[0].experience.current_experience + spec_total(spec_gains(handlers))
            &&& handlers.len() > 0 ==> actors.last().character.leveling_state.experience
                == actors[0].experience.current_experience + spec_total(spec_gains(handlers))
        },
        forall|other: Seq<int>| #[trigger]
            other.to_multiset() == spec_gains(handlers).to_multiset() ==> spec_total(other)
                == spec_total(spec_gains(handlers)),
{
    let count = handlers.len() as int;
    let gains = spec_gains(handlers);
    assert(gains.take(count) == gains);
    lemma_counter_after(actors, ledgers, handlers, payloads, sentiments, acknowledgements, count);
    if count > 0 {
        lemma_counter_after(
            actors,
            ledgers,
            handlers,
            payloads,
            sentiments,
            acknowledgements,
            count - 1,
        );
        assert(spec_turn(
            actors,
            ledgers,
            handlers,
            payloads,
            sentiments,
            acknowledgements,
            count - 1,
        ));
    }
    assert forall|other: Seq<int>| #[trigger]
        other.to_multiset() == gains.to_multiset() implies spec_total(other) == spec_total(
        gains,
    ) by {
        lemma_total_ignores_order(other, gains);
    }
}

/// Reversal: when a new event has been credited to an actor and the same
/// record of the same collection is then deleted, the deletion takes back
/// exactly the award.
/// Where the counter started at no less than zero and the credit fitted
/// the machine type of the experience, the counter reads as it did before
/// the event, and as one where that was less than one. The alignment stays
/// as the event left it.
pub proof fn lemma_deletion_takes_back_the_award(
    base: Actor,
    handler: EventHandler,
    payload: CreateEventPayload,
    sentiment: Option<Sentiment>,
    ledger: Seq<EventTracker>,
    credited: Actor,
    credited_ledger: Seq<EventTracker>,
    acknowledgement: Acknowledgement,
    user_info: EventInfo,
    commit: CommitInfo,
    after: Actor,
    after_ledger: Seq<EventTracker>,
    outcome: DeleteOutcome,
)
    requires
        spec_write_once(ledger),
        !spec_contains(ledger, payload.commit_data.info.rkey@),
        handler.fits(),
        spec_handled(
            base,
            handler,
            payload,
            sentiment,
            ledger,
            credited,
            credited_ledger,
            acknowledgement,
        ),
        commit.rkey@ == payload.commit_data.info.rkey@,
        commit.collection@ == payload.commit_data.info.collection@,
        spec_deleted(credited, credited_ledger, user_info, commit, after, after_ledger, outcome),
    ensures
        outcome matches DeleteOutcome::Reversed { lost_experience, response } && lost_experience
            == handler.spec_exp(),
        after.character.alignment == credited.character.alignment,
        after_ledger == credited_ledger,
        0 <= base.experience.current_experience && base.experience.current_experience
            + handler.spec_exp() <= i32::MAX ==> spec_experience_read(
            after.experience.current_experience,
        ) == spec_reversal_target(base.experience.current_experience as int, 0),
{
    lemma_handled_event_has_one_entry(
        base,
        handler,
        payload,
        sentiment,
        ledger,
        credited,
        credited_ledger,
        acknowledgement,
    );
    let entry = credited_ledger.last();
    assert(credited_ledger[credited_ledger.len() - 1] == entry);
    lemma_entry_is_unique(credited_ledger, commit.rkey@, entry);
}

} // verus!
