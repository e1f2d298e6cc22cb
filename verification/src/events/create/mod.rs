//! Handling of newly created content: which handler a record gets, and the
//! states that an event passes through until it is acknowledged.

pub mod create_post;
pub mod like_post;
pub mod repost;
pub mod services;

use crate::events::create::create_post::{
    spec_all_described, spec_length_field, CreatePostEvent, MAX_POST_LENGTH,
};
use crate::events::create::like_post::{LikePostEvent, LIKE_EXPERIENCE};
use crate::events::create::repost::{RepostEvent, REPOST_EXPERIENCE};
use crate::events::create::services::{spec_checkable, spec_mistakes, SpellCheckService};
use crate::events::dto::NewEventDTO;
use crate::events::{CreateEventPayload, Record};
use crate::leveling::{calculate_experience, spec_calculate_experience, LevelResponse};
use crate::models::character::{Character, Profile, Sentiment};
use crate::models::ledger::{spec_contains, EventLedger};
use crate::models::{spec_experience_read, CharacterExperience, EventTracker};
use vstd::prelude::*;

verus! {

/// The handler of a created record: one for each kind of record that
/// awards experience.
pub enum EventHandler {
    Post(CreatePostEvent),
    Like(LikePostEvent),
    Repost(RepostEvent),
}

impl EventHandler {
    /// The experience that the event earns.
    pub open spec fn spec_exp(&self) -> int {
        match self {
            EventHandler::Post(post) => post.spec_exp(),
            EventHandler::Like(_) => LIKE_EXPERIENCE as int,
            EventHandler::Repost(_) => REPOST_EXPERIENCE as int,
        }
    }

    /// The experience that the event earns fits its machine type.
    pub open spec fn fits(&self) -> bool {
        self matches EventHandler::Post(post) ==> post.length <= MAX_POST_LENGTH
    }

    /// Returns whether the experience that the event earns fits its machine
    /// type.
    pub fn check_fits(&self) -> (fits: bool)
        ensures
            fits == self.fits(),
    {
        match self {
            EventHandler::Post(post) => post.length <= MAX_POST_LENGTH,
            _ => true,
        }
    }

    /// Returns the experience that the event earns.
    pub fn calculate_exp(&self, payload: &NewEventDTO) -> (exp: i32)
        requires
            self.fits(),
        ensures
            exp == self.spec_exp(),
            0 <= exp,
    {
        match self {
            EventHandler::Post(post) => post.calculate_exp(),
            EventHandler::Like(like) => like.calculate_exp(payload),
            EventHandler::Repost(repost) => repost.calculate_exp(payload),
        }
    }
}

/// The handler that a record gets: a post is read into its handler, a like
/// and a repost get theirs, and a record of another kind gets none.
pub open spec fn spec_select_event_handler(record: Record) -> Option<EventHandler> {
    match record {
        Record::Post { text, images } => Some(
            EventHandler::Post(
                CreatePostEvent {
                    text,
                    length: spec_length_field(text@),
                    has_image: images is Some,
                    image_has_alt_text: images matches Some(list) && spec_all_described(list@),
                },
            ),
        ),
        Record::Like => Some(EventHandler::Like(LikePostEvent {  })),
        Record::Repost => Some(EventHandler::Repost(RepostEvent {  })),
        Record::Other => None,
    }
}

/// Selects the handler of a record; a record of an unsupported kind has
/// none.
pub fn select_event_handler(record: Record) -> (handler: Option<EventHandler>)
    ensures
        handler == spec_select_event_handler(record),
{
    match record {
        Record::Post { text, images } => {
            let mut post = CreatePostEvent::new();
            post.handle(Record::Post { text, images });
            Some(EventHandler::Post(post))
        },
        Record::Like => Some(EventHandler::Like(LikePostEvent::new())),
        Record::Repost => Some(EventHandler::Repost(RepostEvent::new())),
        Record::Other => None,
    }
}

/// An actor as the engine holds it while it handles an event: the
/// character and the counter of its experience.
pub struct Actor {
    pub character: Character,
    pub experience: CharacterExperience,
}

/// What the caller learns of a handled event.
#[derive(Clone, Copy, Debug, PartialEq, Eq, Structural)]
pub struct Acknowledgement {
    /// The experience that the event awarded.
    pub gained_experience: i32,
    /// The level after the event.
    pub level: i32,
    /// Whether the event raised the level.
    pub leveled_up: bool,
}

/// The states that a created event passes through.
pub enum DispatchState {
    /// The event has a handler; its actor is not known yet.
    Received { event: NewEventDTO, handler: EventHandler },
    /// The actor is known. `bootstrapped` says that the character was made
    /// from a profile, `seeded` that the counter was made from the
    /// character; what was made is to be stored before the event goes on.
    ActorResolved {
        event: NewEventDTO,
        handler: EventHandler,
        actor: Actor,
        bootstrapped: bool,
        seeded: bool,
    },
    /// The award is computed and nothing is stored yet: the actor as it
    /// was, the character as it will be, and the entry for the ledger.
    XpComputed {
        before: Actor,
        character: Character,
        gained: i32,
        response: LevelResponse,
        entry: EventTracker,
    },
    /// The ledger took the entry and the counter holds the award.
    Persisted { actor: Actor, gained: i32, response: LevelResponse },
    /// The event is done.
    Acknowledged { actor: Actor, acknowledgement: Acknowledgement },
    /// The record is of no supported kind; nothing happened.
    Dropped,
    /// The actor could not be resolved, or the store failed.
    Failed,
}

/// The handler that a payload gets: the one of its record, where the
/// record is of a supported kind and the collection that it was committed
/// to is one of the three that award experience; none otherwise.
pub open spec fn spec_payload_handler(payload: CreateEventPayload) -> Option<EventHandler> {
    if crate::events::AppBskyEventRecord::spec_from_string(payload.commit_data.info.collection@)
        is Some {
        spec_select_event_handler(payload.commit_data.record)
    } else {
        None
    }
}

/// Takes in a created record: a record of a supported kind in a supported
/// collection is received with its handler, any other is dropped.
pub fn receive(payload: CreateEventPayload) -> (state: DispatchState)
    ensures
        match spec_payload_handler(payload) {
            Some(selected) => {
                &&& state matches DispatchState::Received { event, handler }
                &&& handler == selected
                &&& event.describes(payload)
            },
            None => state is Dropped,
        },
{
    match NewEventDTO::from_payload(&payload) {
        Some(event) => match select_event_handler(payload.commit_data.record) {
            Some(handler) => DispatchState::Received { event, handler },
            None => DispatchState::Dropped,
        },
        None => DispatchState::Dropped,
    }
}

/// An actor as it was resolved. `bootstrapped` says that the character was
/// made from a profile, `seeded` that the counter was made from the
/// character; what was made is to be stored before anything else happens.
pub struct Resolution {
    pub actor: Actor,
    pub bootstrapped: bool,
    pub seeded: bool,
}

/// Whether `resolution` is what resolving the actor `user_did` leads to. A
/// character that the store holds is taken as it is; failing that, one is
/// made from the profile; failing both, there is no actor. A counter that
/// the store holds is taken as it is; failing that, one is made that
/// stands at the character's experience.
pub open spec fn spec_resolution(
    user_did: String,
    found_character: Option<Character>,
    found_experience: Option<CharacterExperience>,
    profile: Option<Profile>,
    resolution: Option<Resolution>,
) -> bool {
    if found_character is None && profile is None {
        resolution is None
    } else {
        &&& resolution matches Some(resolved)
        &&& resolved.bootstrapped == (found_character is None)
        &&& resolved.seeded == (found_experience is None)
        &&& match found_character {
            Some(character) => resolved.actor.character == character,
            None => resolved.actor.character.seeded_from(profile->0),
        }
        &&& match found_experience {
            Some(experience) => resolved.actor.experience == experience,
            None => {
                &&& resolved.actor.experience.user_id == user_did
                &&& resolved.actor.experience.current_experience
                    == resolved.actor.character.leveling_state.experience
            },
        }
    }
}

/// Resolves the actor `user_did` from what the store and the profile
/// service answered.
pub fn resolve_actor(
    user_did: &String,
    found_character: Option<Character>,
    found_experience: Option<CharacterExperience>,
    profile: Option<Profile>,
) -> (resolution: Option<Resolution>)
    ensures
        spec_resolution(*user_did, found_character, found_experience, profile, resolution),
{
    let bootstrapped = found_character.is_none();
    let character = match found_character {
        Some(character) => character,
        None => match profile {
            Some(profile) => Character::from_profile(profile),
            None => {
                return None;
            },
        },
    };
    let seeded = found_experience.is_none();
    let experience = match found_experience {
        Some(experience) => experience,
        None => CharacterExperience {
            user_id: user_did.clone(),
            current_experience: character.leveling_state.experience as i64,
        },
    };
    Some(Resolution { actor: Actor { character, experience }, bootstrapped, seeded })
}

/// Whether `next` is what resolving the actor of a received event leads
/// to: the event goes on with its actor, or it has failed for want of one.
pub open spec fn spec_resolved(
    state: DispatchState,
    found_character: Option<Character>,
    found_experience: Option<CharacterExperience>,
    profile: Option<Profile>,
    next: DispatchState,
) -> bool {
    match state {
        DispatchState::Received { event, handler } => {
            match next {
                DispatchState::ActorResolved {
                    event: same_event,
                    handler: same_handler,
                    actor,
                    bootstrapped,
                    seeded,
                } => {
                    &&& same_event == event
                    &&& same_handler == handler
                    &&& spec_resolution(
                        event.user_did,
                        found_character,
                        found_experience,
                        profile,
                        Some(Resolution { actor, bootstrapped, seeded }),
                    )
                },
                DispatchState::Failed => spec_resolution(
                    event.user_did,
                    found_character,
                    found_experience,
                    profile,
                    None,
                ),
                _ => false,
            }
        },
        _ => false,
    }
}

/// Resolves the actor of a received event from what the store and the
/// profile service answered.
pub fn resolve(
    state: DispatchState,
    found_character: Option<Character>,
    found_experience: Option<CharacterExperience>,
    profile: Option<Profile>,
) -> (next: DispatchState)
    requires
        state is Received,
    ensures
        spec_resolved(state, found_character, found_experience, profile, next),
{
    match state {
        DispatchState::Received { event, handler } => {
            match resolve_actor(&event.user_did, found_character, found_experience, profile) {
                Some(Resolution { actor, bootstrapped, seeded }) => DispatchState::ActorResolved {
                    event,
                    handler,
                    actor,
                    bootstrapped,
                    seeded,
                },
                None => DispatchState::Failed,
            }
        },
        _ => DispatchState::Failed,
    }
}

/// The experience after `gained` is credited to `current`: their sum, or
/// the largest experience that fits its machine type where the sum is
/// larger.
pub open spec fn spec_credited(current: int, gained: int) -> int {
    if current + gained > i32::MAX {
        i32::MAX as int
    } else {
        current + gained
    }
}

/// The progression state after `gained` is credited to an actor whose
/// counter stands at `counter`.
pub open spec fn spec_award(counter: i64, gained: int) -> LevelResponse {
    let current = spec_experience_read(counter);
    spec_calculate_experience(current, spec_credited(current, gained) - current)
}

/// Whether the award of a resolved event can be computed within the
/// machine's limits. `signals` holds the sentiment of the text and the
/// number of its spelling mistakes; they count for a post only.
pub open spec fn spec_can_compute(state: DispatchState, signals: Option<(Sentiment, int)>) -> bool {
    match state {
        DispatchState::ActorResolved { event, handler, actor, bootstrapped, seeded } => {
            &&& handler.fits()
            &&& actor.character.alignment.wf()
            &&& handler is Post ==> match signals {
                Some((sentiment, mistakes)) => sentiment.wf()
                    && actor.character.alignment@.has_room_for(sentiment, mistakes),
                None => true,
            }
        },
        _ => false,
    }
}

/// Whether `next` is what computing the award of a resolved event leads
/// to. The handler says what the event earns; the experience is credited
/// to what the counter reads; the text signals, where there are any and
/// the record is a post, move the alignment, which otherwise stays; the
/// entry for the ledger records the award.
pub open spec fn spec_computed(
    state: DispatchState,
    signals: Option<(Sentiment, int)>,
    next: DispatchState,
) -> bool {
    match state {
        DispatchState::ActorResolved { event, handler, actor, bootstrapped, seeded } => {
            &&& next matches DispatchState::XpComputed { before, character, gained, response, entry }
            &&& before == actor
            &&& gained == handler.spec_exp()
            &&& response == spec_award(actor.experience.current_experience, handler.spec_exp())
            &&& character.user_did == actor.character.user_did
            &&& character.name == actor.character.name
            &&& character.posts_count == actor.character.posts_count
            &&& character.leveling_state == response
            &&& character.wf()
            &&& match signals {
                Some((sentiment, mistakes)) if handler is Post => character.alignment@
                    == actor.character.alignment@.after_text(sentiment, mistakes),
                _ => character.alignment == actor.character.alignment,
            }
            &&& entry.user_id == event.user_did
            &&& entry.event_type == event.event_type
            &&& entry.event_id == event.event_id
            &&& entry.event_data == event.context
            &&& entry.xp == Some(gained)
            &&& entry.event_at == event.posted_at
            &&& entry.wf()
        },
        _ => false,
    }
}

/// What an event earns, the progression state that follows, and the entry
/// that records it.
fn award(event: NewEventDTO, handler: &EventHandler, experience: &CharacterExperience) -> (awarded:
    (i32, LevelResponse, EventTracker))
    requires
        handler.fits(),
    ensures
        awarded.0 == handler.spec_exp(),
        awarded.1 == spec_award(experience.current_experience, handler.spec_exp()),
        awarded.2.user_id == event.user_did,
        awarded.2.event_type == event.event_type,
        awarded.2.event_id == event.event_id,
        awarded.2.event_data == event.context,
        awarded.2.xp == Some(awarded.0),
        awarded.2.event_at == event.posted_at,
        awarded.2.wf(),
        awarded.1.level == crate::leveling::spec_capped_level(awarded.1.experience as int),
{
    let current_experience: i32 = experience.get_experience();
    let action_gained_experience: i32 = handler.calculate_exp(&event);
    let new_experience: i32 = if current_experience > i32::MAX - action_gained_experience {
        i32::MAX
    } else {
        current_experience + action_gained_experience
    };
    let response = calculate_experience(current_experience, new_experience - current_experience);
    let entry = EventTracker {
        user_id: event.user_did,
        event_type: event.event_type,
        event_id: event.event_id,
        event_data: event.context,
        xp: Some(action_gained_experience),
        event_at: event.posted_at,
    };
    (action_gained_experience, response, entry)
}

/// Computes the award of a resolved event from text signals that are
/// already at hand.
pub fn compute_with(state: DispatchState, signals: Option<(Sentiment, usize)>) -> (next:
    DispatchState)
    requires
        spec_can_compute(
            state,
            match signals {
                Some((sentiment, mistakes)) => Some((sentiment, mistakes as int)),
                None => None,
            },
        ),
    ensures
        spec_computed(
            state,
            match signals {
                Some((sentiment, mistakes)) => Some((sentiment, mistakes as int)),
                None => None,
            },
            next,
        ),
{
    match state {
        DispatchState::ActorResolved { event, handler, actor, bootstrapped: _, seeded: _ } => {
            let (gained, response, entry) = award(event, &handler, &actor.experience);
            let mut alignment = actor.character.alignment;
            match (&handler, signals) {
                (EventHandler::Post(_), Some((sentiment, mistakes))) => {
                    alignment.apply_text_signals(sentiment, mistakes);
                },
                _ => {},
            }
            let character = Character {
                user_did: actor.character.user_did.clone(),
                name: actor.character.name.clone(),
                leveling_state: response,
                alignment,
                posts_count: actor.character.posts_count,
            };
            DispatchState::XpComputed { before: actor, character, gained, response, entry }
        },
        _ => DispatchState::Failed,
    }
}

/// The text signals of a resolved event: for a post whose sentiment is
/// known and whose text the spell checker can take, the sentiment and the
/// number of mistakes of the text; none otherwise.
pub open spec fn spec_signals(handler: EventHandler, sentiment: Option<Sentiment>) -> Option<
    (Sentiment, int),
> {
    match (handler, sentiment) {
        (EventHandler::Post(post), Some(sentiment)) if spec_checkable(post.text@) => Some(
            (sentiment, spec_mistakes(post.text@) as int),
        ),
        _ => None,
    }
}

/// Computes the award of a resolved event. For a post whose sentiment is
/// known, the spell checker counts the mistakes of the text, and sentiment
/// and mistakes move the alignment. Without a sentiment, with a text that
/// the spell checker cannot take, and for a like or a repost, the
/// alignment stays as it is; the award is computed all the same.
pub fn compute(state: DispatchState, sentiment: Option<Sentiment>, spellcheck: &mut SpellCheckService)
    -> (next: DispatchState)
    requires
        spec_can_compute(state, None),
        state matches DispatchState::ActorResolved { handler, actor, .. } ==> (handler is Post
            ==> match sentiment {
            Some(sentiment) => sentiment.wf() && actor.character.alignment@.has_room_for_text(
                sentiment,
            ),
            None => true,
        }),
    ensures
        state matches DispatchState::ActorResolved { handler, .. } && spec_computed(
            state,
            spec_signals(handler, sentiment),
            next,
        ),
{
    let signals = match (&state, sentiment) {
        (
            DispatchState::ActorResolved { handler: EventHandler::Post(post), .. },
            Some(sentiment),
        ) => match spellcheck.count_mistakes(&post.text) {
            Some(mistakes) => Some((sentiment, mistakes)),
            None => None,
        },
        _ => None,
    };
    compute_with(state, signals)
}

/// Whether `next` is what settling an award leads to. Where the ledger
/// took the entry, the new character stands and the counter is raised by
/// the award. Where the ledger already held an entry for the event, the
/// event was processed before: the actor stays as it was, and the
/// acknowledgement reports that nothing was gained.
pub open spec fn spec_settled_award(
    before: Actor,
    character: Character,
    gained: i32,
    response: LevelResponse,
    inserted: bool,
    next: DispatchState,
) -> bool {
    if inserted {
        &&& next matches DispatchState::Persisted { actor, gained: same_gained, response: same_response }
        &&& actor.character == character
        &&& actor.experience.user_id == before.experience.user_id
        &&& actor.experience.current_experience == before.experience.current_experience + gained
        &&& same_gained == gained
        &&& same_response == response
    } else {
        next == (DispatchState::Acknowledged {
            actor: before,
            acknowledgement: Acknowledgement {
                gained_experience: 0,
                level: before.character.leveling_state.level,
                leveled_up: false,
            },
        })
    }
}

/// Whether `next` is what settling a computed award leads to, given
/// whether the ledger took the entry.
pub open spec fn spec_settled(state: DispatchState, inserted: bool, next: DispatchState) -> bool {
    match state {
        DispatchState::XpComputed { before, character, gained, response, entry } => {
            spec_settled_award(before, character, gained, response, inserted, next)
        },
        _ => false,
    }
}

/// Whether the counter of a computed award can take the award within the
/// machine's limits.
pub open spec fn spec_can_settle(state: DispatchState) -> bool {
    state matches DispatchState::XpComputed { before, gained, .. } && i64::MIN
        <= before.experience.current_experience + gained <= i64::MAX
}

fn settled(
    before: Actor,
    character: Character,
    gained: i32,
    response: LevelResponse,
    inserted: bool,
) -> (next: DispatchState)
    requires
        i64::MIN <= before.experience.current_experience + gained <= i64::MAX,
    ensures
        spec_settled_award(before, character, gained, response, inserted, next),
{
    if inserted {
        let mut experience = before.experience;
        experience.increment_current_experience(gained as i64);
        DispatchState::Persisted { actor: Actor { character, experience }, gained, response }
    } else {
        let level = before.character.leveling_state.level;
        DispatchState::Acknowledged {
            actor: before,
            acknowledgement: Acknowledgement { gained_experience: 0, level, leveled_up: false },
        }
    }
}

/// Settles a computed award once the store has answered: `inserted` says
/// whether the ledger took the entry.
pub fn settle(state: DispatchState, inserted: bool) -> (next: DispatchState)
    requires
        spec_can_settle(state),
    ensures
        spec_settled(state, inserted, next),
{
    match state {
        DispatchState::XpComputed { before, character, gained, response, entry: _ } => settled(
            before,
            character,
            gained,
            response,
            inserted,
        ),
        _ => DispatchState::Failed,
    }
}

/// Stores a computed award in `ledger` and settles it: the entry is
/// appended unless the ledger already holds one for the event.
pub fn persist(state: DispatchState, ledger: &mut EventLedger) -> (next: DispatchState)
    requires
        spec_can_settle(state),
        old(ledger).wf(),
        state matches DispatchState::XpComputed { entry, .. } && entry.wf(),
    ensures
        final(ledger).wf(),
        state matches DispatchState::XpComputed { entry, .. } && {
            let inserted = !spec_contains(old(ledger)@, entry.event_id@);
            &&& spec_settled(state, inserted, next)
            &&& final(ledger)@ == if inserted {
                old(ledger)@.push(entry)
            } else {
                old(ledger)@
            }
            &&& crate::models::ledger::spec_count(final(ledger)@, entry.event_id@) == 1
        },
{
    match state {
        DispatchState::XpComputed { before, character, gained, response, entry } => {
            let inserted = ledger.insert_event(entry);
            settled(before, character, gained, response, inserted)
        },
        _ => DispatchState::Failed,
    }
}

/// Whether `next` is what acknowledging a persisted event leads to: the
/// caller learns the experience gained, the new level, and whether the
/// level rose.
pub open spec fn spec_acknowledged(state: DispatchState, next: DispatchState) -> bool {
    match state {
        DispatchState::Persisted { actor, gained, response } => next == (
        DispatchState::Acknowledged {
            actor,
            acknowledgement: Acknowledgement {
                gained_experience: gained,
                level: response.level,
                leveled_up: response.levels_gained > 0,
            },
        }),
        _ => false,
    }
}

/// Acknowledges a persisted event.
pub fn acknowledge(state: DispatchState) -> (next: DispatchState)
    requires
        state is Persisted,
    ensures
        spec_acknowledged(state, next),
{
    match state {
        DispatchState::Persisted { actor, gained, response } => DispatchState::Acknowledged {
            actor,
            acknowledgement: Acknowledgement {
                gained_experience: gained,
                level: response.level,
                leveled_up: response.levels_gained > 0,
            },
        },
        _ => DispatchState::Failed,
    }
}

/// How the handling of a created event ended.
#[derive(Clone, Copy, Debug, PartialEq, Eq, Structural)]
pub enum DispatchOutcome {
    Acknowledged(Acknowledgement),
    Dropped,
    Failed,
}

/// Whether `base` is the actor that handling starts from: the actor that
/// is held, or, where none is held, the one that the profile gives rise
/// to, with a counter that stands at its experience.
pub open spec fn spec_resolved_actor(
    held: Option<Actor>,
    profile: Option<Profile>,
    payload: CreateEventPayload,
    base: Actor,
) -> bool {
    match held {
        Some(actor) => base == actor,
        None => {
            &&& profile is Some
            &&& base.character.seeded_from(profile->0)
            &&& base.experience.user_id == payload.event_info.did
            &&& base.experience.current_experience == base.character.leveling_state.experience
        },
    }
}

/// Whether the entry `entry` records that `payload` awarded `gained`.
pub open spec fn spec_records(entry: EventTracker, payload: CreateEventPayload, gained: int) -> bool {
    &&& entry.user_id == payload.event_info.did
    &&& Some(entry.event_type) == crate::events::AppBskyEventRecord::spec_from_string(
        payload.commit_data.info.collection@,
    )
    &&& entry.event_id == payload.commit_data.info.rkey
    &&& entry.event_data@.len() == 0
    &&& entry.xp == Some(gained as i32)
    &&& entry.event_at == payload.event_info.time_us
}

/// Whether handling `payload` for the actor `base` with the handler
/// `handler` leads from the ledger `ledger` to the actor `after`, the
/// ledger `after_ledger` and the acknowledgement `acknowledgement`.
///
/// An event that the ledger already holds changes nothing and gains
/// nothing. Any other event is credited once: the experience that the
/// counter reads grows by what the handler says, the counter is raised by
/// the same amount, the progression state follows, one entry is appended
/// to the ledger, and the alignment moves only for a post whose sentiment
/// is known.
pub open spec fn spec_handled(
    base: Actor,
    handler: EventHandler,
    payload: CreateEventPayload,
    sentiment: Option<Sentiment>,
    ledger: Seq<EventTracker>,
    after: Actor,
    after_ledger: Seq<EventTracker>,
    acknowledgement: Acknowledgement,
) -> bool {
    let gained = handler.spec_exp();
    if spec_contains(ledger, payload.commit_data.info.rkey@) {
        &&& after == base
        &&& after_ledger == ledger
        &&& acknowledgement == (Acknowledgement {
            gained_experience: 0,
            level: base.character.leveling_state.level,
            leveled_up: false,
        })
    } else {
        let response = spec_award(base.experience.current_experience, gained);
        &&& after.character.user_did == base.character.user_did
        &&& after.character.name == base.character.name
        &&& after.character.posts_count == base.character.posts_count
        &&& after.character.leveling_state == response
        &&& after.character.wf()
        &&& match spec_signals(handler, sentiment) {
            Some((sentiment, mistakes)) => after.character.alignment@
                == base.character.alignment@.after_text(sentiment, mistakes),
            None => after.character.alignment == base.character.alignment,
        }
        &&& after.experience.user_id == base.experience.user_id
        &&& after.experience.current_experience == base.experience.current_experience + gained
        &&& after_ledger.len() == ledger.len() + 1
        &&& after_ledger.drop_last() == ledger
        &&& spec_records(after_ledger.last(), payload, gained)
        &&& acknowledgement == (Acknowledgement {
            gained_experience: gained as i32,
            level: response.level,
            leveled_up: response.levels_gained > 0,
        })
    }
}

/// Whether handling `payload` leads from the held actor and the ledger to
/// the actor `after`, the ledger `after_ledger` and the outcome `outcome`.
/// A record of an unsupported kind or collection is dropped, and an event whose actor is
/// neither held nor known to the profile service fails; both change
/// nothing.
pub open spec fn spec_dispatched(
    held: Option<Actor>,
    ledger: Seq<EventTracker>,
    payload: CreateEventPayload,
    profile: Option<Profile>,
    sentiment: Option<Sentiment>,
    after: Option<Actor>,
    after_ledger: Seq<EventTracker>,
    outcome: DispatchOutcome,
) -> bool {
    match spec_payload_handler(payload) {
        None => outcome is Dropped && after == held && after_ledger == ledger,
        Some(handler) => {
            if held is None && profile is None {
                outcome is Failed && after == held && after_ledger == ledger
            } else {
                &&& outcome is Acknowledged
                &&& after is Some
                &&& exists|base: Actor|
                    {
                        &&& spec_resolved_actor(held, profile, payload, base)
                        &&& #[trigger] spec_handled(
                            base,
                            handler,
                            payload,
                            sentiment,
                            ledger,
                            after->0,
                            after_ledger,
                            outcome->0,
                        )
                    }
            }
        },
    }
}

/// Whether `payload` can be handled for the held actor within the
/// machine's limits: the experience of the record fits, the counter can
/// take it, and the alignment has room for the text.
pub open spec fn spec_can_dispatch(
    held: Option<Actor>,
    payload: CreateEventPayload,
    sentiment: Option<Sentiment>,
) -> bool {
    &&& sentiment matches Some(sentiment) ==> sentiment.wf()
    &&& spec_payload_handler(payload) matches Some(handler) ==> {
        &&& handler.fits()
        &&& held matches Some(actor) ==> actor.experience.current_experience
            + handler.spec_exp() <= i64::MAX
    }
    &&& held matches Some(actor) ==> {
        &&& actor.character.alignment.wf()
        &&& (payload.commit_data.record is Post && sentiment is Some)
            ==> actor.character.alignment@.has_room_for_text(sentiment->0)
    }
}

/// Handles one created event from its arrival to its acknowledgement,
/// against an actor and a ledger that are held in memory.
///
/// `actor` holds the actor of the event where it is known; where it is
/// not, `profile` is what the profile service knows of it. `sentiment` is
/// what the sentiment model says of the text of a post, where it said
/// anything.
pub fn create_event_handler(
    actor: &mut Option<Actor>,
    ledger: &mut EventLedger,
    payload: CreateEventPayload,
    profile: Option<Profile>,
    sentiment: Option<Sentiment>,
    spellcheck: &mut SpellCheckService,
) -> (outcome: DispatchOutcome)
    requires
        old(ledger).wf(),
        spec_can_dispatch(*old(actor), payload, sentiment),
    ensures
        final(ledger).wf(),
        spec_dispatched(
            *old(actor),
            old(ledger)@,
            payload,
            profile,
            sentiment,
            *final(actor),
            final(ledger)@,
            outcome,
        ),
{
    let ghost handler = spec_payload_handler(payload);
    let received = receive(payload);
    if let DispatchState::Dropped = received {
        return DispatchOutcome::Dropped;
    }
    if actor.is_none() && profile.is_none() {
        return DispatchOutcome::Failed;
    }
    let (found_character, found_experience) = match actor.take() {
        Some(held) => (Some(held.character), Some(held.experience)),
        None => (None, None),
    };
    let resolved = resolve(received, found_character, found_experience, profile);
    let ghost base = resolved->ActorResolved_actor;
    let computed = compute(resolved, sentiment, spellcheck);
    let settled = persist(computed, ledger);
    let done = match settled {
        DispatchState::Persisted { actor, gained, response } => acknowledge(
            DispatchState::Persisted { actor, gained, response },
        ),
        other => other,
    };
    match done {
        DispatchState::Acknowledged { actor: after, acknowledgement } => {
            *actor = Some(after);
            let outcome = DispatchOutcome::Acknowledged(acknowledgement);
            proof {
                assert(ledger@.drop_last() == old(ledger)@ || ledger@ == old(ledger)@);
                assert(spec_resolved_actor(*old(actor), profile, payload, base));
                assert(spec_handled(
                    base,
                    handler->0,
                    payload,
                    sentiment,
                    old(ledger)@,
                    (*actor)->0,
                    ledger@,
                    outcome->0,
                ));
            }
            outcome
        },
        _ => DispatchOutcome::Failed,
    }
}

} // verus!
