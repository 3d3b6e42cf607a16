//! What holds of the engine over the entry store: when a mirror is created,
//! and when a message stops being listed.

use vstd::prelude::*;

use crate::config::{config_of, ChannelView, ConfigLookup};
use crate::engine::{
    fetched_count, finished, opening, postable_channel, recorded_mirror, transition, Action,
    EditOutcome, EntryLookup, EventView, FetchedView, Flow, ReactionEventView, SyncState, Target,
};
use crate::render::{eligible, star_emoji};
use crate::tally::REACTOR_PAGE;

verus! {

/// The entry store after the caller has carried out a request: an upsert
/// records the mirror, a deletion or a removal of the mirror drops the entry,
/// and no other request touches the store.
pub open spec fn store_after(store: Map<u64, u64>, action: Action) -> Map<u64, u64> {
    match action {
        Action::UpsertEntry { message_id, mirror_id } => store.insert(message_id, mirror_id),
        Action::DeleteEntry { message_id } => store.remove(message_id),
        Action::RemoveMirror { message_id, .. } => store.remove(message_id),
        _ => store,
    }
}

/// The mirror that the store records for a message, where it records one.
pub open spec fn entry_of(store: Map<u64, u64>, message_id: u64) -> Option<u64> {
    if store.contains_key(message_id) {
        Some(store[message_id])
    } else {
        None
    }
}

/// `lookup` is what a read of the store that succeeds gives for
/// `message_id`: the entry that it records, or that it records none.
pub open spec fn answers(store: Map<u64, u64>, message_id: u64, lookup: EntryLookup) -> bool {
    match lookup {
        EntryLookup::Failed => false,
        EntryLookup::Missing => !store.contains_key(message_id),
        EntryLookup::Recorded { .. } => entry_of(store, message_id) == recorded_mirror(lookup),
    }
}

/// The answer says that the message has no live mirror: the store was read
/// and names none, or the platform does not have the one it names.
pub open spec fn reports_unlisted(event: EventView) -> bool {
    match event {
        EventView::Entry(lookup) => lookup is Missing,
        EventView::Mirror(found) => !found,
        _ => false,
    }
}

/// The entry store keeps one mirror per message: a second upsert replaces
/// the first, a deletion can be repeated, and deleting what is not recorded
/// changes nothing.
pub proof fn law_store_is_idempotent(
    store: Map<u64, u64>,
    message_id: u64,
    first: u64,
    second: u64,
)
    ensures
        ({
            let upsert_first = Action::UpsertEntry { message_id, mirror_id: first };
            let upsert_second = Action::UpsertEntry { message_id, mirror_id: second };
            let delete = Action::DeleteEntry { message_id };
            &&& store_after(store_after(store, upsert_first), upsert_second) == store_after(
                store,
                upsert_second,
            )
            &&& entry_of(store_after(store, upsert_second), message_id) == Some(second)
            &&& store_after(store_after(store, delete), delete) == store_after(store, delete)
            &&& !store.contains_key(message_id) ==> store_after(store, delete) == store
            &&& entry_of(store_after(store, delete), message_id) is None
        }),
{
    let upsert_first = Action::UpsertEntry { message_id, mirror_id: first };
    let upsert_second = Action::UpsertEntry { message_id, mirror_id: second };
    let delete = Action::DeleteEntry { message_id };
    assert(store_after(store_after(store, upsert_first), upsert_second) =~= store_after(
        store,
        upsert_second,
    ));
    assert(store_after(store_after(store, delete), delete) =~= store_after(store, delete));
    if !store.contains_key(message_id) {
        assert(store_after(store, delete) =~= store);
    }
}

/// A mirror is posted only on an addition that found the message without a
/// live mirror, and only for a message that may be mirrored, in a channel
/// that may be posted from.
pub proof fn law_creation_needs_unlisted(state: SyncState, event: EventView)
    requires
        transition(state, event).1 is SendMirror,
    ensures
        reports_unlisted(event),
        match state {
            SyncState::Locating { target, count, eligible } => eligible && target.postable
                && transition(
                state,
                event,
            ).1 == (Action::SendMirror { mirror_channel: target.mirror_channel, count }),
            SyncState::LocatingMirror { target, count, eligible, .. } => eligible
                && target.postable && transition(
                state,
                event,
            ).1 == (Action::SendMirror { mirror_channel: target.mirror_channel, count }),
            _ => false,
        },
{
}

/// The count on which a mirror is looked for after an addition, and which the
/// badge then shows, is the endorsement count of what was fetched, and it is
/// at least the threshold.
pub proof fn law_lookup_needs_threshold(state: SyncState, event: EventView)
    requires
        state is Counting,
        transition(state, event).0 is Locating,
    ensures
        event is Reactions,
        event->Reactions_0 is Some,
        transition(state, event).0->Locating_count == fetched_count(event->Reactions_0->0),
        transition(state, event).0->Locating_count >= transition(
            state,
            event,
        ).0->Locating_target.min_stars >= 0,
{
}

/// An addition to a message that has a live mirror edits the mirror's
/// badge and posts nothing, however the edit ends; the message stays listed
/// unless the edit finds the mirror gone.
pub proof fn law_listed_addition_only_edits(
    store: Map<u64, u64>,
    target: Target,
    count: usize,
    eligible: bool,
    lookup: EntryLookup,
    outcome: EditOutcome,
)
    requires
        store.contains_key(target.message_id),
        lookup is Recorded,
        answers(store, target.message_id, lookup),
    ensures
        ({
            let first = transition(
                SyncState::Locating { target, count, eligible },
                EventView::Entry(lookup),
            );
            let second = transition(first.0, EventView::Mirror(true));
            let third = transition(second.0, EventView::Edited(outcome));
            &&& first.1 == (Action::FetchMirror {
                mirror_channel: target.mirror_channel,
                mirror_id: store[target.message_id],
            })
            &&& second.1 == (Action::EditMirror {
                mirror_channel: target.mirror_channel,
                mirror_id: store[target.message_id],
                count,
            })
            &&& !(third.1 is SendMirror)
            &&& third.0 is Done
            &&& outcome != EditOutcome::NotFound ==> store_after(
                store_after(store_after(store, first.1), second.1),
                third.1,
            ) == store
        }),
{
}

/// A mirror that was posted is recorded: the message is listed afterwards,
/// under the mirror that was posted last.
pub proof fn law_posted_mirror_is_listed(store: Map<u64, u64>, message_id: u64, mirror_id: u64)
    ensures
        ({
            let last = transition(SyncState::Sending { message_id }, EventView::Sent(Some(mirror_id)));
            last.0 is Done && entry_of(store_after(store, last.1), message_id) == Some(mirror_id)
        }),
{
}

/// A store that cannot be read ends the invocation: nothing is posted,
/// edited or deleted.
pub proof fn law_unreadable_store_abandons(target: Target, count: usize, eligible: bool)
    ensures
        transition(
            SyncState::Locating { target, count, eligible },
            EventView::Entry(EntryLookup::Failed),
        ) == finished(),
        transition(SyncState::Checking { target }, EventView::Entry(EntryLookup::Failed))
            == finished(),
{
}

/// When all reactions are removed from a message that has an entry, the
/// message is no longer listed: a mirror that the platform still has is
/// removed with the entry, and an entry whose mirror is gone is deleted.
pub proof fn law_clearing_all_unlists(
    store: Map<u64, u64>,
    target: Target,
    lookup: EntryLookup,
    found: bool,
)
    requires
        target.flow == Flow::AllCleared,
        lookup is Recorded,
    ensures
        ({
            let first = transition(SyncState::Checking { target }, EventView::Entry(lookup));
            let last = transition(first.0, EventView::Mirror(found));
            &&& first.1 == (Action::FetchMirror {
                mirror_channel: target.mirror_channel,
                mirror_id: recorded_mirror(lookup)->0,
            })
            &&& last.0 is Done
            &&& found ==> last.1 == (Action::RemoveMirror {
                mirror_channel: target.mirror_channel,
                mirror_id: recorded_mirror(lookup)->0,
                message_id: target.message_id,
            })
            &&& !found ==> last.1 == (Action::DeleteEntry { message_id: target.message_id })
            &&& store_after(store_after(store, first.1), last.1) == store.remove(
                target.message_id,
            )
        }),
{
}

/// An edit that finds the mirror gone deletes the entry, and the next
/// addition that meets the threshold on a message that may be mirrored, in
/// a channel that may be posted from, is handled as the first: the store
/// has no entry, and a mirror is posted.
pub proof fn law_missing_mirror_heals(
    store: Map<u64, u64>,
    target: Target,
    count: usize,
    lookup: EntryLookup,
)
    requires
        target.postable,
        answers(
            store_after(store, Action::DeleteEntry { message_id: target.message_id }),
            target.message_id,
            lookup,
        ),
    ensures
        ({
            let healed = transition(
                SyncState::Editing { message_id: target.message_id },
                EventView::Edited(EditOutcome::NotFound),
            );
            let next = transition(
                SyncState::Locating { target, count, eligible: true },
                EventView::Entry(lookup),
            );
            &&& healed == (SyncState::Done, Action::DeleteEntry { message_id: target.message_id })
            &&& !store_after(store, healed.1).contains_key(target.message_id)
            &&& next == (
                SyncState::Sending { message_id: target.message_id },
                Action::SendMirror { mirror_channel: target.mirror_channel, count },
            )
        }),
{
}

/// After a removal, a mirrored message whose count has fallen below the
/// threshold loses its mirror and its entry, and one whose count still meets
/// the threshold keeps both.
pub proof fn law_removal_settles(
    store: Map<u64, u64>,
    target: Target,
    mirror_id: u64,
    event: EventView,
)
    requires
        target.flow == Flow::Removed,
        target.min_stars >= 0,
        event is Reactions,
        event->Reactions_0 is Some,
    ensures
        ({
            let last = transition(SyncState::Recounting { target, mirror_id }, event);
            let count = fetched_count(event->Reactions_0->0);
            &&& count < target.min_stars ==> last.1 is RemoveMirror && !store_after(
                store,
                last.1,
            ).contains_key(target.message_id)
            &&& count >= target.min_stars ==> last.1 == (Action::EditMirror {
                mirror_channel: target.mirror_channel,
                mirror_id,
                count,
            }) && store_after(store, last.1) == store
        }),
{
}

/// The number of mirrors that an invocation asks to post while it goes from
/// `state` through the answers `events`.
pub open spec fn mirrors_posted(state: SyncState, events: Seq<EventView>) -> nat
    decreases events.len(),
{
    if events.len() == 0 {
        0
    } else {
        let next = transition(state, events[0]);
        let posted: nat = if next.1 is SendMirror {
            1
        } else {
            0
        };
        posted + mirrors_posted(next.0, events.drop_first())
    }
}

/// No answer says that the message has no live mirror: the message is
/// listed throughout.
pub open spec fn always_listed(events: Seq<EventView>) -> bool {
    forall|i: int| 0 <= i < events.len() ==> !reports_unlisted(#[trigger] events[i])
}

/// From a state that lies behind the lookup of an addition, no mirror is
/// posted.
pub proof fn lemma_late_states_post_nothing(state: SyncState, events: Seq<EventView>)
    requires
        !(state is AwaitGuild || state is AwaitConfig || state is Counting || state is Locating
            || state is LocatingMirror),
    ensures
        mirrors_posted(state, events) == 0,
    decreases events.len(),
{
    if events.len() > 0 {
        let next = transition(state, events[0]);
        lemma_late_states_post_nothing(next.0, events.drop_first());
    }
}

/// Whatever answers come in and in whatever state it starts, one invocation
/// asks for at most one mirror to be posted.
pub proof fn law_invocation_posts_at_most_once(state: SyncState, events: Seq<EventView>)
    ensures
        mirrors_posted(state, events) <= 1,
    decreases events.len(),
{
    if events.len() > 0 {
        let next = transition(state, events[0]);
        let rest = events.drop_first();
        if next.1 is SendMirror {
            lemma_late_states_post_nothing(next.0, rest);
        } else {
            law_invocation_posts_at_most_once(next.0, rest);
        }
    }
}

/// While the message is listed, an invocation posts no mirror, whatever
/// else the answers are and in whatever state it starts.
pub proof fn law_listed_message_is_never_posted_again(state: SyncState, events: Seq<EventView>)
    requires
        always_listed(events),
    ensures
        mirrors_posted(state, events) == 0,
    decreases events.len(),
{
    if events.len() > 0 {
        let next = transition(state, events[0]);
        let rest = events.drop_first();
        assert forall|i: int| 0 <= i < rest.len() implies !reports_unlisted(#[trigger] rest[i]) by {
            assert(rest[i] == events[i + 1]);
        }
        assert(!reports_unlisted(events[0]));
        if next.1 is SendMirror {
            law_creation_needs_unlisted(state, events[0]);
        }
        law_listed_message_is_never_posted_again(next.0, rest);
    }
}

/// An addition of the star to a listed message, in any channel of a
/// community that has a mirror channel: where the count meets the threshold
/// and the edit succeeds, the invocation asks for exactly one edit, of the
/// recorded mirror and to the badge of the count, posts nothing, and leaves
/// the store as it was.
pub proof fn law_addition_to_listed_message(
    store: Map<u64, u64>,
    event: ReactionEventView,
    config: ConfigLookup,
    channels: Seq<ChannelView>,
    fetched: FetchedView,
    entry: EntryLookup,
)
    requires
        star_emoji(event.emoji),
        event.guild_id is Some,
        config_of(config, channels).channel is Some,
        0 <= config_of(config, channels).min_stars <= fetched_count(fetched),
        store.contains_key(event.message_id),
        entry is Recorded,
        answers(store, event.message_id, entry),
    ensures
        ({
            let mirror_channel = config_of(config, channels).channel->0;
            let mirror_id = store[event.message_id];
            let s0 = opening(Flow::Added, event);
            let s1 = transition(s0.0, EventView::Config { lookup: config, channels });
            let s2 = transition(s1.0, EventView::Reactions(Some(fetched)));
            let s3 = transition(s2.0, EventView::Entry(entry));
            let s4 = transition(s3.0, EventView::Mirror(true));
            let s5 = transition(s4.0, EventView::Edited(EditOutcome::Edited));
            &&& s0.1 == (Action::LoadConfig { guild_id: event.guild_id->0 })
            &&& s1.1 == (Action::FetchReactions {
                channel_id: event.channel_id,
                message_id: event.message_id,
                limit: REACTOR_PAGE,
            })
            &&& s2.1 == (Action::ReadEntry { message_id: event.message_id })
            &&& s3.1 == (Action::FetchMirror { mirror_channel, mirror_id })
            &&& s4.1 == (Action::EditMirror {
                mirror_channel,
                mirror_id,
                count: fetched_count(fetched),
            })
            &&& s5 == finished()
            &&& store_after(
                store_after(
                    store_after(
                        store_after(store_after(store_after(store, s0.1), s1.1), s2.1),
                        s3.1,
                    ),
                    s4.1,
                ),
                s5.1,
            ) == store
        }),
{
}

/// An addition of the star after the entry of the message was deleted,
/// because an edit had found the mirror gone: where the message may be
/// mirrored, its channel may be posted from, the count meets the threshold
/// and the posting succeeds, the invocation asks for exactly one posting
/// and no edit, and records the new mirror.
pub proof fn law_addition_after_healing(
    store: Map<u64, u64>,
    event: ReactionEventView,
    config: ConfigLookup,
    channels: Seq<ChannelView>,
    fetched: FetchedView,
    entry: EntryLookup,
    posted: u64,
)
    requires
        star_emoji(event.emoji),
        event.guild_id is Some,
        config_of(config, channels).channel is Some,
        postable_channel(channels, event.channel_id, config_of(config, channels).channel->0),
        eligible(fetched.message),
        0 <= config_of(config, channels).min_stars <= fetched_count(fetched),
        answers(
            store_after(store, Action::DeleteEntry { message_id: event.message_id }),
            event.message_id,
            entry,
        ),
    ensures
        ({
            let mirror_channel = config_of(config, channels).channel->0;
            let healed = store_after(store, Action::DeleteEntry { message_id: event.message_id });
            let s0 = opening(Flow::Added, event);
            let s1 = transition(s0.0, EventView::Config { lookup: config, channels });
            let s2 = transition(s1.0, EventView::Reactions(Some(fetched)));
            let s3 = transition(s2.0, EventView::Entry(entry));
            let s4 = transition(s3.0, EventView::Sent(Some(posted)));
            &&& s0.1 == (Action::LoadConfig { guild_id: event.guild_id->0 })
            &&& s1.1 is FetchReactions
            &&& s2.1 == (Action::ReadEntry { message_id: event.message_id })
            &&& s3.1 == (Action::SendMirror { mirror_channel, count: fetched_count(fetched) })
            &&& s4 == (
                SyncState::Done,
                Action::UpsertEntry { message_id: event.message_id, mirror_id: posted },
            )
            &&& entry_of(
                store_after(
                    store_after(
                        store_after(store_after(store_after(healed, s0.1), s1.1), s2.1),
                        s3.1,
                    ),
                    s4.1,
                ),
                event.message_id,
            ) == Some(posted)
        }),
{
}

} // verus!
