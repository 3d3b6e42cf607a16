//! The sync engine: a state machine that is driven by one reaction event at
//! a time. Every step takes the answer to the last request and gives the
//! next request; the caller performs the requests against the directory,
//! the store and the chat platform.

use vstd::prelude::*;

use crate::config::{
    channels_view, config_of, get_channel_from_guild_cache, get_starboard_config, position_of,
    ChannelInfo, ChannelView, ConfigLookup,
};
use crate::message::{Emoji, EmojiView, MessageView, OriginalMessage, Reactor};
use crate::render::{eligible, is_eligible, is_star, star_emoji};
use crate::tally::{count_endorsements, endorsements, lemma_eligible_ids, REACTOR_PAGE};

verus! {

/// The kind of event that an invocation handles.
#[derive(Clone, Copy, Debug, PartialEq, Eq)]
pub enum Flow {
    /// A reaction was added.
    Added,
    /// A reaction was removed.
    Removed,
    /// All reactions of one emoji were removed.
    EmojiCleared,
    /// All reactions of a message were removed.
    AllCleared,
}

/// A reaction event as the dispatcher reports it.
#[derive(Clone, Debug)]
pub struct ReactionEvent {
    pub emoji: Emoji,
    pub guild_id: Option<u64>,
    pub channel_id: u64,
    pub message_id: u64,
}

/// What an invocation has found out about its message.
#[derive(Clone, Copy, Debug, PartialEq, Eq)]
pub struct Target {
    pub flow: Flow,
    /// The channel of the message that was reacted to.
    pub channel_id: u64,
    /// The message that was reacted to.
    pub message_id: u64,
    /// The mirror channel of the community.
    pub mirror_channel: u64,
    /// The community's threshold.
    pub min_stars: i8,
    /// Whether a message of the channel may be posted to the mirror
    /// channel: the directory knows the channel, it is not age-restricted,
    /// and it is not the mirror channel itself.
    pub postable: bool,
}

/// Where an invocation stands: which answer it waits for.
#[derive(Clone, Copy, Debug, PartialEq, Eq)]
pub enum SyncState {
    /// The invocation is over.
    Done,
    /// Waits for the community of the channel whose message was cleared.
    AwaitGuild { channel_id: u64, message_id: u64 },
    /// Waits for the community's configuration and channels.
    AwaitConfig { flow: Flow, guild_id: u64, channel_id: u64, message_id: u64 },
    /// After an addition: waits for the message and its reacting users.
    Counting { target: Target },
    /// After an addition that meets the threshold: waits for the entry.
    Locating { target: Target, count: usize, eligible: bool },
    /// After an addition to a message with an entry: waits for the mirror
    /// that the entry names.
    LocatingMirror { target: Target, count: usize, eligible: bool, mirror_id: u64 },
    /// After a removal: waits for the entry.
    Checking { target: Target },
    /// After a removal from a message with an entry: waits for the mirror
    /// that the entry names.
    CheckingMirror { target: Target, mirror_id: u64 },
    /// After a removal from a mirrored message: waits for the message and
    /// its reacting users.
    Recounting { target: Target, mirror_id: u64 },
    /// Waits for the outcome of an edit of the mirror of `message_id`.
    Editing { message_id: u64 },
    /// Waits for the mirror of `message_id` to be posted.
    Sending { message_id: u64 },
}

/// What the store answered when asked for the entry of a message.
#[derive(Clone, Copy, Debug, PartialEq, Eq)]
pub enum EntryLookup {
    /// The store could not be read.
    Failed,
    /// The message has no entry.
    Missing,
    /// The entry of the message, as the store holds it.
    Recorded { mirror_id: i64 },
}

/// How an edit of a mirror message ended.
#[derive(Clone, Copy, Debug, PartialEq, Eq)]
pub enum EditOutcome {
    Edited,
    /// The platform says that the mirror message does not exist.
    NotFound,
    /// Any other failure.
    Failed,
}

/// A message with the users who reacted to it with the star.
#[derive(Clone, Debug)]
pub struct Fetched {
    pub message: OriginalMessage,
    pub reactors: Vec<Reactor>,
}

/// The answer to a request.
#[derive(Clone, Debug)]
pub enum Event {
    /// The community that a channel belongs to, where the directory knows
    /// the channel.
    GuildOfChannel(Option<u64>),
    /// The store's answer for a community, and the community's channels in
    /// the order of the directory (none for an unknown community).
    Config { lookup: ConfigLookup, channels: Vec<ChannelInfo> },
    /// The message and its reacting users, where both were fetched.
    Reactions(Option<Fetched>),
    /// The store's answer for the entry of the message.
    Entry(EntryLookup),
    /// Whether the platform has the mirror message that the entry names.
    Mirror(bool),
    /// The outcome of an edit.
    Edited(EditOutcome),
    /// The mirror message that was posted, where posting succeeded.
    Sent(Option<u64>),
}

/// What a reaction event holds.
pub struct ReactionEventView {
    pub emoji: EmojiView,
    pub guild_id: Option<u64>,
    pub channel_id: u64,
    pub message_id: u64,
}

impl View for ReactionEvent {
    type V = ReactionEventView;

    open spec fn view(&self) -> ReactionEventView {
        ReactionEventView {
            emoji: self.emoji@,
            guild_id: self.guild_id,
            channel_id: self.channel_id,
            message_id: self.message_id,
        }
    }
}

/// What a fetched message and its reacting users hold.
pub struct FetchedView {
    pub message: MessageView,
    pub reactors: Seq<Reactor>,
}

impl View for Fetched {
    type V = FetchedView;

    open spec fn view(&self) -> FetchedView {
        FetchedView { message: self.message@, reactors: self.reactors@ }
    }
}

/// What an answer holds.
pub enum EventView {
    GuildOfChannel(Option<u64>),
    Config { lookup: ConfigLookup, channels: Seq<ChannelView> },
    Reactions(Option<FetchedView>),
    Entry(EntryLookup),
    Mirror(bool),
    Edited(EditOutcome),
    Sent(Option<u64>),
}

impl View for Event {
    type V = EventView;

    open spec fn view(&self) -> EventView {
        match self {
            Event::GuildOfChannel(guild_id) => EventView::GuildOfChannel(*guild_id),
            Event::Config { lookup, channels } => EventView::Config {
                lookup: *lookup,
                channels: channels_view(channels@),
            },
            Event::Reactions(Some(fetched)) => EventView::Reactions(Some(fetched@)),
            Event::Reactions(None) => EventView::Reactions(None),
            Event::Entry(lookup) => EventView::Entry(*lookup),
            Event::Mirror(found) => EventView::Mirror(*found),
            Event::Edited(outcome) => EventView::Edited(*outcome),
            Event::Sent(mirror_id) => EventView::Sent(*mirror_id),
        }
    }
}

/// A request to the caller.
#[derive(Clone, Copy, Debug, PartialEq, Eq)]
pub enum Action {
    /// Nothing is left to do.
    Nothing,
    /// Look up the community of a channel in the directory.
    FindGuild { channel_id: u64 },
    /// Read the community's configuration and list its channels.
    LoadConfig { guild_id: u64 },
    /// Fetch the message and one page of the users who reacted with the star.
    FetchReactions { channel_id: u64, message_id: u64, limit: u8 },
    /// Read the entry of the message from the store.
    ReadEntry { message_id: u64 },
    /// Fetch the mirror message that the entry names.
    FetchMirror { mirror_channel: u64, mirror_id: u64 },
    /// Replace the visible text of the mirror by the badge for `count`.
    EditMirror { mirror_channel: u64, mirror_id: u64, count: usize },
    /// Render the message for `count` endorsements and post it.
    SendMirror { mirror_channel: u64, count: usize },
    /// Record `mirror_id` as the mirror of `message_id`.
    UpsertEntry { message_id: u64, mirror_id: u64 },
    /// Delete the entry of `message_id`.
    DeleteEntry { message_id: u64 },
    /// Delete the mirror message, whether or not that succeeds, then the
    /// entry of `message_id`.
    RemoveMirror { mirror_channel: u64, mirror_id: u64, message_id: u64 },
    /// The stored threshold is negative: the configuration is unusable.
    RejectThreshold,
}

/// The end of an invocation with nothing left to do.
pub open spec fn finished() -> (SyncState, Action) {
    (SyncState::Done, Action::Nothing)
}

/// The first step on a reaction event: only the star in a community is
/// followed up, by reading the community's configuration.
pub open spec fn opening(flow: Flow, event: ReactionEventView) -> (SyncState, Action) {
    match event.guild_id {
        Some(guild_id) => if star_emoji(event.emoji) {
            (
                SyncState::AwaitConfig {
                    flow,
                    guild_id,
                    channel_id: event.channel_id,
                    message_id: event.message_id,
                },
                Action::LoadConfig { guild_id },
            )
        } else {
            finished()
        },
        None => finished(),
    }
}

/// The first step after all reactions of a message were removed.
pub open spec fn opening_cleared(channel_id: u64, message_id: u64) -> (SyncState, Action) {
    (SyncState::AwaitGuild { channel_id, message_id }, Action::FindGuild { channel_id })
}

/// The request for a message and its reacting users.
pub open spec fn fetch_request(target: Target) -> Action {
    Action::FetchReactions {
        channel_id: target.channel_id,
        message_id: target.message_id,
        limit: REACTOR_PAGE,
    }
}

/// The request for the entry of the target.
pub open spec fn lookup_request(target: Target) -> Action {
    Action::ReadEntry { message_id: target.message_id }
}

/// The mirror that an answer of the store names: none where the store has
/// no entry or could not be read.
pub open spec fn recorded_mirror(lookup: EntryLookup) -> Option<u64> {
    match lookup {
        EntryLookup::Recorded { mirror_id } => Some(mirror_id as u64),
        _ => None,
    }
}

/// The mirror that is known to exist: the one that was asked for, where the
/// platform has it.
pub open spec fn live_mirror(mirror_id: u64, found: bool) -> Option<u64> {
    if found {
        Some(mirror_id)
    } else {
        None
    }
}

/// The request for the mirror that an entry names.
pub open spec fn mirror_request(target: Target, mirror_id: u64) -> Action {
    Action::FetchMirror { mirror_channel: target.mirror_channel, mirror_id }
}

/// A message of `channel_id` may be posted to the mirror channel: the
/// directory knows the channel, it is not age-restricted, and it is not the
/// mirror channel itself.
pub open spec fn postable_channel(
    channels: Seq<ChannelView>,
    channel_id: u64,
    mirror_channel: u64,
) -> bool {
    match position_of(channels, channel_id, 0) {
        None => false,
        Some(i) => !channels[i].nsfw && channel_id != mirror_channel,
    }
}

/// The step on the configuration. Without a mirror channel nothing happens.
/// An addition goes on to count, every other flow to read the entry.
pub open spec fn after_config(
    flow: Flow,
    channel_id: u64,
    message_id: u64,
    lookup: ConfigLookup,
    channels: Seq<ChannelView>,
) -> (SyncState, Action) {
    let config = config_of(lookup, channels);
    match config.channel {
        None => finished(),
        Some(mirror_channel) => {
            let target = Target {
                flow,
                channel_id,
                message_id,
                mirror_channel,
                min_stars: config.min_stars,
                postable: postable_channel(channels, channel_id, mirror_channel),
            };
            if flow == Flow::Added {
                (SyncState::Counting { target }, fetch_request(target))
            } else {
                (SyncState::Checking { target }, lookup_request(target))
            }
        },
    }
}

/// The step on the count after an addition: below the threshold nothing
/// happens, else the entry is read.
pub open spec fn after_count(target: Target, count: usize, eligible: bool) -> (SyncState, Action) {
    if target.min_stars < 0 {
        (SyncState::Done, Action::RejectThreshold)
    } else if count < target.min_stars {
        finished()
    } else {
        (SyncState::Locating { target, count, eligible }, lookup_request(target))
    }
}

/// The step that settles a mirrored message after a removal: at or above the
/// threshold its badge is edited, below it the mirror and the entry go.
pub open spec fn settle(target: Target, mirror_id: u64, count: usize) -> (SyncState, Action) {
    if target.min_stars < 0 {
        (SyncState::Done, Action::RejectThreshold)
    } else if count >= target.min_stars {
        (
            SyncState::Editing { message_id: target.message_id },
            Action::EditMirror { mirror_channel: target.mirror_channel, mirror_id, count },
        )
    } else {
        (
            SyncState::Done,
            Action::RemoveMirror {
                mirror_channel: target.mirror_channel,
                mirror_id,
                message_id: target.message_id,
            },
        )
    }
}

/// The step on the mirror after an addition that meets the threshold: a
/// message with a live mirror has its badge edited, another is posted where
/// it may be mirrored and its channel may be posted from.
pub open spec fn after_locating(target: Target, count: usize, eligible: bool, found: Option<u64>) -> (
    SyncState,
    Action,
) {
    match found {
        Some(mirror_id) => (
            SyncState::Editing { message_id: target.message_id },
            Action::EditMirror { mirror_channel: target.mirror_channel, mirror_id, count },
        ),
        None => if eligible && target.postable {
            (
                SyncState::Sending { message_id: target.message_id },
                Action::SendMirror { mirror_channel: target.mirror_channel, count },
            )
        } else {
            finished()
        },
    }
}

/// The step on the mirror after a removal; `recorded` says whether the
/// message has an entry. Without a live mirror the entry is deleted, with
/// one exception: after a clearing of all reactions a message without an
/// entry needs nothing. With a live mirror: a clearing of all reactions
/// removes it, a clearing of the star settles it at a count of zero, and a
/// single removal goes on to count.
pub open spec fn after_checking(target: Target, recorded: bool, found: Option<u64>) -> (
    SyncState,
    Action,
) {
    match found {
        None => if target.flow == Flow::AllCleared && !recorded {
            finished()
        } else {
            (SyncState::Done, Action::DeleteEntry { message_id: target.message_id })
        },
        Some(mirror_id) => match target.flow {
            Flow::AllCleared => (
                SyncState::Done,
                Action::RemoveMirror {
                    mirror_channel: target.mirror_channel,
                    mirror_id,
                    message_id: target.message_id,
                },
            ),
            Flow::EmojiCleared => settle(target, mirror_id, 0),
            Flow::Removed => (SyncState::Recounting { target, mirror_id }, fetch_request(target)),
            Flow::Added => finished(),
        },
    }
}

/// The endorsement count of what was fetched.
pub open spec fn fetched_count(fetched: FetchedView) -> usize {
    endorsements(fetched.reactors, fetched.message.author_id) as usize
}

/// The transition of the engine: the next state and the next request for a
/// state and the answer that came in. An answer that the state does not
/// wait for ends the invocation, and so does one that reports a failure,
/// with two exceptions: an entry whose mirror the platform no longer has
/// counts as no mirror, and an edit that finds no mirror deletes the stale
/// entry.
pub open spec fn transition(state: SyncState, event: EventView) -> (SyncState, Action) {
    match state {
        SyncState::Done => finished(),
        SyncState::AwaitGuild { channel_id, message_id } => match event {
            EventView::GuildOfChannel(Some(guild_id)) => (
                SyncState::AwaitConfig { flow: Flow::AllCleared, guild_id, channel_id, message_id },
                Action::LoadConfig { guild_id },
            ),
            _ => finished(),
        },
        SyncState::AwaitConfig { flow, guild_id, channel_id, message_id } => match event {
            EventView::Config { lookup, channels } => after_config(
                flow,
                channel_id,
                message_id,
                lookup,
                channels,
            ),
            _ => finished(),
        },
        SyncState::Counting { target } => match event {
            EventView::Reactions(Some(fetched)) => after_count(
                target,
                fetched_count(fetched),
                eligible(fetched.message),
            ),
            _ => finished(),
        },
        SyncState::Locating { target, count, eligible } => match event {
            EventView::Entry(lookup) => if lookup is Failed {
                finished()
            } else {
                match recorded_mirror(lookup) {
                    Some(mirror_id) => (
                        SyncState::LocatingMirror { target, count, eligible, mirror_id },
                        mirror_request(target, mirror_id),
                    ),
                    None => after_locating(target, count, eligible, None),
                }
            },
            _ => finished(),
        },
        SyncState::LocatingMirror { target, count, eligible, mirror_id } => match event {
            EventView::Mirror(found) => after_locating(
                target,
                count,
                eligible,
                live_mirror(mirror_id, found),
            ),
            _ => finished(),
        },
        SyncState::Checking { target } => match event {
            EventView::Entry(lookup) => if lookup is Failed {
                finished()
            } else {
                match recorded_mirror(lookup) {
                    Some(mirror_id) => (
                        SyncState::CheckingMirror { target, mirror_id },
                        mirror_request(target, mirror_id),
                    ),
                    None => after_checking(target, false, None),
                }
            },
            _ => finished(),
        },
        SyncState::CheckingMirror { target, mirror_id } => match event {
            EventView::Mirror(found) => after_checking(
                target,
                true,
                live_mirror(mirror_id, found),
            ),
            _ => finished(),
        },
        SyncState::Recounting { target, mirror_id } => match event {
            EventView::Reactions(Some(fetched)) => settle(target, mirror_id, fetched_count(fetched)),
            _ => finished(),
        },
        SyncState::Editing { message_id } => match event {
            EventView::Edited(EditOutcome::NotFound) => (
                SyncState::Done,
                Action::DeleteEntry { message_id },
            ),
            _ => finished(),
        },
        SyncState::Sending { message_id } => match event {
            EventView::Sent(Some(mirror_id)) => (
                SyncState::Done,
                Action::UpsertEntry { message_id, mirror_id },
            ),
            _ => finished(),
        },
    }
}

fn begin(flow: Flow, event: &ReactionEvent) -> (r: (SyncState, Action))
    ensures
        r == opening(flow, event@),
{
    match event.guild_id {
        Some(guild_id) => {
            if is_star(&event.emoji) {
                (
                    SyncState::AwaitConfig {
                        flow,
                        guild_id,
                        channel_id: event.channel_id,
                        message_id: event.message_id,
                    },
                    Action::LoadConfig { guild_id },
                )
            } else {
                (SyncState::Done, Action::Nothing)
            }
        },
        None => (SyncState::Done, Action::Nothing),
    }
}

/// Begins the handling of an added reaction.
pub fn reaction_add(event: &ReactionEvent) -> (r: (SyncState, Action))
    ensures
        r == opening(Flow::Added, event@),
{
    begin(Flow::Added, event)
}

/// Begins the handling of a removed reaction.
pub fn reaction_remove(event: &ReactionEvent) -> (r: (SyncState, Action))
    ensures
        r == opening(Flow::Removed, event@),
{
    begin(Flow::Removed, event)
}

/// Begins the handling of the removal of all reactions of one emoji.
pub fn reaction_remove_emoji(event: &ReactionEvent) -> (r: (SyncState, Action))
    ensures
        r == opening(Flow::EmojiCleared, event@),
{
    begin(Flow::EmojiCleared, event)
}

/// Begins the handling of the removal of all reactions of a message.
pub fn reaction_remove_all(channel_id: u64, message_id: u64) -> (r: (SyncState, Action))
    ensures
        r == opening_cleared(channel_id, message_id),
{
    (SyncState::AwaitGuild { channel_id, message_id }, Action::FindGuild { channel_id })
}

fn request_fetch(target: Target) -> (r: Action)
    ensures
        r == fetch_request(target),
{
    Action::FetchReactions {
        channel_id: target.channel_id,
        message_id: target.message_id,
        limit: REACTOR_PAGE,
    }
}

fn request_lookup(target: Target) -> (r: Action)
    ensures
        r == lookup_request(target),
{
    Action::ReadEntry { message_id: target.message_id }
}

/// Reads the mirror that an answer of the store names.
pub fn get_starboard_message(lookup: EntryLookup) -> (r: Option<u64>)
    ensures
        r == recorded_mirror(lookup),
{
    match lookup {
        EntryLookup::Recorded { mirror_id } => Some(
            #[verifier::truncate]
            (mirror_id as u64),
        ),
        _ => None,
    }
}

fn found_mirror(mirror_id: u64, found: bool) -> (r: Option<u64>)
    ensures
        r == live_mirror(mirror_id, found),
{
    if found {
        Some(mirror_id)
    } else {
        None
    }
}

fn is_added(flow: Flow) -> (r: bool)
    ensures
        r == (flow == Flow::Added),
{
    match flow {
        Flow::Added => true,
        _ => false,
    }
}

fn on_config(
    flow: Flow,
    channel_id: u64,
    message_id: u64,
    lookup: ConfigLookup,
    channels: &Vec<ChannelInfo>,
) -> (r: (SyncState, Action))
    ensures
        r == after_config(flow, channel_id, message_id, lookup, channels_view(channels@)),
{
    let config = get_starboard_config(lookup, channels);
    let mirror_channel = match config.channel {
        Some(id) => id,
        None => {
            return (SyncState::Done, Action::Nothing);
        },
    };
    let postable = match get_channel_from_guild_cache(channels, channel_id) {
        None => false,
        Some(i) => !channels[i].nsfw && channel_id != mirror_channel,
    };
    let target = Target {
        flow,
        channel_id,
        message_id,
        mirror_channel,
        min_stars: config.min_stars,
        postable,
    };
    if is_added(flow) {
        (SyncState::Counting { target }, request_fetch(target))
    } else {
        (SyncState::Checking { target }, request_lookup(target))
    }
}

fn count_fetched(fetched: &Fetched) -> (r: usize)
    ensures
        r == fetched_count(fetched@),
{
    proof {
        lemma_eligible_ids(fetched.reactors@, fetched.message.author_id);
    }
    count_endorsements(&fetched.reactors, fetched.message.author_id)
}

fn on_count(target: Target, count: usize, eligible: bool) -> (r: (SyncState, Action))
    ensures
        r == after_count(target, count, eligible),
{
    if target.min_stars < 0 {
        (SyncState::Done, Action::RejectThreshold)
    } else if count < target.min_stars as usize {
        (SyncState::Done, Action::Nothing)
    } else {
        (SyncState::Locating { target, count, eligible }, request_lookup(target))
    }
}

fn on_settle(target: Target, mirror_id: u64, count: usize) -> (r: (SyncState, Action))
    ensures
        r == settle(target, mirror_id, count),
{
    if target.min_stars < 0 {
        (SyncState::Done, Action::RejectThreshold)
    } else if count >= target.min_stars as usize {
        (
            SyncState::Editing { message_id: target.message_id },
            Action::EditMirror { mirror_channel: target.mirror_channel, mirror_id, count },
        )
    } else {
        (
            SyncState::Done,
            Action::RemoveMirror {
                mirror_channel: target.mirror_channel,
                mirror_id,
                message_id: target.message_id,
            },
        )
    }
}

fn on_locating(target: Target, count: usize, eligible: bool, found: Option<u64>) -> (r: (
    SyncState,
    Action,
))
    ensures
        r == after_locating(target, count, eligible, found),
{
    match found {
        Some(mirror_id) => (
            SyncState::Editing { message_id: target.message_id },
            Action::EditMirror { mirror_channel: target.mirror_channel, mirror_id, count },
        ),
        None => {
            if eligible && target.postable {
                (
                    SyncState::Sending { message_id: target.message_id },
                    Action::SendMirror { mirror_channel: target.mirror_channel, count },
                )
            } else {
                (SyncState::Done, Action::Nothing)
            }
        },
    }
}

fn is_all_cleared(flow: Flow) -> (r: bool)
    ensures
        r == (flow == Flow::AllCleared),
{
    match flow {
        Flow::AllCleared => true,
        _ => false,
    }
}

fn is_failed(lookup: EntryLookup) -> (r: bool)
    ensures
        r == (lookup is Failed),
{
    match lookup {
        EntryLookup::Failed => true,
        _ => false,
    }
}

fn on_checking(target: Target, recorded: bool, found: Option<u64>) -> (r: (SyncState, Action))
    ensures
        r == after_checking(target, recorded, found),
{
    match found {
        None => {
            if is_all_cleared(target.flow) && !recorded {
                (SyncState::Done, Action::Nothing)
            } else {
                (SyncState::Done, Action::DeleteEntry { message_id: target.message_id })
            }
        },
        Some(mirror_id) => match target.flow {
            Flow::AllCleared => (
                SyncState::Done,
                Action::RemoveMirror {
                    mirror_channel: target.mirror_channel,
                    mirror_id,
                    message_id: target.message_id,
                },
            ),
            Flow::EmojiCleared => on_settle(target, mirror_id, 0),
            Flow::Removed => (SyncState::Recounting { target, mirror_id }, request_fetch(target)),
            Flow::Added => (SyncState::Done, Action::Nothing),
        },
    }
}

/// Takes the answer to the last request and gives the next state and the
/// next request.
pub fn step(state: SyncState, event: &Event) -> (r: (SyncState, Action))
    ensures
        r == transition(state, event@),
{
    match state {
        SyncState::Done => (SyncState::Done, Action::Nothing),
        SyncState::AwaitGuild { channel_id, message_id } => match event {
            Event::GuildOfChannel(Some(guild_id)) => (
                SyncState::AwaitConfig {
                    flow: Flow::AllCleared,
                    guild_id: *guild_id,
                    channel_id,
                    message_id,
                },
                Action::LoadConfig { guild_id: *guild_id },
            ),
            _ => (SyncState::Done, Action::Nothing),
        },
        SyncState::AwaitConfig { flow, guild_id, channel_id, message_id } => match event {
            Event::Config { lookup, channels } => on_config(
                flow,
                channel_id,
                message_id,
                *lookup,
                channels,
            ),
            _ => (SyncState::Done, Action::Nothing),
        },
        SyncState::Counting { target } => match event {
            Event::Reactions(Some(fetched)) => on_count(
                target,
                count_fetched(fetched),
                is_eligible(&fetched.message),
            ),
            _ => (SyncState::Done, Action::Nothing),
        },
        SyncState::Locating { target, count, eligible } => match event {
            Event::Entry(lookup) => {
                if is_failed(*lookup) {
                    (SyncState::Done, Action::Nothing)
                } else {
                    match get_starboard_message(*lookup) {
                        Some(mirror_id) => (
                            SyncState::LocatingMirror { target, count, eligible, mirror_id },
                            Action::FetchMirror { mirror_channel: target.mirror_channel, mirror_id },
                        ),
                        None => on_locating(target, count, eligible, None),
                    }
                }
            },
            _ => (SyncState::Done, Action::Nothing),
        },
        SyncState::LocatingMirror { target, count, eligible, mirror_id } => match event {
            Event::Mirror(found) => on_locating(
                target,
                count,
                eligible,
                found_mirror(mirror_id, *found),
            ),
            _ => (SyncState::Done, Action::Nothing),
        },
        SyncState::Checking { target } => match event {
            Event::Entry(lookup) => {
                if is_failed(*lookup) {
                    (SyncState::Done, Action::Nothing)
                } else {
                    match get_starboard_message(*lookup) {
                        Some(mirror_id) => (
                            SyncState::CheckingMirror { target, mirror_id },
                            Action::FetchMirror { mirror_channel: target.mirror_channel, mirror_id },
                        ),
                        None => on_checking(target, false, None),
                    }
                }
            },
            _ => (SyncState::Done, Action::Nothing),
        },
        SyncState::CheckingMirror { target, mirror_id } => match event {
            Event::Mirror(found) => on_checking(target, true, found_mirror(mirror_id, *found)),
            _ => (SyncState::Done, Action::Nothing),
        },
        SyncState::Recounting { target, mirror_id } => match event {
            Event::Reactions(Some(fetched)) => on_settle(target, mirror_id, count_fetched(fetched)),
            _ => (SyncState::Done, Action::Nothing),
        },
        SyncState::Editing { message_id } => match event {
            Event::Edited(EditOutcome::NotFound) => (
                SyncState::Done,
                Action::DeleteEntry { message_id },
            ),
            _ => (SyncState::Done, Action::Nothing),
        },
        SyncState::Sending { message_id } => match event {
            Event::Sent(Some(mirror_id)) => (
                SyncState::Done,
                Action::UpsertEntry { message_id, mirror_id: *mirror_id },
            ),
            _ => (SyncState::Done, Action::Nothing),
        },
    }
}

} // verus!
