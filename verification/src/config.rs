//! The config resolver: which channel of a community receives the mirrors,
//! and how many endorsements a message needs.

use vstd::prelude::*;

use crate::text::same_text;

verus! {

/// Threshold of a community that has stored none.
pub const DEFAULT_MIN_STARS: i8 = 1;

/// A channel of a community, as the directory lists it.
#[derive(Clone, Debug)]
pub struct ChannelInfo {
    pub id: u64,
    pub name: String,
    /// Whether the channel is age-restricted.
    pub nsfw: bool,
}

/// What a channel holds.
pub struct ChannelView {
    pub id: u64,
    pub name: Seq<char>,
    pub nsfw: bool,
}

impl View for ChannelInfo {
    type V = ChannelView;

    open spec fn view(&self) -> ChannelView {
        ChannelView { id: self.id, name: self.name@, nsfw: self.nsfw }
    }
}

/// What a list of channels holds, in its order.
pub open spec fn channels_view(channels: Seq<ChannelInfo>) -> Seq<ChannelView> {
    channels.map_values(|c: ChannelInfo| c@)
}

/// What the store answered when asked for a community's configuration.
#[derive(Clone, Copy, Debug, PartialEq, Eq)]
pub enum ConfigLookup {
    /// The store could not be read.
    Failed,
    /// The community has stored no configuration.
    Missing,
    /// The stored configuration. A `channel_id` of zero stands for the
    /// channel that is found by its name.
    Row { channel_id: i64, min_stars: i8 },
}

/// The configuration that holds for one event.
#[derive(Clone, Copy, Debug, PartialEq, Eq)]
pub struct StarboardConfig {
    /// The mirror channel, where there is one.
    pub channel: Option<u64>,
    /// The least number of endorsements of a mirrored message.
    pub min_stars: i8,
}

/// Position of the first channel from `from` on that is named `name`.
pub open spec fn position_named(channels: Seq<ChannelView>, name: Seq<char>, from: int) -> Option<
    int,
>
    decreases channels.len() - from,
{
    if from < 0 || from >= channels.len() {
        None
    } else if channels[from].name == name {
        Some(from)
    } else {
        position_named(channels, name, from + 1)
    }
}

/// Position of the first channel from `from` on whose identifier is `id`.
pub open spec fn position_of(channels: Seq<ChannelView>, id: u64, from: int) -> Option<int>
    decreases channels.len() - from,
{
    if from < 0 || from >= channels.len() {
        None
    } else if channels[from].id == id {
        Some(from)
    } else {
        position_of(channels, id, from + 1)
    }
}

/// The identifier of the channel at a position, where there is one.
pub open spec fn id_at(channels: Seq<ChannelView>, position: Option<int>) -> Option<u64> {
    match position {
        Some(i) => Some(channels[i].id),
        None => None,
    }
}

/// The mirror channel that is found by its name.
pub open spec fn named_starboard(channels: Seq<ChannelView>) -> Option<u64> {
    id_at(channels, position_named(channels, "starboard"@, 0))
}

/// The configuration that follows from the store's answer and the channels
/// of the community: without a stored row the threshold is the default and
/// the channel is found by name; a row names the channel, or leaves it to be
/// found by name; a store that cannot be read gives no channel.
pub open spec fn config_of(lookup: ConfigLookup, channels: Seq<ChannelView>) -> StarboardConfig {
    match lookup {
        ConfigLookup::Failed => StarboardConfig { channel: None, min_stars: DEFAULT_MIN_STARS },
        ConfigLookup::Missing => StarboardConfig {
            channel: named_starboard(channels),
            min_stars: DEFAULT_MIN_STARS,
        },
        ConfigLookup::Row { channel_id, min_stars } => StarboardConfig {
            channel: if channel_id == 0 {
                named_starboard(channels)
            } else {
                id_at(channels, position_of(channels, channel_id as u64, 0))
            },
            min_stars,
        },
    }
}

/// What `position_named` finds is the first channel of that name, and it
/// finds nothing only where no channel has the name.
pub proof fn lemma_position_named(channels: Seq<ChannelView>, name: Seq<char>, from: int)
    requires
        0 <= from,
    ensures
        match position_named(channels, name, from) {
            Some(i) => from <= i < channels.len() && channels[i].name == name && forall|j: int|
                from <= j < i ==> channels[j].name != name,
            None => forall|j: int| from <= j < channels.len() ==> channels[j].name != name,
        },
    decreases channels.len() - from,
{
    if from < channels.len() && channels[from].name != name {
        lemma_position_named(channels, name, from + 1);
    }
}

/// What `position_of` finds is the first channel with that identifier, and
/// it finds nothing only where no channel has it.
pub proof fn lemma_position_of(channels: Seq<ChannelView>, id: u64, from: int)
    requires
        0 <= from,
    ensures
        match position_of(channels, id, from) {
            Some(i) => from <= i < channels.len() && channels[i].id == id && forall|j: int|
                from <= j < i ==> channels[j].id != id,
            None => forall|j: int| from <= j < channels.len() ==> channels[j].id != id,
        },
    decreases channels.len() - from,
{
    if from < channels.len() && channels[from].id != id {
        lemma_position_of(channels, id, from + 1);
    }
}

/// The position of an optional index.
pub open spec fn as_position(index: Option<usize>) -> Option<int> {
    match index {
        Some(i) => Some(i as int),
        None => None,
    }
}

/// Finds the first channel that is named `starboard`.
pub fn find_starboard_channel(channels: &Vec<ChannelInfo>) -> (r: Option<usize>)
    ensures
        as_position(r) == position_named(channels_view(channels@), "starboard"@, 0),
        match r {
            Some(i) => i < channels.len() && channels_view(channels@)[i as int].name
                == "starboard"@ && forall|j: int|
                0 <= j < i ==> channels_view(channels@)[j].name != "starboard"@,
            None => forall|j: int|
                0 <= j < channels.len() ==> channels_view(channels@)[j].name != "starboard"@,
        },
{
    let mut i: usize = 0;
    while i < channels.len()
        invariant
            i <= channels.len(),
            position_named(channels_view(channels@), "starboard"@, 0) == position_named(
                channels_view(channels@),
                "starboard"@,
                i as int,
            ),
        decreases channels.len() - i,
    {
        if same_text(channels[i].name.as_str(), "starboard") {
            proof {
                lemma_position_named(channels_view(channels@), "starboard"@, 0);
            }
            return Some(i);
        }
        i += 1;
    }
    proof {
        lemma_position_named(channels_view(channels@), "starboard"@, 0);
    }
    None
}

/// Finds the first channel whose identifier is `channel_id`.
pub fn get_channel_from_guild_cache(channels: &Vec<ChannelInfo>, channel_id: u64) -> (r: Option<
    usize,
>)
    ensures
        as_position(r) == position_of(channels_view(channels@), channel_id, 0),
        match r {
            Some(i) => i < channels.len() && channels_view(channels@)[i as int].id == channel_id
                && forall|j: int| 0 <= j < i ==> channels_view(channels@)[j].id != channel_id,
            None => forall|j: int|
                0 <= j < channels.len() ==> channels_view(channels@)[j].id != channel_id,
        },
{
    let mut i: usize = 0;
    while i < channels.len()
        invariant
            i <= channels.len(),
            position_of(channels_view(channels@), channel_id, 0) == position_of(
                channels_view(channels@),
                channel_id,
                i as int,
            ),
        decreases channels.len() - i,
    {
        if channels[i].id == channel_id {
            proof {
                lemma_position_of(channels_view(channels@), channel_id, 0);
            }
            return Some(i);
        }
        i += 1;
    }
    proof {
        lemma_position_of(channels_view(channels@), channel_id, 0);
    }
    None
}

fn channel_id_at(channels: &Vec<ChannelInfo>, index: Option<usize>) -> (r: Option<u64>)
    requires
        index matches Some(i) ==> i < channels.len(),
    ensures
        r == id_at(channels_view(channels@), as_position(index)),
{
    match index {
        Some(i) => Some(channels[i].id),
        None => None,
    }
}

/// Resolves the configuration of a community from the store's answer and the
/// community's channels.
pub fn get_starboard_config(lookup: ConfigLookup, channels: &Vec<ChannelInfo>) -> (r:
    StarboardConfig)
    ensures
        r == config_of(lookup, channels_view(channels@)),
{
    match lookup {
        ConfigLookup::Failed => StarboardConfig { channel: None, min_stars: DEFAULT_MIN_STARS },
        ConfigLookup::Missing => StarboardConfig {
            channel: channel_id_at(channels, find_starboard_channel(channels)),
            min_stars: DEFAULT_MIN_STARS,
        },
        ConfigLookup::Row { channel_id, min_stars } => {
            let channel = if channel_id == 0 {
                channel_id_at(channels, find_starboard_channel(channels))
            } else {
                let wanted = #[verifier::truncate]
                (channel_id as u64);
                channel_id_at(channels, get_channel_from_guild_cache(channels, wanted))
            };
            StarboardConfig { channel, min_stars }
        },
    }
}

} // verus!
