//! What the library has from the chat platform's client crate: the address
//! of a message and the comparison of a reaction's emoji.

use serenity::model::channel::ReactionType;
use serenity::model::id::{ChannelId, GuildId, MessageId};
use vstd::prelude::*;

use crate::text::decimal;

verus! {

/// The address under which the platform shows a message: the community, or
/// `@me` outside of one, then the channel and the message, as decimal
/// numerals.
pub open spec fn link_text(guild_id: Option<u64>, channel_id: u64, message_id: u64) -> Seq<char> {
    "https://discord.com/channels/"@ + match guild_id {
        Some(g) => decimal(g as nat),
        None => "@me"@,
    } + "/"@ + decimal(channel_id as nat) + "/"@ + decimal(message_id as nat)
}

/// Calls `MessageId::link` of serenity. Trusted: the result is the address
/// that `link_text` spells out. The identifiers must not be zero, on which
/// serenity's identifier types panic.
#[verifier::external_body]
pub(crate) fn message_link(guild_id: Option<u64>, channel_id: u64, message_id: u64) -> (r: String)
    requires
        channel_id != 0,
        message_id != 0,
        guild_id != Some(0u64),
    ensures
        r@ == link_text(guild_id, channel_id, message_id),
{
    MessageId::new(message_id).link(ChannelId::new(channel_id), guild_id.map(GuildId::new))
}

/// Calls `ReactionType::unicode_eq` of serenity on a Unicode reaction.
/// Trusted: the result says whether the reaction's characters are those of
/// `other`.
#[verifier::external_body]
pub(crate) fn unicode_reaction_eq(name: &str, other: &str) -> (r: bool)
    ensures
        r == (name@ == other@),
{
    ReactionType::Unicode(name.to_string()).unicode_eq(other)
}

} // verus!
