//! The content renderer: which messages may be mirrored, and what the mirror
//! of a message holds.

use vstd::prelude::*;
use vstd::string::*;

use crate::links::{link_text, message_link, unicode_reaction_eq};
use crate::message::{
    text_of, AttachmentView, Emoji, EmojiView, EmbedField, FieldView, MessageView, MirrorEmbed,
    MirrorMessage, MirrorView, OriginalMessage, Referenced, ReferencedView, VideoAttachment,
    VideoView,
};
use crate::text::{
    badge, badge_string, body_text, cut_body, cut_quote, has_prefix, quote_lines, quote_text,
    quoted, same_text, starts_with,
};

verus! {

/// Colour of every mirror embed.
pub const EMBED_COLOUR: u32 = 0xFDD744;

/// The emoji is the star that counts as an endorsement.
pub open spec fn star_emoji(emoji: EmojiView) -> bool {
    match emoji {
        EmojiView::Unicode(name) => name == "⭐"@,
        EmojiView::Custom(_) => false,
    }
}

/// Tells whether a reaction's emoji is the star.
pub fn is_star(emoji: &Emoji) -> (r: bool)
    ensures
        r == star_emoji(emoji@),
{
    match emoji {
        Emoji::Unicode(name) => unicode_reaction_eq(name.as_str(), "⭐"),
        Emoji::Custom(_) => false,
    }
}

/// The message's first embed is a bare image preview.
pub open spec fn leads_with_image_embed(message: MessageView) -> bool {
    message.embeds.len() > 0 && message.embeds[0].kind == Some("image"@)
}

/// A message may be mirrored for the first time unless it has no text, no
/// attachment, and either no embed or a bare image preview as its first.
pub open spec fn eligible(message: MessageView) -> bool {
    !(message.content.len() == 0 && message.attachments.len() == 0 && (message.embeds.len() == 0
        || leads_with_image_embed(message)))
}

/// Tells whether a message may be mirrored for the first time.
pub fn is_eligible(message: &OriginalMessage) -> (r: bool)
    ensures
        r == eligible(message@),
{
    if message.content.as_str().unicode_len() != 0 {
        return true;
    }
    if message.attachments.len() != 0 {
        return true;
    }
    if message.embeds.len() == 0 {
        return false;
    }
    match &message.embeds[0].kind {
        Some(kind) => !same_text(kind.as_str(), "image"),
        None => true,
    }
}

/// The attachment has a positive width: it can be shown as an image.
pub open spec fn is_wide(attachment: AttachmentView) -> bool {
    attachment.width is Some && attachment.width->0 > 0
}

/// Position of the first attachment from `from` on that has a positive
/// width.
pub open spec fn first_wide(attachments: Seq<AttachmentView>, from: int) -> Option<int>
    decreases attachments.len() - from,
{
    if from < 0 || from >= attachments.len() {
        None
    } else if is_wide(attachments[from]) {
        Some(from)
    } else {
        first_wide(attachments, from + 1)
    }
}

/// The attachment declares a video type.
pub open spec fn is_video(attachment: AttachmentView) -> bool {
    attachment.content_type is Some && has_prefix(attachment.content_type->0, "video/"@)
}

/// Position of the first attachment from `from` on that declares a video
/// type.
pub open spec fn first_video(attachments: Seq<AttachmentView>, from: int) -> Option<int>
    decreases attachments.len() - from,
{
    if from < 0 || from >= attachments.len() {
        None
    } else if is_video(attachments[from]) {
        Some(from)
    } else {
        first_video(attachments, from + 1)
    }
}

/// What `first_wide` finds is the first attachment with a positive width,
/// and it finds nothing only where no attachment has one.
pub proof fn lemma_first_wide(attachments: Seq<AttachmentView>, from: int)
    requires
        0 <= from,
    ensures
        match first_wide(attachments, from) {
            Some(i) => from <= i < attachments.len() && is_wide(attachments[i]) && forall|j: int|
                from <= j < i ==> !is_wide(attachments[j]),
            None => forall|j: int| from <= j < attachments.len() ==> !is_wide(attachments[j]),
        },
    decreases attachments.len() - from,
{
    if from < attachments.len() && !is_wide(attachments[from]) {
        lemma_first_wide(attachments, from + 1);
    }
}

/// What `first_video` finds is the first attachment that declares a video
/// type, and it finds nothing only where no attachment declares one.
pub proof fn lemma_first_video(attachments: Seq<AttachmentView>, from: int)
    requires
        0 <= from,
    ensures
        match first_video(attachments, from) {
            Some(i) => from <= i < attachments.len() && is_video(attachments[i]) && forall|j: int|
                from <= j < i ==> !is_video(attachments[j]),
            None => forall|j: int| from <= j < attachments.len() ==> !is_video(attachments[j]),
        },
    decreases attachments.len() - from,
{
    if from < attachments.len() && !is_video(attachments[from]) {
        lemma_first_video(attachments, from + 1);
    }
}

/// The still image of a message: the first attachment that has a positive
/// width, else the image of the first embed, else its thumbnail.
pub open spec fn image_of(message: MessageView) -> Option<Seq<char>> {
    let attachments = message.attachments;
    let embeds = message.embeds;
    match first_wide(attachments, 0) {
        Some(i) => Some(attachments[i].url),
        None => if embeds.len() > 0 {
            if embeds[0].image_url is Some {
                embeds[0].image_url
            } else {
                embeds[0].thumbnail_url
            }
        } else {
            None
        },
    }
}

/// A message has no still image exactly where no attachment has a positive
/// width and the first embed, if there is one, has neither image nor
/// thumbnail; an image that is found is the address of one of these.
pub proof fn law_image_sources(message: MessageView)
    ensures
        image_of(message) is None <==> (forall|j: int|
            0 <= j < message.attachments.len() ==> !is_wide(#[trigger] message.attachments[j]))
            && (message.embeds.len() == 0 || (message.embeds[0].image_url is None
            && message.embeds[0].thumbnail_url is None)),
        image_of(message) matches Some(url) ==> (exists|j: int|
            0 <= j < message.attachments.len() && is_wide(#[trigger] message.attachments[j])
                && message.attachments[j].url == url) || (message.embeds.len() > 0 && (
        message.embeds[0].image_url == Some(url) || message.embeds[0].thumbnail_url == Some(url))),
{
    lemma_first_wide(message.attachments, 0);
}

/// Finds the still image of a message.
pub fn resolve_attachment(message: &OriginalMessage) -> (r: Option<String>)
    ensures
        text_of(r) == image_of(message@),
{
    let mut i: usize = 0;
    while i < message.attachments.len()
        invariant
            i <= message.attachments.len(),
            first_wide(message@.attachments, 0) == first_wide(message@.attachments, i as int),
        decreases message.attachments.len() - i,
    {
        let attachment = &message.attachments[i];
        assert(message@.attachments[i as int] == attachment@);
        match attachment.width {
            Some(w) => {
                if w > 0 {
                    return Some(attachment.url.clone());
                }
            },
            None => {},
        }
        i += 1;
    }
    if message.embeds.len() > 0 {
        let embed = &message.embeds[0];
        match &embed.image_url {
            Some(url) => Some(url.clone()),
            None => match &embed.thumbnail_url {
                Some(url) => Some(url.clone()),
                None => None,
            },
        }
    } else {
        None
    }
}

/// The video of a message: the first attachment that declares a video type,
/// else the video of the first embed.
pub open spec fn video_url_of(message: MessageView) -> Option<Seq<char>> {
    let attachments = message.attachments;
    let embeds = message.embeds;
    match first_video(attachments, 0) {
        Some(i) => Some(attachments[i].url),
        None => if embeds.len() > 0 {
            embeds[0].video_url
        } else {
            None
        },
    }
}

/// A message has no video exactly where no attachment declares a video type
/// and the first embed, if there is one, has no video.
pub proof fn law_video_sources(message: MessageView)
    ensures
        video_url_of(message) is None <==> (forall|j: int|
            0 <= j < message.attachments.len() ==> !is_video(#[trigger] message.attachments[j]))
            && (message.embeds.len() == 0 || message.embeds[0].video_url is None),
{
    lemma_first_video(message.attachments, 0);
}

/// A declared media type that the platform plays inline.
pub open spec fn playable_type(content_type: Seq<char>) -> bool {
    content_type == "video/webm"@ || content_type == "video/mp4"@ || content_type
        == "video/quicktime"@
}

/// Whether the platform could play the message's video inline. A video of
/// an attachment is judged by the type that the attachment declares. A video
/// of an embed is judged by the declared type of the first attachment, and
/// taken for granted without one.
pub open spec fn video_supported(message: MessageView) -> bool {
    let attachments = message.attachments;
    match first_video(attachments, 0) {
        Some(i) => playable_type(attachments[i].content_type->0),
        None => if attachments.len() > 0 && attachments[0].content_type is Some {
            playable_type(attachments[0].content_type->0)
        } else {
            true
        },
    }
}

/// The video of a message, where it has one.
pub open spec fn video_of(message: MessageView) -> Option<VideoView> {
    match video_url_of(message) {
        Some(url) => Some(VideoView { url, supported_format: video_supported(message) }),
        None => None,
    }
}

/// What an optional video holds.
pub open spec fn opt_video(o: Option<VideoAttachment>) -> Option<VideoView> {
    match o {
        Some(video) => Some(video@),
        None => None,
    }
}

fn is_playable(content_type: &str) -> (r: bool)
    ensures
        r == playable_type(content_type@),
{
    same_text(content_type, "video/webm") || same_text(content_type, "video/mp4") || same_text(
        content_type,
        "video/quicktime",
    )
}

/// Finds the video of a message.
pub fn resolve_video(message: &OriginalMessage) -> (r: Option<VideoAttachment>)
    ensures
        opt_video(r) == video_of(message@),
{
    let mut i: usize = 0;
    while i < message.attachments.len()
        invariant
            i <= message.attachments.len(),
            first_video(message@.attachments, 0) == first_video(message@.attachments, i as int),
        decreases message.attachments.len() - i,
    {
        let attachment = &message.attachments[i];
        assert(message@.attachments[i as int] == attachment@);
        match &attachment.content_type {
            Some(content_type) => {
                if starts_with(content_type.as_str(), "video/") {
                    return Some(
                        VideoAttachment {
                            url: attachment.url.clone(),
                            supported_format: is_playable(content_type.as_str()),
                        },
                    );
                }
            },
            None => {},
        }
        i += 1;
    }
    if message.embeds.len() == 0 {
        return None;
    }
    let url = match &message.embeds[0].video_url {
        Some(url) => url.clone(),
        None => {
            return None;
        },
    };
    let mut supported = true;
    if message.attachments.len() > 0 {
        assert(message@.attachments[0] == message.attachments@[0]@);
        match &message.attachments[0].content_type {
            Some(content_type) => {
                supported = is_playable(content_type.as_str());
            },
            None => {},
        }
    }
    Some(VideoAttachment { url, supported_format: supported })
}

/// The block that introduces a reply: the author of the message replied to,
/// then either a link to it, where it has no text, or its text, cut and
/// quoted line by line, and an empty line.
pub open spec fn reply_block(referenced: ReferencedView) -> Seq<char> {
    "> Reply to **"@ + referenced.author_name + "**\n"@ + if referenced.content.len() == 0 {
        "> [`No content, jump to message`]("@ + link_text(
            referenced.guild_id,
            referenced.channel_id,
            referenced.id,
        ) + ")\n\n"@
    } else {
        quoted(quote_text(referenced.content)) + "\n"@
    }
}

/// The description of the mirror embed: the reply block, where the message
/// is a reply, then the message's own text, cut to the body limit.
pub open spec fn description_of(message: MessageView) -> Seq<char> {
    match message.referenced {
        Some(referenced) => reply_block(referenced) + body_text(message.content),
        None => body_text(message.content),
    }
}

/// The field of the mirror embed that links to a video: a name that shows
/// as nothing, the link, and its own line.
pub open spec fn video_field(url: Seq<char>) -> FieldView {
    FieldView { name: "\u{200b}"@, value: "[`Video Attachment`]("@ + url + ")"@, inline: false }
}

/// The mirror of a message for `count` endorsements: the badge as visible
/// text; an embed of fixed colour with the author, the description, the
/// time of the message, its still image, and a field that links to its
/// video; and a button that leads back to the message.
pub open spec fn mirror_of(message: MessageView, count: nat) -> MirrorView {
    MirrorView {
        content: badge(count),
        colour: EMBED_COLOUR,
        author_name: message.author_name,
        author_icon_url: message.author_avatar_url,
        description: description_of(message),
        timestamp_millis: message.timestamp_millis,
        image_url: image_of(message),
        video_field: match video_url_of(message) {
            Some(url) => Some(video_field(url)),
            None => None,
        },
        jump_url: link_text(message.guild_id, message.channel_id, message.id),
        jump_label: "Jump to Message"@,
    }
}

/// Renders the block that introduces a reply.
pub fn render_reply(referenced: &Referenced) -> (r: String)
    requires
        referenced@.wf(),
    ensures
        r@ == reply_block(referenced@),
{
    let mut out = String::from_str("> Reply to **");
    out.append(referenced.author_name.as_str());
    out.append("**\n");
    let ghost head = out@;
    if referenced.content.as_str().unicode_len() == 0 {
        let link = message_link(referenced.guild_id, referenced.channel_id, referenced.id);
        out.append("> [`No content, jump to message`](");
        out.append(link.as_str());
        out.append(")\n\n");
        assert(out@ =~= head + ("> [`No content, jump to message`]("@ + link@ + ")\n\n"@));
    } else {
        let quote = cut_quote(referenced.content.as_str());
        let lines = quote_lines(quote.as_str());
        out.append(lines.as_str());
        out.append("\n");
        assert(out@ =~= head + (lines@ + "\n"@));
    }
    out
}

/// Renders the mirror of `message` for `count` endorsements.
pub fn build_message(message: &OriginalMessage, count: usize) -> (r: MirrorMessage)
    requires
        message@.wf(),
    ensures
        r@ == mirror_of(message@, count as nat),
{
    let mut description = match &message.referenced {
        Some(referenced) => render_reply(referenced),
        None => String::new(),
    };
    let ghost head = description@;
    let body = cut_body(message.content.as_str());
    description.append(body.as_str());
    assert(description@ =~= description_of(message@)) by {
        if message.referenced is None {
            assert(head + body@ =~= body@);
        }
    }
    let video_field = match resolve_video(message) {
        Some(video) => {
            let mut value = String::from_str("[`Video Attachment`](");
            value.append(video.url.as_str());
            value.append(")");
            Some(EmbedField { name: String::from_str("\u{200b}"), value, inline: false })
        },
        None => None,
    };
    MirrorMessage {
        content: badge_string(count),
        embed: MirrorEmbed {
            colour: EMBED_COLOUR,
            author_name: message.author_name.clone(),
            author_icon_url: message.author_avatar_url.clone(),
            description,
            timestamp_millis: message.timestamp_millis,
            image_url: resolve_attachment(message),
            video_field,
        },
        jump_url: message_link(message.guild_id, message.channel_id, message.id),
        jump_label: String::from_str("Jump to Message"),
    }
}

} // verus!
