//! The plain values that the engine and the renderer work on: messages as
//! the chat platform reports them, the users who reacted, and the mirror
//! message that is posted to the starboard.

use vstd::prelude::*;

verus! {

/// A file attached to a message.
#[derive(Clone, Debug)]
pub struct Attachment {
    pub url: String,
    /// Width in pixels, where the file is an image or a video.
    pub width: Option<u32>,
    /// Declared media type.
    pub content_type: Option<String>,
}

/// An embed of a message, reduced to what the renderer reads.
#[derive(Clone, Debug)]
pub struct Embed {
    pub kind: Option<String>,
    pub image_url: Option<String>,
    pub thumbnail_url: Option<String>,
    pub video_url: Option<String>,
}

/// The message that another message replies to.
#[derive(Clone, Debug)]
pub struct Referenced {
    pub id: u64,
    pub channel_id: u64,
    pub guild_id: Option<u64>,
    pub author_name: String,
    pub content: String,
}

/// A message of the community that may be mirrored.
#[derive(Clone, Debug)]
pub struct OriginalMessage {
    pub id: u64,
    pub channel_id: u64,
    pub guild_id: Option<u64>,
    pub author_id: u64,
    pub author_name: String,
    pub author_avatar_url: String,
    pub content: String,
    pub referenced: Option<Referenced>,
    pub attachments: Vec<Attachment>,
    pub embeds: Vec<Embed>,
    /// Creation time, in milliseconds since the Unix epoch.
    pub timestamp_millis: i64,
}

/// A user who reacted to a message.
#[derive(Clone, Copy, Debug, PartialEq, Eq)]
pub struct Reactor {
    pub id: u64,
    pub bot: bool,
}

/// The emoji of a reaction.
#[derive(Clone, Debug)]
pub enum Emoji {
    /// A Unicode emoji, by its characters.
    Unicode(String),
    /// An emoji of a community, by its identifier.
    Custom(u64),
}

/// A video found on a message.
#[derive(Clone, Debug)]
pub struct VideoAttachment {
    pub url: String,
    /// Whether the platform could play the video inline.
    pub supported_format: bool,
}

/// A field of the mirror embed.
#[derive(Clone, Debug)]
pub struct EmbedField {
    pub name: String,
    pub value: String,
    pub inline: bool,
}

/// The embed of a mirror message: the summary of the mirrored message.
#[derive(Clone, Debug)]
pub struct MirrorEmbed {
    pub colour: u32,
    pub author_name: String,
    pub author_icon_url: String,
    pub description: String,
    pub timestamp_millis: i64,
    pub image_url: Option<String>,
    pub video_field: Option<EmbedField>,
}

/// A mirror message as it is first posted.
#[derive(Clone, Debug)]
pub struct MirrorMessage {
    /// The visible text: the endorsement badge.
    pub content: String,
    pub embed: MirrorEmbed,
    /// Target of the one link button.
    pub jump_url: String,
    /// Label of the one link button.
    pub jump_label: String,
}

/// The characters of an optional text.
pub open spec fn text_of(o: Option<String>) -> Option<Seq<char>> {
    match o {
        Some(s) => Some(s@),
        None => None,
    }
}

/// What an attachment holds.
pub struct AttachmentView {
    pub url: Seq<char>,
    pub width: Option<u32>,
    pub content_type: Option<Seq<char>>,
}

/// What an embed holds.
pub struct EmbedView {
    pub kind: Option<Seq<char>>,
    pub image_url: Option<Seq<char>>,
    pub thumbnail_url: Option<Seq<char>>,
    pub video_url: Option<Seq<char>>,
}

/// What a replied-to message holds.
pub struct ReferencedView {
    pub id: u64,
    pub channel_id: u64,
    pub guild_id: Option<u64>,
    pub author_name: Seq<char>,
    pub content: Seq<char>,
}

/// What a message holds.
pub struct MessageView {
    pub id: u64,
    pub channel_id: u64,
    pub guild_id: Option<u64>,
    pub author_id: u64,
    pub author_name: Seq<char>,
    pub author_avatar_url: Seq<char>,
    pub content: Seq<char>,
    pub referenced: Option<ReferencedView>,
    pub attachments: Seq<AttachmentView>,
    pub embeds: Seq<EmbedView>,
    pub timestamp_millis: i64,
}

/// What an emoji holds.
pub enum EmojiView {
    Unicode(Seq<char>),
    Custom(u64),
}

/// What a found video holds.
pub struct VideoView {
    pub url: Seq<char>,
    pub supported_format: bool,
}

/// What a field of the mirror embed holds.
pub struct FieldView {
    pub name: Seq<char>,
    pub value: Seq<char>,
    pub inline: bool,
}

/// What a mirror message holds.
pub struct MirrorView {
    pub content: Seq<char>,
    pub colour: u32,
    pub author_name: Seq<char>,
    pub author_icon_url: Seq<char>,
    pub description: Seq<char>,
    pub timestamp_millis: i64,
    pub image_url: Option<Seq<char>>,
    pub video_field: Option<FieldView>,
    pub jump_url: Seq<char>,
    pub jump_label: Seq<char>,
}

impl View for Attachment {
    type V = AttachmentView;

    open spec fn view(&self) -> AttachmentView {
        AttachmentView {
            url: self.url@,
            width: self.width,
            content_type: text_of(self.content_type),
        }
    }
}

impl View for Embed {
    type V = EmbedView;

    open spec fn view(&self) -> EmbedView {
        EmbedView {
            kind: text_of(self.kind),
            image_url: text_of(self.image_url),
            thumbnail_url: text_of(self.thumbnail_url),
            video_url: text_of(self.video_url),
        }
    }
}

impl View for Referenced {
    type V = ReferencedView;

    open spec fn view(&self) -> ReferencedView {
        ReferencedView {
            id: self.id,
            channel_id: self.channel_id,
            guild_id: self.guild_id,
            author_name: self.author_name@,
            content: self.content@,
        }
    }
}

impl View for OriginalMessage {
    type V = MessageView;

    open spec fn view(&self) -> MessageView {
        MessageView {
            id: self.id,
            channel_id: self.channel_id,
            guild_id: self.guild_id,
            author_id: self.author_id,
            author_name: self.author_name@,
            author_avatar_url: self.author_avatar_url@,
            content: self.content@,
            referenced: match self.referenced {
                Some(referenced) => Some(referenced@),
                None => None,
            },
            attachments: self.attachments@.map_values(|a: Attachment| a@),
            embeds: self.embeds@.map_values(|e: Embed| e@),
            timestamp_millis: self.timestamp_millis,
        }
    }
}

impl View for Emoji {
    type V = EmojiView;

    open spec fn view(&self) -> EmojiView {
        match self {
            Emoji::Unicode(name) => EmojiView::Unicode(name@),
            Emoji::Custom(id) => EmojiView::Custom(*id),
        }
    }
}

impl View for VideoAttachment {
    type V = VideoView;

    open spec fn view(&self) -> VideoView {
        VideoView { url: self.url@, supported_format: self.supported_format }
    }
}

impl View for EmbedField {
    type V = FieldView;

    open spec fn view(&self) -> FieldView {
        FieldView { name: self.name@, value: self.value@, inline: self.inline }
    }
}

impl View for MirrorMessage {
    type V = MirrorView;

    open spec fn view(&self) -> MirrorView {
        MirrorView {
            content: self.content@,
            colour: self.embed.colour,
            author_name: self.embed.author_name@,
            author_icon_url: self.embed.author_icon_url@,
            description: self.embed.description@,
            timestamp_millis: self.embed.timestamp_millis,
            image_url: text_of(self.embed.image_url),
            video_field: match self.embed.video_field {
                Some(field) => Some(field@),
                None => None,
            },
            jump_url: self.jump_url@,
            jump_label: self.jump_label@,
        }
    }
}

/// An identifier that the chat platform can have issued.
pub open spec fn valid_id(id: u64) -> bool {
    id != 0
}

/// An optional community identifier that the chat platform can have issued.
pub open spec fn valid_guild(guild_id: Option<u64>) -> bool {
    match guild_id {
        Some(g) => valid_id(g),
        None => true,
    }
}

impl ReferencedView {
    /// The identifiers are ones that the platform can have issued.
    pub open spec fn wf(&self) -> bool {
        valid_id(self.id) && valid_id(self.channel_id) && valid_guild(self.guild_id)
    }
}

impl MessageView {
    /// The identifiers of the message, and of the message it replies to, are
    /// ones that the platform can have issued.
    pub open spec fn wf(&self) -> bool {
        &&& valid_id(self.id)
        &&& valid_id(self.channel_id)
        &&& valid_guild(self.guild_id)
        &&& match self.referenced {
            Some(referenced) => referenced.wf(),
            None => true,
        }
    }
}

impl Referenced {
    /// Tells whether the identifiers are ones that the platform can have
    /// issued.
    pub fn is_wf(&self) -> (r: bool)
        ensures
            r == self@.wf(),
    {
        self.id != 0 && self.channel_id != 0 && match self.guild_id {
            Some(g) => g != 0,
            None => true,
        }
    }
}

impl OriginalMessage {
    /// Tells whether the identifiers of the message, and of the message it
    /// replies to, are ones that the platform can have issued.
    pub fn is_wf(&self) -> (r: bool)
        ensures
            r == self@.wf(),
    {
        let own = self.id != 0 && self.channel_id != 0 && match self.guild_id {
            Some(g) => g != 0,
            None => true,
        };
        let other = match &self.referenced {
            Some(referenced) => referenced.is_wf(),
            None => true,
        };
        own && other
    }
}

} // verus!
