use starboard::message::{Attachment, Embed, Emoji, OriginalMessage, Referenced};
use starboard::render::{
    build_message, is_eligible, is_star, render_reply, resolve_attachment, resolve_video,
    EMBED_COLOUR,
};

fn plain(content: &str) -> OriginalMessage {
    OriginalMessage {
        id: 30,
        channel_id: 20,
        guild_id: Some(10),
        author_id: 7,
        author_name: "alice".to_string(),
        author_avatar_url: "https://cdn.example/avatar.png".to_string(),
        content: content.to_string(),
        referenced: None,
        attachments: Vec::new(),
        embeds: Vec::new(),
        timestamp_millis: 1_700_000_000_123,
    }
}

fn attachment(url: &str, width: Option<u32>, content_type: Option<&str>) -> Attachment {
    Attachment { url: url.to_string(), width, content_type: content_type.map(|s| s.to_string()) }
}

fn embed(kind: Option<&str>, image: Option<&str>, thumb: Option<&str>, video: Option<&str>) -> Embed {
    Embed {
        kind: kind.map(|s| s.to_string()),
        image_url: image.map(|s| s.to_string()),
        thumbnail_url: thumb.map(|s| s.to_string()),
        video_url: video.map(|s| s.to_string()),
    }
}

fn referenced(content: &str) -> Referenced {
    Referenced {
        id: 3,
        channel_id: 2,
        guild_id: Some(1),
        author_name: "bob".to_string(),
        content: content.to_string(),
    }
}

#[test]
fn star_is_recognised() {
    assert!(is_star(&Emoji::Unicode("⭐".to_string())));
    assert!(!is_star(&Emoji::Unicode("🌟".to_string())));
    assert!(!is_star(&Emoji::Unicode("".to_string())));
    assert!(!is_star(&Emoji::Unicode("⭐⭐".to_string())));
    assert!(!is_star(&Emoji::Custom(5)));
}

#[test]
fn message_with_text_is_eligible() {
    assert!(is_eligible(&plain("hello")));
}

#[test]
fn empty_message_is_not_eligible() {
    assert!(!is_eligible(&plain("")));
}

#[test]
fn image_preview_alone_is_not_eligible() {
    let mut m = plain("");
    m.embeds.push(embed(Some("image"), Some("https://x/i.png"), None, None));
    assert!(!is_eligible(&m));
    assert!(m.is_wf());
}

#[test]
fn attachment_alone_is_eligible() {
    let mut m = plain("");
    m.attachments.push(attachment("https://x/a.bin", None, None));
    assert!(is_eligible(&m));
}

#[test]
fn other_embed_alone_is_eligible() {
    let mut m = plain("");
    m.embeds.push(embed(Some("rich"), None, None, None));
    assert!(is_eligible(&m));
    let mut n = plain("");
    n.embeds.push(embed(None, None, None, None));
    assert!(is_eligible(&n));
    let mut o = plain("");
    o.embeds.push(embed(Some("video"), None, None, None));
    o.embeds.push(embed(Some("image"), None, None, None));
    assert!(is_eligible(&o));
}

#[test]
fn image_preview_with_text_is_eligible() {
    let mut m = plain("look");
    m.embeds.push(embed(Some("image"), Some("https://x/i.png"), None, None));
    assert!(is_eligible(&m));
}

#[test]
fn image_comes_from_first_attachment_with_width() {
    let mut m = plain("x");
    m.attachments.push(attachment("https://x/a.png", Some(640), Some("image/png")));
    m.embeds.push(embed(None, Some("https://x/e.png"), None, None));
    assert_eq!(resolve_attachment(&m), Some("https://x/a.png".to_string()));
}

#[test]
fn image_falls_back_to_embed() {
    let mut m = plain("x");
    m.attachments.push(attachment("https://x/a.txt", None, None));
    m.embeds.push(embed(None, Some("https://x/e.png"), Some("https://x/t.png"), None));
    assert_eq!(resolve_attachment(&m), Some("https://x/e.png".to_string()));

    let mut zero = plain("x");
    zero.attachments.push(attachment("https://x/a.png", Some(0), None));
    zero.embeds.push(embed(None, None, Some("https://x/t.png"), None));
    assert_eq!(resolve_attachment(&zero), Some("https://x/t.png".to_string()));
}

#[test]
fn image_is_absent_without_sources() {
    assert_eq!(resolve_attachment(&plain("x")), None);
    let mut m = plain("x");
    m.attachments.push(attachment("https://x/a.txt", None, None));
    assert_eq!(resolve_attachment(&m), None);
    let mut n = plain("x");
    n.embeds.push(embed(None, None, None, Some("https://x/v.mp4")));
    assert_eq!(resolve_attachment(&n), None);
}

#[test]
fn image_comes_from_a_later_attachment() {
    let mut m = plain("x");
    m.attachments.push(attachment("a.txt", None, None));
    m.attachments.push(attachment("b.png", Some(10), None));
    assert_eq!(resolve_attachment(&m), Some("b.png".to_string()));

    let mut n = plain("x");
    n.attachments.push(attachment("a.txt", None, None));
    n.attachments.push(attachment("zero.png", Some(0), None));
    n.attachments.push(attachment("c.png", Some(1), None));
    n.attachments.push(attachment("d.png", Some(2), None));
    n.embeds.push(embed(None, Some("https://x/e.png"), None, None));
    assert_eq!(resolve_attachment(&n), Some("c.png".to_string()));
}

#[test]
fn video_comes_from_a_later_attachment() {
    let mut m = plain("x");
    m.attachments.push(attachment("a.txt", None, None));
    m.attachments.push(attachment("b.mp4", None, Some("video/mp4")));
    let v = resolve_video(&m).unwrap();
    assert_eq!(v.url, "b.mp4");
    assert!(v.supported_format);

    let mut n = plain("x");
    n.attachments.push(attachment("a.png", Some(5), Some("image/png")));
    n.attachments.push(attachment("b.avi", None, Some("video/x-msvideo")));
    n.attachments.push(attachment("c.mp4", None, Some("video/mp4")));
    n.embeds.push(embed(None, None, None, Some("https://x/v.webm")));
    let v = resolve_video(&n).unwrap();
    assert_eq!(v.url, "b.avi");
    assert!(!v.supported_format);
}

#[test]
fn image_and_video_are_found_apart() {
    let mut m = plain("x");
    m.attachments.push(attachment("a.txt", None, None));
    m.attachments.push(attachment("b.png", Some(10), Some("image/png")));
    m.attachments.push(attachment("c.webm", None, Some("video/webm")));
    assert_eq!(resolve_attachment(&m), Some("b.png".to_string()));
    assert_eq!(resolve_video(&m).unwrap().url, "c.webm");
    let out = build_message(&m, 1);
    assert_eq!(out.embed.image_url, Some("b.png".to_string()));
    assert_eq!(out.embed.video_field.unwrap().value, "[`Video Attachment`](c.webm)");
}

#[test]
fn only_the_first_embed_is_read() {
    let mut m = plain("x");
    m.attachments.push(attachment("https://x/a.txt", None, None));
    m.embeds.push(embed(None, None, None, None));
    m.embeds.push(embed(None, Some("https://x/e.png"), None, Some("https://x/v.mp4")));
    assert_eq!(resolve_attachment(&m), None);
    assert!(resolve_video(&m).is_none());
}

#[test]
fn video_comes_from_attachment_type() {
    let mut m = plain("x");
    m.attachments.push(attachment("https://x/a.mp4", Some(640), Some("video/mp4")));
    let v = resolve_video(&m).unwrap();
    assert_eq!(v.url, "https://x/a.mp4");
    assert!(v.supported_format);

    let mut n = plain("x");
    n.attachments.push(attachment("https://x/a.avi", None, Some("video/x-msvideo")));
    let v = resolve_video(&n).unwrap();
    assert_eq!(v.url, "https://x/a.avi");
    assert!(!v.supported_format);
}

#[test]
fn video_falls_back_to_embed() {
    let mut m = plain("x");
    m.embeds.push(embed(Some("video"), None, None, Some("https://x/v.webm")));
    let v = resolve_video(&m).unwrap();
    assert_eq!(v.url, "https://x/v.webm");
    assert!(v.supported_format);

    let mut n = plain("x");
    n.attachments.push(attachment("https://x/a.png", Some(1), Some("image/png")));
    n.embeds.push(embed(Some("video"), None, None, Some("https://x/v.webm")));
    let v = resolve_video(&n).unwrap();
    assert_eq!(v.url, "https://x/v.webm");
    assert!(!v.supported_format);
}

#[test]
fn video_is_absent_without_sources() {
    assert!(resolve_video(&plain("x")).is_none());
    let mut m = plain("x");
    m.attachments.push(attachment("https://x/a.png", Some(1), Some("image/png")));
    assert!(resolve_video(&m).is_none());
}

#[test]
fn reply_to_message_without_text_links_to_it() {
    let r = referenced("");
    assert_eq!(
        render_reply(&r),
        "> Reply to **bob**\n> [`No content, jump to message`](https://discord.com/channels/1/2/3)\n\n"
    );
}

#[test]
fn reply_outside_a_community_links_through_me() {
    let mut r = referenced("");
    r.guild_id = None;
    r.channel_id = 18446744073709551615;
    assert_eq!(
        render_reply(&r),
        "> Reply to **bob**\n> [`No content, jump to message`](https://discord.com/channels/@me/18446744073709551615/3)\n\n"
    );
}

#[test]
fn reply_quotes_each_line() {
    let r = referenced("first\nsecond");
    assert_eq!(render_reply(&r), "> Reply to **bob**\n> first\n> second\n\n");
}

#[test]
fn reply_quote_is_cut_over_the_limit() {
    let r = referenced(&"z".repeat(513));
    assert_eq!(render_reply(&r), format!("> Reply to **bob**\n> {}...\n\n", "z".repeat(509)));
    let whole = referenced(&"z".repeat(512));
    assert_eq!(render_reply(&whole), format!("> Reply to **bob**\n> {}\n\n", "z".repeat(512)));
}

#[test]
fn reply_quote_is_cut_before_it_is_split() {
    let text = format!("{}\n{}", "a".repeat(508), "b".repeat(100));
    let r = referenced(&text);
    assert_eq!(render_reply(&r), format!("> Reply to **bob**\n> {}\n> ...\n\n", "a".repeat(508)));
}

#[test]
fn mirror_of_plain_message() {
    let m = plain("hello world");
    let out = build_message(&m, 3);
    assert_eq!(out.content, "3 ⭐");
    assert_eq!(out.embed.colour, 0xFDD744);
    assert_eq!(out.embed.colour, EMBED_COLOUR);
    assert_eq!(out.embed.author_name, "alice");
    assert_eq!(out.embed.author_icon_url, "https://cdn.example/avatar.png");
    assert_eq!(out.embed.description, "hello world");
    assert_eq!(out.embed.timestamp_millis, 1_700_000_000_123);
    assert_eq!(out.embed.image_url, None);
    assert!(out.embed.video_field.is_none());
    assert_eq!(out.jump_url, "https://discord.com/channels/10/20/30");
    assert_eq!(out.jump_label, "Jump to Message");
}

#[test]
fn mirror_of_long_message_is_cut() {
    let m = plain(&"x".repeat(2000));
    let out = build_message(&m, 1);
    assert_eq!(out.embed.description, format!("{}...", "x".repeat(1475)));
    let whole = plain(&"x".repeat(1475));
    assert_eq!(build_message(&whole, 1).embed.description, "x".repeat(1475));
}

#[test]
fn mirror_of_reply_starts_with_quote() {
    let mut m = plain("my answer");
    m.referenced = Some(referenced("the question\r\nwith two lines"));
    let out = build_message(&m, 12);
    assert_eq!(out.content, "12 ⭐");
    assert_eq!(
        out.embed.description,
        "> Reply to **bob**\n> the question\n> with two lines\n\nmy answer"
    );
}

#[test]
fn mirror_of_reply_to_empty_message() {
    let mut m = plain("my answer");
    m.referenced = Some(referenced(""));
    let out = build_message(&m, 1);
    assert_eq!(
        out.embed.description,
        "> Reply to **bob**\n> [`No content, jump to message`](https://discord.com/channels/1/2/3)\n\nmy answer"
    );
}

#[test]
fn mirror_carries_image_and_video_link() {
    let mut m = plain("clip");
    m.attachments.push(attachment("https://x/a.mp4", Some(640), Some("video/mp4")));
    let out = build_message(&m, 2);
    assert_eq!(out.embed.image_url, Some("https://x/a.mp4".to_string()));
    let field = out.embed.video_field.unwrap();
    assert_eq!(field.name, "\u{200b}");
    assert_eq!(field.value, "[`Video Attachment`](https://x/a.mp4)");
    assert!(!field.inline);
}

#[test]
fn mirror_link_outside_a_community() {
    let mut m = plain("dm");
    m.guild_id = None;
    assert_eq!(build_message(&m, 1).jump_url, "https://discord.com/channels/@me/20/30");
}

#[test]
fn identifiers_of_zero_are_not_well_formed() {
    let mut m = plain("x");
    assert!(m.is_wf());
    m.id = 0;
    assert!(!m.is_wf());
    let mut n = plain("x");
    n.guild_id = Some(0);
    assert!(!n.is_wf());
    let mut o = plain("x");
    let mut r = referenced("y");
    assert!(r.is_wf());
    r.channel_id = 0;
    assert!(!r.is_wf());
    o.referenced = Some(r);
    assert!(!o.is_wf());
}
