use discord_handler::ids::{ChannelId, MessageId, UserId};
use discord_handler::mention::{strip_leading_bot_mentions, strip_one_leading_bot_mention};
use discord_handler::message::{
    discord_message_prompt_text, Author, DiscordMessage, MessageKind,
};
use discord_handler::prompt::build_thread_starter_prompt;

fn message(content: &str, referenced: Option<DiscordMessage>) -> DiscordMessage {
    DiscordMessage {
        id: MessageId::new(1),
        channel_id: ChannelId::new(2),
        guild_id: None,
        author: Author {
            id: UserId::new(3),
            name: "ann".to_string(),
            global_name: None,
            bot: false,
        },
        content: content.to_string(),
        mentions: vec![],
        attachments: vec![],
        kind: MessageKind::Other,
        referenced_message: referenced.map(Box::new),
    }
}

#[test]
fn thread_starter_prompt_replaces_bot_mention_only() {
    let bot_id = UserId::new(42);

    let text = build_thread_starter_prompt("<@42>", Some("Check PRs"), bot_id);

    assert_eq!(text, "Check PRs");
}

#[test]
fn thread_starter_prompt_replaces_nickname_bot_mention_only() {
    let bot_id = UserId::new(42);

    let text = build_thread_starter_prompt("<@!42>", Some("Check PRs"), bot_id);

    assert_eq!(text, "Check PRs");
}

#[test]
fn thread_starter_prompt_includes_extra_current_text() {
    let bot_id = UserId::new(42);

    let text =
        build_thread_starter_prompt("<@42> use owner/repo tradee", Some("Check PRs"), bot_id);

    assert_eq!(
        text,
        "Thread starter message:\nCheck PRs\n\nCurrent message:\nuse owner/repo tradee"
    );
}

#[test]
fn thread_starter_prompt_preserves_current_text_without_starter() {
    let bot_id = UserId::new(42);

    let text = build_thread_starter_prompt("<@42>", None, bot_id);

    assert_eq!(text, "<@42>");
}

#[test]
fn thread_starter_prompt_does_not_strip_non_bot_mentions() {
    let bot_id = UserId::new(42);

    let text = build_thread_starter_prompt("<@7>", Some("Check PRs"), bot_id);

    assert_eq!(
        text,
        "Thread starter message:\nCheck PRs\n\nCurrent message:\n<@7>"
    );
}

#[test]
fn blank_starter_counts_as_none() {
    let bot_id = UserId::new(42);
    assert_eq!(build_thread_starter_prompt(" <@42> hi ", Some(" \n\t"), bot_id), " <@42> hi ");
    assert_eq!(build_thread_starter_prompt("", Some("  go  "), bot_id), "go");
}

#[test]
fn mentions_are_stripped_until_other_text() {
    let bot_id = UserId::new(42);
    assert_eq!(
        strip_leading_bot_mentions(" <@42> <@!42>\u{2003}hi <@42> ", bot_id),
        "hi <@42>"
    );
    assert_eq!(strip_leading_bot_mentions("<@42><@42>", bot_id), "");
    assert_eq!(strip_leading_bot_mentions(" <@421> x ", bot_id), "<@421> x");
    assert_eq!(strip_leading_bot_mentions("<@4> <@42>", bot_id), "<@4> <@42>");
    let once = strip_leading_bot_mentions("\t<@!42> <@7> <@42>\n", bot_id);
    assert_eq!(once, "<@7> <@42>");
    assert_eq!(strip_leading_bot_mentions(once, bot_id), once);
}

#[test]
fn one_mention_is_stripped_in_either_form() {
    let bot_id = UserId::new(u64::MAX);
    assert_eq!(
        strip_one_leading_bot_mention("<@18446744073709551615> a", bot_id),
        Some(" a")
    );
    assert_eq!(
        strip_one_leading_bot_mention("<@!18446744073709551615>a", bot_id),
        Some("a")
    );
    assert_eq!(strip_one_leading_bot_mention(" <@18446744073709551615>", bot_id), None);
    assert_eq!(strip_one_leading_bot_mention("<@1844674407370955161>", bot_id), None);
    assert_eq!(
        strip_one_leading_bot_mention("<@1><@1>", UserId::new(1)),
        Some("<@1>")
    );
}

#[test]
fn white_space_is_the_unicode_property() {
    let bot_id = UserId::new(42);
    for code in 0..=0x10ffff_u32 {
        let Some(c) = char::from_u32(code) else {
            continue;
        };
        let expected = matches!(
            code,
            0x9..=0xd
                | 0x20
                | 0x85
                | 0xa0
                | 0x1680
                | 0x2000..=0x200a
                | 0x2028
                | 0x2029
                | 0x202f
                | 0x205f
                | 0x3000
        );
        let text = String::from(c);
        let blank = strip_leading_bot_mentions(&text, bot_id).is_empty();
        assert_eq!(blank, expected, "U+{code:04X}");
    }
}

#[test]
fn prompt_text_falls_back_to_the_referenced_message() {
    assert_eq!(
        discord_message_prompt_text(&message("  own \n", Some(message("other", None)))),
        Some("own".to_string())
    );
    assert_eq!(
        discord_message_prompt_text(&message(" ", Some(message("", Some(message(" far ", None)))))),
        Some("far".to_string())
    );
    assert_eq!(discord_message_prompt_text(&message(" ", Some(message("\t", None)))), None);
    assert_eq!(discord_message_prompt_text(&message("", None)), None);
}
