use discord_handler::callback::CallbackRequest;
use discord_handler::handler::Admission;
use discord_handler::ids::{ChannelId, MessageId, UserId};
use discord_handler::intake::{
    attachment_plan, AttachmentPlan, IntakeAction, IntakeEvent, MessageIntake,
};
use discord_handler::message::{Attachment, Author, DiscordMessage, MessageKind};
use discord_handler::starter::{ChannelInfo, LookupAction, LookupEvent, ThreadStarterLookup};

const BOT: u64 = 42;

fn message(id: u64, author: u64, content: &str) -> DiscordMessage {
    DiscordMessage {
        id: MessageId::new(id),
        channel_id: ChannelId::new(77),
        guild_id: Some(9),
        author: Author {
            id: UserId::new(author),
            name: "ann".to_string(),
            global_name: Some("Ann A.".to_string()),
            bot: false,
        },
        content: content.to_string(),
        mentions: vec![UserId::new(BOT)],
        attachments: vec![],
        kind: MessageKind::Other,
        referenced_message: None,
    }
}

fn starter(content: &str) -> DiscordMessage {
    let mut shown = message(50, 6, content);
    shown.kind = MessageKind::ThreadStarter;
    shown
}

fn with_file(size: u32) -> DiscordMessage {
    let mut msg = message(1, 5, "<@42> look");
    msg.attachments.push(Attachment {
        filename: "a.txt".to_string(),
        size,
        content_type: Some("text/plain".to_string()),
    });
    msg
}

fn thread() -> LookupEvent {
    LookupEvent::Resolved(Some(ChannelInfo::Guild {
        is_thread: true,
        parent_id: Some(ChannelId::new(70)),
    }))
}

fn reading() -> ThreadStarterLookup {
    let (lookup, action) = ThreadStarterLookup::begin(&message(1, 5, "<@42>"), UserId::new(BOT));
    assert!(matches!(action, LookupAction::ResolveChannel { channel_id } if channel_id.get() == 77));
    let (lookup, action) = lookup.step(thread());
    assert!(matches!(
        action,
        LookupAction::ReadHistory { channel_id, limit: 25 } if channel_id.get() == 77
    ));
    lookup
}

fn found(action: LookupAction) -> Option<String> {
    match action {
        LookupAction::Finished { text } => text,
        _ => panic!("the search goes on"),
    }
}

fn admission(is_mentioned: bool) -> Admission {
    Admission { is_group: true, is_mentioned }
}

fn dispatched(action: IntakeAction) -> CallbackRequest {
    match action {
        IntakeAction::Dispatch(request) => request,
        _ => panic!("the intake goes on"),
    }
}

#[test]
fn direct_messages_have_no_starter() {
    let mut msg = message(1, 5, "<@42>");
    msg.guild_id = None;
    let (_, action) = ThreadStarterLookup::begin(&msg, UserId::new(BOT));
    assert_eq!(found(action), None);
}

#[test]
fn only_threads_with_a_parent_have_a_starter() {
    let parent_id = Some(ChannelId::new(70));
    for info in [
        None,
        Some(ChannelInfo::Other),
        Some(ChannelInfo::Guild { is_thread: false, parent_id }),
        Some(ChannelInfo::Guild { is_thread: true, parent_id: None }),
    ] {
        let (lookup, _) = ThreadStarterLookup::begin(&message(1, 5, "<@42>"), UserId::new(BOT));
        let (_, action) = lookup.step(LookupEvent::Resolved(info));
        assert_eq!(found(action), None);
    }
}

#[test]
fn starter_serves_the_first_turn_only() {
    let history = vec![message(1, 5, "<@42>"), message(2, BOT, "hello"), starter("Check PRs")];
    let (_, action) = reading().step(LookupEvent::HistoryRead(Some(history)));
    assert_eq!(found(action), None);
}

#[test]
fn the_message_itself_does_not_count_as_a_turn() {
    let history = vec![message(1, BOT, "<@42>"), starter(" Check PRs ")];
    let (_, action) = reading().step(LookupEvent::HistoryRead(Some(history)));
    assert_eq!(found(action), Some("Check PRs".to_string()));
}

#[test]
fn only_the_first_shown_starter_counts() {
    let history = vec![message(1, 5, "<@42>"), starter("  "), starter("second")];
    let (lookup, action) = reading().step(LookupEvent::HistoryRead(Some(history)));
    assert!(matches!(
        action,
        LookupAction::FetchMessage { channel_id, message_id }
            if channel_id.get() == 70 && message_id.get() == 77
    ));
    let (_, action) = lookup.step(LookupEvent::Fetched(Some(message(77, 6, "source"))));
    assert_eq!(found(action), Some("source".to_string()));
}

#[test]
fn unreadable_history_leads_to_the_source_message() {
    let (lookup, action) = reading().step(LookupEvent::HistoryRead(None));
    assert!(matches!(action, LookupAction::FetchMessage { .. }));
    let (_, action) = lookup.step(LookupEvent::Fetched(None));
    assert_eq!(found(action), None);
}

#[test]
fn attachments_are_measured_against_the_limit() {
    assert_eq!(attachment_plan(&message(1, 5, ""), 10), AttachmentPlan::Nothing);
    assert_eq!(attachment_plan(&with_file(10), 10), AttachmentPlan::Download);
    assert_eq!(attachment_plan(&with_file(11), 10), AttachmentPlan::TooLarge);
}

#[test]
fn file_is_passed_on_with_the_text_as_written() {
    let (intake, action) =
        MessageIntake::begin(with_file(3), UserId::new(BOT), admission(true), 10);
    assert!(matches!(action, IntakeAction::Download));
    let (_, action) = intake.step(IntakeEvent::Downloaded(Some(vec![1, 2, 3])));
    let request = dispatched(action);
    assert_eq!(request.text, "<@42> look");
    assert_eq!(request.channel_id, "77");
    assert_eq!(request.user_id, "5");
    assert_eq!(request.user_name, "Ann A.");
    assert!(request.is_group);
    assert!(request.streamed);
    match request.file {
        Some(file) => {
            assert_eq!(file.filename, "a.txt");
            assert_eq!(file.data, [1, 2, 3]);
            assert_eq!(file.content_type, Some("text/plain".to_string()));
        }
        None => panic!("the file is lost"),
    }
}

#[test]
fn file_that_is_too_large_or_lost_is_passed_over() {
    let (_, action) = MessageIntake::begin(with_file(11), UserId::new(BOT), admission(false), 10);
    let request = dispatched(action);
    assert!(request.file.is_none());
    assert_eq!(request.text, "<@42> look");

    let (intake, _) = MessageIntake::begin(with_file(3), UserId::new(BOT), admission(false), 10);
    let (_, action) = intake.step(IntakeEvent::Downloaded(None));
    assert!(dispatched(action).file.is_none());
}

#[test]
fn account_name_stands_in_for_the_display_name() {
    let mut msg = message(1, 5, "hi");
    msg.author.global_name = None;
    let (_, action) = MessageIntake::begin(msg, UserId::new(BOT), admission(false), 10);
    assert_eq!(dispatched(action).user_name, "ann");
}

#[test]
fn call_into_a_thread_carries_the_starter() {
    let msg = message(1, 5, "<@42>");
    let (intake, action) = MessageIntake::begin(msg, UserId::new(BOT), admission(true), 10);
    assert!(matches!(action, IntakeAction::Search(LookupAction::ResolveChannel { .. })));
    let (intake, action) = intake.step(IntakeEvent::Search(thread()));
    assert!(matches!(action, IntakeAction::Search(LookupAction::ReadHistory { .. })));
    let (intake, action) = intake.step(IntakeEvent::Search(LookupEvent::HistoryRead(Some(vec![]))));
    assert!(matches!(action, IntakeAction::Search(LookupAction::FetchMessage { .. })));
    let source = message(77, 6, "Check PRs");
    let (_, action) = intake.step(IntakeEvent::Search(LookupEvent::Fetched(Some(source))));
    assert_eq!(dispatched(action).text, "Check PRs");
}

#[test]
fn call_without_a_starter_is_passed_on_as_written() {
    let msg = message(1, 5, " <@42> hi ");
    let (intake, _) = MessageIntake::begin(msg, UserId::new(BOT), admission(true), 10);
    let (_, action) = intake.step(IntakeEvent::Search(LookupEvent::Resolved(None)));
    assert_eq!(dispatched(action).text, " <@42> hi ");
}
