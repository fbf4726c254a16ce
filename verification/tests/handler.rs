use std::future::Future;
use std::pin::Pin;
use std::sync::Arc;

use discord_handler::callback::{ChannelResponse, DiscordFile};
use discord_handler::handler::{
    is_mentioned, screen_message, Admission, ChannelEvent, ChannelStatus, DiscordHandler,
};
use discord_handler::ids::{ChannelId, MessageId, UserId};
use discord_handler::intake::IntakeAction;
use discord_handler::message::{Author, DiscordMessage, MessageKind};
use tokio::sync::{broadcast, mpsc};

type OnMessage = Arc<
    dyn Fn(
        String,
        String,
        String,
        String,
        bool,
        Option<DiscordFile>,
        Option<mpsc::Sender<String>>,
    ) -> Pin<Box<dyn Future<Output = Result<ChannelResponse, String>> + Send>>,
>;

fn on_message() -> OnMessage {
    Arc::new(|_ch, _uid, _user, _text, _is_group, _file, _delta_tx| {
        Box::pin(async { Ok(ChannelResponse::Text("test".to_string())) })
    })
}

fn message(author_is_bot: bool, guild_id: Option<u64>, mentions: Vec<u64>) -> DiscordMessage {
    DiscordMessage {
        id: MessageId::new(1),
        channel_id: ChannelId::new(2),
        guild_id,
        author: Author {
            id: UserId::new(3),
            name: "ann".to_string(),
            global_name: None,
            bot: author_is_bot,
        },
        content: "hello".to_string(),
        mentions: mentions.into_iter().map(UserId::new).collect(),
        attachments: vec![],
        kind: MessageKind::Other,
        referenced_message: None,
    }
}

#[test]
fn handler_construction() {
    let (tx, _rx) = broadcast::channel::<ChannelEvent<String>>(16);
    let handler = DiscordHandler::new(
        tx,
        "discord".to_string(),
        vec![],
        on_message(),
        Arc::new(|_| true),
    );
    assert_eq!(handler.channel_id, "discord");
    assert!(handler.guild_ids.is_empty());
}

#[test]
fn emit_with_no_subscribers_does_not_panic() {
    let (tx, _) = broadcast::channel::<ChannelEvent<String>>(16);
    let handler = DiscordHandler::new(
        tx,
        "discord".to_string(),
        vec![],
        on_message(),
        Arc::new(|_| true),
    );
    let heard = handler.emit(ChannelEvent::StatusChanged(ChannelStatus::Connected));
    assert!(matches!(
        heard,
        Err(ChannelEvent::StatusChanged(ChannelStatus::Connected))
    ));
}

#[test]
fn emitted_events_reach_subscribers() {
    let (tx, mut rx) = broadcast::channel::<ChannelEvent<String>>(16);
    let handler = DiscordHandler::new(tx, "discord".to_string(), vec![7], (), Arc::new(|_| true));
    let _second = handler.event_tx.subscribe();
    assert!(matches!(handler.emit(ChannelEvent::MessageReceived("hi".to_string())), Ok(2)));
    assert!(matches!(handler.announce_connected(), Ok(2)));
    assert!(matches!(rx.try_recv(), Ok(ChannelEvent::MessageReceived(text)) if text == "hi"));
    assert!(matches!(
        rx.try_recv(),
        Ok(ChannelEvent::StatusChanged(ChannelStatus::Connected))
    ));
    assert!(rx.try_recv().is_err());
}

#[test]
fn connection_announced_to_nobody_comes_back() {
    let (tx, _) = broadcast::channel::<ChannelEvent<String>>(16);
    let handler = DiscordHandler::new(tx, "discord".to_string(), vec![], (), Arc::new(|_| true));
    assert!(matches!(
        handler.announce_connected(),
        Err(ChannelEvent::StatusChanged(ChannelStatus::Connected))
    ));
}

#[test]
fn group_filter_is_told_of_mentions() {
    let (tx, _rx) = broadcast::channel::<ChannelEvent<String>>(16);
    let handler = DiscordHandler::new(
        tx,
        "discord".to_string(),
        vec![],
        (),
        Arc::new(|mentioned: bool| mentioned),
    );
    let bot = UserId::new(42);
    assert_eq!(
        handler.screen(&message(false, Some(9), vec![5, 42]), bot),
        Some(Admission { is_group: true, is_mentioned: true })
    );
    assert_eq!(handler.screen(&message(false, Some(9), vec![5]), bot), None);
    assert_eq!(handler.screen(&message(true, Some(9), vec![42]), bot), None);
    assert_eq!(
        handler.screen(&message(false, None, vec![42]), bot),
        Some(Admission { is_group: false, is_mentioned: false })
    );
}

#[test]
fn screening_follows_the_filter_in_guilds_only() {
    let bot = UserId::new(42);
    assert_eq!(
        screen_message(&message(false, Some(9), vec![]), bot, true),
        Some(Admission { is_group: true, is_mentioned: false })
    );
    assert_eq!(screen_message(&message(false, Some(9), vec![42]), bot, false), None);
    assert_eq!(
        screen_message(&message(false, None, vec![]), bot, false),
        Some(Admission { is_group: false, is_mentioned: false })
    );
    assert_eq!(screen_message(&message(true, None, vec![]), bot, true), None);
}

#[test]
fn mentions_count_in_guilds_only() {
    let bot = UserId::new(42);
    assert!(is_mentioned(&message(false, Some(9), vec![1, 42]), bot));
    assert!(!is_mentioned(&message(false, None, vec![42]), bot));
    assert!(!is_mentioned(&message(false, Some(9), vec![4, 2]), bot));
}

#[test]
fn received_messages_are_announced_and_taken_in() {
    let (tx, mut rx) = broadcast::channel::<ChannelEvent<String>>(16);
    let handler = DiscordHandler::new(
        tx,
        "discord".to_string(),
        vec![],
        (),
        Arc::new(|mentioned: bool| !mentioned),
    );
    let bot = UserId::new(42);
    match handler.receive(message(false, Some(9), vec![5]), bot, || "hi".to_string(), 10) {
        Some(reception) => {
            assert!(matches!(reception.heard, Ok(1)));
            assert!(matches!(
                reception.action,
                IntakeAction::Dispatch(request) if request.text == "hello" && request.is_group
            ));
        }
        None => panic!("kept out"),
    }
    assert!(matches!(rx.try_recv(), Ok(ChannelEvent::MessageReceived(text)) if text == "hi"));
}

#[test]
fn messages_kept_out_are_not_announced() {
    let (tx, mut rx) = broadcast::channel::<ChannelEvent<String>>(16);
    let handler = DiscordHandler::new(
        tx,
        "discord".to_string(),
        vec![],
        (),
        Arc::new(|mentioned: bool| !mentioned),
    );
    let bot = UserId::new(42);
    let convert = || -> String { panic!("converted") };
    assert!(handler.receive(message(false, Some(9), vec![42]), bot, convert, 10).is_none());
    assert!(handler.receive(message(true, None, vec![]), bot, convert, 10).is_none());
    assert!(rx.try_recv().is_err());
}

#[test]
fn unheard_messages_are_still_taken_in() {
    let (tx, _) = broadcast::channel::<ChannelEvent<String>>(16);
    let handler = DiscordHandler::new(tx, "discord".to_string(), vec![], (), Arc::new(|_| false));
    let bot = UserId::new(42);
    match handler.receive(message(false, None, vec![]), bot, || "hi".to_string(), 10) {
        Some(reception) => {
            assert!(matches!(
                reception.heard,
                Err(ChannelEvent::MessageReceived(text)) if text == "hi"
            ));
            assert!(matches!(reception.action, IntakeAction::Dispatch(_)));
        }
        None => panic!("kept out"),
    }
}
