use discord_handler::callback::{CallbackRequest, ChannelResponse, DiscordFile};
use discord_handler::chunks::{SyncAction, SyncReply};
use discord_handler::ids::MessageId;
use discord_handler::turn::{MessageTurn, TurnAction, TurnEvent};

const SECOND: u64 = 1_000_000_000;

fn request(text: &str, file: bool) -> CallbackRequest {
    CallbackRequest {
        channel_id: "2".to_string(),
        user_id: "3".to_string(),
        user_name: "ann".to_string(),
        text: text.to_string(),
        is_group: false,
        file: if file {
            Some(DiscordFile {
                filename: "a.txt".to_string(),
                data: vec![1],
                content_type: None,
            })
        } else {
            None
        },
        streamed: true,
    }
}

fn begun(now: u64) -> MessageTurn {
    match MessageTurn::begin(&request("hi", false), now) {
        Some(turn) => turn,
        None => panic!("nothing to answer"),
    }
}

fn delta(turn: MessageTurn, text: &str, now: u64) -> (MessageTurn, TurnAction) {
    turn.step(TurnEvent::Delta { text: text.to_string(), now })
}

fn closed(now: u64) -> MessageTurn {
    let (turn, action) = begun(now).step(TurnEvent::StreamClosed);
    assert!(matches!(action, TurnAction::AwaitCallback));
    turn
}

fn chunks(texts: &[&str]) -> Vec<String> {
    texts.iter().map(|text| text.to_string()).collect()
}

fn sent(id: u64, now: u64) -> TurnEvent {
    TurnEvent::Replied { reply: SyncReply::Sent(Ok(MessageId::new(id))), now }
}

#[test]
fn blank_messages_without_a_file_are_skipped() {
    assert!(MessageTurn::begin(&request(" \n\u{3000}", false), 0).is_none());
    assert!(MessageTurn::begin(&request("", true), 0).is_some());
    assert!(MessageTurn::begin(&request(" a ", false), 0).is_some());
}

#[test]
fn updates_wait_for_the_interval() {
    let (turn, action) = delta(begun(0), "a", 5 * SECOND);
    assert!(matches!(action, TurnAction::AwaitDelta));
    let (turn, action) = delta(turn, "b", 6 * SECOND - 1);
    assert!(matches!(action, TurnAction::AwaitDelta));
    let (turn, action) = delta(turn, "c", 6 * SECOND);
    assert!(matches!(action, TurnAction::Format { text } if text == "abc"));

    let (turn, action) = turn.step(TurnEvent::Formatted { chunks: chunks(&["abc"]), now: 6 * SECOND });
    assert!(matches!(action, TurnAction::Call(SyncAction::Send { content }) if content == "abc"));
    let (turn, action) = turn.step(sent(11, 7 * SECOND));
    assert!(matches!(action, TurnAction::AwaitDelta));

    let (turn, action) = delta(turn, "d", 8 * SECOND - 1);
    assert!(matches!(action, TurnAction::AwaitDelta));
    let (_, action) = delta(turn, "e", 8 * SECOND);
    assert!(matches!(action, TurnAction::Format { text } if text == "abcde"));
}

#[test]
fn first_update_waits_for_the_beginning_too() {
    let (turn, _) = delta(begun(10 * SECOND), "a", 9 * SECOND);
    let (turn, action) = delta(turn, "b", 10 * SECOND + 1);
    assert!(matches!(action, TurnAction::AwaitDelta));
    let (_, action) = delta(turn, "c", 11 * SECOND);
    assert!(matches!(action, TurnAction::Format { text } if text == "abc"));
}

#[test]
fn update_without_changes_makes_no_call() {
    let (turn, _) = delta(begun(0), "a", SECOND);
    let (turn, _) = delta(turn, "", 2 * SECOND);
    let (turn, action) = turn.step(TurnEvent::Formatted { chunks: vec![], now: 3 * SECOND });
    assert!(matches!(action, TurnAction::AwaitDelta));
    let (_, action) = delta(turn, "b", 4 * SECOND - 1);
    assert!(matches!(action, TurnAction::AwaitDelta));
}

#[test]
fn failed_update_ends_streaming() {
    let (turn, _) = delta(begun(0), "a", SECOND);
    let (turn, _) = delta(turn, "b", 2 * SECOND);
    let (turn, _) = turn.step(TurnEvent::Formatted { chunks: chunks(&["ab"]), now: 2 * SECOND });
    let (turn, action) = turn.step(TurnEvent::Replied {
        reply: SyncReply::Sent(Err("no".to_string())),
        now: 2 * SECOND,
    });
    assert!(matches!(action, TurnAction::AwaitCallback));
    assert_eq!(turn.failure(), Some("failed to send Discord chunk: no"));
}

#[test]
fn last_text_replaces_what_was_streamed() {
    let (turn, _) = delta(begun(0), "a", SECOND);
    let (turn, _) = delta(turn, "b", 2 * SECOND);
    let streamed = chunks(&["ab", "extra"]);
    let (turn, _) = turn.step(TurnEvent::Formatted { chunks: streamed, now: 2 * SECOND });
    let (turn, _) = turn.step(sent(11, 2 * SECOND));
    let (turn, action) = turn.step(sent(12, 2 * SECOND));
    assert!(matches!(action, TurnAction::AwaitDelta));
    let (turn, _) = turn.step(TurnEvent::StreamClosed);
    assert_eq!(turn.failure(), None);

    let answer = ChannelResponse::Text("final".to_string());
    let (turn, action) = turn.step(TurnEvent::Returned(Ok(answer)));
    assert!(matches!(action, TurnAction::Format { text } if text == "final"));
    let (turn, action) = turn.step(TurnEvent::Formatted { chunks: chunks(&["final"]), now: 0 });
    assert!(matches!(
        action,
        TurnAction::Call(SyncAction::Edit { id, content }) if id.get() == 11 && content == "final"
    ));
    let (turn, action) = turn.step(TurnEvent::Replied { reply: SyncReply::Edited(Ok(())), now: 0 });
    assert!(matches!(action, TurnAction::Call(SyncAction::Delete { id }) if id.get() == 12));
    let (turn, action) = turn.step(TurnEvent::Replied { reply: SyncReply::Deleted, now: 0 });
    assert!(matches!(action, TurnAction::Finished));
    assert_eq!(turn.failure(), None);
}

#[test]
fn failed_last_text_is_told() {
    let answer = ChannelResponse::Text("final".to_string());
    let (turn, _) = closed(0).step(TurnEvent::Returned(Ok(answer)));
    let (turn, _) = turn.step(TurnEvent::Formatted { chunks: chunks(&["final"]), now: 0 });
    let (turn, action) = turn.step(TurnEvent::Replied {
        reply: SyncReply::Sent(Err("down".to_string())),
        now: 0,
    });
    assert!(matches!(action, TurnAction::Finished));
    assert_eq!(turn.failure(), Some("failed to send Discord chunk: down"));
}

#[test]
fn blocked_users_get_no_answer() {
    let (turn, action) = closed(0).step(TurnEvent::Returned(Err("__blocked__".to_string())));
    assert!(matches!(action, TurnAction::Finished));
    assert_eq!(turn.failure(), None);
}

#[test]
fn errors_are_reported_to_the_user() {
    let (_, action) = closed(0).step(TurnEvent::Returned(Err("boom".to_string())));
    assert!(matches!(
        action,
        TurnAction::Format { text } if text == "Sorry, an error occurred: boom"
    ));
    let (_, action) = closed(0).step(TurnEvent::Panicked("__blocked__".to_string()));
    assert!(matches!(
        action,
        TurnAction::Format { text } if text == "Sorry, an error occurred: task panic: __blocked__"
    ));
}

#[test]
fn voice_is_sent_as_a_file() {
    let answer = ChannelResponse::Voice { text: "said".to_string(), audio: vec![1, 2, 3] };
    let (turn, action) = closed(0).step(TurnEvent::Returned(Ok(answer)));
    assert!(matches!(
        action,
        TurnAction::SendVoice { filename, audio } if filename == "voice.ogg" && audio == [1, 2, 3]
    ));
    let (_, action) = turn.step(TurnEvent::VoiceSent { delivered: true });
    assert!(matches!(action, TurnAction::Finished));
}

#[test]
fn text_stands_in_for_voice() {
    let answer = ChannelResponse::Voice { text: "said".to_string(), audio: vec![1] };
    let (turn, _) = closed(0).step(TurnEvent::Returned(Ok(answer)));
    let (turn, action) = turn.step(TurnEvent::VoiceSent { delivered: false });
    assert!(matches!(action, TurnAction::Format { text } if text == "said"));
    let (_, action) = turn.step(TurnEvent::Formatted { chunks: chunks(&["said"]), now: 0 });
    assert!(matches!(action, TurnAction::Call(SyncAction::Send { content }) if content == "said"));
}

#[test]
fn typing_is_shown_until_the_callback_is_done() {
    let (turn, _) = delta(begun(0), "a", SECOND);
    assert!(turn.shows_typing());
    let (turn, _) = delta(turn, "b", 2 * SECOND);
    assert!(turn.shows_typing());
    let (turn, _) = turn.step(TurnEvent::Formatted { chunks: chunks(&["ab"]), now: 2 * SECOND });
    assert!(turn.shows_typing());
    let (turn, _) = turn.step(sent(11, 2 * SECOND));
    let (turn, _) = turn.step(TurnEvent::StreamClosed);
    assert!(turn.shows_typing());
    let answer = ChannelResponse::Text("ab".to_string());
    let (turn, _) = turn.step(TurnEvent::Returned(Ok(answer)));
    assert!(!turn.shows_typing());
    let (turn, action) = turn.step(TurnEvent::Formatted { chunks: chunks(&["ab"]), now: 0 });
    assert!(matches!(action, TurnAction::Finished));
    assert!(!turn.shows_typing());

    let (turn, _) = closed(0).step(TurnEvent::Panicked("gone".to_string()));
    assert!(!turn.shows_typing());
    let answer = ChannelResponse::Voice { text: "said".to_string(), audio: vec![1] };
    let (turn, _) = closed(0).step(TurnEvent::Returned(Ok(answer)));
    assert!(!turn.shows_typing());
}
