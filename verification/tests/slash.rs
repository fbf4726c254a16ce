use discord_handler::callback::{apology_text, blocks_user, ChannelResponse};
use discord_handler::ids::{ChannelId, UserId};
use discord_handler::slash::{answer_text, Member, SlashAction, SlashCommand, SlashEvent, SlashTurn};

fn command(member: Option<Member>) -> SlashCommand {
    SlashCommand {
        name: "help".to_string(),
        channel_id: ChannelId::new(20),
        user_id: UserId::new(305),
        user_name: "ann".to_string(),
        member,
    }
}

fn formatting() -> SlashTurn {
    let (turn, action) = SlashTurn::begin(command(None));
    assert!(matches!(action, SlashAction::Defer));
    let (turn, _) = turn.step(SlashEvent::Deferred { accepted: true });
    let (turn, action) = turn.step(SlashEvent::Returned(Ok(ChannelResponse::Text("ok".to_string()))));
    assert!(matches!(action, SlashAction::Format { text } if text == "ok"));
    turn
}

/// Delivers the chunks, of which the one at `fails` is not accepted, and lists the deliveries.
fn deliver(chunks: &[&str], fails: usize) -> Vec<String> {
    let chunks = chunks.iter().map(|text| text.to_string()).collect();
    let (mut turn, mut action) = formatting().step(SlashEvent::Formatted { chunks });
    let mut deliveries = Vec::new();
    loop {
        match action {
            SlashAction::EditResponse { content } => deliveries.push(format!("edit {content}")),
            SlashAction::CreateFollowup { content } => deliveries.push(format!("follow {content}")),
            SlashAction::Finished => return deliveries,
            _ => panic!("no delivery"),
        }
        let accepted = deliveries.len() != fails + 1;
        (turn, action) = turn.step(SlashEvent::Delivered { accepted });
    }
}

#[test]
fn command_is_handed_to_the_callback() {
    let (turn, _) = SlashTurn::begin(command(Some(Member { nick: Some("annie".to_string()) })));
    let (_, action) = turn.step(SlashEvent::Deferred { accepted: true });
    match action {
        SlashAction::Invoke(request) => {
            assert_eq!(request.channel_id, "20");
            assert_eq!(request.user_id, "305");
            assert_eq!(request.user_name, "annie");
            assert_eq!(request.text, "/help");
            assert!(!request.is_group);
            assert!(request.file.is_none());
            assert!(!request.streamed);
        }
        _ => panic!("the callback is not called"),
    }
}

#[test]
fn account_name_stands_in_for_the_nickname() {
    for member in [None, Some(Member { nick: None })] {
        let (turn, _) = SlashTurn::begin(command(member));
        let (_, action) = turn.step(SlashEvent::Deferred { accepted: true });
        assert!(matches!(action, SlashAction::Invoke(request) if request.user_name == "ann"));
    }
}

#[test]
fn command_that_cannot_be_deferred_is_dropped() {
    let (turn, _) = SlashTurn::begin(command(None));
    let (_, action) = turn.step(SlashEvent::Deferred { accepted: false });
    assert!(matches!(action, SlashAction::Finished));
}

#[test]
fn answers_are_delivered_in_order() {
    assert_eq!(deliver(&["a", "b", "c"], 9), ["edit a", "follow b", "follow c"]);
    assert_eq!(deliver(&["a"], 9), ["edit a"]);
}

#[test]
fn empty_answer_shows_a_zero_width_space() {
    assert_eq!(deliver(&[], 9), ["edit \u{200B}"]);
}

#[test]
fn failed_delivery_is_the_last() {
    assert_eq!(deliver(&["a", "b", "c"], 0), ["edit a"]);
    assert_eq!(deliver(&["a", "b", "c"], 1), ["edit a", "follow b"]);
}

#[test]
fn outcomes_become_answers() {
    assert_eq!(answer_text(Ok(ChannelResponse::Text("hi".to_string()))), "hi");
    assert_eq!(
        answer_text(Ok(ChannelResponse::Voice { text: "said".to_string(), audio: vec![1] })),
        "said"
    );
    assert_eq!(
        answer_text(Err("__blocked__".to_string())),
        "You are not authorized to use this bot."
    );
    assert_eq!(answer_text(Err("boom".to_string())), "Sorry, an error occurred: boom");
}

#[test]
fn only_one_error_blocks() {
    assert!(blocks_user(&"__blocked__".to_string()));
    assert!(!blocks_user(&"__blocked__ ".to_string()));
    assert_eq!(apology_text(""), "Sorry, an error occurred: ");
}
