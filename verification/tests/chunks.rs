use discord_handler::chunks::{ChunkSync, SyncAction, SyncReply};
use discord_handler::ids::MessageId;

fn strings(texts: &[&str]) -> Vec<String> {
    texts.iter().map(|text| text.to_string()).collect()
}

fn posted(posts: &[(u64, &str)]) -> Vec<(MessageId, String)> {
    posts.iter().map(|(id, text)| (MessageId::new(*id), text.to_string())).collect()
}

/// Carries every call out successfully, numbering new messages from 100 on, and lists the calls.
fn run(mut sync: ChunkSync) -> (Vec<String>, Vec<(MessageId, String)>) {
    let mut calls = Vec::new();
    let mut next = 100;
    loop {
        match sync.action() {
            SyncAction::Edit { id, content } => {
                calls.push(format!("edit {} {}", id.get(), content));
                sync.reply(SyncReply::Edited(Ok(())));
            }
            SyncAction::Send { content } => {
                calls.push(format!("send {}", content));
                sync.reply(SyncReply::Sent(Ok(MessageId::new(next))));
                next += 1;
            }
            SyncAction::Delete { id } => {
                calls.push(format!("delete {}", id.get()));
                sync.reply(SyncReply::Deleted);
            }
            SyncAction::Finished(result) => {
                assert!(result.is_ok());
                return (calls, sync.into_sent());
            }
        }
    }
}

#[test]
fn chunks_are_sent_where_none_are_posted() {
    let (calls, sent) = run(ChunkSync::start(strings(&["a", "b"]), vec![], false));
    assert_eq!(calls, ["send a", "send b"]);
    assert_eq!(sent, posted(&[(100, "a"), (101, "b")]));
}

#[test]
fn only_changed_messages_are_edited() {
    let before = posted(&[(1, "a"), (2, "old"), (3, "c")]);
    let (calls, sent) = run(ChunkSync::start(strings(&["a", "b", "c", "d"]), before, true));
    assert_eq!(calls, ["edit 2 b", "send d"]);
    assert_eq!(sent, posted(&[(1, "a"), (2, "b"), (3, "c"), (100, "d")]));
}

#[test]
fn leftover_messages_go_at_the_end_only() {
    let before = posted(&[(1, "a"), (2, "b"), (3, "c")]);
    let (calls, sent) = run(ChunkSync::start(strings(&["x"]), before, false));
    assert_eq!(calls, ["edit 1 x"]);
    assert_eq!(sent, posted(&[(1, "x"), (2, "b"), (3, "c")]));

    let (calls, sent) = run(ChunkSync::start(strings(&["x"]), sent, true));
    assert_eq!(calls, ["delete 2", "delete 3"]);
    assert_eq!(sent, posted(&[(1, "x")]));
}

#[test]
fn synchronising_twice_does_nothing_more() {
    let chunks = ["a", "b"];
    let (_, sent) = run(ChunkSync::start(strings(&chunks), posted(&[(9, "z")]), true));
    let (calls, again) = run(ChunkSync::start(strings(&chunks), sent.clone(), true));
    assert!(calls.is_empty());
    assert_eq!(again, sent);
}

#[test]
fn no_chunks_delete_everything() {
    let (calls, sent) = run(ChunkSync::start(vec![], posted(&[(1, "a")]), true));
    assert_eq!(calls, ["delete 1"]);
    assert!(sent.is_empty());
}

#[test]
fn failed_edit_gives_up() {
    let before = posted(&[(1, "a"), (2, "b"), (3, "c")]);
    let mut sync = ChunkSync::start(strings(&["x", "y"]), before, true);
    sync.reply(SyncReply::Edited(Ok(())));
    sync.reply(SyncReply::Edited(Err("gone".to_string())));
    assert!(matches!(
        sync.action(),
        SyncAction::Finished(Err(e)) if e == "failed to edit Discord message: gone"
    ));
    assert_eq!(sync.into_sent(), posted(&[(1, "x"), (2, "b"), (3, "c")]));
}

#[test]
fn failed_send_gives_up() {
    let mut sync = ChunkSync::start(strings(&["x"]), vec![], true);
    sync.reply(SyncReply::Sent(Err("no".to_string())));
    assert!(matches!(
        sync.action(),
        SyncAction::Finished(Err(e)) if e == "failed to send Discord chunk: no"
    ));
    assert!(sync.into_sent().is_empty());
}

#[test]
fn retry_posts_nothing_twice() {
    let mut sync = ChunkSync::start(strings(&["x", "y"]), vec![], true);
    sync.reply(SyncReply::Sent(Ok(MessageId::new(5))));
    sync.reply(SyncReply::Sent(Err("no".to_string())));
    let (calls, sent) = run(ChunkSync::start(strings(&["x", "y"]), sync.into_sent(), true));
    assert_eq!(calls, ["send y"]);
    assert_eq!(sent, posted(&[(5, "x"), (100, "y")]));
}
