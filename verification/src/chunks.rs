//! Bringing the messages posted in a channel in line with the chunks of a text.
//!
//! A reply too long for one message is posted as several. While the reply grows, and once more
//! when it is complete, the messages posted so far are edited where their text has changed, the
//! missing ones are sent, and, at the end, those that are left over are deleted.

use vstd::prelude::*;

use crate::ids::MessageId;
use crate::message::text_of;

verus! {

/// The characters of each string.
pub open spec fn texts(strings: Seq<String>) -> Seq<Seq<char>> {
    strings.map_values(|s: String| s@)
}

/// The number and the characters of each posted message.
pub open spec fn posts(sent: Seq<(MessageId, String)>) -> Seq<(u64, Seq<char>)> {
    sent.map_values(|post: (MessageId, String)| (post.0@, post.1@))
}

/// The state of a synchronisation.
pub struct SyncModel {
    /// The texts that the messages should have.
    pub chunks: Seq<Seq<char>>,
    /// The messages posted, each with its number and the text it was given last.
    pub sent: Seq<(u64, Seq<char>)>,
    /// Whether messages beyond the chunks are to go.
    pub is_final: bool,
    /// How many of the chunks are posted.
    pub done: int,
    /// Why the synchronisation was given up.
    pub error: Option<Seq<char>>,
}

/// What is to be done next.
pub enum SyncActionModel {
    /// Give a posted message another text.
    Edit { id: u64, content: Seq<char> },
    /// Post a message.
    Send { content: Seq<char> },
    /// Delete a posted message.
    Delete { id: u64 },
    /// Nothing more.
    Finished(Result<(), Seq<char>>),
}

/// What came of an action.
pub enum SyncReplyModel {
    Edited(Result<(), Seq<char>>),
    Sent(Result<u64, Seq<char>>),
    Deleted,
}

/// The first chunk, from the given one on, that no posted message shows.
pub open spec fn first_unposted(
    chunks: Seq<Seq<char>>,
    sent: Seq<(u64, Seq<char>)>,
    from: int,
) -> int
    decreases chunks.len() - from,
{
    if from < chunks.len() && from < sent.len() && sent[from].1 == chunks[from] {
        first_unposted(chunks, sent, from + 1)
    } else {
        from
    }
}

impl SyncModel {
    /// The same state, past the chunks that are already posted.
    pub open spec fn settled(self) -> SyncModel {
        SyncModel { done: first_unposted(self.chunks, self.sent, self.done), ..self }
    }

    /// The state at the beginning.
    pub open spec fn start(
        chunks: Seq<Seq<char>>,
        sent: Seq<(u64, Seq<char>)>,
        is_final: bool,
    ) -> SyncModel {
        SyncModel { chunks, sent, is_final, done: 0, error: None }.settled()
    }

    /// What is to be done in this state.
    pub open spec fn action(self) -> SyncActionModel {
        if self.error is Some {
            SyncActionModel::Finished(Err(self.error->0))
        } else if self.done < self.chunks.len() {
            if self.done < self.sent.len() {
                SyncActionModel::Edit {
                    id: self.sent[self.done].0,
                    content: self.chunks[self.done],
                }
            } else {
                SyncActionModel::Send { content: self.chunks[self.done] }
            }
        } else if self.is_final && self.sent.len() > self.chunks.len() {
            SyncActionModel::Delete { id: self.sent[self.chunks.len() as int].0 }
        } else {
            SyncActionModel::Finished(Ok(()))
        }
    }

    /// Whether the reply answers the action of this state.
    pub open spec fn awaits(self, reply: SyncReplyModel) -> bool {
        match reply {
            SyncReplyModel::Edited(_) => self.action() is Edit,
            SyncReplyModel::Sent(_) => self.action() is Send,
            SyncReplyModel::Deleted => self.action() is Delete,
        }
    }

    /// The state after the reply. A failed edit or send gives the synchronisation up; a message
    /// to be deleted is forgotten whatever came of it.
    pub open spec fn after(self, reply: SyncReplyModel) -> SyncModel {
        match reply {
            SyncReplyModel::Edited(Ok(_)) => SyncModel {
                sent: self.sent.update(
                    self.done,
                    (self.sent[self.done].0, self.chunks[self.done]),
                ),
                done: self.done + 1,
                ..self
            }.settled(),
            SyncReplyModel::Edited(Err(e)) => SyncModel {
                error: Some("failed to edit Discord message: "@ + e),
                ..self
            },
            SyncReplyModel::Sent(Ok(id)) => SyncModel {
                sent: self.sent.push((id, self.chunks[self.done])),
                done: self.done + 1,
                ..self
            }.settled(),
            SyncReplyModel::Sent(Err(e)) => SyncModel {
                error: Some("failed to send Discord chunk: "@ + e),
                ..self
            },
            SyncReplyModel::Deleted => SyncModel {
                sent: self.sent.remove(self.chunks.len() as int),
                ..self
            },
        }
    }
}

/// What is to be done next.
#[derive(Debug)]
pub enum SyncAction {
    /// Give a posted message another text.
    Edit { id: MessageId, content: String },
    /// Post a message.
    Send { content: String },
    /// Delete a posted message.
    Delete { id: MessageId },
    /// Nothing more: every chunk is posted, or the text says what failed.
    Finished(Result<(), String>),
}

impl View for SyncAction {
    type V = SyncActionModel;

    open spec fn view(&self) -> SyncActionModel {
        match self {
            SyncAction::Edit { id, content } => SyncActionModel::Edit {
                id: id@,
                content: content@,
            },
            SyncAction::Send { content } => SyncActionModel::Send { content: content@ },
            SyncAction::Delete { id } => SyncActionModel::Delete { id: id@ },
            SyncAction::Finished(Ok(_)) => SyncActionModel::Finished(Ok(())),
            SyncAction::Finished(Err(e)) => SyncActionModel::Finished(Err(e@)),
        }
    }
}

/// What came of an action.
#[derive(Debug)]
pub enum SyncReply {
    /// The message was edited, or the text says why not.
    Edited(Result<(), String>),
    /// The message was posted under this number, or the text says why not.
    Sent(Result<MessageId, String>),
    /// The deletion was tried.
    Deleted,
}

impl View for SyncReply {
    type V = SyncReplyModel;

    open spec fn view(&self) -> SyncReplyModel {
        match self {
            SyncReply::Edited(Ok(_)) => SyncReplyModel::Edited(Ok(())),
            SyncReply::Edited(Err(e)) => SyncReplyModel::Edited(Err(e@)),
            SyncReply::Sent(Ok(id)) => SyncReplyModel::Sent(Ok(id@)),
            SyncReply::Sent(Err(e)) => SyncReplyModel::Sent(Err(e@)),
            SyncReply::Deleted => SyncReplyModel::Deleted,
        }
    }
}

/// A synchronisation under way.
#[derive(Debug)]
pub struct ChunkSync {
    chunks: Vec<String>,
    sent: Vec<(MessageId, String)>,
    is_final: bool,
    done: usize,
    error: Option<String>,
}

impl View for ChunkSync {
    type V = SyncModel;

    closed spec fn view(&self) -> SyncModel {
        SyncModel {
            chunks: texts(self.chunks@),
            sent: posts(self.sent@),
            is_final: self.is_final,
            done: self.done as int,
            error: text_of(self.error),
        }
    }
}

impl ChunkSync {
    /// Begins to bring the messages in `sent` in line with `chunks`.
    pub fn start(chunks: Vec<String>, sent: Vec<(MessageId, String)>, is_final: bool) -> (sync: Self)
        ensures
            sync@ == SyncModel::start(texts(chunks@), posts(sent@), is_final),
    {
        let mut sync = ChunkSync { chunks, sent, is_final, done: 0, error: None };
        sync.settle();
        sync
    }

    /// Goes past the chunks that are already posted.
    fn settle(&mut self)
        ensures
            final(self)@ == old(self)@.settled(),
    {
        let ghost before = self@;
        while self.done < self.chunks.len() && self.done < self.sent.len()
            && self.sent[self.done].1.eq(&self.chunks[self.done])
            invariant
                self@.settled() == before.settled(),
            ensures
                self@ == self@.settled(),
            decreases self.chunks@.len() - self.done,
        {
            self.done = self.done + 1;
        }
    }

    /// What is to be done next.
    pub fn action(&self) -> (action: SyncAction)
        ensures
            action@ == self@.action(),
    {
        match &self.error {
            Some(error) => {
                return SyncAction::Finished(Err(error.clone()));
            },
            None => {},
        }
        if self.done < self.chunks.len() {
            let content = self.chunks[self.done].clone();
            if self.done < self.sent.len() {
                SyncAction::Edit { id: self.sent[self.done].0, content }
            } else {
                SyncAction::Send { content }
            }
        } else if self.is_final && self.sent.len() > self.chunks.len() {
            SyncAction::Delete { id: self.sent[self.chunks.len()].0 }
        } else {
            SyncAction::Finished(Ok(()))
        }
    }

    /// Takes in what came of the action.
    pub fn reply(&mut self, reply: SyncReply)
        requires
            old(self)@.awaits(reply@),
        ensures
            final(self)@ == old(self)@.after(reply@),
    {
        match reply {
            SyncReply::Edited(Ok(_)) => {
                let done: usize = self.done;
                assert(done < self.chunks.len());
                let id = self.sent[done].0;
                let text = self.chunks[done].clone();
                self.sent.set(done, (id, text));
                self.done = done + 1;
                assert(self@.sent =~= old(self)@.sent.update(
                    done as int,
                    (old(self)@.sent[done as int].0, old(self)@.chunks[done as int]),
                ));
                self.settle();
            },
            SyncReply::Edited(Err(e)) => {
                self.error = Some(
                    "failed to edit Discord message: ".to_string().concat(e.as_str()),
                );
            },
            SyncReply::Sent(Ok(id)) => {
                let done: usize = self.done;
                assert(done < self.chunks.len());
                let text = self.chunks[done].clone();
                self.sent.push((id, text));
                self.done = done + 1;
                assert(self@.sent =~= old(self)@.sent.push((id@, old(self)@.chunks[done as int])));
                self.settle();
            },
            SyncReply::Sent(Err(e)) => {
                self.error = Some("failed to send Discord chunk: ".to_string().concat(e.as_str()));
            },
            SyncReply::Deleted => {
                let at: usize = self.chunks.len();
                self.sent.remove(at);
                assert(self@.sent =~= old(self)@.sent.remove(at as int));
            },
        }
    }

    /// The messages posted, with the text that each was given last.
    pub fn into_sent(self) -> (sent: Vec<(MessageId, String)>)
        ensures
            posts(sent@) == self@.sent,
    {
        self.sent
    }
}

/// Whether each of the replies answers the action of the state that it finds.
pub open spec fn sync_accepts(m: SyncModel, replies: Seq<SyncReplyModel>) -> bool
    decreases replies.len(),
{
    replies.len() > 0 ==> m.awaits(replies.first()) && sync_accepts(
        m.after(replies.first()),
        replies.drop_first(),
    )
}

/// The state after all the replies.
pub open spec fn sync_run(m: SyncModel, replies: Seq<SyncReplyModel>) -> SyncModel
    decreases replies.len(),
{
    if replies.len() == 0 {
        m
    } else {
        sync_run(m.after(replies.first()), replies.drop_first())
    }
}

/// Whether the first messages show the first `count` chunks, and those of them that were posted
/// before are the same messages.
pub open spec fn mirrors(
    before: Seq<(u64, Seq<char>)>,
    sent: Seq<(u64, Seq<char>)>,
    chunks: Seq<Seq<char>>,
    count: int,
) -> bool {
    &&& count <= sent.len()
    &&& forall|i: int| 0 <= i < count ==> (#[trigger] sent[i]).1 == chunks[i]
    &&& forall|i: int| 0 <= i < count && i < before.len() ==> (#[trigger] sent[i]).0 == before[i].0
}

/// Whether the messages from the given one on are those that were posted before.
pub open spec fn keeps_rest(
    before: Seq<(u64, Seq<char>)>,
    sent: Seq<(u64, Seq<char>)>,
    from: int,
) -> bool {
    &&& sent.len() == if before.len() > from {
        before.len() as int
    } else {
        from
    }
    &&& forall|i: int| from <= i < before.len() ==> #[trigger] sent[i] == before[i]
}

/// What holds in every state of a synchronisation that began with `before`.
pub open spec fn sync_invariant(before: Seq<(u64, Seq<char>)>, m: SyncModel) -> bool {
    &&& 0 <= m.done <= m.chunks.len()
    &&& m.done == first_unposted(m.chunks, m.sent, m.done)
    &&& mirrors(before, m.sent, m.chunks, m.done)
    &&& m.is_final && m.done == m.chunks.len() || keeps_rest(before, m.sent, m.done)
    &&& m.error is Some ==> m.done < m.chunks.len()
}

/// Going past posted chunks keeps to them.
proof fn lemma_first_unposted(chunks: Seq<Seq<char>>, sent: Seq<(u64, Seq<char>)>, from: int)
    requires
        0 <= from <= chunks.len(),
        from <= sent.len(),
    ensures
        from <= first_unposted(chunks, sent, from) <= chunks.len(),
        first_unposted(chunks, sent, from) <= sent.len(),
        first_unposted(chunks, sent, first_unposted(chunks, sent, from)) == first_unposted(
            chunks,
            sent,
            from,
        ),
        forall|i: int|
            from <= i < first_unposted(chunks, sent, from) ==> (#[trigger] sent[i]).1 == chunks[i],
    decreases chunks.len() - from,
{
    if from < chunks.len() && from < sent.len() && sent[from].1 == chunks[from] {
        lemma_first_unposted(chunks, sent, from + 1);
    }
}

/// Settling a state keeps what holds of it.
proof fn lemma_settled(before: Seq<(u64, Seq<char>)>, m: SyncModel)
    requires
        0 <= m.done <= m.chunks.len(),
        mirrors(before, m.sent, m.chunks, m.done),
        keeps_rest(before, m.sent, m.done),
        m.error is None,
    ensures
        sync_invariant(before, m.settled()),
        m.settled().done >= m.done,
{
    lemma_first_unposted(m.chunks, m.sent, m.done);
}

/// The invariant holds at the beginning.
pub proof fn lemma_sync_start(chunks: Seq<Seq<char>>, before: Seq<(u64, Seq<char>)>, is_final: bool)
    ensures
        sync_invariant(before, SyncModel::start(chunks, before, is_final)),
        SyncModel::start(chunks, before, is_final).chunks == chunks,
        SyncModel::start(chunks, before, is_final).is_final == is_final,
        sync_calls_left(SyncModel::start(chunks, before, is_final)) <= chunks.len() + if is_final
            && before.len() > chunks.len() {
            before.len() - chunks.len()
        } else {
            0
        },
{
    lemma_settled(before, SyncModel { chunks, sent: before, is_final, done: 0, error: None });
}

/// How many calls are left at most.
pub open spec fn sync_calls_left(m: SyncModel) -> int {
    if m.error is Some {
        0
    } else {
        m.chunks.len() - m.done + if m.is_final && m.sent.len() > m.chunks.len() {
            m.sent.len() - m.chunks.len()
        } else {
            0
        }
    }
}

/// Every reply keeps the invariant, and leaves fewer calls to make.
pub proof fn lemma_sync_after(before: Seq<(u64, Seq<char>)>, m: SyncModel, reply: SyncReplyModel)
    requires
        sync_invariant(before, m),
        m.awaits(reply),
    ensures
        sync_invariant(before, m.after(reply)),
        m.after(reply).chunks == m.chunks,
        m.after(reply).is_final == m.is_final,
        0 <= sync_calls_left(m.after(reply)) < sync_calls_left(m),
{
    match reply {
        SyncReplyModel::Edited(Ok(_)) => {
            let next = SyncModel {
                sent: m.sent.update(m.done, (m.sent[m.done].0, m.chunks[m.done])),
                done: m.done + 1,
                ..m
            };
            lemma_settled(before, next);
        },
        SyncReplyModel::Sent(Ok(id)) => {
            let next = SyncModel {
                sent: m.sent.push((id, m.chunks[m.done])),
                done: m.done + 1,
                ..m
            };
            lemma_settled(before, next);
        },
        _ => {},
    }
}

/// The invariant holds after any replies, of which there are no more than calls to make.
proof fn lemma_sync_run(before: Seq<(u64, Seq<char>)>, m: SyncModel, replies: Seq<SyncReplyModel>)
    requires
        sync_invariant(before, m),
        sync_accepts(m, replies),
    ensures
        sync_invariant(before, sync_run(m, replies)),
        sync_run(m, replies).chunks == m.chunks,
        sync_run(m, replies).is_final == m.is_final,
        replies.len() + sync_calls_left(sync_run(m, replies)) <= sync_calls_left(m),
        sync_calls_left(sync_run(m, replies)) >= 0,
    decreases replies.len(),
{
    if replies.len() > 0 {
        lemma_sync_after(before, m, replies.first());
        lemma_sync_run(before, m.after(replies.first()), replies.drop_first());
    }
}

/// When a synchronisation ends well, the first messages show the chunks, one each and in order,
/// and the messages that were there before are reused in their places. At the end of a reply no
/// message is left over; before that, the messages beyond the chunks stay as they were.
pub proof fn law_sync_posts_the_chunks(
    chunks: Seq<Seq<char>>,
    before: Seq<(u64, Seq<char>)>,
    is_final: bool,
    replies: Seq<SyncReplyModel>,
)
    requires
        sync_accepts(SyncModel::start(chunks, before, is_final), replies),
        sync_run(SyncModel::start(chunks, before, is_final), replies).action()
            == SyncActionModel::Finished(Ok(())),
    ensures
        ({
            let sent = sync_run(SyncModel::start(chunks, before, is_final), replies).sent;
            &&& mirrors(before, sent, chunks, chunks.len() as int)
            &&& is_final ==> sent.len() == chunks.len()
            &&& !is_final ==> keeps_rest(before, sent, chunks.len() as int)
        }),
{
    lemma_sync_start(chunks, before, is_final);
    lemma_sync_run(before, SyncModel::start(chunks, before, is_final), replies);
}

/// When a synchronisation is given up, it is at some chunk: the messages before it show their
/// chunks, and those from it on are as they were.
pub proof fn law_failed_sync_keeps_the_rest(
    chunks: Seq<Seq<char>>,
    before: Seq<(u64, Seq<char>)>,
    is_final: bool,
    replies: Seq<SyncReplyModel>,
)
    requires
        sync_accepts(SyncModel::start(chunks, before, is_final), replies),
        sync_run(SyncModel::start(chunks, before, is_final), replies).error is Some,
    ensures
        ({
            let m = sync_run(SyncModel::start(chunks, before, is_final), replies);
            &&& 0 <= m.done < chunks.len()
            &&& mirrors(before, m.sent, chunks, m.done)
            &&& keeps_rest(before, m.sent, m.done)
        }),
{
    lemma_sync_start(chunks, before, is_final);
    lemma_sync_run(before, SyncModel::start(chunks, before, is_final), replies);
}

/// A synchronisation ends after at most one call for each chunk and, at the end of a reply, one
/// for each message left over.
pub proof fn law_sync_ends(
    chunks: Seq<Seq<char>>,
    before: Seq<(u64, Seq<char>)>,
    is_final: bool,
    replies: Seq<SyncReplyModel>,
)
    requires
        sync_accepts(SyncModel::start(chunks, before, is_final), replies),
    ensures
        replies.len() <= chunks.len() + if is_final && before.len() > chunks.len() {
            before.len() - chunks.len()
        } else {
            0
        },
{
    lemma_sync_start(chunks, before, is_final);
    lemma_sync_run(before, SyncModel::start(chunks, before, is_final), replies);
}

/// A message is edited only to change its text.
pub proof fn law_edits_change_the_text(
    chunks: Seq<Seq<char>>,
    before: Seq<(u64, Seq<char>)>,
    is_final: bool,
    replies: Seq<SyncReplyModel>,
)
    requires
        sync_accepts(SyncModel::start(chunks, before, is_final), replies),
    ensures
        ({
            let m = sync_run(SyncModel::start(chunks, before, is_final), replies);
            m.action() matches SyncActionModel::Edit { id, content } ==> {
                &&& m.sent[m.done].0 == id
                &&& m.sent[m.done].1 != content
            }
        }),
{
    lemma_sync_start(chunks, before, is_final);
    lemma_sync_run(before, SyncModel::start(chunks, before, is_final), replies);
    let m = sync_run(SyncModel::start(chunks, before, is_final), replies);
    if m.action() is Edit {
        lemma_first_unposted(m.chunks, m.sent, m.done + 1);
    }
}

/// The numbers under which messages were posted, in the order of the replies.
pub open spec fn posted_numbers(replies: Seq<SyncReplyModel>) -> Seq<u64>
    decreases replies.len(),
{
    if replies.len() == 0 {
        Seq::empty()
    } else {
        match replies.first() {
            SyncReplyModel::Sent(Ok(id)) => seq![id] + posted_numbers(replies.drop_first()),
            _ => posted_numbers(replies.drop_first()),
        }
    }
}

/// Whether the message at `i` has the number that it had before, or else the one that it was
/// posted under.
pub open spec fn keeps_number(
    before: Seq<(u64, Seq<char>)>,
    sent: Seq<(u64, Seq<char>)>,
    replies: Seq<SyncReplyModel>,
    i: int,
) -> bool {
    if i < before.len() {
        sent[i].0 == before[i].0
    } else {
        &&& i - before.len() < posted_numbers(replies).len()
        &&& sent[i].0 == posted_numbers(replies)[i - before.len()]
    }
}

/// From any state on, the messages keep their numbers and new ones get theirs from the replies.
proof fn lemma_numbers(before: Seq<(u64, Seq<char>)>, m: SyncModel, replies: Seq<SyncReplyModel>)
    requires
        sync_invariant(before, m),
        sync_accepts(m, replies),
    ensures
        forall|i: int|
            0 <= i < m.chunks.len() && i < sync_run(m, replies).sent.len()
                ==> #[trigger] keeps_number(m.sent, sync_run(m, replies).sent, replies, i),
    decreases replies.len(),
{
    if replies.len() > 0 {
        let sent = sync_run(m, replies).sent;
        let next = m.after(replies.first());
        let rest = replies.drop_first();
        lemma_sync_after(before, m, replies.first());
        lemma_numbers(before, next, rest);
        assert forall|i: int| 0 <= i < m.chunks.len() && i < sent.len() implies #[trigger] keeps_number(
            m.sent,
            sent,
            replies,
            i,
        ) by {
            assert(keeps_number(next.sent, sent, rest, i));
            match replies.first() {
                SyncReplyModel::Sent(Ok(id)) => {
                    assert(posted_numbers(replies) == seq![id] + posted_numbers(rest));
                },
                _ => {},
            }
        }
    }
}

/// The messages keep their numbers, and a message that a synchronisation posts is remembered
/// under the number that it was posted under.
pub proof fn law_messages_keep_their_numbers(
    chunks: Seq<Seq<char>>,
    before: Seq<(u64, Seq<char>)>,
    is_final: bool,
    replies: Seq<SyncReplyModel>,
)
    requires
        sync_accepts(SyncModel::start(chunks, before, is_final), replies),
    ensures
        ({
            let sent = sync_run(SyncModel::start(chunks, before, is_final), replies).sent;
            forall|i: int|
                0 <= i < chunks.len() && i < sent.len() ==> #[trigger] keeps_number(
                    before,
                    sent,
                    replies,
                    i,
                )
        }),
{
    lemma_sync_start(chunks, before, is_final);
    lemma_numbers(before, SyncModel::start(chunks, before, is_final), replies);
}

/// Where the messages already show the chunks, and at the end of a reply none is left over,
/// nothing is done.
pub proof fn law_sync_in_line_does_nothing(
    chunks: Seq<Seq<char>>,
    sent: Seq<(u64, Seq<char>)>,
    is_final: bool,
)
    requires
        mirrors(sent, sent, chunks, chunks.len() as int),
        is_final ==> sent.len() == chunks.len(),
    ensures
        SyncModel::start(chunks, sent, is_final).action() == SyncActionModel::Finished(Ok(())),
        SyncModel::start(chunks, sent, is_final).sent == sent,
{
    lemma_first_unposted(chunks, sent, 0);
    let done = first_unposted(chunks, sent, 0);
    if done < chunks.len() {
        assert(sent[done].1 == chunks[done]);
        lemma_first_unposted(chunks, sent, done + 1);
    }
}

/// A synchronisation that ended well, done again with the same chunks, does nothing.
pub proof fn law_sync_twice_is_sync_once(
    chunks: Seq<Seq<char>>,
    before: Seq<(u64, Seq<char>)>,
    is_final: bool,
    replies: Seq<SyncReplyModel>,
)
    requires
        sync_accepts(SyncModel::start(chunks, before, is_final), replies),
        sync_run(SyncModel::start(chunks, before, is_final), replies).action()
            == SyncActionModel::Finished(Ok(())),
    ensures
        ({
            let sent = sync_run(SyncModel::start(chunks, before, is_final), replies).sent;
            &&& SyncModel::start(chunks, sent, is_final).action() == SyncActionModel::Finished(
                Ok(()),
            )
            &&& SyncModel::start(chunks, sent, is_final).sent == sent
        }),
{
    let sent = sync_run(SyncModel::start(chunks, before, is_final), replies).sent;
    law_sync_posts_the_chunks(chunks, before, is_final, replies);
    assert(mirrors(sent, sent, chunks, chunks.len() as int));
    law_sync_in_line_does_nothing(chunks, sent, is_final);
}

/// A synchronisation that was given up, done again with the same chunks, goes on at the chunk it
/// was given up at: what is posted already is not posted a second time.
pub proof fn law_retry_goes_on_where_it_stopped(
    chunks: Seq<Seq<char>>,
    before: Seq<(u64, Seq<char>)>,
    is_final: bool,
    replies: Seq<SyncReplyModel>,
)
    requires
        sync_accepts(SyncModel::start(chunks, before, is_final), replies),
        sync_run(SyncModel::start(chunks, before, is_final), replies).error is Some,
    ensures
        ({
            let m = sync_run(SyncModel::start(chunks, before, is_final), replies);
            SyncModel::start(chunks, m.sent, is_final) == SyncModel { error: None, ..m }
        }),
{
    lemma_sync_start(chunks, before, is_final);
    lemma_sync_run(before, SyncModel::start(chunks, before, is_final), replies);
    let m = sync_run(SyncModel::start(chunks, before, is_final), replies);
    lemma_posted_prefix(chunks, m.sent, 0, m.done);
}

/// Going past posted chunks goes past all of them.
proof fn lemma_posted_prefix(
    chunks: Seq<Seq<char>>,
    sent: Seq<(u64, Seq<char>)>,
    from: int,
    to: int,
)
    requires
        0 <= from <= to <= chunks.len(),
        to <= sent.len(),
        forall|i: int| from <= i < to ==> (#[trigger] sent[i]).1 == chunks[i],
    ensures
        first_unposted(chunks, sent, from) == first_unposted(chunks, sent, to),
    decreases to - from,
{
    if from < to {
        assert(sent[from].1 == chunks[from]);
        lemma_posted_prefix(chunks, sent, from + 1, to);
    }
}

/// Where in a channel the message with the given number is.
pub open spec fn place_of(channel: Seq<(u64, Seq<char>)>, id: u64) -> int {
    choose|i: int| 0 <= i < channel.len() && (#[trigger] channel[i]).0 == id
}

/// What a channel shows once a call has been answered: a message edited has the text that was
/// asked for, a message sent comes last, and a message deleted is gone. A call that failed changes
/// nothing; deletions are taken to succeed.
pub open spec fn channel_after(
    channel: Seq<(u64, Seq<char>)>,
    asked: SyncActionModel,
    reply: SyncReplyModel,
) -> Seq<(u64, Seq<char>)> {
    match (asked, reply) {
        (SyncActionModel::Edit { id, content }, SyncReplyModel::Edited(Ok(_))) => channel.update(
            place_of(channel, id),
            (id, content),
        ),
        (SyncActionModel::Send { content }, SyncReplyModel::Sent(Ok(id))) => channel.push(
            (id, content),
        ),
        (SyncActionModel::Delete { id }, SyncReplyModel::Deleted) => channel.remove(
            place_of(channel, id),
        ),
        _ => channel,
    }
}

/// What a channel shows once the calls that are asked for, one after the other, have been
/// answered.
pub open spec fn channel_run(
    channel: Seq<(u64, Seq<char>)>,
    m: SyncModel,
    replies: Seq<SyncReplyModel>,
) -> Seq<(u64, Seq<char>)>
    decreases replies.len(),
{
    if replies.len() == 0 {
        channel
    } else {
        channel_run(
            channel_after(channel, m.action(), replies.first()),
            m.after(replies.first()),
            replies.drop_first(),
        )
    }
}

/// The numbers of the messages in a channel.
pub open spec fn numbers(channel: Seq<(u64, Seq<char>)>) -> Seq<u64> {
    channel.map_values(|post: (u64, Seq<char>)| post.0)
}

/// Whether no two messages, those of the channel and those that are posted, have one number.
pub open spec fn numbers_differ(
    channel: Seq<(u64, Seq<char>)>,
    replies: Seq<SyncReplyModel>,
) -> bool {
    (numbers(channel) + posted_numbers(replies)).no_duplicates()
}

/// A message is found at its place.
proof fn lemma_place(channel: Seq<(u64, Seq<char>)>, replies: Seq<SyncReplyModel>, at: int)
    requires
        numbers_differ(channel, replies),
        0 <= at < channel.len(),
    ensures
        place_of(channel, channel[at].0) == at,
{
    let found = place_of(channel, channel[at].0);
    assert(channel[at].0 == channel[at].0);
    let all = numbers(channel) + posted_numbers(replies);
    assert(all[found] == channel[found].0);
    assert(all[at] == channel[at].0);
}

/// One call changes the channel and the record in the same way.
pub proof fn lemma_channel_step(
    before: Seq<(u64, Seq<char>)>,
    m: SyncModel,
    replies: Seq<SyncReplyModel>,
)
    requires
        replies.len() > 0,
        sync_invariant(before, m),
        m.awaits(replies.first()),
        numbers_differ(m.sent, replies),
    ensures
        channel_after(m.sent, m.action(), replies.first()) == m.after(replies.first()).sent,
        numbers_differ(m.after(replies.first()).sent, replies.drop_first()),
{
    let reply = replies.first();
    let rest = replies.drop_first();
    let next = m.after(reply).sent;
    let all = numbers(m.sent) + posted_numbers(replies);
    let later = numbers(next) + posted_numbers(rest);
    match reply {
        SyncReplyModel::Edited(Ok(_)) => {
            lemma_place(m.sent, replies, m.done);
            assert(numbers(next) =~= numbers(m.sent));
            assert(later =~= all);
        },
        SyncReplyModel::Sent(Ok(id)) => {
            assert(posted_numbers(replies) == seq![id] + posted_numbers(rest));
            assert(later =~= all);
        },
        SyncReplyModel::Deleted => {
            let at = m.chunks.len() as int;
            lemma_place(m.sent, replies, at);
            assert(numbers(next) =~= numbers(m.sent).remove(at));
            assert forall|i: int, j: int| 0 <= i < j < later.len() implies later[i] != later[j] by {
                let p = if i < at {
                    i
                } else {
                    i + 1
                };
                let q = if j < at {
                    j
                } else {
                    j + 1
                };
                assert(later[i] == all[p]);
                assert(later[j] == all[q]);
            }
        },
        _ => {
            assert(later =~= all);
        },
    }
}

/// All the calls change the channel and the record in the same way.
proof fn lemma_channel_run(
    before: Seq<(u64, Seq<char>)>,
    m: SyncModel,
    replies: Seq<SyncReplyModel>,
)
    requires
        sync_invariant(before, m),
        sync_accepts(m, replies),
        numbers_differ(m.sent, replies),
    ensures
        channel_run(m.sent, m, replies) == sync_run(m, replies).sent,
    decreases replies.len(),
{
    if replies.len() > 0 {
        lemma_sync_after(before, m, replies.first());
        lemma_channel_step(before, m, replies);
        lemma_channel_run(before, m.after(replies.first()), replies.drop_first());
    }
}

/// What a synchronisation takes to be posted is what the calls it asked for have left in the
/// channel, message by message.
pub proof fn law_record_is_what_the_channel_shows(
    chunks: Seq<Seq<char>>,
    before: Seq<(u64, Seq<char>)>,
    is_final: bool,
    replies: Seq<SyncReplyModel>,
)
    requires
        sync_accepts(SyncModel::start(chunks, before, is_final), replies),
        numbers_differ(before, replies),
    ensures
        channel_run(before, SyncModel::start(chunks, before, is_final), replies) == sync_run(
            SyncModel::start(chunks, before, is_final),
            replies,
        ).sent,
{
    lemma_sync_start(chunks, before, is_final);
    lemma_channel_run(before, SyncModel::start(chunks, before, is_final), replies);
}

/// Carried out on a channel, the calls of a synchronisation that ends well leave the chunks there,
/// one message each and in order, in the messages that were there before as far as these reach.
/// At the end of a reply they leave nothing else; before that, the messages beyond the chunks stay
/// as they were.
pub proof fn law_channel_shows_the_chunks(
    chunks: Seq<Seq<char>>,
    before: Seq<(u64, Seq<char>)>,
    is_final: bool,
    replies: Seq<SyncReplyModel>,
)
    requires
        sync_accepts(SyncModel::start(chunks, before, is_final), replies),
        numbers_differ(before, replies),
        sync_run(SyncModel::start(chunks, before, is_final), replies).action()
            == SyncActionModel::Finished(Ok(())),
    ensures
        ({
            let channel = channel_run(
                before,
                SyncModel::start(chunks, before, is_final),
                replies,
            );
            &&& chunks.len() <= channel.len()
            &&& forall|i: int| 0 <= i < chunks.len() ==> (#[trigger] channel[i]).1 == chunks[i]
            &&& forall|i: int|
                0 <= i < chunks.len() && i < before.len() ==> (#[trigger] channel[i]).0
                    == before[i].0
            &&& is_final ==> channel.len() == chunks.len()
            &&& !is_final && before.len() > chunks.len() ==> channel.len() == before.len()
            &&& !is_final && before.len() <= chunks.len() ==> channel.len() == chunks.len()
            &&& !is_final ==> forall|i: int|
                chunks.len() <= i < before.len() ==> #[trigger] channel[i] == before[i]
        }),
{
    law_record_is_what_the_channel_shows(chunks, before, is_final, replies);
    law_sync_posts_the_chunks(chunks, before, is_final, replies);
}

/// A synchronisation begins with the chunks and messages that it is given, and without a failure.
pub proof fn law_sync_begins_with_what_is_given(
    chunks: Seq<Seq<char>>,
    before: Seq<(u64, Seq<char>)>,
    is_final: bool,
)
    ensures
        SyncModel::start(chunks, before, is_final).chunks == chunks,
        SyncModel::start(chunks, before, is_final).sent == before,
        SyncModel::start(chunks, before, is_final).is_final == is_final,
        SyncModel::start(chunks, before, is_final).error is None,
{
}

/// Every call is for its place. What is sent is the chunk that comes after the messages posted.
/// What is edited is the first message that does not show its chunk, and it is given that chunk.
/// What is deleted is the first message beyond the chunks, at the end of a reply and once every
/// chunk is shown.
pub proof fn law_calls_are_for_their_place(
    chunks: Seq<Seq<char>>,
    before: Seq<(u64, Seq<char>)>,
    is_final: bool,
    replies: Seq<SyncReplyModel>,
)
    requires
        sync_accepts(SyncModel::start(chunks, before, is_final), replies),
    ensures
        ({
            let m = sync_run(SyncModel::start(chunks, before, is_final), replies);
            match m.action() {
                SyncActionModel::Send { content } => {
                    &&& m.sent.len() < chunks.len()
                    &&& content == chunks[m.sent.len() as int]
                    &&& forall|j: int|
                        0 <= j < m.sent.len() ==> (#[trigger] m.sent[j]).1 == chunks[j]
                },
                SyncActionModel::Edit { id, content } => exists|i: int|
                    {
                        &&& 0 <= i < chunks.len() && i < m.sent.len()
                        &&& id == (#[trigger] m.sent[i]).0
                        &&& content == chunks[i]
                        &&& m.sent[i].1 != content
                        &&& forall|j: int| 0 <= j < i ==> (#[trigger] m.sent[j]).1 == chunks[j]
                    },
                SyncActionModel::Delete { id } => {
                    &&& is_final
                    &&& chunks.len() < m.sent.len()
                    &&& id == m.sent[chunks.len() as int].0
                    &&& forall|j: int|
                        0 <= j < chunks.len() ==> (#[trigger] m.sent[j]).1 == chunks[j]
                },
                SyncActionModel::Finished(Ok(_)) => {
                    &&& chunks.len() <= m.sent.len()
                    &&& forall|j: int|
                        0 <= j < chunks.len() ==> (#[trigger] m.sent[j]).1 == chunks[j]
                },
                SyncActionModel::Finished(Err(_)) => m.error is Some,
            }
        }),
{
    lemma_sync_start(chunks, before, is_final);
    lemma_sync_run(before, SyncModel::start(chunks, before, is_final), replies);
    let m = sync_run(SyncModel::start(chunks, before, is_final), replies);
    if m.action() is Edit {
        law_edits_change_the_text(chunks, before, is_final, replies);
        assert(m.sent[m.done].0 == m.sent[m.done].0);
    }
}

/// A call can be answered with success or with failure, and nothing but the call that was asked
/// for can be answered.
pub proof fn law_each_call_awaits_its_answer(m: SyncModel, id: u64, e: Seq<char>)
    ensures
        m.awaits(SyncReplyModel::Edited(Ok(()))) <==> m.action() is Edit,
        m.awaits(SyncReplyModel::Edited(Err(e))) <==> m.action() is Edit,
        m.awaits(SyncReplyModel::Sent(Ok(id))) <==> m.action() is Send,
        m.awaits(SyncReplyModel::Sent(Err(e))) <==> m.action() is Send,
        m.awaits(SyncReplyModel::Deleted) <==> m.action() is Delete,
{
}

/// A failed call ends the synchronisation with an error that names the call and repeats what was
/// said of it, and leaves the messages as they are.
pub proof fn law_failed_call_is_explained(m: SyncModel, e: Seq<char>)
    ensures
        m.after(SyncReplyModel::Edited(Err(e))).action() == SyncActionModel::Finished(
            Err("failed to edit Discord message: "@ + e),
        ),
        m.after(SyncReplyModel::Edited(Err(e))).sent == m.sent,
        m.after(SyncReplyModel::Sent(Err(e))).action() == SyncActionModel::Finished(
            Err("failed to send Discord chunk: "@ + e),
        ),
        m.after(SyncReplyModel::Sent(Err(e))).sent == m.sent,
{
}

/// Whether an edit or a send failed.
pub open spec fn is_failure(reply: SyncReplyModel) -> bool {
    match reply {
        SyncReplyModel::Edited(result) => result is Err,
        SyncReplyModel::Sent(result) => result is Err,
        SyncReplyModel::Deleted => false,
    }
}

/// A state without a failure stays without one as long as no call fails.
proof fn lemma_no_failure(m: SyncModel, replies: Seq<SyncReplyModel>)
    requires
        m.error is None,
        forall|k: int| 0 <= k < replies.len() ==> !is_failure(#[trigger] replies[k]),
    ensures
        sync_run(m, replies).error is None,
    decreases replies.len(),
{
    if replies.len() > 0 {
        assert(!is_failure(replies[0]));
        let rest = replies.drop_first();
        assert forall|k: int| 0 <= k < rest.len() implies !is_failure(#[trigger] rest[k]) by {
            assert(rest[k] == replies[k + 1]);
        }
        lemma_no_failure(m.after(replies.first()), rest);
    }
}

/// A synchronisation is given up only where a call failed.
pub proof fn law_sync_fails_only_with_a_call(
    chunks: Seq<Seq<char>>,
    before: Seq<(u64, Seq<char>)>,
    is_final: bool,
    replies: Seq<SyncReplyModel>,
)
    requires
        forall|k: int| 0 <= k < replies.len() ==> !is_failure(#[trigger] replies[k]),
    ensures
        sync_run(SyncModel::start(chunks, before, is_final), replies).error is None,
{
    lemma_no_failure(SyncModel::start(chunks, before, is_final), replies);
}

/// The strings and the posted messages are read one by one, in order, as they are.
pub proof fn law_lists_are_read_as_they_are(
    strings: Seq<String>,
    sent: Seq<(MessageId, String)>,
    at: int,
)
    ensures
        texts(strings).len() == strings.len(),
        0 <= at < strings.len() ==> texts(strings)[at] == strings[at]@,
        posts(sent).len() == sent.len(),
        0 <= at < sent.len() ==> posts(sent)[at] == (sent[at].0@, sent[at].1@),
{
}

/// Actions and replies are read as they are.
pub proof fn law_actions_and_replies_are_read_as_they_are(
    number: MessageId,
    text: String,
)
    ensures
        (SyncAction::Edit { id: number, content: text })@ == (SyncActionModel::Edit {
            id: number@,
            content: text@,
        }),
        (SyncAction::Send { content: text })@ == (SyncActionModel::Send { content: text@ }),
        (SyncAction::Delete { id: number })@ == (SyncActionModel::Delete { id: number@ }),
        SyncAction::Finished(Ok(()))@ == SyncActionModel::Finished(Ok(())),
        SyncAction::Finished(Err(text))@ == SyncActionModel::Finished(Err(text@)),
        SyncReply::Edited(Ok(()))@ == SyncReplyModel::Edited(Ok(())),
        SyncReply::Edited(Err(text))@ == SyncReplyModel::Edited(Err(text@)),
        SyncReply::Sent(Ok(number))@ == SyncReplyModel::Sent(Ok(number@)),
        SyncReply::Sent(Err(text))@ == SyncReplyModel::Sent(Err(text@)),
        SyncReply::Deleted@ == SyncReplyModel::Deleted,
{
}

} // verus!
