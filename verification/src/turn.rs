//! Answering a message: streaming the answer while it is made, and posting it when it is done.

use vstd::prelude::*;

use crate::callback::{
    apology, apology_text, blocks_user, is_blocked, outcome_of, CallbackRequest, ChannelResponse,
    ResponseModel,
};
use crate::chunks::{
    channel_after, keeps_rest, lemma_channel_step, lemma_sync_after, lemma_sync_start, mirrors, numbers_differ, posts, sync_calls_left,
    sync_invariant, texts, ChunkSync, SyncAction, SyncActionModel, SyncModel,
    SyncReply, SyncReplyModel,
};
use crate::ids::MessageId;
use crate::message::{str_of, text_of};
use crate::text::{is_white_space, law_blank_is_all_white_space, trimmed};

verus! {

/// How long, in nanoseconds, the answer is left to grow before it is first shown, and between
/// one update of what is shown and the next.
pub const UPDATE_INTERVAL: u64 = 1_000_000_000;

/// How many pieces of an answer may wait to be taken.
pub const DELTA_CAPACITY: usize = 64;

/// How many seconds pass between two signs that the bot is typing.
pub const TYPING_INTERVAL_SECS: u64 = 4;

/// Where a turn stands. Each stage holds the messages posted so far.
pub enum StageModel {
    /// Waiting for the next piece of the answer.
    Streaming { sent: Seq<(u64, Seq<char>)> },
    /// Waiting for the chunks of the answer so far.
    StreamFormat { sent: Seq<(u64, Seq<char>)> },
    /// Posting the answer so far.
    StreamSync { sync: SyncModel },
    /// Waiting for the callback to return, after the last piece or after an update failed.
    Calling { sent: Seq<(u64, Seq<char>)>, failure: Option<Seq<char>> },
    /// Sending speech; the text is for the case that it cannot be sent.
    Voice { sent: Seq<(u64, Seq<char>)>, text: Seq<char> },
    /// Waiting for the chunks of the last text.
    FinalFormat { sent: Seq<(u64, Seq<char>)> },
    /// Posting the last text.
    FinalSync { sync: SyncModel },
    /// Nothing more to do.
    Finished { sent: Seq<(u64, Seq<char>)>, failure: Option<Seq<char>> },
}

/// The state of a turn.
pub struct TurnModel {
    /// The pieces of the answer so far, joined.
    pub accumulated: Seq<char>,
    /// When the first piece came.
    pub first_delta_at: Option<u64>,
    /// When the turn began or, after that, when an update was last completed.
    pub last_update: u64,
    pub stage: StageModel,
}

/// What a turn is told. Times are in nanoseconds, from any fixed moment on.
pub enum EventModel {
    Delta { text: Seq<char>, now: u64 },
    StreamClosed,
    Formatted { chunks: Seq<Seq<char>>, now: u64 },
    Replied { reply: SyncReplyModel, now: u64 },
    Returned(Result<ResponseModel, Seq<char>>),
    Panicked(Seq<char>),
    VoiceSent { delivered: bool },
}

/// What a turn asks for.
pub enum ActionModel {
    AwaitDelta,
    Format { text: Seq<char> },
    Call(SyncActionModel),
    AwaitCallback,
    SendVoice { filename: Seq<char>, audio: Seq<u8> },
    Finished,
}

/// Whether there is anything to answer: a text that is not blank, or a file.
pub open spec fn calls_for_answer(text: Seq<char>, has_file: bool) -> bool {
    trimmed(text).len() > 0 || has_file
}

impl TurnModel {
    /// The state at the beginning.
    pub open spec fn start(now: u64) -> TurnModel {
        TurnModel {
            accumulated: Seq::empty(),
            first_delta_at: None,
            last_update: now,
            stage: StageModel::Streaming { sent: Seq::empty() },
        }
    }

    /// The messages posted so far.
    pub open spec fn posted(self) -> Seq<(u64, Seq<char>)> {
        match self.stage {
            StageModel::Streaming { sent } => sent,
            StageModel::StreamFormat { sent } => sent,
            StageModel::StreamSync { sync } => sync.sent,
            StageModel::Calling { sent, failure: _ } => sent,
            StageModel::Voice { sent, text: _ } => sent,
            StageModel::FinalFormat { sent } => sent,
            StageModel::FinalSync { sync } => sync.sent,
            StageModel::Finished { sent, failure: _ } => sent,
        }
    }

    /// Whether it is to be shown that the bot is typing: while the answer is streamed and until
    /// the callback is done.
    pub open spec fn shows_typing(self) -> bool {
        ||| self.stage is Streaming
        ||| self.stage is StreamFormat
        ||| self.stage is StreamSync
        ||| self.stage is Calling
    }

    /// Why the streaming, or the posting of the last text, was given up.
    pub open spec fn failure(self) -> Option<Seq<char>> {
        match self.stage {
            StageModel::Calling { sent: _, failure } => failure,
            StageModel::Finished { sent: _, failure } => failure,
            _ => None,
        }
    }

    /// Whether, at the given time, enough has passed since the first piece and since the last
    /// update.
    pub open spec fn update_due(self, now: u64) -> bool {
        &&& self.first_delta_at matches Some(first) && now - first >= UPDATE_INTERVAL
        &&& now - self.last_update >= UPDATE_INTERVAL
    }

    /// Whether the event can come in this state.
    pub open spec fn awaits(self, event: EventModel) -> bool {
        match event {
            EventModel::Delta { .. } => self.stage is Streaming,
            EventModel::StreamClosed => self.stage is Streaming,
            EventModel::Formatted { .. } => self.stage is StreamFormat || self.stage
                is FinalFormat,
            EventModel::Replied { reply, now: _ } => match self.stage {
                StageModel::StreamSync { sync } => sync.awaits(reply),
                StageModel::FinalSync { sync } => sync.awaits(reply),
                _ => false,
            },
            EventModel::Returned(_) => self.stage is Calling,
            EventModel::Panicked(_) => self.stage is Calling,
            EventModel::VoiceSent { .. } => self.stage is Voice,
        }
    }

    /// The state and action once `text` is to be posted for good.
    pub open spec fn post(self, text: Seq<char>) -> (TurnModel, ActionModel) {
        (
            TurnModel { stage: StageModel::FinalFormat { sent: self.posted() }, ..self },
            ActionModel::Format { text },
        )
    }

    /// The state and action when nothing more is to be done.
    pub open spec fn finish(self, failure: Option<Seq<char>>) -> (TurnModel, ActionModel) {
        (
            TurnModel { stage: StageModel::Finished { sent: self.posted(), failure }, ..self },
            ActionModel::Finished,
        )
    }

    /// The state and action when the callback has failed. A user who may not use the bot gets
    /// no answer.
    pub open spec fn fail(self, error: Seq<char>) -> (TurnModel, ActionModel) {
        if is_blocked(error) {
            self.finish(None)
        } else {
            self.post(apology(error))
        }
    }

    /// The state and action while the answer so far is being posted.
    pub open spec fn stream(self, sync: SyncModel, now: u64) -> (TurnModel, ActionModel) {
        match sync.action() {
            SyncActionModel::Finished(Ok(_)) => (
                TurnModel {
                    last_update: now,
                    stage: StageModel::Streaming { sent: sync.sent },
                    ..self
                },
                ActionModel::AwaitDelta,
            ),
            SyncActionModel::Finished(Err(e)) => (
                TurnModel {
                    stage: StageModel::Calling { sent: sync.sent, failure: Some(e) },
                    ..self
                },
                ActionModel::AwaitCallback,
            ),
            action => (
                TurnModel { stage: StageModel::StreamSync { sync }, ..self },
                ActionModel::Call(action),
            ),
        }
    }

    /// The state and action while the last text is being posted.
    pub open spec fn settle(self, sync: SyncModel) -> (TurnModel, ActionModel) {
        match sync.action() {
            SyncActionModel::Finished(result) => (
                TurnModel {
                    stage: StageModel::Finished {
                        sent: sync.sent,
                        failure: match result {
                            Ok(_) => None,
                            Err(e) => Some(e),
                        },
                    },
                    ..self
                },
                ActionModel::Finished,
            ),
            action => (
                TurnModel { stage: StageModel::FinalSync { sync }, ..self },
                ActionModel::Call(action),
            ),
        }
    }

    /// The state and action after an event that is awaited.
    pub open spec fn step(self, event: EventModel) -> (TurnModel, ActionModel) {
        match event {
            EventModel::Delta { text, now } => {
                let next = TurnModel {
                    accumulated: self.accumulated + text,
                    first_delta_at: if self.first_delta_at is Some {
                        self.first_delta_at
                    } else {
                        Some(now)
                    },
                    ..self
                };
                if next.update_due(now) {
                    (
                        TurnModel { stage: StageModel::StreamFormat { sent: self.posted() }, ..next },
                        ActionModel::Format { text: next.accumulated },
                    )
                } else {
                    (next, ActionModel::AwaitDelta)
                }
            },
            EventModel::StreamClosed => (
                TurnModel {
                    stage: StageModel::Calling { sent: self.posted(), failure: None },
                    ..self
                },
                ActionModel::AwaitCallback,
            ),
            EventModel::Formatted { chunks, now } => if self.stage is StreamFormat {
                self.stream(SyncModel::start(chunks, self.posted(), false), now)
            } else {
                self.settle(SyncModel::start(chunks, self.posted(), true))
            },
            EventModel::Replied { reply, now } => match self.stage {
                StageModel::StreamSync { sync } => self.stream(sync.after(reply), now),
                StageModel::FinalSync { sync } => self.settle(sync.after(reply)),
                _ => (self, ActionModel::Finished),
            },
            EventModel::Returned(Ok(ResponseModel::Text(text))) => self.post(text),
            EventModel::Returned(Ok(ResponseModel::Voice { text, audio })) => (
                TurnModel { stage: StageModel::Voice { sent: self.posted(), text }, ..self },
                ActionModel::SendVoice { filename: "voice.ogg"@, audio },
            ),
            EventModel::Returned(Err(error)) => self.fail(error),
            EventModel::Panicked(error) => self.fail("task panic: "@ + error),
            EventModel::VoiceSent { delivered } => match self.stage {
                StageModel::Voice { sent, text } if !delivered => self.post(text),
                _ => self.finish(None),
            },
        }
    }
}

/// What a turn is told. Times are in nanoseconds, from any fixed moment on.
#[derive(Debug)]
pub enum TurnEvent {
    /// A piece of the answer came.
    Delta { text: String, now: u64 },
    /// There will be no more pieces.
    StreamClosed,
    /// The text asked for, formatted and cut into chunks.
    Formatted { chunks: Vec<String>, now: u64 },
    /// What came of a call.
    Replied { reply: SyncReply, now: u64 },
    /// The callback returned.
    Returned(Result<ChannelResponse, String>),
    /// The callback's task ended without returning; the text says how.
    Panicked(String),
    /// The speech was sent, or could not be.
    VoiceSent { delivered: bool },
}

impl View for TurnEvent {
    type V = EventModel;

    open spec fn view(&self) -> EventModel {
        match self {
            TurnEvent::Delta { text, now } => EventModel::Delta { text: text@, now: *now },
            TurnEvent::StreamClosed => EventModel::StreamClosed,
            TurnEvent::Formatted { chunks, now } => EventModel::Formatted {
                chunks: texts(chunks@),
                now: *now,
            },
            TurnEvent::Replied { reply, now } => EventModel::Replied { reply: reply@, now: *now },
            TurnEvent::Returned(outcome) => EventModel::Returned(outcome_of(*outcome)),
            TurnEvent::Panicked(error) => EventModel::Panicked(error@),
            TurnEvent::VoiceSent { delivered } => EventModel::VoiceSent { delivered: *delivered },
        }
    }
}

/// What a turn asks for.
#[derive(Debug)]
pub enum TurnAction {
    /// Wait for the next piece of the answer.
    AwaitDelta,
    /// Format the text and cut it into chunks.
    Format { text: String },
    /// Make a call to Discord.
    Call(SyncAction),
    /// Wait for the callback to return.
    AwaitCallback,
    /// Send the bytes as a file with this name.
    SendVoice { filename: String, audio: Vec<u8> },
    /// Nothing more.
    Finished,
}

impl View for TurnAction {
    type V = ActionModel;

    open spec fn view(&self) -> ActionModel {
        match self {
            TurnAction::AwaitDelta => ActionModel::AwaitDelta,
            TurnAction::Format { text } => ActionModel::Format { text: text@ },
            TurnAction::Call(action) => ActionModel::Call(action@),
            TurnAction::AwaitCallback => ActionModel::AwaitCallback,
            TurnAction::SendVoice { filename, audio } => ActionModel::SendVoice {
                filename: filename@,
                audio: audio@,
            },
            TurnAction::Finished => ActionModel::Finished,
        }
    }
}

#[derive(Debug)]
enum Stage {
    Streaming { sent: Vec<(MessageId, String)> },
    StreamFormat { sent: Vec<(MessageId, String)> },
    StreamSync { sync: ChunkSync },
    Calling { sent: Vec<(MessageId, String)>, failure: Option<String> },
    Voice { sent: Vec<(MessageId, String)>, text: String },
    FinalFormat { sent: Vec<(MessageId, String)> },
    FinalSync { sync: ChunkSync },
    Finished { sent: Vec<(MessageId, String)>, failure: Option<String> },
}

impl View for Stage {
    type V = StageModel;

    closed spec fn view(&self) -> StageModel {
        match self {
            Stage::Streaming { sent } => StageModel::Streaming { sent: posts(sent@) },
            Stage::StreamFormat { sent } => StageModel::StreamFormat { sent: posts(sent@) },
            Stage::StreamSync { sync } => StageModel::StreamSync { sync: sync@ },
            Stage::Calling { sent, failure } => StageModel::Calling {
                sent: posts(sent@),
                failure: text_of(*failure),
            },
            Stage::Voice { sent, text } => StageModel::Voice { sent: posts(sent@), text: text@ },
            Stage::FinalFormat { sent } => StageModel::FinalFormat { sent: posts(sent@) },
            Stage::FinalSync { sync } => StageModel::FinalSync { sync: sync@ },
            Stage::Finished { sent, failure } => StageModel::Finished {
                sent: posts(sent@),
                failure: text_of(*failure),
            },
        }
    }
}

/// How far the answer has come.
#[derive(Debug)]
struct Progress {
    accumulated: String,
    first_delta_at: Option<u64>,
    last_update: u64,
}

/// The answering of one message.
#[derive(Debug)]
pub struct MessageTurn {
    progress: Progress,
    stage: Stage,
}

impl View for MessageTurn {
    type V = TurnModel;

    closed spec fn view(&self) -> TurnModel {
        self.progress.at(self.stage@)
    }
}

impl Progress {
    /// The turn that has come this far and stands at the given stage.
    closed spec fn at(self, stage: StageModel) -> TurnModel {
        TurnModel {
            accumulated: self.accumulated@,
            first_delta_at: self.first_delta_at,
            last_update: self.last_update,
            stage,
        }
    }

    fn post(self, sent: Vec<(MessageId, String)>, text: String) -> (next: (MessageTurn, TurnAction))
        ensures
            (next.0@, next.1@) == self.at(StageModel::FinalFormat { sent: posts(sent@) }).post(
                text@,
            ),
    {
        let stage = Stage::FinalFormat { sent };
        (MessageTurn { progress: self, stage }, TurnAction::Format { text })
    }

    fn finish(self, sent: Vec<(MessageId, String)>, failure: Option<String>) -> (next: (
        MessageTurn,
        TurnAction,
    ))
        ensures
            (next.0@, next.1@) == self.at(StageModel::FinalFormat { sent: posts(sent@) }).finish(
                text_of(failure),
            ),
    {
        let stage = Stage::Finished { sent, failure };
        (MessageTurn { progress: self, stage }, TurnAction::Finished)
    }

    fn fail(self, sent: Vec<(MessageId, String)>, error: String) -> (next: (
        MessageTurn,
        TurnAction,
    ))
        ensures
            (next.0@, next.1@) == self.at(StageModel::FinalFormat { sent: posts(sent@) }).fail(
                error@,
            ),
    {
        if blocks_user(&error) {
            self.finish(sent, None)
        } else {
            self.post(sent, apology_text(error.as_str()))
        }
    }

    fn stream(self, sync: ChunkSync, now: u64) -> (next: (MessageTurn, TurnAction))
        ensures
            (next.0@, next.1@) == self.at(StageModel::StreamSync { sync: sync@ }).stream(
                sync@,
                now,
            ),
    {
        match sync.action() {
            SyncAction::Finished(Ok(_)) => {
                let progress = Progress {
                    accumulated: self.accumulated,
                    first_delta_at: self.first_delta_at,
                    last_update: now,
                };
                let stage = Stage::Streaming { sent: sync.into_sent() };
                (MessageTurn { progress, stage }, TurnAction::AwaitDelta)
            },
            SyncAction::Finished(Err(e)) => {
                let stage = Stage::Calling { sent: sync.into_sent(), failure: Some(e) };
                (MessageTurn { progress: self, stage }, TurnAction::AwaitCallback)
            },
            action => {
                let stage = Stage::StreamSync { sync };
                (MessageTurn { progress: self, stage }, TurnAction::Call(action))
            },
        }
    }

    fn settle(self, sync: ChunkSync) -> (next: (MessageTurn, TurnAction))
        ensures
            (next.0@, next.1@) == self.at(StageModel::FinalSync { sync: sync@ }).settle(sync@),
    {
        match sync.action() {
            SyncAction::Finished(Ok(_)) => self.finish(sync.into_sent(), None),
            SyncAction::Finished(Err(e)) => self.finish(sync.into_sent(), Some(e)),
            action => {
                let stage = Stage::FinalSync { sync };
                (MessageTurn { progress: self, stage }, TurnAction::Call(action))
            },
        }
    }

    fn take_delta(self, sent: Vec<(MessageId, String)>, text: String, now: u64) -> (next: (
        MessageTurn,
        TurnAction,
    ))
        ensures
            (next.0@, next.1@) == self.at(StageModel::Streaming { sent: posts(sent@) }).step(
                EventModel::Delta { text: text@, now },
            ),
    {
        let first: u64 = match self.first_delta_at {
            Some(first) => first,
            None => now,
        };
        let progress = Progress {
            accumulated: self.accumulated.concat(text.as_str()),
            first_delta_at: Some(first),
            last_update: self.last_update,
        };
        if now.saturating_sub(first) >= UPDATE_INTERVAL && now.saturating_sub(self.last_update)
            >= UPDATE_INTERVAL {
            let text = progress.accumulated.clone();
            let stage = Stage::StreamFormat { sent };
            (MessageTurn { progress, stage }, TurnAction::Format { text })
        } else {
            let stage = Stage::Streaming { sent };
            (MessageTurn { progress, stage }, TurnAction::AwaitDelta)
        }
    }

    fn take_outcome(
        self,
        sent: Vec<(MessageId, String)>,
        outcome: Result<ChannelResponse, String>,
    ) -> (next: (MessageTurn, TurnAction))
        ensures
            (next.0@, next.1@) == self.at(StageModel::FinalFormat { sent: posts(sent@) }).step(
                EventModel::Returned(outcome_of(outcome)),
            ),
    {
        match outcome {
            Ok(ChannelResponse::Text(text)) => self.post(sent, text),
            Ok(ChannelResponse::Voice { text, audio }) => {
                let stage = Stage::Voice { sent, text };
                let filename = "voice.ogg".to_string();
                (MessageTurn { progress: self, stage }, TurnAction::SendVoice { filename, audio })
            },
            Err(error) => self.fail(sent, error),
        }
    }
}

impl MessageTurn {
    /// Begins to answer the request, if there is anything to answer: the callback is to be
    /// called with it, and its answer awaited piece by piece.
    pub fn begin(request: &CallbackRequest, now: u64) -> (turn: Option<Self>)
        ensures
            turn is Some <==> calls_for_answer(request.text@, request.file is Some),
            turn matches Some(turn) ==> turn@ == TurnModel::start(now),
    {
        if request.text.as_str().trim().is_empty() && request.file.is_none() {
            return None;
        }
        let sent: Vec<(MessageId, String)> = Vec::new();
        assert(posts(sent@) =~= Seq::empty());
        let progress = Progress {
            accumulated: String::new(),
            first_delta_at: None,
            last_update: now,
        };
        Some(MessageTurn { progress, stage: Stage::Streaming { sent } })
    }

    /// Takes in an event, and says what to do next.
    pub fn step(self, event: TurnEvent) -> (next: (Self, TurnAction))
        requires
            self@.awaits(event@),
        ensures
            (next.0@, next.1@) == self@.step(event@),
            next.1@ matches ActionModel::Call(action) ==> !(action is Finished),
    {
        let progress = self.progress;
        match (self.stage, event) {
            (Stage::Streaming { sent }, TurnEvent::Delta { text, now }) => progress.take_delta(
                sent,
                text,
                now,
            ),
            (Stage::Streaming { sent }, TurnEvent::StreamClosed) => {
                let stage = Stage::Calling { sent, failure: None };
                (MessageTurn { progress, stage }, TurnAction::AwaitCallback)
            },
            (Stage::StreamFormat { sent }, TurnEvent::Formatted { chunks, now }) => {
                let sync = ChunkSync::start(chunks, sent, false);
                progress.stream(sync, now)
            },
            (Stage::StreamSync { sync }, TurnEvent::Replied { reply, now }) => {
                let mut sync = sync;
                sync.reply(reply);
                progress.stream(sync, now)
            },
            (Stage::Calling { sent, .. }, TurnEvent::Returned(outcome)) => progress.take_outcome(
                sent,
                outcome,
            ),
            (Stage::Calling { sent, .. }, TurnEvent::Panicked(error)) => progress.fail(
                sent,
                "task panic: ".to_string().concat(error.as_str()),
            ),
            (Stage::Voice { sent, text }, TurnEvent::VoiceSent { delivered }) => {
                if delivered {
                    progress.finish(sent, None)
                } else {
                    progress.post(sent, text)
                }
            },
            (Stage::FinalFormat { sent }, TurnEvent::Formatted { chunks, .. }) => {
                let sync = ChunkSync::start(chunks, sent, true);
                progress.settle(sync)
            },
            (Stage::FinalSync { sync }, TurnEvent::Replied { reply, .. }) => {
                let mut sync = sync;
                sync.reply(reply);
                progress.settle(sync)
            },
            _ => vstd::pervasive::unreached(),
        }
    }

    /// Whether it is to be shown that the bot is typing: while the answer is streamed and until
    /// the callback is done.
    pub fn shows_typing(&self) -> (typing: bool)
        ensures
            typing == self@.shows_typing(),
    {
        match &self.stage {
            Stage::Streaming { .. }
            | Stage::StreamFormat { .. }
            | Stage::StreamSync { .. }
            | Stage::Calling { .. } => true,
            _ => false,
        }
    }

    /// Why the streaming, or the posting of the last text, was given up, if it was.
    pub fn failure(&self) -> (failure: Option<&str>)
        ensures
            str_of(failure) == self@.failure(),
    {
        match &self.stage {
            Stage::Calling { failure, .. } | Stage::Finished { failure, .. } => match failure {
                Some(failure) => Some(failure.as_str()),
                None => None,
            },
            _ => None,
        }
    }
}

/// Whether each of the events can come in the state that it finds.
pub open spec fn turn_accepts(m: TurnModel, events: Seq<EventModel>) -> bool
    decreases events.len(),
{
    events.len() > 0 ==> m.awaits(events.first()) && turn_accepts(
        m.step(events.first()).0,
        events.drop_first(),
    )
}

/// The state after all the events.
pub open spec fn turn_run(m: TurnModel, events: Seq<EventModel>) -> TurnModel
    decreases events.len(),
{
    if events.len() == 0 {
        m
    } else {
        turn_run(m.step(events.first()).0, events.drop_first())
    }
}

/// The pieces of the answer among the events, joined in order.
pub open spec fn joined_deltas(events: Seq<EventModel>) -> Seq<char>
    decreases events.len(),
{
    if events.len() == 0 {
        Seq::empty()
    } else {
        match events.first() {
            EventModel::Delta { text, now: _ } => text + joined_deltas(events.drop_first()),
            _ => joined_deltas(events.drop_first()),
        }
    }
}

/// Whatever happens in a turn, the answer so far is all the pieces that came, joined in order.
pub proof fn law_answer_is_the_pieces_joined(m: TurnModel, events: Seq<EventModel>)
    requires
        turn_accepts(m, events),
    ensures
        turn_run(m, events).accumulated == m.accumulated + joined_deltas(events),
    decreases events.len(),
{
    if events.len() > 0 {
        law_answer_is_the_pieces_joined(m.step(events.first()).0, events.drop_first());
    }
    assert(turn_run(m, events).accumulated =~= m.accumulated + joined_deltas(events));
}

/// Whether the callback is done, having returned or having ended without returning.
pub open spec fn callback_done(events: Seq<EventModel>) -> bool {
    exists|i: int|
        0 <= i < events.len() && (#[trigger] events[i] is Returned || events[i] is Panicked)
}

/// From any state on, typing is shown as long as it was and the callback is not done.
proof fn lemma_typing(m: TurnModel, events: Seq<EventModel>)
    requires
        turn_accepts(m, events),
    ensures
        turn_run(m, events).shows_typing() <==> m.shows_typing() && !callback_done(events),
    decreases events.len(),
{
    if events.len() > 0 {
        let first = events.first();
        let rest = events.drop_first();
        lemma_typing(m.step(first).0, rest);
        if callback_done(rest) {
            let i = choose|i: int|
                0 <= i < rest.len() && (#[trigger] rest[i] is Returned || rest[i] is Panicked);
            assert(rest[i] == events[i + 1]);
        }
        if callback_done(events) && !(first is Returned || first is Panicked) {
            let i = choose|i: int|
                0 <= i < events.len() && (#[trigger] events[i] is Returned || events[i]
                    is Panicked);
            assert(rest[i - 1] == events[i]);
        }
        assert(events[0] == first);
    }
}

/// It is shown that the bot is typing from the beginning of a turn until the callback is done,
/// even where the answer has come to its end before, and never after that.
pub proof fn law_typing_is_shown_until_the_callback_is_done(now: u64, events: Seq<EventModel>)
    requires
        turn_accepts(TurnModel::start(now), events),
    ensures
        turn_run(TurnModel::start(now), events).shows_typing() <==> !callback_done(events),
{
    lemma_typing(TurnModel::start(now), events);
}

/// What is shown while the answer is made is the answer so far, and it is shown only once the
/// interval has passed since the first piece and since the last update.
pub proof fn law_updates_show_the_answer_so_far(m: TurnModel, text: Seq<char>, now: u64)
    requires
        m.stage is Streaming,
    ensures
        ({
            let (next, action) = m.step(EventModel::Delta { text, now });
            &&& next.posted() == m.posted()
            &&& next.stage is StreamFormat <==> next.update_due(now)
            &&& next.stage is StreamFormat ==> action == (ActionModel::Format {
                text: m.accumulated + text,
            })
            &&& !(next.stage is StreamFormat) ==> next.stage == m.stage && action
                == ActionModel::AwaitDelta
        }),
{
}

/// Between the completion of one update and the beginning of the next at least the interval
/// passes, however many pieces come meanwhile. The same holds between the beginning of the turn
/// and the first update.
pub proof fn law_updates_keep_their_distance(m: TurnModel, events: Seq<EventModel>)
    requires
        m.stage is Streaming,
        turn_accepts(m, events),
        forall|i: int| 0 <= i < events.len() ==> #[trigger] events[i] is Delta,
        turn_run(m, events).stage is StreamFormat,
    ensures
        events.len() > 0,
        events.last()->Delta_now - m.last_update >= UPDATE_INTERVAL,
    decreases events.len(),
{
    if events.len() > 0 {
        let next = m.step(events.first()).0;
        let rest = events.drop_first();
        assert(events[0] is Delta);
        if next.stage is StreamFormat {
            if rest.len() > 0 {
                assert(rest.first() == events[1]);
                assert(events[1] is Delta);
                assert(turn_accepts(next, rest));
            }
        } else {
            assert forall|i: int| 0 <= i < rest.len() implies #[trigger] rest[i] is Delta by {
                assert(rest[i] == events[i + 1]);
            }
            law_updates_keep_their_distance(next, rest);
            assert(rest.last() == events.last());
        }
    }
}

/// An update that fails ends the streaming: the messages posted stay, and the turn waits for the
/// callback.
pub proof fn law_failed_update_ends_streaming(m: TurnModel, reply: SyncReplyModel, now: u64)
    requires
        m.stage is StreamSync,
        m.awaits(EventModel::Replied { reply, now }),
        reply matches SyncReplyModel::Edited(Err(_)) || reply matches SyncReplyModel::Sent(Err(_)),
    ensures
        ({
            let (next, action) = m.step(EventModel::Replied { reply, now });
            &&& next.stage is Calling
            &&& next.failure() is Some
            &&& next.posted() == m.posted()
            &&& action == ActionModel::AwaitCallback
        }),
{
}

/// A user who may not use the bot gets no answer: nothing is posted, edited or deleted once the
/// callback says so.
pub proof fn law_blocked_user_gets_no_answer(m: TurnModel)
    requires
        m.stage is Calling,
    ensures
        ({
            let (next, action) = m.step(EventModel::Returned(Err("__blocked__"@)));
            &&& action == ActionModel::Finished
            &&& next.stage is Finished
            &&& next.failure() is None
            &&& next.posted() == m.posted()
        }),
{
}

/// A callback whose task ended without returning is reported to the user, never passed over.
pub proof fn law_panic_is_reported(m: TurnModel, error: Seq<char>)
    requires
        m.stage is Calling,
    ensures
        m.step(EventModel::Panicked(error)) == m.post(apology("task panic: "@ + error)),
{
    reveal_strlit("task panic: ");
    reveal_strlit("__blocked__");
    let text = "task panic: "@ + error;
    assert(text[0] == 't');
    assert("__blocked__"@[0] == '_');
}

/// Speech that was sent ends the turn and leaves the messages posted as they are; where it could
/// not be sent, its text is posted.
pub proof fn law_text_stands_in_for_voice(m: TurnModel, text: Seq<char>, audio: Seq<u8>)
    requires
        m.stage is Calling,
    ensures
        ({
            let next = m.step(EventModel::Returned(Ok(ResponseModel::Voice { text, audio }))).0;
            &&& next.awaits(EventModel::VoiceSent { delivered: true })
            &&& next.step(EventModel::VoiceSent { delivered: true }) == m.finish(None)
            &&& next.step(EventModel::VoiceSent { delivered: false }) == m.post(text)
        }),
{
}

/// What holds from the moment that the last text is being posted.
proof fn lemma_final_sync(before: Seq<(u64, Seq<char>)>, m: TurnModel, events: Seq<EventModel>)
    requires
        m.stage matches StageModel::FinalSync { sync } && sync.is_final && sync_invariant(
            before,
            sync,
        ),
        turn_accepts(m, events),
    ensures
        events.len() <= sync_calls_left(m.stage->FinalSync_sync),
        turn_run(m, events).stage matches StageModel::Finished { sent, failure: None } ==> {
            &&& sent.len() == m.stage->FinalSync_sync.chunks.len()
            &&& mirrors(before, sent, m.stage->FinalSync_sync.chunks, sent.len() as int)
        },
    decreases events.len(),
{
    let sync = m.stage->FinalSync_sync;
    if events.len() > 0 {
        let reply = events.first()->Replied_reply;
        let next = m.step(events.first()).0;
        lemma_sync_after(before, sync, reply);
        if next.stage is FinalSync {
            lemma_final_sync(before, next, events.drop_first());
        } else {
            lemma_finished_turn(next, events.drop_first());
        }
    }
}

/// Nothing comes after the end of a turn.
proof fn lemma_finished_turn(m: TurnModel, events: Seq<EventModel>)
    requires
        m.stage is Finished,
        turn_accepts(m, events),
    ensures
        events.len() == 0,
        turn_run(m, events) == m,
{
    if events.len() > 0 {
        assert(m.awaits(events.first()));
    }
}

/// When the last text of a turn has been posted without failure, the messages show its chunks,
/// one each and in order, none is left over, and those posted while the answer was made are
/// reused in their places.
pub proof fn law_last_text_is_posted(
    m: TurnModel,
    chunks: Seq<Seq<char>>,
    now: u64,
    replies: Seq<EventModel>,
)
    requires
        m.stage is FinalFormat,
        turn_accepts(m.step(EventModel::Formatted { chunks, now }).0, replies),
        turn_run(m.step(EventModel::Formatted { chunks, now }).0, replies).stage is Finished,
        turn_run(m.step(EventModel::Formatted { chunks, now }).0, replies).failure() is None,
    ensures
        ({
            let sent = turn_run(m.step(EventModel::Formatted { chunks, now }).0, replies).posted();
            &&& sent.len() == chunks.len()
            &&& mirrors(m.posted(), sent, chunks, chunks.len() as int)
        }),
{
    let next = m.step(EventModel::Formatted { chunks, now }).0;
    lemma_sync_start(chunks, m.posted(), true);
    if next.stage is FinalSync {
        lemma_final_sync(m.posted(), next, replies);
    } else {
        lemma_finished_turn(next, replies);
    }
}

/// Once the last text is known, a turn ends after at most one call for each of its chunks and one
/// for each message left over.
pub proof fn law_turn_ends(
    m: TurnModel,
    chunks: Seq<Seq<char>>,
    now: u64,
    replies: Seq<EventModel>,
)
    requires
        m.stage is FinalFormat,
        turn_accepts(m.step(EventModel::Formatted { chunks, now }).0, replies),
    ensures
        replies.len() <= chunks.len() + if m.posted().len() > chunks.len() {
            m.posted().len() - chunks.len()
        } else {
            0
        },
{
    let next = m.step(EventModel::Formatted { chunks, now }).0;
    lemma_sync_start(chunks, m.posted(), true);
    if next.stage is FinalSync {
        lemma_final_sync(m.posted(), next, replies);
    } else {
        lemma_finished_turn(next, replies);
    }
}

/// What holds from the moment that the answer so far is being posted, until more of the answer
/// is awaited.
proof fn lemma_stream_sync(before: Seq<(u64, Seq<char>)>, m: TurnModel, replies: Seq<EventModel>)
    requires
        m.stage matches StageModel::StreamSync { sync } && !sync.is_final && sync_invariant(
            before,
            sync,
        ),
        turn_accepts(m, replies),
        forall|i: int| 0 <= i < replies.len() ==> #[trigger] replies[i] is Replied,
        turn_run(m, replies).stage is Streaming,
    ensures
        ({
            let chunks = m.stage->StreamSync_sync.chunks;
            let sent = turn_run(m, replies).posted();
            &&& mirrors(before, sent, chunks, chunks.len() as int)
            &&& keeps_rest(before, sent, chunks.len() as int)
        }),
    decreases replies.len(),
{
    let sync = m.stage->StreamSync_sync;
    if replies.len() > 0 {
        assert(replies[0] is Replied);
        let next = m.step(replies.first()).0;
        let rest = replies.drop_first();
        lemma_sync_after(before, sync, replies.first()->Replied_reply);
        assert forall|i: int| 0 <= i < rest.len() implies #[trigger] rest[i] is Replied by {
            assert(rest[i] == replies[i + 1]);
        }
        assert(turn_accepts(next, rest));
        if next.stage is StreamSync {
            lemma_stream_sync(before, next, rest);
        } else if rest.len() > 0 {
            assert(rest[0] is Replied);
        }
    }
}

/// When an update has been posted without failure, the first messages show the chunks of the
/// answer so far, one each and in order; those posted before are reused in their places, and any
/// beyond the chunks stay as they were.
pub proof fn law_update_is_posted(
    m: TurnModel,
    chunks: Seq<Seq<char>>,
    now: u64,
    replies: Seq<EventModel>,
)
    requires
        m.stage is StreamFormat,
        turn_accepts(m.step(EventModel::Formatted { chunks, now }).0, replies),
        forall|i: int| 0 <= i < replies.len() ==> #[trigger] replies[i] is Replied,
        turn_run(m.step(EventModel::Formatted { chunks, now }).0, replies).stage is Streaming,
    ensures
        ({
            let sent = turn_run(m.step(EventModel::Formatted { chunks, now }).0, replies).posted();
            &&& mirrors(m.posted(), sent, chunks, chunks.len() as int)
            &&& keeps_rest(m.posted(), sent, chunks.len() as int)
        }),
{
    let next = m.step(EventModel::Formatted { chunks, now }).0;
    lemma_sync_start(chunks, m.posted(), false);
    if next.stage is StreamSync {
        lemma_stream_sync(m.posted(), next, replies);
    } else if replies.len() > 0 {
        assert(replies[0] is Replied);
    }
}

/// The chunks of the text that is posted for good: those that come once the callback has
/// returned.
pub open spec fn last_chunks(events: Seq<EventModel>, returned: bool) -> Option<Seq<Seq<char>>>
    decreases events.len(),
{
    if events.len() == 0 {
        None
    } else {
        match events.first() {
            EventModel::Returned(_) => last_chunks(events.drop_first(), true),
            EventModel::Panicked(_) => last_chunks(events.drop_first(), true),
            EventModel::Formatted { chunks, now: _ } if returned => Some(chunks),
            _ => last_chunks(events.drop_first(), returned),
        }
    }
}

/// The law below, from any stage before the last text is being posted.
proof fn lemma_turn_shows_its_last_text(m: TurnModel, events: Seq<EventModel>)
    requires
        !(m.stage is FinalSync),
        turn_accepts(m, events),
        turn_run(m, events).stage is Finished,
        turn_run(m, events).failure() is None,
        last_chunks(events, m.stage is Voice || m.stage is FinalFormat) is Some,
    ensures
        ({
            let chunks = last_chunks(events, m.stage is Voice || m.stage is FinalFormat)->0;
            let sent = turn_run(m, events).posted();
            &&& sent.len() == chunks.len()
            &&& forall|i: int| 0 <= i < sent.len() ==> (#[trigger] sent[i]).1 == chunks[i]
        }),
    decreases events.len(),
{
    let next = m.step(events.first()).0;
    let rest = events.drop_first();
    assert(m.awaits(events.first()));
    assert(turn_accepts(next, rest));
    if m.stage is FinalFormat {
        let chunks = events.first()->Formatted_chunks;
        let now = events.first()->Formatted_now;
        assert(events.first() == (EventModel::Formatted { chunks, now }));
        law_last_text_is_posted(m, chunks, now, rest);
        assert(last_chunks(events, true) == Some(chunks));
    } else if next.stage is Finished {
        lemma_finished_turn(next, rest);
        assert(last_chunks(rest, true) is None);
    } else {
        lemma_turn_shows_its_last_text(next, rest);
    }
}

/// Whatever was shown while the answer was made, a turn whose last text was posted without
/// failure leaves exactly its chunks in the channel, one message each and in order.
pub proof fn law_turn_shows_its_last_text(now: u64, events: Seq<EventModel>)
    requires
        turn_accepts(TurnModel::start(now), events),
        turn_run(TurnModel::start(now), events).stage is Finished,
        turn_run(TurnModel::start(now), events).failure() is None,
        last_chunks(events, false) is Some,
    ensures
        ({
            let chunks = last_chunks(events, false)->0;
            let sent = turn_run(TurnModel::start(now), events).posted();
            &&& sent.len() == chunks.len()
            &&& forall|i: int| 0 <= i < sent.len() ==> (#[trigger] sent[i]).1 == chunks[i]
        }),
{
    lemma_turn_shows_its_last_text(TurnModel::start(now), events);
}

/// The text that the callback returns is the text to be posted, word for word, whatever came
/// before; the messages posted so far are kept for it.
pub proof fn law_returned_text_is_posted(m: TurnModel, sent: Seq<(u64, Seq<char>)>, text: Seq<char>)
    requires
        m.stage matches StageModel::Calling { sent: held, failure: _ } && held == sent,
    ensures
        m.step(EventModel::Returned(Ok(ResponseModel::Text(text)))).1 == (ActionModel::Format {
            text,
        }),
        m.step(EventModel::Returned(Ok(ResponseModel::Text(text)))).0.stage == (
        StageModel::FinalFormat { sent }),
{
}

/// An error of the callback is reported in words that end with the error itself, whatever came
/// before; only the one error that says that the user may not use the bot is passed over.
pub proof fn law_errors_are_reported(m: TurnModel, sent: Seq<(u64, Seq<char>)>, error: Seq<char>)
    requires
        m.stage matches StageModel::Calling { sent: held, failure: _ } && held == sent,
    ensures
        error != "__blocked__"@ ==> {
            let (next, action) = m.step(EventModel::Returned(Err(error)));
            &&& action == (ActionModel::Format { text: "Sorry, an error occurred: "@ + error })
            &&& next.stage == (StageModel::FinalFormat { sent })
        },
        error == "__blocked__"@ ==> {
            let (next, action) = m.step(EventModel::Returned(Err(error)));
            &&& action == ActionModel::Finished
            &&& next.stage == (StageModel::Finished { sent, failure: None })
        },
        ({
            let (next, action) = m.step(EventModel::Panicked(error));
            &&& action == (ActionModel::Format {
                text: "Sorry, an error occurred: "@ + ("task panic: "@ + error),
            })
            &&& next.stage == (StageModel::FinalFormat { sent })
        }),
{
    law_panic_is_reported(m, error);
}

/// Speech is sent as it came, as a file; once it is sent nothing more is done, and where it could
/// not be sent, its text, word for word, is the text to be posted.
pub proof fn law_voice_is_sent_as_it_came(
    m: TurnModel,
    sent: Seq<(u64, Seq<char>)>,
    text: Seq<char>,
    audio: Seq<u8>,
)
    requires
        m.stage matches StageModel::Calling { sent: held, failure: _ } && held == sent,
    ensures
        ({
            let (sending, action) = m.step(
                EventModel::Returned(Ok(ResponseModel::Voice { text, audio })),
            );
            &&& action == (ActionModel::SendVoice { filename: "voice.ogg"@, audio })
            &&& sending.awaits(EventModel::VoiceSent { delivered: true })
            &&& sending.awaits(EventModel::VoiceSent { delivered: false })
            &&& sending.step(EventModel::VoiceSent { delivered: true }).1 == ActionModel::Finished
            &&& sending.step(EventModel::VoiceSent { delivered: true }).0.stage == (
            StageModel::Finished { sent, failure: None })
            &&& sending.step(EventModel::VoiceSent { delivered: false }).1 == (
            ActionModel::Format { text })
            &&& sending.step(EventModel::VoiceSent { delivered: false }).0.stage == (
            StageModel::FinalFormat { sent })
        }),
{
}

/// A piece of the answer is joined to the pieces before it. The answer so far is shown exactly
/// where a second or more has passed both since the first piece and since the last update; times
/// are in nanoseconds.
pub proof fn law_piece_is_joined_and_shown_in_time(
    m: TurnModel,
    sent: Seq<(u64, Seq<char>)>,
    text: Seq<char>,
    now: u64,
)
    requires
        m.stage == (StageModel::Streaming { sent }),
    ensures
        ({
            let (next, action) = m.step(EventModel::Delta { text, now });
            let first = match m.first_delta_at {
                Some(first) => first,
                None => now,
            };
            let due = now - first >= 1_000_000_000 && now - m.last_update >= 1_000_000_000;
            &&& next.accumulated == m.accumulated + text
            &&& next.first_delta_at == Some(first)
            &&& next.last_update == m.last_update
            &&& due ==> next.stage == (StageModel::StreamFormat { sent }) && action == (
            ActionModel::Format { text: m.accumulated + text })
            &&& !due ==> next.stage == (StageModel::Streaming { sent }) && action
                == ActionModel::AwaitDelta
        }),
{
}

/// The end of the answer is no failure: the messages stay, and the callback is waited for.
pub proof fn law_end_of_stream_waits_for_the_callback(m: TurnModel, sent: Seq<(u64, Seq<char>)>)
    requires
        m.stage == (StageModel::Streaming { sent }),
    ensures
        m.step(EventModel::StreamClosed).1 == ActionModel::AwaitCallback,
        m.step(EventModel::StreamClosed).0.stage == (StageModel::Calling { sent, failure: None }),
        m.step(EventModel::StreamClosed).0.accumulated == m.accumulated,
{
}

/// The time of the last update changes only when an update is completed, and is then the time at
/// which that was told.
pub proof fn law_last_update_is_when_it_was_completed(m: TurnModel, event: EventModel)
    requires
        m.awaits(event),
    ensures
        ({
            let next = m.step(event).0;
            if (m.stage is StreamFormat || m.stage is StreamSync) && next.stage is Streaming {
                match event {
                    EventModel::Formatted { chunks: _, now } => next.last_update == now,
                    EventModel::Replied { reply: _, now } => next.last_update == now,
                    _ => false,
                }
            } else {
                next.last_update == m.last_update
            }
        }),
{
}

/// When the first piece of the answer came.
pub open spec fn first_delta_time(events: Seq<EventModel>) -> Option<u64>
    decreases events.len(),
{
    if events.len() == 0 {
        None
    } else {
        match events.first() {
            EventModel::Delta { text: _, now } => Some(now),
            _ => first_delta_time(events.drop_first()),
        }
    }
}

/// From any state on, the time of the first piece is kept, or else taken from the first piece.
proof fn lemma_first_delta(m: TurnModel, events: Seq<EventModel>)
    requires
        turn_accepts(m, events),
    ensures
        turn_run(m, events).first_delta_at == if m.first_delta_at is Some {
            m.first_delta_at
        } else {
            first_delta_time(events)
        },
    decreases events.len(),
{
    if events.len() > 0 {
        lemma_first_delta(m.step(events.first()).0, events.drop_first());
    }
}

/// A turn keeps the time at which the first piece of the answer came.
pub proof fn law_first_piece_is_timed(now: u64, events: Seq<EventModel>)
    requires
        turn_accepts(TurnModel::start(now), events),
    ensures
        turn_run(TurnModel::start(now), events).first_delta_at == first_delta_time(events),
{
    lemma_first_delta(TurnModel::start(now), events);
}

/// A turn begins with nothing said and nothing posted, at the time that it is given.
pub proof fn law_turn_begins_empty(now: u64)
    ensures
        TurnModel::start(now).accumulated.len() == 0,
        TurnModel::start(now).posted().len() == 0,
        TurnModel::start(now).last_update == now,
        TurnModel::start(now).first_delta_at is None,
        TurnModel::start(now).stage is Streaming,
{
}

/// A turn can be told, at each stage, whatever can come of what it asked for, and nothing else.
pub proof fn law_each_stage_awaits_its_events(
    m: TurnModel,
    text: Seq<char>,
    chunks: Seq<Seq<char>>,
    now: u64,
    outcome: Result<ResponseModel, Seq<char>>,
    delivered: bool,
    reply: SyncReplyModel,
)
    ensures
        m.awaits(EventModel::Delta { text, now }) <==> m.stage is Streaming,
        m.awaits(EventModel::StreamClosed) <==> m.stage is Streaming,
        m.awaits(EventModel::Formatted { chunks, now }) <==> m.stage is StreamFormat || m.stage
            is FinalFormat,
        m.awaits(EventModel::Returned(outcome)) <==> m.stage is Calling,
        m.awaits(EventModel::Panicked(text)) <==> m.stage is Calling,
        m.awaits(EventModel::VoiceSent { delivered }) <==> m.stage is Voice,
        m.stage matches StageModel::StreamSync { sync } ==> (m.awaits(
            EventModel::Replied { reply, now },
        ) <==> sync.awaits(reply)),
        m.stage matches StageModel::FinalSync { sync } ==> (m.awaits(
            EventModel::Replied { reply, now },
        ) <==> sync.awaits(reply)),
{
}

/// There is something to answer exactly where there is a file, or a character that is not white
/// space.
pub proof fn law_anything_said_calls_for_an_answer(text: Seq<char>, has_file: bool)
    ensures
        calls_for_answer(text, has_file) <==> has_file || exists|i: int|
            0 <= i < text.len() && !is_white_space(#[trigger] text[i]),
{
    law_blank_is_all_white_space(text);
}

/// A failed update is kept in words that end with what was said of it.
pub proof fn law_failed_update_is_explained(m: TurnModel, sync: SyncModel, e: Seq<char>, now: u64)
    requires
        m.stage == (StageModel::StreamSync { sync }),
    ensures
        m.step(EventModel::Replied { reply: SyncReplyModel::Edited(Err(e)), now }).0.stage == (
        StageModel::Calling {
            sent: sync.sent,
            failure: Some("failed to edit Discord message: "@ + e),
        }),
        m.step(EventModel::Replied { reply: SyncReplyModel::Sent(Err(e)), now }).0.stage == (
        StageModel::Calling {
            sent: sync.sent,
            failure: Some("failed to send Discord chunk: "@ + e),
        }),
{
}

/// A failure while the last text is posted ends the turn, and is kept in words that end with what
/// was said of it.
pub proof fn law_failed_last_text_is_explained(
    m: TurnModel,
    sync: SyncModel,
    e: Seq<char>,
    now: u64,
)
    requires
        m.stage == (StageModel::FinalSync { sync }),
    ensures
        m.step(EventModel::Replied { reply: SyncReplyModel::Edited(Err(e)), now }).0.stage == (
        StageModel::Finished {
            sent: sync.sent,
            failure: Some("failed to edit Discord message: "@ + e),
        }),
        m.step(EventModel::Replied { reply: SyncReplyModel::Sent(Err(e)), now }).0.stage == (
        StageModel::Finished {
            sent: sync.sent,
            failure: Some("failed to send Discord chunk: "@ + e),
        }),
{
}

/// The texts that a turn asks to have formatted while the events come, in order.
pub open spec fn asked_texts(m: TurnModel, events: Seq<EventModel>) -> Seq<Seq<char>>
    decreases events.len(),
{
    if events.len() == 0 {
        Seq::empty()
    } else {
        let (next, action) = m.step(events.first());
        let rest = asked_texts(next, events.drop_first());
        match action {
            ActionModel::Format { text } => seq![text] + rest,
            _ => rest,
        }
    }
}

/// Two stretches of events, one after the other, are as good as one.
proof fn lemma_stretches(m: TurnModel, first: Seq<EventModel>, second: Seq<EventModel>)
    requires
        turn_accepts(m, first + second),
    ensures
        turn_accepts(m, first),
        turn_accepts(turn_run(m, first), second),
        turn_run(m, first + second) == turn_run(turn_run(m, first), second),
        asked_texts(m, first + second) == asked_texts(m, first) + asked_texts(
            turn_run(m, first),
            second,
        ),
    decreases first.len(),
{
    if first.len() > 0 {
        let next = m.step(first.first()).0;
        assert((first + second).drop_first() =~= first.drop_first() + second);
        assert((first + second).first() == first.first());
        lemma_stretches(next, first.drop_first(), second);
    } else {
        assert(first + second =~= second);
    }
    assert(asked_texts(m, first + second) =~= asked_texts(m, first) + asked_texts(
        turn_run(m, first),
        second,
    ));
}

/// No text is asked for once the last one is.
proof fn lemma_no_more_texts(m: TurnModel, events: Seq<EventModel>)
    requires
        m.stage is FinalFormat || m.stage is FinalSync || m.stage is Finished,
        turn_accepts(m, events),
    ensures
        asked_texts(m, events).len() == 0,
    decreases events.len(),
{
    if events.len() > 0 {
        lemma_no_more_texts(m.step(events.first()).0, events.drop_first());
    }
}

/// Over a whole turn, once the callback has returned a text, that very text is the one and only
/// text that is still asked for.
pub proof fn law_last_text_asked_for_is_the_answer(
    now: u64,
    before: Seq<EventModel>,
    text: Seq<char>,
    after: Seq<EventModel>,
)
    requires
        turn_accepts(
            TurnModel::start(now),
            before + (seq![EventModel::Returned(Ok(ResponseModel::Text(text)))] + after),
        ),
    ensures
        asked_texts(
            TurnModel::start(now),
            before + (seq![EventModel::Returned(Ok(ResponseModel::Text(text)))] + after),
        ) == asked_texts(TurnModel::start(now), before).push(text),
{
    let returned = EventModel::Returned(Ok(ResponseModel::Text(text)));
    let rest = seq![returned] + after;
    lemma_stretches(TurnModel::start(now), before, rest);
    let calling = turn_run(TurnModel::start(now), before);
    assert(rest.first() == returned);
    assert(rest.drop_first() =~= after);
    let next = calling.step(returned).0;
    assert(calling.awaits(returned));
    assert(turn_accepts(next, after));
    lemma_no_more_texts(next, after);
    assert(asked_texts(calling, rest) =~= seq![text]);
    assert(asked_texts(TurnModel::start(now), before) + seq![text] =~= asked_texts(
        TurnModel::start(now),
        before,
    ).push(text));
}

/// Over a whole turn, what is asked for before the callback is done is, each time, all that has
/// come of the answer by then.
pub proof fn law_streamed_text_is_the_answer_so_far(
    now: u64,
    before: Seq<EventModel>,
    text: Seq<char>,
    at: u64,
)
    requires
        turn_accepts(TurnModel::start(now), before),
        turn_run(TurnModel::start(now), before).stage is Streaming,
        turn_run(TurnModel::start(now), before).step(EventModel::Delta { text, now: at }).1
            is Format,
    ensures
        turn_run(TurnModel::start(now), before).step(EventModel::Delta { text, now: at }).1 == (
        ActionModel::Format { text: joined_deltas(before) + text }),
{
    law_answer_is_the_pieces_joined(TurnModel::start(now), before);
    assert(TurnModel::start(now).accumulated + joined_deltas(before) =~= joined_deltas(before));
}

/// The answers to calls among the events, in order.
pub open spec fn replies_among(events: Seq<EventModel>) -> Seq<SyncReplyModel>
    decreases events.len(),
{
    if events.len() == 0 {
        Seq::empty()
    } else {
        match events.first() {
            EventModel::Replied { reply, now: _ } => seq![reply] + replies_among(
                events.drop_first(),
            ),
            _ => replies_among(events.drop_first()),
        }
    }
}

/// What a channel shows once the calls that a turn asks for, one after the other, have been
/// answered; `asked` is what it asks for at first.
pub open spec fn turn_channel(
    channel: Seq<(u64, Seq<char>)>,
    m: TurnModel,
    asked: ActionModel,
    events: Seq<EventModel>,
) -> Seq<(u64, Seq<char>)>
    decreases events.len(),
{
    if events.len() == 0 {
        channel
    } else {
        let changed = match (asked, events.first()) {
            (ActionModel::Call(call), EventModel::Replied { reply, now: _ }) => channel_after(
                channel,
                call,
                reply,
            ),
            _ => channel,
        };
        let (next, action) = m.step(events.first());
        turn_channel(changed, next, action, events.drop_first())
    }
}

/// Whether a state is one that a turn comes to, and asks for what it does there.
spec fn is_orderly(m: TurnModel, asked: ActionModel) -> bool {
    match m.stage {
        StageModel::StreamSync { sync } => {
            &&& asked == ActionModel::Call(sync.action())
            &&& exists|before: Seq<(u64, Seq<char>)>| #[trigger] sync_invariant(before, sync)
        },
        StageModel::FinalSync { sync } => {
            &&& asked == ActionModel::Call(sync.action())
            &&& exists|before: Seq<(u64, Seq<char>)>| #[trigger] sync_invariant(before, sync)
        },
        _ => !(asked is Call),
    }
}

/// A turn goes from orderly state to orderly state, and changes the channel and its record in the
/// same way.
proof fn lemma_turn_channel(m: TurnModel, asked: ActionModel, events: Seq<EventModel>)
    requires
        is_orderly(m, asked),
        turn_accepts(m, events),
        numbers_differ(m.posted(), replies_among(events)),
    ensures
        turn_channel(m.posted(), m, asked, events) == turn_run(m, events).posted(),
    decreases events.len(),
{
    if events.len() > 0 {
        let event = events.first();
        let rest = events.drop_first();
        let (next, action) = m.step(event);
        match event {
            EventModel::Replied { reply, now: _ } => {
                let replies = replies_among(events);
                assert(replies.first() == reply);
                assert(replies.drop_first() =~= replies_among(rest));
                let sync = match m.stage {
                    StageModel::StreamSync { sync } => sync,
                    StageModel::FinalSync { sync } => sync,
                    _ => arbitrary(),
                };
                let before = choose|before: Seq<(u64, Seq<char>)>| #[trigger]
                    sync_invariant(before, sync);
                lemma_channel_step(before, sync, replies);
                lemma_sync_after(before, sync, reply);
            },
            EventModel::Formatted { chunks, now: _ } => {
                lemma_sync_start(chunks, m.posted(), m.stage is FinalFormat);
            },
            _ => {},
        }
        lemma_turn_channel(next, action, rest);
    }
}

/// What a turn takes to be posted is what the calls it asked for have left in the channel, message
/// by message.
pub proof fn law_turn_knows_what_the_channel_shows(now: u64, events: Seq<EventModel>)
    requires
        turn_accepts(TurnModel::start(now), events),
        numbers_differ(Seq::empty(), replies_among(events)),
    ensures
        turn_channel(Seq::empty(), TurnModel::start(now), ActionModel::AwaitDelta, events)
            == turn_run(TurnModel::start(now), events).posted(),
{
    lemma_turn_channel(TurnModel::start(now), ActionModel::AwaitDelta, events);
}

/// Carried out on a channel, the calls of a whole turn whose last text was posted without failure
/// leave exactly the chunks of that text there, one message each and in order, whatever was shown
/// while the answer was made.
pub proof fn law_channel_shows_the_last_text(now: u64, events: Seq<EventModel>)
    requires
        turn_accepts(TurnModel::start(now), events),
        numbers_differ(Seq::empty(), replies_among(events)),
        turn_run(TurnModel::start(now), events).stage is Finished,
        turn_run(TurnModel::start(now), events).failure() is None,
        last_chunks(events, false) is Some,
    ensures
        ({
            let chunks = last_chunks(events, false)->0;
            let channel = turn_channel(
                Seq::empty(),
                TurnModel::start(now),
                ActionModel::AwaitDelta,
                events,
            );
            &&& channel.len() == chunks.len()
            &&& forall|i: int| 0 <= i < channel.len() ==> (#[trigger] channel[i]).1 == chunks[i]
        }),
{
    law_turn_knows_what_the_channel_shows(now, events);
    law_turn_shows_its_last_text(now, events);
}

/// Events and actions are read as they are.
pub proof fn law_events_and_actions_are_read_as_they_are(
    text: String,
    other: String,
    bytes: Vec<u8>,
    now: u64,
    delivered: bool,
    chunks: Vec<String>,
    reply: SyncReply,
    call: SyncAction,
)
    ensures
        (TurnEvent::Delta { text, now })@ == (EventModel::Delta { text: text@, now }),
        TurnEvent::StreamClosed@ == EventModel::StreamClosed,
        (TurnEvent::Formatted { chunks, now })@ == (EventModel::Formatted {
            chunks: texts(chunks@),
            now,
        }),
        (TurnEvent::Replied { reply, now })@ == (EventModel::Replied { reply: reply@, now }),
        TurnEvent::Returned(Ok(ChannelResponse::Text(text)))@ == EventModel::Returned(
            Ok(ResponseModel::Text(text@)),
        ),
        TurnEvent::Returned(Ok(ChannelResponse::Voice { text, audio: bytes }))@
            == EventModel::Returned(Ok(ResponseModel::Voice { text: text@, audio: bytes@ })),
        TurnEvent::Returned(Err(text))@ == EventModel::Returned(Err(text@)),
        TurnEvent::Panicked(text)@ == EventModel::Panicked(text@),
        (TurnEvent::VoiceSent { delivered })@ == (EventModel::VoiceSent { delivered }),
        TurnAction::AwaitDelta@ == ActionModel::AwaitDelta,
        (TurnAction::Format { text })@ == (ActionModel::Format { text: text@ }),
        TurnAction::Call(call)@ == ActionModel::Call(call@),
        TurnAction::AwaitCallback@ == ActionModel::AwaitCallback,
        (TurnAction::SendVoice { filename: other, audio: bytes })@ == (ActionModel::SendVoice {
            filename: other@,
            audio: bytes@,
        }),
        TurnAction::Finished@ == ActionModel::Finished,
{
}

/// The failure that a turn tells of is the one that it kept.
pub proof fn law_failure_told_is_the_one_kept(
    m: TurnModel,
    sent: Seq<(u64, Seq<char>)>,
    kept: Option<Seq<char>>,
)
    ensures
        m.stage == (StageModel::Calling { sent, failure: kept }) ==> m.failure() == kept,
        m.stage == (StageModel::Finished { sent, failure: kept }) ==> m.failure() == kept,
        !(m.stage is Calling || m.stage is Finished) ==> m.failure() is None,
{
}

/// The pace of a turn: an update each second at most, and a sign that the bot is typing every four
/// seconds; sixty-four pieces of the answer may wait.
pub proof fn law_pace_of_a_turn()
    ensures
        UPDATE_INTERVAL == 1_000_000_000,
        TYPING_INTERVAL_SECS == 4,
        DELTA_CAPACITY == 64,
{
}

/// An update is carried through call by call. While calls are left, the turn asks for the next;
/// once none is, it waits for more of the answer, and where one failed, for the callback. The
/// answer so far is not touched.
pub proof fn law_update_is_carried_through(
    m: TurnModel,
    sync: SyncModel,
    event: EventModel,
    now: u64,
)
    requires
        match (m.stage, event) {
            (StageModel::StreamFormat { sent }, EventModel::Formatted { chunks, now: at }) => {
                &&& at == now
                &&& sync == SyncModel::start(chunks, sent, false)
            },
            (StageModel::StreamSync { sync: earlier }, EventModel::Replied { reply, now: at }) => {
                &&& at == now
                &&& earlier.awaits(reply)
                &&& sync == earlier.after(reply)
            },
            _ => false,
        },
    ensures
        ({
            let (next, action) = m.step(event);
            &&& next.accumulated == m.accumulated
            &&& next.first_delta_at == m.first_delta_at
            &&& match sync.action() {
                SyncActionModel::Finished(Ok(_)) => {
                    &&& next.stage == (StageModel::Streaming { sent: sync.sent })
                    &&& next.last_update == now
                    &&& action == ActionModel::AwaitDelta
                },
                SyncActionModel::Finished(Err(e)) => {
                    &&& next.stage == (StageModel::Calling { sent: sync.sent, failure: Some(e) })
                    &&& action == ActionModel::AwaitCallback
                },
                call => {
                    &&& next.stage == (StageModel::StreamSync { sync })
                    &&& action == ActionModel::Call(call)
                },
            }
        }),
{
}

/// The last text is posted call by call. While calls are left, the turn asks for the next; once
/// none is, or one failed, it ends.
pub proof fn law_last_text_is_carried_through(
    m: TurnModel,
    sync: SyncModel,
    event: EventModel,
)
    requires
        match (m.stage, event) {
            (StageModel::FinalFormat { sent }, EventModel::Formatted { chunks, now: _ }) => {
                sync == SyncModel::start(chunks, sent, true)
            },
            (StageModel::FinalSync { sync: earlier }, EventModel::Replied { reply, now: _ }) => {
                &&& earlier.awaits(reply)
                &&& sync == earlier.after(reply)
            },
            _ => false,
        },
    ensures
        ({
            let (next, action) = m.step(event);
            match sync.action() {
                SyncActionModel::Finished(Ok(_)) => {
                    &&& next.stage == (StageModel::Finished { sent: sync.sent, failure: None })
                    &&& action == ActionModel::Finished
                },
                SyncActionModel::Finished(Err(e)) => {
                    &&& next.stage == (StageModel::Finished { sent: sync.sent, failure: Some(e) })
                    &&& action == ActionModel::Finished
                },
                call => {
                    &&& next.stage == (StageModel::FinalSync { sync })
                    &&& action == ActionModel::Call(call)
                },
            }
        }),
{
}

} // verus!
