//! Finding the text that a thread was started with, for the bot's first turn in it.

use vstd::prelude::*;

use crate::ids::{ChannelId, MessageId, UserId};
use crate::message::{
    discord_message_prompt_text, law_prompt_text_is_not_blank, prompt_text, text_of, DiscordMessage,
    MessageKind,
};
use crate::text::trimmed;

verus! {

/// How many of the latest messages of a thread are read.
pub const HISTORY_LIMIT: u8 = 25;

/// What is known of a channel.
#[derive(Clone, Copy, Debug)]
pub enum ChannelInfo {
    /// A channel of a guild.
    Guild {
        is_thread: bool,
        /// The channel that it belongs to.
        parent_id: Option<ChannelId>,
    },
    /// Any other channel.
    Other,
}

/// The channel that a thread belongs to; what is no thread, or belongs to none, has none.
pub open spec fn thread_parent(channel: Option<ChannelInfo>) -> Option<u64> {
    match channel {
        Some(ChannelInfo::Guild { is_thread: true, parent_id: Some(parent) }) => Some(parent@),
        _ => None,
    }
}

/// Whether the bot wrote any of the messages but the given one.
pub open spec fn bot_has_spoken(history: Seq<DiscordMessage>, message: u64, bot: u64) -> bool {
    exists|i: int|
        0 <= i < history.len() && (#[trigger] history[i]).id@ != message && history[i].author.id@
            == bot
}

/// The text of the first message that shows what the thread was started from.
pub open spec fn shown_starter_text(history: Seq<DiscordMessage>) -> Option<Seq<char>>
    decreases history.len(),
{
    if history.len() == 0 {
        None
    } else if history.first().kind == MessageKind::ThreadStarter {
        prompt_text(history.first())
    } else {
        shown_starter_text(history.drop_first())
    }
}

/// Where a search stands.
pub enum LookupModel {
    /// Waiting to be told what channel the message is in.
    Resolving { message: u64, channel: u64, bot: u64 },
    /// Waiting for the latest messages of the thread.
    Reading { message: u64, channel: u64, bot: u64, parent: u64 },
    /// Waiting for the message that the thread was started from.
    Fetching,
    /// Nothing more to do.
    Finished,
}

/// What a search asks for.
pub enum LookupActionModel {
    ResolveChannel { channel: u64 },
    ReadHistory { channel: u64, limit: u8 },
    FetchMessage { channel: u64, message: u64 },
    Finished { text: Option<Seq<char>> },
}

/// The end of a search.
pub open spec fn found(text: Option<Seq<char>>) -> (LookupModel, LookupActionModel) {
    (LookupModel::Finished, LookupActionModel::Finished { text })
}

/// The text of the message that a thread was started from.
pub open spec fn source_text(source: Option<DiscordMessage>) -> Option<Seq<char>> {
    match source {
        Some(source) => prompt_text(source),
        None => None,
    }
}

impl LookupModel {
    /// The state and action at the beginning. There are no threads in direct messages.
    pub open spec fn start(message: DiscordMessage, bot: u64) -> (LookupModel, LookupActionModel) {
        if message.guild_id is None {
            found(None)
        } else {
            (
                LookupModel::Resolving {
                    message: message.id@,
                    channel: message.channel_id@,
                    bot,
                },
                LookupActionModel::ResolveChannel { channel: message.channel_id@ },
            )
        }
    }

    /// Whether the event can come in this state.
    pub open spec fn awaits(self, event: LookupEvent) -> bool {
        match event {
            LookupEvent::Resolved(_) => self is Resolving,
            LookupEvent::HistoryRead(_) => self is Reading,
            LookupEvent::Fetched(_) => self is Fetching,
        }
    }

    /// The state and action after an event that is awaited. A thread that was started from a
    /// message has the number of that message.
    pub open spec fn step(self, event: LookupEvent) -> (LookupModel, LookupActionModel) {
        match (self, event) {
            (
                LookupModel::Resolving { message, channel, bot },
                LookupEvent::Resolved(info),
            ) => match thread_parent(info) {
                Some(parent) => (
                    LookupModel::Reading { message, channel, bot, parent },
                    LookupActionModel::ReadHistory { channel, limit: HISTORY_LIMIT },
                ),
                None => found(None),
            },
            (
                LookupModel::Reading { message, channel, bot, parent },
                LookupEvent::HistoryRead(history),
            ) => if history matches Some(history) && bot_has_spoken(history@, message, bot) {
                found(None)
            } else if history matches Some(history) && shown_starter_text(history@) is Some {
                found(shown_starter_text(history->0@))
            } else {
                (
                    LookupModel::Fetching,
                    LookupActionModel::FetchMessage { channel: parent, message: channel },
                )
            },
            (LookupModel::Fetching, LookupEvent::Fetched(source)) => found(source_text(source)),
            _ => found(None),
        }
    }
}

/// What a search is told.
#[derive(Debug)]
pub enum LookupEvent {
    /// What the channel is; `None` where it could not be found out.
    Resolved(Option<ChannelInfo>),
    /// The latest messages; `None` where they could not be read.
    HistoryRead(Option<Vec<DiscordMessage>>),
    /// The message asked for; `None` where it could not be had.
    Fetched(Option<DiscordMessage>),
}

/// What a search asks for.
#[derive(Debug)]
pub enum LookupAction {
    /// Find out what the channel is.
    ResolveChannel { channel_id: ChannelId },
    /// Read the latest messages of the channel, no more than `limit`.
    ReadHistory { channel_id: ChannelId, limit: u8 },
    /// Get one message of the channel.
    FetchMessage { channel_id: ChannelId, message_id: MessageId },
    /// Nothing more; the text that was found, if any.
    Finished { text: Option<String> },
}

impl View for LookupAction {
    type V = LookupActionModel;

    open spec fn view(&self) -> LookupActionModel {
        match self {
            LookupAction::ResolveChannel { channel_id } => LookupActionModel::ResolveChannel {
                channel: channel_id@,
            },
            LookupAction::ReadHistory { channel_id, limit } => LookupActionModel::ReadHistory {
                channel: channel_id@,
                limit: *limit,
            },
            LookupAction::FetchMessage { channel_id, message_id } => {
                LookupActionModel::FetchMessage { channel: channel_id@, message: message_id@ }
            },
            LookupAction::Finished { text } => LookupActionModel::Finished { text: text_of(*text) },
        }
    }
}

#[derive(Debug)]
enum Stage {
    Resolving { message: MessageId, channel: ChannelId, bot: UserId },
    Reading { message: MessageId, channel: ChannelId, bot: UserId, parent: ChannelId },
    Fetching,
    Finished,
}

/// The search for the text that a thread was started with.
#[derive(Debug)]
pub struct ThreadStarterLookup {
    stage: Stage,
}

impl View for ThreadStarterLookup {
    type V = LookupModel;

    closed spec fn view(&self) -> LookupModel {
        match self.stage {
            Stage::Resolving { message, channel, bot } => LookupModel::Resolving {
                message: message@,
                channel: channel@,
                bot: bot@,
            },
            Stage::Reading { message, channel, bot, parent } => LookupModel::Reading {
                message: message@,
                channel: channel@,
                bot: bot@,
                parent: parent@,
            },
            Stage::Fetching => LookupModel::Fetching,
            Stage::Finished => LookupModel::Finished,
        }
    }
}

/// Whether the bot wrote any of the messages but the given one.
fn bot_spoke(history: &Vec<DiscordMessage>, message: MessageId, bot: UserId) -> (spoke: bool)
    ensures
        spoke == bot_has_spoken(history@, message@, bot@),
{
    for i in 0..history.len()
        invariant
            forall|j: int|
                0 <= j < i ==> (#[trigger] history@[j]).id@ == message@ || history@[j].author.id@
                    != bot@,
    {
        if history[i].id.get() != message.get() && history[i].author.id.get() == bot.get() {
            assert(history@[i as int].id@ != message@);
            return true;
        }
    }
    false
}

/// The text of the first message that shows what the thread was started from.
fn starter_in_history(history: &Vec<DiscordMessage>) -> (text: Option<String>)
    ensures
        text_of(text) == shown_starter_text(history@),
{
    proof {
        assert(history@.skip(0) =~= history@);
    }
    for i in 0..history.len()
        invariant
            shown_starter_text(history@) == shown_starter_text(history@.skip(i as int)),
    {
        proof {
            assert(history@.skip(i as int).drop_first() =~= history@.skip(i + 1));
        }
        match history[i].kind {
            MessageKind::ThreadStarter => {
                return discord_message_prompt_text(&history[i]);
            },
            MessageKind::Other => {},
        }
    }
    None
}

impl ThreadStarterLookup {
    fn finish(text: Option<String>) -> (end: (Self, LookupAction))
        ensures
            (end.0@, end.1@) == found(text_of(text)),
    {
        (ThreadStarterLookup { stage: Stage::Finished }, LookupAction::Finished { text })
    }

    /// Begins to search for the text that the thread of the message was started with.
    pub fn begin(message: &DiscordMessage, bot_id: UserId) -> (lookup: (Self, LookupAction))
        ensures
            (lookup.0@, lookup.1@) == LookupModel::start(*message, bot_id@),
    {
        if message.guild_id.is_none() {
            return Self::finish(None);
        }
        let stage = Stage::Resolving {
            message: message.id,
            channel: message.channel_id,
            bot: bot_id,
        };
        (
            ThreadStarterLookup { stage },
            LookupAction::ResolveChannel { channel_id: message.channel_id },
        )
    }

    /// Takes in an event, and says what to do next.
    pub fn step(self, event: LookupEvent) -> (next: (Self, LookupAction))
        requires
            self@.awaits(event),
        ensures
            (next.0@, next.1@) == self@.step(event),
    {
        match (self.stage, event) {
            (Stage::Resolving { message, channel, bot }, LookupEvent::Resolved(info)) => match info {
                Some(ChannelInfo::Guild { is_thread: true, parent_id: Some(parent) }) => (
                    ThreadStarterLookup {
                        stage: Stage::Reading { message, channel, bot, parent },
                    },
                    LookupAction::ReadHistory { channel_id: channel, limit: HISTORY_LIMIT },
                ),
                _ => Self::finish(None),
            },
            (
                Stage::Reading { message, channel, bot, parent },
                LookupEvent::HistoryRead(history),
            ) => {
                if let Some(history) = history {
                    if bot_spoke(&history, message, bot) {
                        return Self::finish(None);
                    }
                    let text = starter_in_history(&history);
                    if text.is_some() {
                        return Self::finish(text);
                    }
                }
                (
                    ThreadStarterLookup { stage: Stage::Fetching },
                    LookupAction::FetchMessage {
                        channel_id: parent,
                        message_id: channel.source_message(),
                    },
                )
            },
            (Stage::Fetching, LookupEvent::Fetched(source)) => match source {
                Some(source) => Self::finish(discord_message_prompt_text(&source)),
                None => Self::finish(None),
            },
            _ => Self::finish(None),
        }
    }
}

/// The text that a thread was started with, given all that can be found out about it: what
/// channel the message is in, the latest messages there, and the message that the thread was
/// started from.
pub open spec fn starter_text(
    message: DiscordMessage,
    bot: u64,
    channel: Option<ChannelInfo>,
    history: Option<Vec<DiscordMessage>>,
    source: Option<DiscordMessage>,
) -> Option<Seq<char>> {
    if message.guild_id is None || thread_parent(channel) is None {
        None
    } else if history matches Some(history) && bot_has_spoken(history@, message.id@, bot) {
        None
    } else if history matches Some(history) && shown_starter_text(history@) is Some {
        shown_starter_text(history->0@)
    } else {
        source_text(source)
    }
}

/// What a search ends with when it is told the given things as it asks for them, if it ends
/// within the given number of steps.
pub open spec fn lookup_result(
    at: (LookupModel, LookupActionModel),
    channel: Option<ChannelInfo>,
    history: Option<Vec<DiscordMessage>>,
    source: Option<DiscordMessage>,
    steps: nat,
) -> Option<Option<Seq<char>>>
    decreases steps,
{
    match at.1 {
        LookupActionModel::Finished { text } => Some(text),
        _ => {
            let event = match at.1 {
                LookupActionModel::ResolveChannel { .. } => LookupEvent::Resolved(channel),
                LookupActionModel::ReadHistory { .. } => LookupEvent::HistoryRead(history),
                _ => LookupEvent::Fetched(source),
            };
            if steps > 0 && at.0.awaits(event) {
                lookup_result(at.0.step(event), channel, history, source, (steps - 1) as nat)
            } else {
                None
            }
        },
    }
}

/// A search ends within three steps, with the text that the thread was started with.
pub proof fn law_lookup_finds_the_starter_text(
    message: DiscordMessage,
    bot: u64,
    channel: Option<ChannelInfo>,
    history: Option<Vec<DiscordMessage>>,
    source: Option<DiscordMessage>,
)
    ensures
        lookup_result(LookupModel::start(message, bot), channel, history, source, 3) == Some(
            starter_text(message, bot, channel, history, source),
        ),
{
    reveal_with_fuel(lookup_result, 4);
}

/// The thread's starter text serves the bot's first turn only: once the bot has written in the
/// thread, none is found.
pub proof fn law_starter_serves_the_first_turn_only(
    message: DiscordMessage,
    bot: u64,
    channel: Option<ChannelInfo>,
    history: Vec<DiscordMessage>,
    source: Option<DiscordMessage>,
)
    requires
        bot_has_spoken(history@, message.id@, bot),
    ensures
        starter_text(message, bot, channel, Some(history), source) is None,
{
}

/// A starter text that is found is trimmed and not empty.
pub proof fn law_starter_text_is_not_blank(
    message: DiscordMessage,
    bot: u64,
    channel: Option<ChannelInfo>,
    history: Option<Vec<DiscordMessage>>,
    source: Option<DiscordMessage>,
)
    requires
        starter_text(message, bot, channel, history, source) is Some,
    ensures
        ({
            let text = starter_text(message, bot, channel, history, source)->0;
            text.len() > 0 && trimmed(text) == text
        }),
{
    if history matches Some(history) && shown_starter_text(history@) is Some {
        lemma_shown_starter_text(history->0@);
    } else {
        law_prompt_text_is_not_blank(source->0);
    }
}

/// The text that a thread shows is the prompt text of one of its messages.
proof fn lemma_shown_starter_text(history: Seq<DiscordMessage>)
    requires
        shown_starter_text(history) is Some,
    ensures
        shown_starter_text(history)->0.len() > 0,
        trimmed(shown_starter_text(history)->0) == shown_starter_text(history)->0,
    decreases history.len(),
{
    if history.first().kind == MessageKind::ThreadStarter {
        law_prompt_text_is_not_blank(history.first());
    } else {
        lemma_shown_starter_text(history.drop_first());
    }
}

/// If any message of the history, wherever it stands, is by the bot and is not the message at
/// hand, no starter text is found.
pub proof fn law_any_word_of_the_bot_ends_the_search(
    message: DiscordMessage,
    bot: u64,
    channel: Option<ChannelInfo>,
    history: Vec<DiscordMessage>,
    source: Option<DiscordMessage>,
    k: int,
)
    requires
        0 <= k < history@.len(),
        history@[k].id@ != message.id@,
        history@[k].author.id@ == bot,
    ensures
        starter_text(message, bot, channel, Some(history), source) is None,
        lookup_result(LookupModel::start(message, bot), channel, Some(history), source, 3) == Some(
            None::<Seq<char>>,
        ),
{
    law_lookup_finds_the_starter_text(message, bot, channel, Some(history), source);
}

/// The text of the message that stands first among those that show what a thread was started from
/// is the text that the thread shows.
proof fn lemma_first_shown(history: Seq<DiscordMessage>, at: int)
    requires
        0 <= at <= history.len(),
        at < history.len() ==> history[at].kind == MessageKind::ThreadStarter,
        forall|j: int| 0 <= j < at ==> (#[trigger] history[j]).kind != MessageKind::ThreadStarter,
    ensures
        at < history.len() ==> shown_starter_text(history) == prompt_text(history[at]),
        at == history.len() ==> shown_starter_text(history) is None,
    decreases history.len(),
{
    if history.len() > 0 && at > 0 {
        assert(history[0].kind != MessageKind::ThreadStarter);
        let rest = history.drop_first();
        assert forall|j: int| 0 <= j < at - 1 implies (#[trigger] rest[j]).kind
            != MessageKind::ThreadStarter by {
            assert(rest[j] == history[j + 1]);
        }
        lemma_first_shown(rest, at - 1);
    }
}

/// On the bot's first turn in a thread the text found is that of the first message, at place `at`,
/// that shows what the thread was started from; where that message has no text, or no message
/// shows it (`at` is the end), it is the text of the message that the thread was started from.
pub proof fn law_first_turn_gets_the_starter(
    message: DiscordMessage,
    bot: u64,
    parent: ChannelId,
    history: Vec<DiscordMessage>,
    source: Option<DiscordMessage>,
    at: int,
)
    requires
        message.guild_id is Some,
        forall|k: int|
            0 <= k < history@.len() ==> (#[trigger] history@[k]).id@ == message.id@
                || history@[k].author.id@ != bot,
        0 <= at <= history@.len(),
        at < history@.len() ==> history@[at].kind == MessageKind::ThreadStarter,
        forall|j: int|
            0 <= j < at ==> (#[trigger] history@[j]).kind != MessageKind::ThreadStarter,
    ensures
        ({
            let channel = Some(ChannelInfo::Guild { is_thread: true, parent_id: Some(parent) });
            let text = starter_text(message, bot, channel, Some(history), source);
            if at < history@.len() && prompt_text(history@[at]) is Some {
                text == prompt_text(history@[at])
            } else if source is Some {
                text == prompt_text(source->0)
            } else {
                text is None
            }
        }),
{
    lemma_first_shown(history@, at);
}

/// Where the messages of a thread cannot be read, the text found is that of the message that the
/// thread was started from, if that can be had.
pub proof fn law_unread_thread_gets_its_source(
    message: DiscordMessage,
    bot: u64,
    parent: ChannelId,
    source: Option<DiscordMessage>,
)
    requires
        message.guild_id is Some,
    ensures
        ({
            let channel = Some(ChannelInfo::Guild { is_thread: true, parent_id: Some(parent) });
            let text = starter_text(message, bot, channel, None, source);
            &&& source matches Some(found) ==> text == prompt_text(found)
            &&& source is None ==> text is None
        }),
{
}

/// Only threads that belong to a channel of a guild have a starter text.
pub proof fn law_only_threads_have_a_starter(
    message: DiscordMessage,
    bot: u64,
    channel: Option<ChannelInfo>,
    history: Option<Vec<DiscordMessage>>,
    source: Option<DiscordMessage>,
)
    requires
        message.guild_id is None || channel is None || channel->0 is Other || !(
        channel->0->Guild_is_thread) || channel->0->Guild_parent_id is None,
    ensures
        starter_text(message, bot, channel, history, source) is None,
{
}

/// A search asks about the channel of the message; then for its latest messages, no more than 25;
/// and then, in the channel that the thread belongs to, for the message with the number of the
/// thread. In a direct message it asks for nothing.
pub proof fn law_search_asks_about_the_thread(
    message: DiscordMessage,
    bot: u64,
    parent: ChannelId,
    history: Vec<DiscordMessage>,
)
    ensures
        message.guild_id is None ==> LookupModel::start(message, bot).1 == (
        LookupActionModel::Finished { text: None }),
        message.guild_id is Some ==> {
            let (resolving, first) = LookupModel::start(message, bot);
            let (reading, second) = resolving.step(
                LookupEvent::Resolved(
                    Some(ChannelInfo::Guild { is_thread: true, parent_id: Some(parent) }),
                ),
            );
            let (_, third) = reading.step(LookupEvent::HistoryRead(None));
            &&& first == (LookupActionModel::ResolveChannel { channel: message.channel_id@ })
            &&& second == (LookupActionModel::ReadHistory {
                channel: message.channel_id@,
                limit: 25,
            })
            &&& third == (LookupActionModel::FetchMessage {
                channel: parent@,
                message: message.channel_id@,
            })
        },
{
}

/// A search can be told, at each stage, whatever can come of what it asked for, and nothing else.
pub proof fn law_each_stage_awaits_its_events(
    m: LookupModel,
    channel: Option<ChannelInfo>,
    history: Option<Vec<DiscordMessage>>,
    source: Option<DiscordMessage>,
)
    ensures
        m.awaits(LookupEvent::Resolved(channel)) <==> m is Resolving,
        m.awaits(LookupEvent::HistoryRead(history)) <==> m is Reading,
        m.awaits(LookupEvent::Fetched(source)) <==> m is Fetching,
{
}

/// Actions are read as they are.
pub proof fn law_actions_are_read_as_they_are(
    channel_id: ChannelId,
    message_id: MessageId,
    limit: u8,
    text: String,
)
    ensures
        (LookupAction::ResolveChannel { channel_id })@ == (LookupActionModel::ResolveChannel {
            channel: channel_id@,
        }),
        (LookupAction::ReadHistory { channel_id, limit })@ == (LookupActionModel::ReadHistory {
            channel: channel_id@,
            limit,
        }),
        (LookupAction::FetchMessage { channel_id, message_id })@ == (
        LookupActionModel::FetchMessage { channel: channel_id@, message: message_id@ }),
        (LookupAction::Finished { text: Some(text) })@ == (LookupActionModel::Finished {
            text: Some(text@),
        }),
        (LookupAction::Finished { text: None })@ == (LookupActionModel::Finished { text: None }),
{
}

} // verus!
