//! The handler itself: whom it listens to, and what it announces.

use std::sync::Arc;

use vstd::prelude::*;

use tokio::sync::broadcast;

use crate::ids::UserId;
use crate::intake::{IntakeAction, IntakeModel, MessageIntake};
use crate::message::DiscordMessage;

verus! {

/// A sender of `tokio`'s broadcast channels. Who listens at the other end is not known here.
#[verifier::external_type_specification]
#[verifier::external_body]
#[verifier::reject_recursive_types(T)]
pub struct ExSender<T>(broadcast::Sender<T>);

/// How the connection to Discord stands.
#[derive(Clone, Copy, Debug, PartialEq, Eq, Structural)]
pub enum ChannelStatus {
    Connected,
}

/// What the handler announces; `M` is the form that messages have outside Discord.
#[derive(Clone, Debug)]
pub enum ChannelEvent<M> {
    MessageReceived(M),
    StatusChanged(ChannelStatus),
}

/// `broadcast::Sender::send` succeeds exactly where at least one receiver is there, and then
/// gives their number; where none is, it gives the value back. Whether receivers are there
/// depends on the rest of the program, and is not stated.
#[verifier::external_body]
fn broadcast_event<M>(event_tx: &broadcast::Sender<ChannelEvent<M>>, event: ChannelEvent<M>) -> (r:
    Result<usize, ChannelEvent<M>>)
    ensures
        r matches Ok(receivers) ==> receivers > 0,
        r matches Err(back) ==> back == event,
{
    event_tx.send(event).map_err(|e| e.0)
}

/// A message that is let through.
#[derive(Clone, Copy, Debug, PartialEq, Eq, Structural)]
pub struct Admission {
    /// Whether the message was written in a guild.
    pub is_group: bool,
    /// Whether, there, it mentions the bot.
    pub is_mentioned: bool,
}

/// Whether a message written in a guild mentions the bot.
pub open spec fn mentions_bot(message: DiscordMessage, bot: u64) -> bool {
    message.guild_id is Some && exists|i: int|
        0 <= i < message.mentions@.len() && (#[trigger] message.mentions@[i])@ == bot
}

/// Whether, and as what, a message is let through. Those of bots never are; those written in a
/// guild are where the group filter allows it.
pub open spec fn admission(message: DiscordMessage, bot: u64, allowed: bool) -> Option<Admission> {
    if message.author.bot || (message.guild_id is Some && !allowed) {
        None
    } else {
        Some(
            Admission {
                is_group: message.guild_id is Some,
                is_mentioned: mentions_bot(message, bot),
            },
        )
    }
}

/// Whether a message written in a guild mentions the bot.
pub fn is_mentioned(message: &DiscordMessage, bot_id: UserId) -> (mentioned: bool)
    ensures
        mentioned == mentions_bot(*message, bot_id@),
{
    if message.guild_id.is_none() {
        return false;
    }
    for i in 0..message.mentions.len()
        invariant
            message.guild_id is Some,
            forall|j: int| 0 <= j < i ==> (#[trigger] message.mentions@[j])@ != bot_id@,
    {
        if message.mentions[i].get() == bot_id.get() {
            assert(message.mentions@[i as int]@ == bot_id@);
            return true;
        }
    }
    false
}

/// Whether, and as what, a message is let through, given what the group filter says of it.
pub fn screen_message(message: &DiscordMessage, bot_id: UserId, allowed: bool) -> (admitted: Option<
    Admission,
>)
    ensures
        admitted == admission(*message, bot_id@, allowed),
{
    let is_group = message.guild_id.is_some();
    if message.author.bot || (is_group && !allowed) {
        None
    } else {
        Some(Admission { is_group, is_mentioned: is_mentioned(message, bot_id) })
    }
}

/// A message that was let through: who heard of it, its intake, and what that asks for first.
pub struct Reception<M> {
    /// The number of those who heard the announcement, or the announcement where nobody did.
    pub heard: Result<usize, ChannelEvent<M>>,
    pub intake: MessageIntake,
    pub action: IntakeAction,
}

/// Bridges Discord's events to the rest of the program. `C` answers users; `F` decides, given
/// whether a message in a guild mentions the bot, whether it is let through.
#[verifier::reject_recursive_types(M)]
pub struct DiscordHandler<M, C, F> {
    /// Where events are announced.
    pub event_tx: broadcast::Sender<ChannelEvent<M>>,
    /// The name of the channel in messages to the rest of the program.
    pub channel_id: String,
    /// The guilds to register commands in; none means everywhere.
    pub guild_ids: Vec<u64>,
    /// Answers users.
    pub on_message: C,
    /// Decides which messages in guilds are let through.
    pub group_filter: Arc<F>,
}

impl<M, C, F: Fn(bool) -> bool> DiscordHandler<M, C, F> {
    /// A handler made of its parts.
    pub fn new(
        event_tx: broadcast::Sender<ChannelEvent<M>>,
        channel_id: String,
        guild_ids: Vec<u64>,
        on_message: C,
        group_filter: Arc<F>,
    ) -> (handler: Self)
        ensures
            handler.event_tx == event_tx,
            handler.channel_id == channel_id,
            handler.guild_ids == guild_ids,
            handler.on_message == on_message,
            handler.group_filter == group_filter,
    {
        DiscordHandler { event_tx, channel_id, guild_ids, on_message, group_filter }
    }

    /// Whether `heard` can come of sending the event on this handler's channel.
    pub closed spec fn announces(
        self,
        event: ChannelEvent<M>,
        heard: Result<usize, ChannelEvent<M>>,
    ) -> bool {
        call_ensures(broadcast_event::<M>, (&self.event_tx, event), heard)
    }

    /// Announces an event: the number of those who listen, or the event itself where nobody
    /// does. Who listens is up to the rest of the program.
    pub fn emit(&self, event: ChannelEvent<M>) -> (heard: Result<usize, ChannelEvent<M>>)
        ensures
            self.announces(event, heard),
            heard matches Ok(receivers) ==> receivers > 0,
            heard matches Err(back) ==> back == event,
    {
        let send = broadcast_event::<M>;
        send(&self.event_tx, event)
    }

    /// Announces that the connection stands, when it is made and when it is resumed.
    pub fn announce_connected(&self) -> (heard: Result<usize, ChannelEvent<M>>)
        ensures
            self.announces(ChannelEvent::StatusChanged(ChannelStatus::Connected), heard),
            heard matches Ok(receivers) ==> receivers > 0,
            heard matches Err(back) ==> back == ChannelEvent::<M>::StatusChanged(
                ChannelStatus::Connected,
            ),
    {
        self.emit(ChannelEvent::StatusChanged(ChannelStatus::Connected))
    }

    /// Whether the group filter can be asked about the message, where it is to be asked at all:
    /// about messages written in a guild by anyone but a bot, with whether they mention this bot.
    /// Nothing lets it be asked anything else.
    pub open spec fn filter_accepts(self, message: DiscordMessage, bot: u64) -> bool {
        !message.author.bot && message.guild_id is Some ==> call_requires(
            *self.group_filter,
            (mentions_bot(message, bot),),
        )
    }

    /// Whether the message may be let through as `admitted`, or kept out where that is `None`.
    /// The group filter is asked about messages written in a guild by anyone but a bot, and told
    /// whether they mention this bot.
    pub open spec fn screens(
        self,
        message: DiscordMessage,
        bot: u64,
        admitted: Option<Admission>,
    ) -> bool {
        &&& message.author.bot ==> admitted is None
        &&& message.guild_id is None ==> admitted == admission(message, bot, true)
        &&& !message.author.bot && message.guild_id is Some ==> exists|allowed: bool| #[trigger]
            call_ensures(*self.group_filter, (mentions_bot(message, bot),), allowed) && admitted
                == admission(message, bot, allowed)
    }

    /// Whether, and as what, a message is let through.
    pub fn screen(&self, message: &DiscordMessage, bot_id: UserId) -> (admitted: Option<Admission>)
        requires
            self.filter_accepts(*message, bot_id@),
        ensures
            self.screens(*message, bot_id@, admitted),
    {
        if message.author.bot {
            return None;
        }
        let mut allowed = true;
        if message.guild_id.is_some() {
            allowed = (*self.group_filter)(is_mentioned(message, bot_id));
        }
        screen_message(message, bot_id, allowed)
    }

    /// Takes a message: where it is let through, it is announced, in the form that `convert`
    /// gives it, and its intake begins. One that is kept out is not converted, and so cannot be
    /// announced: `convert` need not be callable for it.
    pub fn receive<G: FnOnce() -> M>(
        &self,
        message: DiscordMessage,
        bot_id: UserId,
        convert: G,
        max_bytes: usize,
    ) -> (received: Option<Reception<M>>)
        requires
            self.filter_accepts(message, bot_id@),
            forall|admitted: Admission| #[trigger]
                self.screens(message, bot_id@, Some(admitted)) ==> call_requires(convert, ()),
        ensures
            received is None ==> self.screens(message, bot_id@, None),
            received matches Some(reception) ==> {
                &&& exists|admitted: Admission| #[trigger]
                    self.screens(message, bot_id@, Some(admitted)) && (
                        reception.intake@,
                        reception.action@,
                    ) == IntakeModel::start(message, bot_id@, admitted, max_bytes)
                &&& exists|converted: M| #[trigger]
                    call_ensures(convert, (), converted) && self.announces(
                        ChannelEvent::MessageReceived(converted),
                        reception.heard,
                    )
                &&& reception.heard matches Ok(receivers) ==> receivers > 0
                &&& reception.heard matches Err(back) ==> {
                    &&& back is MessageReceived
                    &&& call_ensures(convert, (), back->MessageReceived_0)
                }
            },
    {
        match self.screen(&message, bot_id) {
            Some(admitted) => {
                let heard = self.emit(ChannelEvent::MessageReceived(convert()));
                let (intake, action) = MessageIntake::begin(message, bot_id, admitted, max_bytes);
                Some(Reception { heard, intake, action })
            },
            None => None,
        }
    }
}

/// The bot does not listen to bots, itself among them, whatever the group filter says.
pub proof fn law_bots_are_ignored(message: DiscordMessage, bot: u64, allowed: bool)
    requires
        message.author.bot,
    ensures
        admission(message, bot, allowed) is None,
{
}

/// Direct messages of users are always let through, never as mentions.
pub proof fn law_direct_messages_pass(message: DiscordMessage, bot: u64, allowed: bool)
    requires
        !message.author.bot,
        message.guild_id is None,
    ensures
        admission(message, bot, allowed) == Some(
            Admission { is_group: false, is_mentioned: false },
        ),
{
}

/// A message mentions the bot exactly where it was written in a guild and the bot stands, at any
/// place, among those it mentions.
pub proof fn law_any_mention_counts(message: DiscordMessage, bot: u64, k: int)
    ensures
        message.guild_id is Some && 0 <= k < message.mentions@.len() && message.mentions@[k]@ == bot
            ==> mentions_bot(message, bot),
        message.guild_id is None ==> !mentions_bot(message, bot),
        (forall|j: int|
            0 <= j < message.mentions@.len() ==> (#[trigger] message.mentions@[j])@ != bot)
            ==> !mentions_bot(message, bot),
{
}

/// In a guild, the group filter decides about the messages of users: those that it allows are let
/// through as group messages, with whether they mention the bot, and the others are kept out.
pub proof fn law_filter_decides_in_guilds(message: DiscordMessage, bot: u64, allowed: bool)
    requires
        !message.author.bot,
        message.guild_id is Some,
    ensures
        admission(message, bot, allowed) is Some <==> allowed,
        allowed ==> admission(message, bot, allowed)->0.is_group,
        allowed ==> (admission(message, bot, allowed)->0.is_mentioned <==> exists|k: int|
            0 <= k < message.mentions@.len() && (#[trigger] message.mentions@[k])@ == bot),
{
}

/// However a message is screened: one of a bot is kept out, a direct message of a user is let
/// through, and one written in a guild by a user is let through exactly where the group filter,
/// told whether it mentions the bot, allows it.
pub proof fn law_screening_follows_the_filter<M, C, F: Fn(bool) -> bool>(
    handler: DiscordHandler<M, C, F>,
    message: DiscordMessage,
    bot: u64,
    admitted: Option<Admission>,
    verdict: bool,
)
    requires
        handler.screens(message, bot, admitted),
        forall|allowed: bool| #[trigger]
            call_ensures(*handler.group_filter, (mentions_bot(message, bot),), allowed) ==> allowed
                == verdict,
    ensures
        message.author.bot ==> admitted is None,
        !message.author.bot && message.guild_id is None ==> admitted == Some(
            Admission { is_group: false, is_mentioned: false },
        ),
        !message.author.bot && message.guild_id is Some ==> (admitted is Some <==> verdict),
        !message.author.bot && message.guild_id is Some && verdict ==> admitted == Some(
            Admission { is_group: true, is_mentioned: mentions_bot(message, bot) },
        ),
{
}

/// To announce an event is to send that very event on the handler's own channel.
proof fn law_announcing_is_sending<M, C, F: Fn(bool) -> bool>(
    handler: DiscordHandler<M, C, F>,
    event: ChannelEvent<M>,
    heard: Result<usize, ChannelEvent<M>>,
)
    ensures
        handler.announces(event, heard) <==> call_ensures(
            broadcast_event::<M>,
            (&handler.event_tx, event),
            heard,
        ),
{
}

} // verus!
