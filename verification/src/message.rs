//! Messages as Discord delivers them, reduced to what the handler looks at.

use vstd::prelude::*;

use crate::ids::{ChannelId, MessageId, UserId};
use crate::text::{law_trim_is_idempotent, trimmed};

verus! {

/// Who wrote a message.
#[derive(Debug)]
pub struct Author {
    pub id: UserId,
    /// The account name.
    pub name: String,
    /// The display name, where the user has chosen one.
    pub global_name: Option<String>,
    /// Whether the account is a bot.
    pub bot: bool,
}

/// A file attached to a message, not yet downloaded.
#[derive(Debug)]
pub struct Attachment {
    pub filename: String,
    /// The size in bytes.
    pub size: u32,
    pub content_type: Option<String>,
}

/// What kind of message Discord says it is.
#[derive(Clone, Copy, Debug, PartialEq, Eq, Structural)]
pub enum MessageKind {
    /// The message that shows, inside a thread, what the thread was started from.
    ThreadStarter,
    /// Any other kind.
    Other,
}

/// A message.
#[derive(Debug)]
pub struct DiscordMessage {
    pub id: MessageId,
    pub channel_id: ChannelId,
    /// The guild that the channel belongs to; a direct message has none.
    pub guild_id: Option<u64>,
    pub author: Author,
    pub content: String,
    /// The users that the message mentions.
    pub mentions: Vec<UserId>,
    pub attachments: Vec<Attachment>,
    pub kind: MessageKind,
    /// The message that this one replies or refers to.
    pub referenced_message: Option<Box<DiscordMessage>>,
}

/// The characters of an optional string.
pub open spec fn text_of(text: Option<String>) -> Option<Seq<char>> {
    match text {
        Some(text) => Some(text@),
        None => None,
    }
}

/// The characters of an optional string slice.
pub open spec fn str_of(text: Option<&str>) -> Option<Seq<char>> {
    match text {
        Some(text) => Some(text@),
        None => None,
    }
}

/// The first text that is not blank, trimmed, along the chain that begins with the message and
/// goes from each message to the one it refers to.
pub open spec fn prompt_text(message: DiscordMessage) -> Option<Seq<char>>
    decreases message,
{
    if trimmed(message.content@).len() > 0 {
        Some(trimmed(message.content@))
    } else {
        match message.referenced_message {
            Some(referenced) => prompt_text(*referenced),
            None => None,
        }
    }
}

/// The text of a message as a prompt: its own, or else that of the message it refers to.
pub fn discord_message_prompt_text(message: &DiscordMessage) -> (text: Option<String>)
    ensures
        text_of(text) == prompt_text(*message),
    decreases message,
{
    let text = message.content.as_str().trim();
    if !text.is_empty() {
        return Some(text.to_string());
    }
    match &message.referenced_message {
        Some(referenced) => discord_message_prompt_text(&**referenced),
        None => None,
    }
}

/// A prompt text is trimmed and not empty.
pub proof fn law_prompt_text_is_not_blank(message: DiscordMessage)
    requires
        prompt_text(message) is Some,
    ensures
        prompt_text(message)->0.len() > 0,
        trimmed(prompt_text(message)->0) == prompt_text(message)->0,
    decreases message,
{
    if trimmed(message.content@).len() > 0 {
        law_trim_is_idempotent(message.content@);
    } else {
        match message.referenced_message {
            Some(referenced) => law_prompt_text_is_not_blank(*referenced),
            None => {},
        }
    }
}

/// The texts of a message, of the one it refers to, and so on.
pub open spec fn reference_chain(message: DiscordMessage) -> Seq<Seq<char>>
    decreases message,
{
    seq![message.content@] + match message.referenced_message {
        Some(referenced) => reference_chain(*referenced),
        None => Seq::empty(),
    }
}

/// The prompt text is the trimmed text at some place of the chain of references, and everything
/// before that place is blank; there is none exactly where the whole chain is blank.
pub proof fn law_prompt_text_is_the_first_that_is_not_blank(message: DiscordMessage)
    ensures
        prompt_text(message) is None <==> (forall|k: int|
            0 <= k < reference_chain(message).len() ==> trimmed(
                #[trigger] reference_chain(message)[k],
            ).len() == 0),
        prompt_text(message) matches Some(text) ==> exists|at: int|
            {
                &&& 0 <= at < reference_chain(message).len()
                &&& text == trimmed(#[trigger] reference_chain(message)[at])
                &&& text.len() > 0
                &&& forall|k: int|
                    0 <= k < at ==> trimmed(#[trigger] reference_chain(message)[k]).len() == 0
            },
    decreases message,
{
    let chain = reference_chain(message);
    assert(chain[0] == message.content@);
    if trimmed(message.content@).len() == 0 {
        match message.referenced_message {
            Some(referenced) => {
                let rest = reference_chain(*referenced);
                law_prompt_text_is_the_first_that_is_not_blank(*referenced);
                assert(forall|k: int| 0 <= k < rest.len() ==> #[trigger] rest[k] == chain[k + 1]);
                assert(forall|k: int| 1 <= k < chain.len() ==> #[trigger] chain[k] == rest[k - 1]);
                if prompt_text(message) is Some {
                    let text = prompt_text(message)->0;
                    let at = choose|at: int|
                        {
                            &&& 0 <= at < rest.len()
                            &&& text == trimmed(#[trigger] rest[at])
                            &&& text.len() > 0
                            &&& forall|k: int|
                                0 <= k < at ==> trimmed(#[trigger] rest[k]).len() == 0
                        };
                    assert(chain[at + 1] == rest[at]);
                }
            },
            None => {},
        }
    }
}

/// Reading an optional string changes nothing in it.
pub proof fn law_optional_texts_are_themselves(text: Option<String>, slice: Option<&str>)
    ensures
        text_of(text) is Some <==> text is Some,
        text is Some ==> text_of(text)->0 == text->0@,
        str_of(slice) is Some <==> slice is Some,
        slice is Some ==> str_of(slice)->0 == slice->0@,
{
}

} // verus!
