//! Discord's numeric identifiers, none of which is zero.

use vstd::prelude::*;

use crate::text::decimal;

verus! {

/// Identifies a user.
#[derive(Clone, Copy, Debug, PartialEq, Eq)]
pub struct UserId {
    raw: u64,
}

impl View for UserId {
    type V = u64;

    closed spec fn view(&self) -> u64 {
        self.raw
    }
}

impl UserId {
    #[verifier::type_invariant]
    spec fn is_valid(self) -> bool {
        self.raw != 0
    }

    /// The user with this number.
    pub fn new(raw: u64) -> (id: Self)
        requires
            raw != 0,
        ensures
            id@ == raw,
    {
        UserId { raw }
    }

    /// The number of the user.
    pub fn get(self) -> (raw: u64)
        ensures
            raw == self@,
            raw != 0,
    {
        proof {
            use_type_invariant(self);
        }
        self.raw
    }

    /// The number of the user as text, in decimal.
    pub fn text(self) -> (text: String)
        ensures
            text@ == decimal(self@ as nat),
    {
        user_id_text(self.get())
    }
}

/// Identifies a channel, which may be a thread.
#[derive(Clone, Copy, Debug, PartialEq, Eq)]
pub struct ChannelId {
    raw: u64,
}

impl View for ChannelId {
    type V = u64;

    closed spec fn view(&self) -> u64 {
        self.raw
    }
}

impl ChannelId {
    #[verifier::type_invariant]
    spec fn is_valid(self) -> bool {
        self.raw != 0
    }

    /// The channel with this number.
    pub fn new(raw: u64) -> (id: Self)
        requires
            raw != 0,
        ensures
            id@ == raw,
    {
        ChannelId { raw }
    }

    /// The number of the channel.
    pub fn get(self) -> (raw: u64)
        ensures
            raw == self@,
            raw != 0,
    {
        proof {
            use_type_invariant(self);
        }
        self.raw
    }

    /// The number of the channel as text, in decimal.
    pub fn text(self) -> (text: String)
        ensures
            text@ == decimal(self@ as nat),
    {
        channel_id_text(self.get())
    }

    /// The message that a thread was started from. Discord gives a thread the number of that
    /// message.
    pub fn source_message(self) -> (id: MessageId)
        ensures
            id@ == self@,
    {
        MessageId::new(self.get())
    }
}

/// Identifies a message.
#[derive(Clone, Copy, Debug, PartialEq, Eq)]
pub struct MessageId {
    raw: u64,
}

impl View for MessageId {
    type V = u64;

    closed spec fn view(&self) -> u64 {
        self.raw
    }
}

impl MessageId {
    #[verifier::type_invariant]
    spec fn is_valid(self) -> bool {
        self.raw != 0
    }

    /// The message with this number.
    pub fn new(raw: u64) -> (id: Self)
        requires
            raw != 0,
        ensures
            id@ == raw,
    {
        MessageId { raw }
    }

    /// The number of the message.
    pub fn get(self) -> (raw: u64)
        ensures
            raw == self@,
            raw != 0,
    {
        proof {
            use_type_invariant(self);
        }
        self.raw
    }
}

/// `serenity`'s `UserId` holds the number that it was made from, and its `Display` writes that
/// number in decimal. Making one from zero panics.
#[verifier::external_body]
fn user_id_text(raw: u64) -> (text: String)
    requires
        raw != 0,
    ensures
        text@ == decimal(raw as nat),
{
    serenity::all::UserId::new(raw).to_string()
}

/// `serenity`'s `ChannelId` holds the number that it was made from, and its `Display` writes that
/// number in decimal. Making one from zero panics.
#[verifier::external_body]
fn channel_id_text(raw: u64) -> (text: String)
    requires
        raw != 0,
    ensures
        text@ == decimal(raw as nat),
{
    serenity::all::ChannelId::new(raw).to_string()
}

} // verus!
