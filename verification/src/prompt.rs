//! The prompt for the bot's first turn in a thread.

use vstd::prelude::*;

use crate::ids::UserId;
use crate::mention::{
    after_mention, law_leading_mention_vanishes, law_other_mentions_are_kept,
    law_unmentioned_text_is_trimmed, lemma_mention_shape,
    nickname_mention, strip_leading_bot_mentions, user_mention, without_leading_mentions,
};
use crate::message::str_of;
use crate::text::{
    decimal, is_white_space, law_blank_is_all_white_space, law_trim_is_idempotent, lemma_trim_end, lemma_trim_start, trimmed, trimmed_front,
};

verus! {

/// The starter text and the current text, each under its heading.
pub open spec fn headed_prompt(starter: Seq<char>, current: Seq<char>) -> Seq<char> {
    "Thread starter message:\n"@ + starter + "\n\nCurrent message:\n"@ + current
}

/// The prompt made of the text that a thread was started with and the message that mentions the
/// bot. Without a starter text the message stands alone; where the message says nothing besides
/// mentioning the bot, the starter text does.
pub open spec fn thread_starter_prompt(
    current: Seq<char>,
    starter: Option<Seq<char>>,
    bot: u64,
) -> Seq<char> {
    if starter is None || trimmed(starter->0).len() == 0 {
        current
    } else if without_leading_mentions(current, bot).len() == 0 {
        trimmed(starter->0)
    } else {
        headed_prompt(trimmed(starter->0), without_leading_mentions(current, bot))
    }
}

/// Puts the text that a thread was started with in front of the current message.
pub fn build_thread_starter_prompt(
    current_text: &str,
    starter_text: Option<&str>,
    bot_id: UserId,
) -> (prompt: String)
    ensures
        prompt@ == thread_starter_prompt(current_text@, str_of(starter_text), bot_id@),
{
    let starter = match starter_text {
        Some(text) => text.trim(),
        None => {
            return current_text.to_string();
        },
    };
    if starter.is_empty() {
        return current_text.to_string();
    }
    let current = strip_leading_bot_mentions(current_text, bot_id);
    if current.is_empty() {
        starter.to_string()
    } else {
        "Thread starter message:\n".to_string().concat(starter).concat(
            "\n\nCurrent message:\n",
        ).concat(current)
    }
}

/// A message that only mentions the bot, in either form, is replaced by the starter text.
pub proof fn law_bare_mention_becomes_starter(starter: Seq<char>, bot: u64)
    requires
        trimmed(starter).len() > 0,
    ensures
        thread_starter_prompt(user_mention(bot), Some(starter), bot) == trimmed(starter),
        thread_starter_prompt(nickname_mention(bot), Some(starter), bot) == trimmed(starter),
{
    let empty = Seq::<char>::empty();
    law_leading_mention_vanishes(empty, bot);
    assert(user_mention(bot) + empty =~= user_mention(bot));
    assert(nickname_mention(bot) + empty =~= nickname_mention(bot));
    assert(without_leading_mentions(empty, bot).len() == 0) by {
        lemma_mention_shape(bot);
        assert(trimmed_front(empty) == empty);
    }
}

/// What a message says besides mentioning the bot is kept, under the starter text.
pub proof fn law_extra_text_is_kept(text: Seq<char>, starter: Seq<char>, bot: u64)
    requires
        trimmed(starter).len() > 0,
        without_leading_mentions(text, bot).len() > 0,
    ensures
        thread_starter_prompt(user_mention(bot) + text, Some(starter), bot) == headed_prompt(
            trimmed(starter),
            without_leading_mentions(text, bot),
        ),
        thread_starter_prompt(nickname_mention(bot) + text, Some(starter), bot) == headed_prompt(
            trimmed(starter),
            without_leading_mentions(text, bot),
        ),
{
    law_leading_mention_vanishes(text, bot);
}

/// A message that begins with a mention of anyone but the bot is kept whole, but for white space
/// at its ends.
pub proof fn law_other_mention_is_kept(current: Seq<char>, starter: Seq<char>, bot: u64, other: u64)
    requires
        bot != other,
        after_mention(trimmed_front(current), other) is Some,
        trimmed(starter).len() > 0,
    ensures
        thread_starter_prompt(current, Some(starter), bot) == headed_prompt(
            trimmed(starter),
            trimmed(current),
        ),
{
    law_other_mentions_are_kept(current, bot, other);
    lemma_mention_shape(other);
    lemma_trim_start(current);
    lemma_trim_end(trimmed_front(current));
}

/// A prompt with a starter text is never blank.
pub proof fn law_prompt_with_starter_is_not_blank(current: Seq<char>, starter: Seq<char>, bot: u64)
    requires
        trimmed(starter).len() > 0,
    ensures
        trimmed(thread_starter_prompt(current, Some(starter), bot)).len() > 0,
{
    law_trim_is_idempotent(starter);
    let prompt = thread_starter_prompt(current, Some(starter), bot);
    if without_leading_mentions(current, bot).len() > 0 {
        reveal_strlit("Thread starter message:\n");
        assert(prompt[0] == 'T');
        lemma_trim_end(prompt);
    }
}

/// Whatever the current text, where it says anything besides the bot mentions at its front and
/// the starter text is not blank, the prompt is the two texts, trimmed, each under its heading.
pub proof fn law_prompt_holds_both_texts(current: Seq<char>, starter: Seq<char>, bot: u64)
    requires
        trimmed(starter).len() > 0,
        without_leading_mentions(current, bot).len() > 0,
    ensures
        thread_starter_prompt(current, Some(starter), bot) == "Thread starter message:\n"@ + trimmed(
            starter,
        ) + "\n\nCurrent message:\n"@ + without_leading_mentions(current, bot),
{
}

/// A text that begins, white space aside, with no mention of the bot is kept whole, but for white
/// space at its ends. That holds of texts that mention the bot further on, too.
pub proof fn law_unmentioned_text_is_kept(current: Seq<char>, starter: Seq<char>, bot: u64)
    requires
        trimmed(starter).len() > 0,
        trimmed(current).len() > 0,
        !(seq!['<', '@'] + decimal(bot as nat) + seq!['>']).is_prefix_of(trimmed_front(current)),
        !(seq!['<', '@', '!'] + decimal(bot as nat) + seq!['>']).is_prefix_of(
            trimmed_front(current),
        ),
    ensures
        thread_starter_prompt(current, Some(starter), bot) == "Thread starter message:\n"@ + trimmed(
            starter,
        ) + "\n\nCurrent message:\n"@ + trimmed(current),
{
    law_unmentioned_text_is_trimmed(current, bot);
    law_prompt_holds_both_texts(current, starter, bot);
}

/// A text that says nothing besides the bot mentions at its front is replaced by the starter
/// text.
pub proof fn law_empty_text_becomes_starter(current: Seq<char>, starter: Seq<char>, bot: u64)
    requires
        trimmed(starter).len() > 0,
        without_leading_mentions(current, bot).len() == 0,
    ensures
        thread_starter_prompt(current, Some(starter), bot) == trimmed(starter),
{
}

/// Without a starter text, or with a blank one, the current text is left as it was written.
pub proof fn law_text_without_starter_is_untouched(
    current: Seq<char>,
    starter: Option<Seq<char>>,
    bot: u64,
)
    requires
        starter matches Some(text) ==> forall|i: int|
            0 <= i < text.len() ==> is_white_space(#[trigger] text[i]),
    ensures
        thread_starter_prompt(current, starter, bot) == current,
{
    if starter is Some {
        law_blank_is_all_white_space(starter->0);
    }
}

/// A mention of the bot in front of the current text, in either form and with or without white
/// space around it, makes no difference to a prompt with a starter text.
pub proof fn law_leading_mention_makes_no_difference(
    current: Seq<char>,
    starter: Seq<char>,
    bot: u64,
)
    requires
        trimmed(starter).len() > 0,
    ensures
        thread_starter_prompt(user_mention(bot) + current, Some(starter), bot)
            == thread_starter_prompt(current, Some(starter), bot),
        thread_starter_prompt(nickname_mention(bot) + current, Some(starter), bot)
            == thread_starter_prompt(current, Some(starter), bot),
        thread_starter_prompt(trimmed_front(current), Some(starter), bot) == thread_starter_prompt(
            current,
            Some(starter),
            bot,
        ),
{
    law_leading_mention_vanishes(current, bot);
    lemma_trim_start(current);
}

/// White space around the starter text makes no difference.
pub proof fn law_starter_is_trimmed(current: Seq<char>, starter: Seq<char>, bot: u64)
    ensures
        thread_starter_prompt(current, Some(trimmed(starter)), bot) == thread_starter_prompt(
            current,
            Some(starter),
            bot,
        ),
{
    law_trim_is_idempotent(starter);
}

} // verus!
