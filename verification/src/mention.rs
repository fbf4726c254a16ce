//! Mentions of the bot at the front of a message.

use vstd::prelude::*;

use crate::ids::UserId;
use crate::text::{
    decimal, is_white_space, law_decimal_is_injective, law_trim_is_idempotent, lemma_decimal_digits,
    lemma_trim_end, lemma_trim_start, number_text, strip_prefix, trimmed, trimmed_front,
};

verus! {

/// How a message mentions a user: `<@ID>`.
pub open spec fn user_mention(id: u64) -> Seq<char> {
    "<@"@ + decimal(id as nat) + ">"@
}

/// How a message mentions a user by nickname: `<@!ID>`.
pub open spec fn nickname_mention(id: u64) -> Seq<char> {
    "<@!"@ + decimal(id as nat) + ">"@
}

/// What follows the mention of the user that `text` begins with, if it begins with one.
pub open spec fn after_mention(text: Seq<char>, id: u64) -> Option<Seq<char>> {
    if user_mention(id).is_prefix_of(text) {
        Some(text.skip(user_mention(id).len() as int))
    } else if nickname_mention(id).is_prefix_of(text) {
        Some(text.skip(nickname_mention(id).len() as int))
    } else {
        None
    }
}

/// `text` without the mentions of the user at its front, and trimmed. White space may stand
/// before, between and after the mentions.
pub open spec fn without_leading_mentions(text: Seq<char>, id: u64) -> Seq<char>
    decreases text.len(),
{
    proof {
        lemma_trim_start(text);
        lemma_decimal_digits(id as nat);
    }
    match after_mention(trimmed_front(text), id) {
        Some(rest) => without_leading_mentions(rest, id),
        None => trimmed(text),
    }
}

/// The rest of `text` after one mention of the bot at its front, in either form.
pub fn strip_one_leading_bot_mention<'a>(text: &'a str, bot_id: UserId) -> (rest: Option<&'a str>)
    ensures
        rest is Some <==> after_mention(text@, bot_id@) is Some,
        rest is Some ==> rest->0@ == after_mention(text@, bot_id@)->0,
{
    let number = number_text(bot_id.get());
    let user_form = String::new().concat("<@").concat(number.as_str()).concat(">");
    let nickname_form = String::new().concat("<@!").concat(number.as_str()).concat(">");
    assert(user_form@ =~= user_mention(bot_id@));
    assert(nickname_form@ =~= nickname_mention(bot_id@));
    match strip_prefix(text, user_form.as_str()) {
        Some(rest) => Some(rest),
        None => strip_prefix(text, nickname_form.as_str()),
    }
}

/// `text` without the mentions of the bot at its front, trimmed.
pub fn strip_leading_bot_mentions<'a>(text: &'a str, bot_id: UserId) -> (rest: &'a str)
    ensures
        rest@ == without_leading_mentions(text@, bot_id@),
{
    let mut remaining = text.trim_start();
    proof {
        lemma_trim_start_is_absorbed(text@, bot_id@);
    }
    loop
        invariant
            trimmed_front(remaining@) == remaining@,
            without_leading_mentions(remaining@, bot_id@) == without_leading_mentions(
                text@,
                bot_id@,
            ),
        ensures
            after_mention(remaining@, bot_id@) is None,
        decreases remaining@.len(),
    {
        match strip_one_leading_bot_mention(remaining, bot_id) {
            Some(stripped) => {
                proof {
                    lemma_trim_start_is_absorbed(stripped@, bot_id@);
                    lemma_decimal_digits(bot_id@ as nat);
                }
                remaining = stripped.trim_start();
            },
            None => {
                break;
            },
        }
    }
    remaining.trim()
}

/// White space at the front makes no difference to the stripped text.
proof fn lemma_trim_start_is_absorbed(text: Seq<char>, id: u64)
    ensures
        without_leading_mentions(trimmed_front(text), id) == without_leading_mentions(
            text,
            id,
        ),
        trimmed_front(trimmed_front(text)) == trimmed_front(text),
        trimmed_front(text).len() <= text.len(),
{
    lemma_trim_start(text);
}

/// A mention begins with `<`, and a mention by nickname has `!` where the other has a digit.
pub proof fn lemma_mention_shape(id: u64)
    ensures
        user_mention(id).len() == decimal(id as nat).len() + 3,
        nickname_mention(id).len() == decimal(id as nat).len() + 4,
        user_mention(id)[0] == '<',
        nickname_mention(id)[0] == '<',
        user_mention(id)[1] == '@',
        nickname_mention(id)[1] == '@',
        nickname_mention(id)[2] == '!',
        user_mention(id).last() == '>',
        nickname_mention(id).last() == '>',
        user_mention(id).subrange(2, user_mention(id).len() - 1) == decimal(id as nat),
        nickname_mention(id).subrange(3, nickname_mention(id).len() - 1) == decimal(id as nat),
{
    reveal_strlit("<@");
    reveal_strlit("<@!");
    reveal_strlit(">");
    lemma_decimal_digits(id as nat);
    assert(user_mention(id).subrange(2, user_mention(id).len() - 1) =~= decimal(id as nat));
    assert(nickname_mention(id).subrange(3, nickname_mention(id).len() - 1) =~= decimal(
        id as nat,
    ));
}

/// Two numbers that are each followed by `>`, after the same opening, are the same where both
/// begin one text.
proof fn lemma_number_before_bracket(opening: Seq<char>, text: Seq<char>, a: u64, b: u64)
    requires
        (opening + decimal(a as nat) + ">"@).is_prefix_of(text),
        (opening + decimal(b as nat) + ">"@).is_prefix_of(text),
    ensures
        a == b,
{
    reveal_strlit(">");
    let da = decimal(a as nat);
    let db = decimal(b as nat);
    let ma = opening + da + ">"@;
    let mb = opening + db + ">"@;
    let n = opening.len() as int;
    lemma_decimal_digits(a as nat);
    lemma_decimal_digits(b as nat);
    assert(ma[n + da.len()] == '>' && mb[n + db.len()] == '>');
    assert(text[n + da.len()] == '>' && text[n + db.len()] == '>');
    assert(forall|i: int| 0 <= i < da.len() ==> #[trigger] da[i] == ma[n + i]);
    assert(forall|i: int| 0 <= i < db.len() ==> #[trigger] db[i] == mb[n + i]);
    if da.len() < db.len() {
        assert(db[da.len() as int] == text[n + da.len()]);
    } else if db.len() < da.len() {
        assert(da[db.len() as int] == text[n + db.len()]);
    } else {
        assert(da =~= db);
        law_decimal_is_injective(a as nat, b as nat);
    }
}

/// The two forms of a mention are never confused: a text begins with at most one of them.
pub proof fn law_mention_forms_are_distinct(text: Seq<char>, a: u64, b: u64)
    ensures
        !(user_mention(a).is_prefix_of(text) && nickname_mention(b).is_prefix_of(text)),
{
    lemma_mention_shape(a);
    lemma_mention_shape(b);
    lemma_decimal_digits(a as nat);
    if user_mention(a).is_prefix_of(text) && nickname_mention(b).is_prefix_of(text) {
        assert(user_mention(a)[2] == user_mention(a).subrange(2, user_mention(a).len() - 1)[0]);
        assert(text[2] == user_mention(a)[2]);
        assert(text[2] == nickname_mention(b)[2]);
    }
}

/// A text begins with a mention of at most one user.
pub proof fn law_mention_names_one_user(text: Seq<char>, a: u64, b: u64)
    requires
        after_mention(text, a) is Some,
        after_mention(text, b) is Some,
    ensures
        a == b,
{
    law_mention_forms_are_distinct(text, a, b);
    law_mention_forms_are_distinct(text, b, a);
    if user_mention(a).is_prefix_of(text) {
        lemma_number_before_bracket("<@"@, text, a, b);
    } else {
        lemma_number_before_bracket("<@!"@, text, a, b);
    }
}

/// Mentions of anyone but the bot are kept: a text that begins with one is only trimmed.
pub proof fn law_other_mentions_are_kept(text: Seq<char>, bot: u64, other: u64)
    requires
        bot != other,
        after_mention(trimmed_front(text), other) is Some,
    ensures
        without_leading_mentions(text, bot) == trimmed(text),
{
    if after_mention(trimmed_front(text), bot) is Some {
        law_mention_names_one_user(trimmed_front(text), bot, other);
    }
}


/// A mention of the bot at the front of a text, in either form, makes no difference to what is
/// left of it.
pub proof fn law_leading_mention_vanishes(text: Seq<char>, bot: u64)
    ensures
        without_leading_mentions(user_mention(bot) + text, bot) == without_leading_mentions(
            text,
            bot,
        ),
        without_leading_mentions(nickname_mention(bot) + text, bot) == without_leading_mentions(
            text,
            bot,
        ),
{
    lemma_mention_shape(bot);
    let with_user = user_mention(bot) + text;
    assert(trimmed_front(with_user) == with_user);
    assert(with_user.skip(user_mention(bot).len() as int) =~= text);
    let with_nickname = nickname_mention(bot) + text;
    assert(trimmed_front(with_nickname) == with_nickname);
    assert(nickname_mention(bot).is_prefix_of(with_nickname));
    law_mention_forms_are_distinct(with_nickname, bot, bot);
    assert(with_nickname.skip(nickname_mention(bot).len() as int) =~= text);
}

/// White space at the front of a text makes no difference to what is left of it.
pub proof fn law_leading_white_space_vanishes(space: Seq<char>, text: Seq<char>, bot: u64)
    requires
        forall|i: int| 0 <= i < space.len() ==> is_white_space(#[trigger] space[i]),
    ensures
        without_leading_mentions(space + text, bot) == without_leading_mentions(text, bot),
    decreases space.len(),
{
    if space.len() > 0 {
        assert((space + text).drop_first() =~= space.drop_first() + text);
        assert((space + text).first() == space[0]);
        law_leading_white_space_vanishes(space.drop_first(), text, bot);
        lemma_trim_start_is_absorbed(space + text, bot);
        lemma_trim_start_is_absorbed(space.drop_first() + text, bot);
    } else {
        assert(space + text =~= text);
    }
}

/// What is left of a text is trimmed, begins with no mention of the bot, and would be left as it
/// is a second time.
pub proof fn law_stripping_is_complete(text: Seq<char>, bot: u64)
    ensures
        trimmed(without_leading_mentions(text, bot)) == without_leading_mentions(text, bot),
        after_mention(without_leading_mentions(text, bot), bot) is None,
        without_leading_mentions(without_leading_mentions(text, bot), bot)
            == without_leading_mentions(text, bot),
    decreases text.len(),
{
    let start = trimmed_front(text);
    lemma_trim_start(text);
    match after_mention(start, bot) {
        Some(rest) => {
            lemma_decimal_digits(bot as nat);
            law_stripping_is_complete(rest, bot);
        },
        None => {
            let left = trimmed(text);
            law_trim_is_idempotent(text);
            lemma_trim_end(start);
            lemma_trim_start(left);
            lemma_mention_shape(bot);
            assert(left.is_prefix_of(start));
            if user_mention(bot).is_prefix_of(left) {
                assert(user_mention(bot).is_prefix_of(start));
            }
            if nickname_mention(bot).is_prefix_of(left) {
                assert(nickname_mention(bot).is_prefix_of(start));
            }
            if start.len() > 0 {
                assert(left.first() == start.first());
            }
            assert(trimmed_front(left) == left);
        },
    }
}

/// A mention is the opening `<@`, or `<@!` by nickname, then the user's number in decimal, then
/// `>`.
pub proof fn law_mention_is_spelled_out(id: u64)
    ensures
        user_mention(id) == seq!['<', '@'] + decimal(id as nat) + seq!['>'],
        nickname_mention(id) == seq!['<', '@', '!'] + decimal(id as nat) + seq!['>'],
{
    reveal_strlit("<@");
    reveal_strlit("<@!");
    reveal_strlit(">");
    assert("<@"@ =~= seq!['<', '@']);
    assert("<@!"@ =~= seq!['<', '@', '!']);
    assert(">"@ =~= seq!['>']);
}

/// What follows a mention is the text without it: a text has a rest exactly where it is a mention
/// of the user, in either form, followed by that rest.
pub proof fn law_rest_follows_the_mention(text: Seq<char>, rest: Seq<char>, id: u64)
    ensures
        after_mention(text, id) == Some(rest) <==> text == seq!['<', '@'] + decimal(id as nat)
            + seq!['>'] + rest || text == seq!['<', '@', '!'] + decimal(id as nat) + seq!['>']
            + rest,
{
    law_mention_is_spelled_out(id);
    let user = user_mention(id);
    let nickname = nickname_mention(id);
    if text == user + rest {
        assert(user.is_prefix_of(text));
        assert(text.skip(user.len() as int) =~= rest);
    }
    if text == nickname + rest {
        assert(nickname.is_prefix_of(text));
        assert(text.skip(nickname.len() as int) =~= rest);
        law_mention_forms_are_distinct(text, id, id);
    }
    if after_mention(text, id) == Some(rest) {
        if user.is_prefix_of(text) {
            assert(text =~= user + text.skip(user.len() as int));
        } else {
            assert(text =~= nickname + text.skip(nickname.len() as int));
        }
    }
}

/// A text that begins, white space aside, with no mention of the bot is only trimmed.
pub proof fn law_unmentioned_text_is_trimmed(text: Seq<char>, bot: u64)
    requires
        !(seq!['<', '@'] + decimal(bot as nat) + seq!['>']).is_prefix_of(trimmed_front(text)),
        !(seq!['<', '@', '!'] + decimal(bot as nat) + seq!['>']).is_prefix_of(trimmed_front(text)),
    ensures
        without_leading_mentions(text, bot) == trimmed(text),
{
    law_mention_is_spelled_out(bot);
}

/// What is left of a text is an end of the text, trimmed: nothing is taken from its middle, and
/// nothing is added.
pub proof fn law_what_is_left_is_an_end_of_the_text(text: Seq<char>, bot: u64)
    ensures
        exists|from: int| #![trigger text.skip(from)]
            0 <= from <= text.len() && without_leading_mentions(text, bot) == trimmed(
                text.skip(from),
            ),
    decreases text.len(),
{
    lemma_trim_start(text);
    lemma_decimal_digits(bot as nat);
    let start = trimmed_front(text);
    match after_mention(start, bot) {
        Some(rest) => {
            law_what_is_left_is_an_end_of_the_text(rest, bot);
            let n = choose|n: int| #![trigger rest.skip(n)]
                0 <= n <= rest.len() && without_leading_mentions(rest, bot) == trimmed(rest.skip(n));
            let from = text.len() - rest.len() + n;
            assert(text.skip(from) =~= rest.skip(n));
        },
        None => {
            assert(text.skip(0) =~= text);
        },
    }
}

} // verus!
