//! Strings as sequences of characters: white space, prefixes and decimal numbers.

use vstd::prelude::*;

verus! {

/// The characters with the Unicode property `White_Space`.
pub open spec fn is_white_space(c: char) -> bool {
    let code = c as u32;
    ||| 0x9 <= code <= 0xd
    ||| code == 0x20
    ||| code == 0x85
    ||| code == 0xa0
    ||| code == 0x1680
    ||| 0x2000 <= code <= 0x200a
    ||| code == 0x2028
    ||| code == 0x2029
    ||| code == 0x202f
    ||| code == 0x205f
    ||| code == 0x3000
}

/// `s` without the white space that it begins with.
pub open spec fn trimmed_front(s: Seq<char>) -> Seq<char>
    decreases s.len(),
{
    if s.len() > 0 && is_white_space(s.first()) {
        trimmed_front(s.drop_first())
    } else {
        s
    }
}

/// `s` without the white space that it ends with.
pub open spec fn trimmed_back(s: Seq<char>) -> Seq<char>
    decreases s.len(),
{
    if s.len() > 0 && is_white_space(s.last()) {
        trimmed_back(s.drop_last())
    } else {
        s
    }
}

/// `s` without the white space at either end.
pub open spec fn trimmed(s: Seq<char>) -> Seq<char> {
    trimmed_back(trimmed_front(s))
}

/// The decimal digit of a number below ten.
pub open spec fn digit(d: nat) -> char {
    (0x30 + d) as char
}

/// `n` in decimal, without leading zeros.
pub open spec fn decimal(n: nat) -> Seq<char>
    decreases n,
{
    if n < 10 {
        seq![digit(n)]
    } else {
        decimal(n / 10).push(digit(n % 10))
    }
}

/// `str::trim` takes the characters with the property `White_Space` away at both ends, and
/// nothing else.
pub assume_specification<'a>[ str::trim ](s: &'a str) -> (rest: &'a str)
    ensures
        rest@ == trimmed(s@),
;

/// `str::trim_start` takes the characters with the property `White_Space` away at the front,
/// and nothing else.
pub assume_specification<'a>[ str::trim_start ](s: &'a str) -> (rest: &'a str)
    ensures
        rest@ == trimmed_front(s@),
;

/// `str::strip_prefix` with a string as the pattern: what follows the prefix, or `None` where
/// the string does not begin with it.
#[verifier::external_body]
pub(crate) fn strip_prefix<'a>(s: &'a str, prefix: &str) -> (rest: Option<&'a str>)
    ensures
        rest is Some <==> prefix@.is_prefix_of(s@),
        rest is Some ==> rest->0@ == s@.skip(prefix@.len() as int),
{
    s.strip_prefix(prefix)
}

/// `u64::to_string` writes the number in decimal.
#[verifier::external_body]
pub(crate) fn number_text(n: u64) -> (text: String)
    ensures
        text@ == decimal(n as nat),
{
    n.to_string()
}

/// Trimming at the front gives a suffix that does not begin with white space.
pub proof fn lemma_trim_start(s: Seq<char>)
    ensures
        trimmed_front(s).len() <= s.len(),
        trimmed_front(s) == s.skip(s.len() - trimmed_front(s).len()),
        trimmed_front(s).len() > 0 ==> !is_white_space(trimmed_front(s).first()),
        trimmed_front(trimmed_front(s)) == trimmed_front(s),
    decreases s.len(),
{
    if s.len() > 0 && is_white_space(s.first()) {
        lemma_trim_start(s.drop_first());
        let n = trimmed_front(s).len();
        assert(s.drop_first().skip(s.drop_first().len() - n) =~= s.skip(s.len() - n));
    } else {
        assert(s.skip(0) =~= s);
    }
}

/// Trimming at the back gives a prefix that does not end with white space.
pub proof fn lemma_trim_end(s: Seq<char>)
    ensures
        trimmed_back(s).is_prefix_of(s),
        trimmed_back(s).len() > 0 ==> !is_white_space(trimmed_back(s).last()),
        trimmed_back(trimmed_back(s)) == trimmed_back(s),
        s.len() > 0 && !is_white_space(s.first()) ==> trimmed_back(s).len() > 0,
    decreases s.len(),
{
    if s.len() > 0 && is_white_space(s.last()) {
        lemma_trim_end(s.drop_last());
        if !is_white_space(s.first()) {
            assert(s.drop_last().len() > 0 ==> s.drop_last().first() == s.first());
        }
    }
}

/// A trimmed text has no white space at either end, and trimming it again changes nothing.
pub proof fn law_trim_is_idempotent(s: Seq<char>)
    ensures
        trimmed(trimmed(s)) == trimmed(s),
        trimmed(s).len() > 0 ==> !is_white_space(trimmed(s).first()) && !is_white_space(trimmed(s).last()),
{
    let t = trimmed_front(s);
    lemma_trim_start(s);
    lemma_trim_end(t);
    if t.len() > 0 {
        assert(trimmed(s).first() == t.first());
        assert(trimmed_front(trimmed(s)) == trimmed(s));
    }
}

/// A text is blank, that is, trims to nothing, exactly when it is made of white space alone.
pub proof fn law_blank_is_all_white_space(s: Seq<char>)
    ensures
        trimmed(s).len() == 0 <==> (forall|i: int| 0 <= i < s.len() ==> is_white_space(#[trigger] s[i])),
    decreases s.len(),
{
    if s.len() > 0 {
        if is_white_space(s.first()) {
            law_blank_is_all_white_space(s.drop_first());
            assert(trimmed(s) == trimmed(s.drop_first()));
            assert forall|i: int|
                0 <= i < s.len() && (forall|j: int|
                    0 <= j < s.drop_first().len() ==> is_white_space(#[trigger] s.drop_first()[j]))
                implies is_white_space(#[trigger] s[i]) by {
                if i > 0 {
                    assert(s[i] == s.drop_first()[i - 1]);
                }
            }
        } else {
            lemma_trim_end(s);
            assert(!is_white_space(s[0]));
        }
    }
}

/// The characters of a number in decimal are digits, and there is at least one.
pub proof fn lemma_decimal_digits(n: nat)
    ensures
        decimal(n).len() > 0,
        forall|i: int| 0 <= i < decimal(n).len() ==> '0' <= #[trigger] decimal(n)[i] <= '9',
    decreases n,
{
    if n >= 10 {
        lemma_decimal_digits(n / 10);
    }
}

/// Different numbers are written differently.
pub proof fn law_decimal_is_injective(a: nat, b: nat)
    requires
        decimal(a) == decimal(b),
    ensures
        a == b,
    decreases a,
{
    lemma_decimal_digits(a / 10);
    lemma_decimal_digits(b / 10);
    assert(decimal(a).last() == decimal(b).last());
    assert(decimal(a).last() == digit(a % 10));
    assert(decimal(b).last() == digit(b % 10));
    if a >= 10 && b >= 10 {
        assert(decimal(a).drop_last() =~= decimal(a / 10));
        assert(decimal(b).drop_last() =~= decimal(b / 10));
        law_decimal_is_injective(a / 10, b / 10);
    }
}

/// Trimming at the front takes away white space and nothing else: what goes is a stretch of white
/// space at the front, and what stays does not begin with white space.
pub proof fn law_trimming_the_front_takes_white_space_only(s: Seq<char>)
    ensures
        exists|from: int| #![trigger s.skip(from)]
            {
                &&& 0 <= from <= s.len()
                &&& trimmed_front(s) == s.skip(from)
                &&& forall|k: int| 0 <= k < from ==> is_white_space(#[trigger] s[k])
                &&& from < s.len() ==> !is_white_space(s[from])
            },
    decreases s.len(),
{
    if s.len() > 0 && is_white_space(s[0]) {
        let rest = s.drop_first();
        law_trimming_the_front_takes_white_space_only(rest);
        let n = choose|n: int| #![trigger rest.skip(n)]
            {
                &&& 0 <= n <= rest.len()
                &&& trimmed_front(rest) == rest.skip(n)
                &&& forall|k: int| 0 <= k < n ==> is_white_space(#[trigger] rest[k])
                &&& n < rest.len() ==> !is_white_space(rest[n])
            };
        assert(rest.skip(n) =~= s.skip(n + 1));
        assert forall|k: int| 0 <= k < n + 1 implies is_white_space(#[trigger] s[k]) by {
            if k > 0 {
                assert(s[k] == rest[k - 1]);
            }
        }
    } else {
        assert(s.skip(0) =~= s);
    }
}

/// Trimming at the back takes away white space and nothing else.
pub proof fn law_trimming_the_back_takes_white_space_only(s: Seq<char>)
    ensures
        exists|to: int| #![trigger s.take(to)]
            {
                &&& 0 <= to <= s.len()
                &&& trimmed_back(s) == s.take(to)
                &&& forall|k: int| to <= k < s.len() ==> is_white_space(#[trigger] s[k])
                &&& to > 0 ==> !is_white_space(s[to - 1])
            },
    decreases s.len(),
{
    if s.len() > 0 && is_white_space(s.last()) {
        let rest = s.drop_last();
        law_trimming_the_back_takes_white_space_only(rest);
        let n = choose|n: int| #![trigger rest.take(n)]
            {
                &&& 0 <= n <= rest.len()
                &&& trimmed_back(rest) == rest.take(n)
                &&& forall|k: int| n <= k < rest.len() ==> is_white_space(#[trigger] rest[k])
                &&& n > 0 ==> !is_white_space(rest[n - 1])
            };
        assert(rest.take(n) =~= s.take(n));
        assert forall|k: int| n <= k < s.len() implies is_white_space(#[trigger] s[k]) by {
            if k < rest.len() {
                assert(s[k] == rest[k]);
            }
        }
    } else {
        assert(s.take(s.len() as int) =~= s);
    }
}

/// A trimmed text is a stretch of the text, everything before and after it is white space, and it
/// neither begins nor ends with white space.
pub proof fn law_trimming_takes_white_space_only(s: Seq<char>)
    ensures
        exists|from: int, to: int| #![trigger s.subrange(from, to)]
            {
                &&& 0 <= from <= to <= s.len()
                &&& trimmed(s) == s.subrange(from, to)
                &&& forall|k: int|
                    0 <= k < from || to <= k < s.len() ==> is_white_space(#[trigger] s[k])
                &&& from < to ==> !is_white_space(s[from]) && !is_white_space(s[to - 1])
            },
{
    law_trimming_the_front_takes_white_space_only(s);
    let from = choose|from: int| #![trigger s.skip(from)]
        {
            &&& 0 <= from <= s.len()
            &&& trimmed_front(s) == s.skip(from)
            &&& forall|k: int| 0 <= k < from ==> is_white_space(#[trigger] s[k])
            &&& from < s.len() ==> !is_white_space(s[from])
        };
    let front = s.skip(from);
    law_trimming_the_back_takes_white_space_only(front);
    let n = choose|n: int| #![trigger front.take(n)]
        {
            &&& 0 <= n <= front.len()
            &&& trimmed_back(front) == front.take(n)
            &&& forall|k: int| n <= k < front.len() ==> is_white_space(#[trigger] front[k])
            &&& n > 0 ==> !is_white_space(front[n - 1])
        };
    assert(front.take(n) =~= s.subrange(from, from + n));
    assert forall|k: int| from + n <= k < s.len() implies is_white_space(#[trigger] s[k]) by {
        assert(s[k] == front[k - from]);
    }
    if n > 0 {
        assert(front[n - 1] == s[from + n - 1]);
    }
}

/// The number that a text of decimal digits stands for.
pub open spec fn number_read(digits: Seq<char>) -> int
    decreases digits.len(),
{
    if digits.len() == 0 {
        0
    } else {
        10 * number_read(digits.drop_last()) + (digits.last() as int - '0' as int)
    }
}

/// A number in decimal reads back as that number. It is made of digits, at least one, and begins
/// with a zero only where it is zero.
pub proof fn law_decimal_reads_back(n: nat)
    ensures
        number_read(decimal(n)) == n,
        decimal(n).len() > 0,
        forall|i: int| 0 <= i < decimal(n).len() ==> '0' <= #[trigger] decimal(n)[i] <= '9',
        decimal(n)[0] == '0' ==> n == 0,
    decreases n,
{
    lemma_decimal_digits(n);
    if n >= 10 {
        law_decimal_reads_back(n / 10);
        assert(decimal(n).drop_last() =~= decimal(n / 10));
        assert(decimal(n)[0] == decimal(n / 10)[0]);
    } else {
        assert(decimal(n).drop_last() =~= Seq::empty());
        assert(number_read(Seq::<char>::empty()) == 0);
    }
    assert(decimal(n).last() == digit(n % 10));
}

/// White space is these characters: the tab, the line and page breaks, the space, and the spaces
/// and separators of the later blocks.
pub proof fn law_white_space_is_these(c: char)
    ensures
        is_white_space(c) <==> seq![
            '\u{9}',
            '\u{a}',
            '\u{b}',
            '\u{c}',
            '\u{d}',
            ' ',
            '\u{85}',
            '\u{a0}',
            '\u{1680}',
            '\u{2000}',
            '\u{2001}',
            '\u{2002}',
            '\u{2003}',
            '\u{2004}',
            '\u{2005}',
            '\u{2006}',
            '\u{2007}',
            '\u{2008}',
            '\u{2009}',
            '\u{200a}',
            '\u{2028}',
            '\u{2029}',
            '\u{202f}',
            '\u{205f}',
            '\u{3000}',
        ].contains(c),
{
    let all = seq![
        '\u{9}',
        '\u{a}',
        '\u{b}',
        '\u{c}',
        '\u{d}',
        ' ',
        '\u{85}',
        '\u{a0}',
        '\u{1680}',
        '\u{2000}',
        '\u{2001}',
        '\u{2002}',
        '\u{2003}',
        '\u{2004}',
        '\u{2005}',
        '\u{2006}',
        '\u{2007}',
        '\u{2008}',
        '\u{2009}',
        '\u{200a}',
        '\u{2028}',
        '\u{2029}',
        '\u{202f}',
        '\u{205f}',
        '\u{3000}',
    ];
    if is_white_space(c) {
        let code = c as int;
        let at = if code <= 0xd {
            code - 0x9
        } else if code == 0x20 {
            5
        } else if code == 0x85 {
            6
        } else if code == 0xa0 {
            7
        } else if code == 0x1680 {
            8
        } else if code <= 0x200a {
            9 + code - 0x2000
        } else if code == 0x2028 {
            20
        } else if code == 0x2029 {
            21
        } else if code == 0x202f {
            22
        } else if code == 0x205f {
            23
        } else {
            24
        };
        assert(all[at] == c);
    }
}

} // verus!
