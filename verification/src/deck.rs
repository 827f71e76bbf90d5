//! Reading a deck out of the text that a user typed: spell identifiers
//! separated by `-`.
//!
//! Reading never fails.  A piece of the text that is no spell identifier
//! counts as the neutral identifier, and so does an empty piece.

use vstd::prelude::*;

verus! {

/// The identifier of neutral spells, which are part of every deck.
pub const NEUTRAL_SPELL_ID: u16 = 0;

/// The character that separates the identifiers of a deck string.
pub const DECK_DELIMITER: char = '-';

/// The number of characters of `s` that come before its first delimiter, or
/// the length of `s` if it has none.
pub open spec fn token_len(s: Seq<char>) -> nat
    decreases s.len(),
{
    if s.len() == 0 || s[0] == DECK_DELIMITER {
        0
    } else {
        1 + token_len(s.drop_first())
    }
}

/// The pieces of `s` between its delimiters, in order.  A string without a
/// delimiter is one piece, the empty string included; a delimiter at either
/// end, or two in a row, give an empty piece.
pub open spec fn split_tokens(s: Seq<char>) -> Seq<Seq<char>>
    decreases s.len(),
{
    let n = token_len(s) as int;
    if n >= s.len() {
        seq![s]
    } else {
        seq![s.take(n)] + split_tokens(s.skip(n + 1))
    }
}

/// `c` is one of the ten decimal digits.
pub open spec fn is_digit(c: char) -> bool {
    '0' <= c <= '9'
}

/// The value of the digit `c`.
pub open spec fn digit_value(c: char) -> nat
    recommends
        is_digit(c),
{
    (c as u32 - '0' as u32) as nat
}

/// Every character of `s` is a decimal digit.
pub open spec fn all_digits(s: Seq<char>) -> bool {
    forall|i: int| 0 <= i < s.len() ==> is_digit(#[trigger] s[i])
}

/// The number that the digits of `s` write in base ten; leading zeros do not
/// count.
pub open spec fn decimal_value(s: Seq<char>) -> nat
    decreases s.len(),
{
    if s.len() == 0 {
        0
    } else {
        10 * decimal_value(s.drop_last()) + digit_value(s.last())
    }
}

/// The digits of a token: the token itself, without the `+` that may stand
/// in front.
pub open spec fn token_digits(token: Seq<char>) -> Seq<char> {
    if token.len() > 0 && token[0] == '+' {
        token.drop_first()
    } else {
        token
    }
}

/// The spell identifier that `token` writes, if it writes one: an optional
/// `+`, then at least one decimal digit and nothing else, for a number that
/// fits in sixteen bits.
pub open spec fn spec_parse_spell_id(token: Seq<char>) -> Option<u16> {
    let digits = token_digits(token);
    if digits.len() > 0 && all_digits(digits) && decimal_value(digits) <= u16::MAX {
        Some(decimal_value(digits) as u16)
    } else {
        None
    }
}

/// The identifier that a token stands for in a deck: the one it writes, or
/// the neutral identifier if it writes none.
pub open spec fn token_spell_id(token: Seq<char>) -> u16 {
    match spec_parse_spell_id(token) {
        Some(spell_id) => spell_id,
        None => NEUTRAL_SPELL_ID,
    }
}

/// The deck that a deck string stands for: the neutral identifier, then one
/// identifier for each piece of the string, in order.
pub open spec fn deck_of(deck_string: Seq<char>) -> Seq<u16> {
    seq![NEUTRAL_SPELL_ID] + split_tokens(deck_string).map_values(
        |token: Seq<char>| token_spell_id(token),
    )
}

/// The characters of `s`.
fn chars_of(s: &str) -> (chars: Vec<char>)
    ensures
        chars@ == s@,
{
    let mut chars: Vec<char> = Vec::new();
    for c in it: s.chars()
        invariant
            chars@ == it.seq().take(it.index() as int),
    {
        chars.push(c);
    }
    chars
}

/// A prefix of a digit string writes a number no larger than the whole.
proof fn lemma_decimal_value_prefix(s: Seq<char>, k: int)
    requires
        0 <= k <= s.len(),
    ensures
        decimal_value(s.take(k)) <= decimal_value(s),
    decreases s.len(),
{
    if k == s.len() {
        assert(s.take(k) == s);
    } else {
        lemma_decimal_value_prefix(s.drop_last(), k);
        assert(s.drop_last().take(k) == s.take(k));
    }
}

/// The first `k` characters of `s` are its first token when none of them is
/// a delimiter and they are followed by a delimiter or by the end.
proof fn lemma_token_len(s: Seq<char>, k: int)
    requires
        0 <= k <= s.len(),
        forall|i: int| 0 <= i < k ==> s[i] != DECK_DELIMITER,
        k == s.len() || s[k] == DECK_DELIMITER,
    ensures
        token_len(s) == k,
    decreases k,
{
    if k > 0 {
        lemma_token_len(s.drop_first(), k - 1);
    }
}

/// Reads the token that the characters from `start` up to `end` form.
fn parse_token(chars: &Vec<char>, start: usize, end: usize) -> (result: Option<u16>)
    requires
        start <= end <= chars.len(),
    ensures
        result == spec_parse_spell_id(chars@.subrange(start as int, end as int)),
{
    let mut i: usize = start;
    if i < end && chars[i] == '+' {
        i = i + 1;
    }
    let first: usize = i;
    let ghost digits = chars@.subrange(first as int, end as int);
    if first == end {
        return None;
    }
    let mut value: u32 = 0;
    while i < end
        invariant
            start <= first <= i <= end <= chars.len(),
            digits == chars@.subrange(first as int, end as int),
            digits == token_digits(chars@.subrange(start as int, end as int)),
            all_digits(digits.take(i - first)),
            value == decimal_value(digits.take(i - first)),
            value <= u16::MAX,
        decreases end - i,
    {
        let c: char = chars[i];
        if !('0' <= c && c <= '9') {
            assert(!is_digit(digits[i - first]));
            return None;
        }
        let digit: u32 = c as u32 - '0' as u32;
        let ghost prefix = digits.take(i - first + 1);
        assert(prefix.drop_last() == digits.take(i - first));
        value = 10 * value + digit;
        if value > u16::MAX as u32 {
            proof {
                lemma_decimal_value_prefix(digits, i - first + 1);
            }
            return None;
        }
        i = i + 1;
    }
    assert(digits.take(i - first) == digits);
    Some(value as u16)
}

/// Reads a spell identifier: decimal digits, which a `+` may precede, for a
/// number up to 65535.  Anything else is no identifier.
pub fn parse_spell_id(token: &str) -> (result: Option<u16>)
    ensures
        result == spec_parse_spell_id(token@),
{
    let chars = chars_of(token);
    assert(chars@.subrange(0, chars@.len() as int) == chars@);
    parse_token(&chars, 0, chars.len())
}

/// Finds where the token that begins at `start` ends: at the next delimiter,
/// or at the end of the text.
fn token_end(chars: &Vec<char>, start: usize) -> (end: usize)
    requires
        start <= chars.len(),
    ensures
        start <= end <= chars.len(),
        end - start == token_len(chars@.skip(start as int)),
{
    let mut end: usize = start;
    while end < chars.len() && chars[end] != DECK_DELIMITER
        invariant
            start <= end <= chars.len(),
            forall|i: int| start <= i < end ==> chars@[i] != DECK_DELIMITER,
        decreases chars.len() - end,
    {
        end = end + 1;
    }
    proof {
        lemma_token_len(chars@.skip(start as int), end - start);
    }
    end
}

/// Reads a deck string: the deck holds the neutral identifier, then, for
/// each piece between the delimiters, the identifier that the piece writes,
/// or the neutral identifier if it writes none.
pub fn parse_deck(deck_string: &str) -> (deck: Vec<u16>)
    ensures
        deck@ == deck_of(deck_string@),
{
    let chars = chars_of(deck_string);
    let mut deck: Vec<u16> = Vec::new();
    deck.push(NEUTRAL_SPELL_ID);
    let mut start: usize = 0;
    assert(chars@.skip(0) == chars@);
    loop
        invariant_except_break
            start <= chars.len(),
            deck_of(chars@) == deck@ + split_tokens(chars@.skip(start as int)).map_values(
                |token: Seq<char>| token_spell_id(token),
            ),
        ensures
            deck@ == deck_of(chars@),
        decreases chars.len() - start,
    {
        let ghost rest = chars@.skip(start as int);
        let end = token_end(&chars, start);
        let spell_id = match parse_token(&chars, start, end) {
            Some(spell_id) => spell_id,
            None => NEUTRAL_SPELL_ID,
        };
        assert(chars@.subrange(start as int, end as int) == rest.take(end - start));
        deck.push(spell_id);
        if end == chars.len() {
            break ;
        }
        assert(rest.skip(end - start + 1) == chars@.skip(end + 1));
        start = end + 1;
    }
    deck
}

/// The text that `tokens` make when a delimiter is put between each two.
pub open spec fn join_tokens(tokens: Seq<Seq<char>>) -> Seq<char>
    decreases tokens.len(),
{
    if tokens.len() == 0 {
        Seq::empty()
    } else if tokens.len() == 1 {
        tokens[0]
    } else {
        tokens[0] + seq![DECK_DELIMITER] + join_tokens(tokens.drop_first())
    }
}

/// The first token of a text ends within the text, holds no delimiter, and
/// is followed by a delimiter unless the text ends there.
pub proof fn lemma_token_len_bounds(s: Seq<char>)
    ensures
        token_len(s) <= s.len(),
        forall|i: int| 0 <= i < token_len(s) ==> s[i] != DECK_DELIMITER,
        token_len(s) < s.len() ==> s[token_len(s) as int] == DECK_DELIMITER,
    decreases s.len(),
{
    if s.len() > 0 && s[0] != DECK_DELIMITER {
        let rest = s.drop_first();
        lemma_token_len_bounds(rest);
        assert forall|i: int| 0 <= i < token_len(s) implies s[i] != DECK_DELIMITER by {
            if i > 0 {
                assert(s[i] == rest[i - 1]);
            }
        }
    }
}

/// No token of a text holds a delimiter.
pub proof fn lemma_tokens_hold_no_delimiter(s: Seq<char>, i: int)
    requires
        0 <= i < split_tokens(s).len(),
    ensures
        !split_tokens(s)[i].contains(DECK_DELIMITER),
    decreases s.len(),
{
    lemma_token_len_bounds(s);
    let n = token_len(s) as int;
    if n < s.len() && i > 0 {
        lemma_tokens_hold_no_delimiter(s.skip(n + 1), i - 1);
    }
}

/// Putting the delimiters back between the tokens of a text gives the text.
pub proof fn lemma_tokens_rejoin(s: Seq<char>)
    ensures
        split_tokens(s).len() >= 1,
        join_tokens(split_tokens(s)) == s,
    decreases s.len(),
{
    lemma_token_len_bounds(s);
    let n = token_len(s) as int;
    if n < s.len() {
        let rest = s.skip(n + 1);
        lemma_tokens_rejoin(rest);
        assert(split_tokens(s).drop_first() == split_tokens(rest));
    }
}

/// The tokens of a text are the only pieces without a delimiter that give
/// the text when the delimiters are put back between them.
pub proof fn lemma_tokens_are_unique(s: Seq<char>, tokens: Seq<Seq<char>>)
    requires
        tokens.len() >= 1,
        forall|i: int| 0 <= i < tokens.len() ==> !(#[trigger] tokens[i]).contains(DECK_DELIMITER),
        join_tokens(tokens) == s,
    ensures
        tokens == split_tokens(s),
    decreases tokens.len(),
{
    let head = tokens[0];
    if tokens.len() == 1 {
        lemma_token_len(s, s.len() as int);
    } else {
        let others = tokens.drop_first();
        let rest = join_tokens(others);
        lemma_tokens_are_unique(rest, others);
        lemma_token_len(s, head.len() as int);
        assert(s.take(head.len() as int) == head);
        assert(s.skip(head.len() as int + 1) == rest);
    }
}

/// A deck begins with the neutral identifier and then holds one identifier
/// for each token of the deck string, in order.
pub proof fn lemma_deck_shape(deck_string: Seq<char>)
    ensures
        deck_of(deck_string).len() == split_tokens(deck_string).len() + 1,
        deck_of(deck_string).len() >= 2,
        deck_of(deck_string)[0] == NEUTRAL_SPELL_ID,
        deck_of(deck_string).contains(NEUTRAL_SPELL_ID),
        forall|i: int|
            0 <= i < split_tokens(deck_string).len() ==> #[trigger] deck_of(deck_string)[i + 1]
                == token_spell_id(split_tokens(deck_string)[i]),
{
    lemma_tokens_rejoin(deck_string);
}

} // verus!
