//! The font-size range of the command line: two small integers around one
//! colon, both at least the floor, taken in either order.

use vstd::prelude::*;
use crate::config::{Configuration, ConfigurationView, FONT_SIZE_FLOOR};

verus! {

/// Why a range string was turned down.
#[derive(Clone, Copy, Debug, PartialEq, Eq, Structural)]
pub enum RangeError {
    /// The string holds no colon, so it is a single token.
    MissingColon,
    /// The string holds more than one colon.
    ExtraColon,
    /// One of the two tokens is not a small integer.
    NotAnInteger,
    /// One of the two values lies under the floor.
    BelowFloor,
}

/// The pieces of `s` between its colons: one more than it has colons.
pub open spec fn tokens(s: Seq<char>) -> Seq<Seq<char>>
    decreases s.len(),
{
    if s.len() == 0 {
        seq![Seq::<char>::empty()]
    } else {
        let before = tokens(s.drop_last());
        if s.last() == ':' {
            before.push(Seq::<char>::empty())
        } else {
            before.drop_last().push(before.last().push(s.last()))
        }
    }
}

/// One of the ten decimal digits.
pub open spec fn is_digit(c: char) -> bool {
    '0' <= c <= '9'
}

/// Every character of `s` is a decimal digit.
pub open spec fn all_digits(s: Seq<char>) -> bool {
    forall|i: int| 0 <= i < s.len() ==> is_digit(#[trigger] s[i])
}

/// The number that a run of decimal digits writes.
pub open spec fn digits_value(s: Seq<char>) -> int
    decreases s.len(),
{
    if s.len() == 0 {
        0
    } else {
        10 * digits_value(s.drop_last()) + (s.last() as int - '0' as int)
    }
}

/// The integer that `s` writes: an optional sign, then one or more decimal
/// digits and nothing else.
pub open spec fn signed_integer(s: Seq<char>) -> Option<int> {
    if s.len() > 0 && (s[0] == '+' || s[0] == '-') {
        let digits = s.skip(1);
        if digits.len() > 0 && all_digits(digits) {
            Some(if s[0] == '-' { -digits_value(digits) } else { digits_value(digits) })
        } else {
            None
        }
    } else if s.len() > 0 && all_digits(s) {
        Some(digits_value(s))
    } else {
        None
    }
}

/// The integer that `s` writes, where it fits in eight bits.
pub open spec fn small_integer(s: Seq<char>) -> Option<i8> {
    match signed_integer(s) {
        Some(v) => if i8::MIN <= v <= i8::MAX { Some(v as i8) } else { None },
        None => None,
    }
}

/// The pair `(a, b)` with the smaller value first.
pub open spec fn ordered(a: i8, b: i8) -> (i8, i8) {
    if a <= b { (a, b) } else { (b, a) }
}

/// What two parsed tokens give: both values must reach the floor.
pub open spec fn checked_range(left: Option<i8>, right: Option<i8>) -> Result<(i8, i8), RangeError> {
    match (left, right) {
        (Some(a), Some(b)) => if a < FONT_SIZE_FLOOR || b < FONT_SIZE_FLOOR {
            Err(RangeError::BelowFloor)
        } else {
            Ok(ordered(a, b))
        },
        _ => Err(RangeError::NotAnInteger),
    }
}

/// The range that `s` names, or the reason why it names none.
pub open spec fn font_range(s: Seq<char>) -> Result<(i8, i8), RangeError> {
    let parts = tokens(s);
    if parts.len() == 1 {
        Err(RangeError::MissingColon)
    } else if parts.len() != 2 {
        Err(RangeError::ExtraColon)
    } else {
        checked_range(small_integer(parts[0]), small_integer(parts[1]))
    }
}

/// `config` with the range that `s` names, or unchanged where it names none.
pub open spec fn with_font_range(config: ConfigurationView, s: Seq<char>) -> ConfigurationView {
    match font_range(s) {
        Ok((low, high)) => ConfigurationView {
            font_size_min: low as int,
            font_size_max: high as int,
            ..config
        },
        Err(_) => config,
    }
}

/// One more character either opens a new token or lengthens the last one.
proof fn lemma_tokens_step(s: Seq<char>, i: int)
    requires
        0 <= i < s.len(),
    ensures
        tokens(s.take(i)).len() >= 1,
        tokens(s.take(i + 1)) == if s[i] == ':' {
            tokens(s.take(i)).push(Seq::<char>::empty())
        } else {
            tokens(s.take(i)).drop_last().push(tokens(s.take(i)).last().push(s[i]))
        },
{
    lemma_tokens_nonempty(s.take(i));
    assert(s.take(i + 1).drop_last() =~= s.take(i));
}

/// Every string has at least one token.
proof fn lemma_tokens_nonempty(s: Seq<char>)
    ensures
        tokens(s).len() >= 1,
    decreases s.len(),
{
    if s.len() > 0 {
        lemma_tokens_nonempty(s.drop_last());
    }
}

/// Collects the characters of `text`, in order.
fn chars_of(text: &str) -> (chars: Vec<char>)
    ensures
        chars@ == text@,
{
    let mut chars: Vec<char> = Vec::new();
    for c in it: text.chars()
        invariant
            chars@ == it.seq().take(it.index() as int),
            it.seq() == text@,
    {
        chars.push(c);
    }
    chars
}

/// Finds the one colon of `chars`.
fn split_point(chars: &Vec<char>) -> (found: Result<usize, RangeError>)
    ensures
        (match found {
            Ok(k) => k < chars@.len() && tokens(chars@) == seq![
                chars@.take(k as int),
                chars@.skip(k + 1),
            ],
            Err(RangeError::MissingColon) => tokens(chars@).len() == 1,
            Err(RangeError::ExtraColon) => tokens(chars@).len() > 2,
            Err(_) => false,
        }),
{
    let n = chars.len();
    let mut colons: u8 = 0;
    let mut first: usize = 0;
    let mut i: usize = 0;
    assert(chars@.take(0) =~= Seq::<char>::empty());
    while i < n
        invariant
            i <= n == chars@.len(),
            colons <= 2,
            colons == 0 ==> tokens(chars@.take(i as int)) == seq![chars@.take(i as int)],
            colons == 1 ==> first < i && tokens(chars@.take(i as int)) == seq![
                chars@.take(first as int),
                chars@.subrange(first + 1, i as int),
            ],
            colons == 2 ==> tokens(chars@.take(i as int)).len() > 2,
        decreases n - i,
    {
        proof {
            lemma_tokens_step(chars@, i as int);
        }
        if chars[i] == ':' {
            if colons == 0 {
                first = i;
                colons = 1;
                assert(chars@.subrange(i + 1, i + 1) =~= Seq::<char>::empty());
            } else {
                colons = 2;
            }
        } else {
            if colons == 0 {
                assert(chars@.take(i as int).push(chars@[i as int]) =~= chars@.take(i + 1));
            } else if colons == 1 {
                assert(chars@.subrange(first + 1, i as int).push(chars@[i as int])
                    =~= chars@.subrange(first + 1, i + 1));
            }
        }
        i += 1;
    }
    assert(chars@.take(n as int) =~= chars@);
    if colons == 0 {
        Err(RangeError::MissingColon)
    } else if colons == 1 {
        Ok(first)
    } else {
        Err(RangeError::ExtraColon)
    }
}

/// A run of digits writes at least what any of its beginnings writes.
proof fn lemma_digits_value_grows(s: Seq<char>, k: int)
    requires
        all_digits(s),
        0 <= k <= s.len(),
    ensures
        0 <= digits_value(s.take(k)) <= digits_value(s),
    decreases s.len(),
{
    if s.len() > 0 {
        let front = s.drop_last();
        lemma_digits_value_grows(front, front.len() as int);
        if k == s.len() {
            assert(s.take(k) =~= s);
        } else {
            lemma_digits_value_grows(front, k);
            assert(front.take(k) =~= s.take(k));
        }
    }
}

/// Reads the characters of `chars` from `from` up to `to` as a run of decimal
/// digits that writes a number of at most 128.
fn parse_digits(chars: &Vec<char>, from: usize, to: usize) -> (value: Option<i32>)
    requires
        from <= to <= chars@.len(),
    ensures
        (match value {
            Some(v) => all_digits(chars@.subrange(from as int, to as int)) && v == digits_value(
                chars@.subrange(from as int, to as int),
            ) && 0 <= v <= 128,
            None => !all_digits(chars@.subrange(from as int, to as int)) || digits_value(
                chars@.subrange(from as int, to as int),
            ) > 128,
        }),
{
    let ghost digits = chars@.subrange(from as int, to as int);
    let mut total: i32 = 0;
    let mut i: usize = from;
    while i < to
        invariant
            from <= i <= to <= chars@.len(),
            digits == chars@.subrange(from as int, to as int),
            all_digits(digits.take(i - from)),
            total == digits_value(digits.take(i - from)),
            0 <= total <= 128,
        decreases to - i,
    {
        let c = chars[i];
        if c < '0' || c > '9' {
            assert(!is_digit(digits[i - from]));
            return None;
        }
        let digit: i32 = (c as u32 - '0' as u32) as i32;
        proof {
            assert(digits.take(i - from + 1).drop_last() =~= digits.take(i - from));
            assert(all_digits(digits.take(i - from + 1))) by {
                assert forall|j: int| 0 <= j < i - from implies is_digit(
                    #[trigger] digits.take(i - from + 1)[j],
                ) by {
                    assert(digits.take(i - from + 1)[j] == digits.take(i - from)[j]);
                }
            }
        }
        let next: i32 = total * 10 + digit;
        if next > 128 {
            proof {
                if all_digits(digits) {
                    lemma_digits_value_grows(digits, i - from + 1);
                }
            }
            return None;
        }
        total = next;
        i += 1;
    }
    assert(digits.take(to - from) =~= digits);
    Some(total)
}

/// Reads the characters of `chars` from `from` up to `to` as a small integer.
fn parse_small_integer(chars: &Vec<char>, from: usize, to: usize) -> (value: Option<i8>)
    requires
        from <= to <= chars@.len(),
    ensures
        value == small_integer(chars@.subrange(from as int, to as int)),
{
    let ghost token = chars@.subrange(from as int, to as int);
    if from == to {
        return None;
    }
    let sign = chars[from];
    let signed = sign == '+' || sign == '-';
    let start: usize = if signed { from + 1 } else { from };
    let ghost digits = chars@.subrange(start as int, to as int);
    assert(signed ==> digits =~= token.skip(1));
    if start == to {
        return None;
    }
    match parse_digits(chars, start, to) {
        None => None,
        Some(total) => {
            if sign == '-' {
                Some((-total) as i8)
            } else if total <= 127 {
                Some(total as i8)
            } else {
                None
            }
        },
    }
}

/// Parses a font-size range such as `12:16`.
///
/// The string must hold exactly one colon, with a small integer on each side
/// of it, both at least the floor. The smaller value comes first in the result,
/// whichever side it stood on.
pub fn parse_font_range(text: &str) -> (range: Result<(i8, i8), RangeError>)
    ensures
        range == font_range(text@),
{
    let chars = chars_of(text);
    let n = chars.len();
    match split_point(&chars) {
        Err(e) => Err(e),
        Ok(k) => {
            let left = parse_small_integer(&chars, 0, k);
            let right = parse_small_integer(&chars, k + 1, n);
            match (left, right) {
                (Some(a), Some(b)) => {
                    if a < FONT_SIZE_FLOOR || b < FONT_SIZE_FLOOR {
                        Err(RangeError::BelowFloor)
                    } else if a <= b {
                        Ok((a, b))
                    } else {
                        Ok((b, a))
                    }
                },
                _ => Err(RangeError::NotAnInteger),
            }
        },
    }
}

/// Replaces the font sizes of `config` by the range that `text` names. A
/// string that names no range leaves `config` as it was, and the reason comes
/// back.
pub fn apply_font_range(config: &mut Configuration, text: &str) -> (outcome: Result<(), RangeError>)
    ensures
        final(config)@ == with_font_range(old(config)@, text@),
        (match font_range(text@) {
            Ok(_) => outcome is Ok,
            Err(e) => outcome == Err::<(), RangeError>(e) && *final(config) == *old(config),
        }),
{
    match parse_font_range(text) {
        Ok((low, high)) => {
            config.font_size_min = low;
            config.font_size_max = high;
            Ok(())
        },
        Err(e) => Err(e),
    }
}

/// A string without a colon is one token.
pub proof fn lemma_tokens_without_colon(s: Seq<char>)
    requires
        !s.contains(':'),
    ensures
        tokens(s) == seq![s],
    decreases s.len(),
{
    if s.len() == 0 {
        assert(tokens(s) =~~= seq![s]);
    } else {
        let front = s.drop_last();
        assert(!front.contains(':')) by {
            assert forall|i: int| 0 <= i < front.len() implies front[i] != ':' by {
                assert(s.contains(s[i]));
            }
        }
        lemma_tokens_without_colon(front);
        assert(s.last() != ':') by {
            assert(s.contains(s.last()));
        }
        assert(tokens(s) =~~= seq![s]);
    }
}

/// Two strings without a colon, joined by one, are the two tokens of the
/// joined string.
pub proof fn lemma_tokens_around_colon(left: Seq<char>, right: Seq<char>)
    requires
        !left.contains(':'),
        !right.contains(':'),
    ensures
        tokens(left + seq![':'] + right) == seq![left, right],
    decreases right.len(),
{
    let joined = left + seq![':'] + right;
    if right.len() == 0 {
        assert(joined.drop_last() =~= left);
        lemma_tokens_without_colon(left);
        assert(tokens(joined) =~~= seq![left, right]);
    } else {
        let front = right.drop_last();
        assert(!front.contains(':')) by {
            assert forall|i: int| 0 <= i < front.len() implies front[i] != ':' by {
                assert(right.contains(right[i]));
            }
        }
        lemma_tokens_around_colon(left, front);
        assert(joined.drop_last() =~= left + seq![':'] + front);
        assert(joined.last() != ':') by {
            assert(right.contains(right.last()));
        }
        assert(tokens(joined) =~~= seq![left, right]);
    }
}

/// The order of the two values is of no account: a range string and the
/// string with its two sides exchanged name the same range, or are turned
/// down for the same reason.
pub proof fn lemma_range_order_independent(left: Seq<char>, right: Seq<char>)
    requires
        !left.contains(':'),
        !right.contains(':'),
    ensures
        font_range(left + seq![':'] + right) == font_range(right + seq![':'] + left),
{
    lemma_tokens_around_colon(left, right);
    lemma_tokens_around_colon(right, left);
}

/// A range that is accepted starts at the floor or above it and runs upwards.
pub proof fn lemma_accepted_range_is_ordered(s: Seq<char>)
    ensures
        font_range(s) matches Ok((low, high)) ==> FONT_SIZE_FLOOR <= low <= high,
{
}

} // verus!
