//! Decimal numerals: how query parameters are read as unsigned integers.

use vstd::prelude::*;
use vstd::std_specs::iter::IteratorSpec;
use vstd::string::StringExecFns;

verus! {

/// Why a text was not read as an unsigned integer.
#[derive(Clone, Copy, Debug, PartialEq, Eq, Structural)]
pub enum ParseFailure {
    /// The text is empty.
    Empty,
    /// A character that is no ASCII digit stands where a digit is expected.
    InvalidDigit,
    /// The digits denote a number above the largest `usize`.
    PosOverflow,
}

/// Whether `c` is one of `0` to `9`.
pub open spec fn is_digit(c: char) -> bool {
    '0' <= c && c <= '9'
}

/// The number that the digit `c` denotes.
pub open spec fn digit_value(c: char) -> nat
    recommends
        is_digit(c),
{
    (c as u32 - '0' as u32) as nat
}

/// The number that a sequence of digits denotes, most significant digit first.
pub open spec fn digits_value(s: Seq<char>) -> nat
    decreases s.len(),
{
    if s.len() == 0 {
        0
    } else {
        digits_value(s.drop_last()) * 10 + digit_value(s.last())
    }
}

/// The length of the longest prefix of `s` that holds digits only.
pub open spec fn digit_prefix_len(s: Seq<char>) -> nat
    decreases s.len(),
{
    if s.len() == 0 || !is_digit(s[0]) {
        0
    } else {
        1 + digit_prefix_len(s.skip(1))
    }
}

/// The text in which the digits are looked for: `s` without one leading `+`,
/// where something follows that sign.
pub open spec fn digits_part(s: Seq<char>) -> Seq<char> {
    if s.len() > 1 && s[0] == '+' {
        s.skip(1)
    } else {
        s
    }
}

/// What a text denotes as an unsigned integer of at most `max`.
///
/// The text is an optional `+` and then digits, with nothing before, between or
/// after them. Of an empty text the failure is `Empty`. Otherwise the digits
/// are read from the left: where their value has passed `max` before anything
/// but a digit was met, the failure is `PosOverflow`; where a character that is
/// no digit comes first (a lone sign among them), it is `InvalidDigit`.
pub open spec fn parse_unsigned(s: Seq<char>, max: nat) -> Result<nat, ParseFailure> {
    let d = digits_part(s);
    let n = digit_prefix_len(d);
    let v = digits_value(d.take(n as int));
    if s.len() == 0 {
        Err(ParseFailure::Empty)
    } else if v > max {
        Err(ParseFailure::PosOverflow)
    } else if n < d.len() {
        Err(ParseFailure::InvalidDigit)
    } else {
        Ok(v)
    }
}

/// The digit prefix lies within `s`, holds digits only, and ends at the end of
/// `s` or before a character that is no digit.
pub proof fn lemma_digit_prefix_bounds(s: Seq<char>)
    ensures
        digit_prefix_len(s) <= s.len(),
        forall|i: int| 0 <= i < digit_prefix_len(s) ==> is_digit(#[trigger] s[i]),
        digit_prefix_len(s) < s.len() ==> !is_digit(s[digit_prefix_len(s) as int]),
    decreases s.len(),
{
    if s.len() > 0 && is_digit(s[0]) {
        let t = s.skip(1);
        lemma_digit_prefix_bounds(t);
        assert forall|i: int| 0 <= i < digit_prefix_len(s) implies is_digit(#[trigger] s[i]) by {
            if i > 0 {
                assert(s[i] == t[i - 1]);
            }
        }
        if digit_prefix_len(s) < s.len() {
            assert(s[digit_prefix_len(s) as int] == t[digit_prefix_len(t) as int]);
        }
    }
}

/// The digit prefix of `s` ends at `n` exactly when digits alone stand before
/// `n` and none stands at `n`.
pub proof fn lemma_digit_prefix_len(s: Seq<char>, n: int)
    requires
        0 <= n <= s.len(),
        forall|i: int| 0 <= i < n ==> is_digit(#[trigger] s[i]),
        n < s.len() ==> !is_digit(s[n]),
    ensures
        digit_prefix_len(s) == n,
    decreases s.len(),
{
    if n > 0 {
        let t = s.skip(1);
        assert(is_digit(s[0]));
        assert forall|i: int| 0 <= i < n - 1 implies is_digit(#[trigger] t[i]) by {
            assert(t[i] == s[i + 1]);
        }
        lemma_digit_prefix_len(t, n - 1);
    }
}

/// Reading one more digit never lowers the value: a prefix of digits denotes
/// at most what a longer one denotes.
pub proof fn lemma_digits_value_monotonic(s: Seq<char>, j: int, k: int)
    requires
        0 <= j <= k <= s.len(),
    ensures
        digits_value(s.take(j)) <= digits_value(s.take(k)),
    decreases k - j,
{
    if j < k {
        lemma_digits_value_monotonic(s, j, k - 1);
        assert(s.take(k).drop_last() =~= s.take(k - 1));
    }
}

/// The value of the digits read so far, after one more digit.
pub proof fn lemma_digits_value_step(s: Seq<char>, i: int)
    requires
        0 <= i < s.len(),
    ensures
        digits_value(s.take(i + 1)) == digits_value(s.take(i)) * 10 + digit_value(s[i]),
{
    assert(s.take(i + 1).drop_last() =~= s.take(i));
}

/// A text that holds anything but digits behind its optional sign is never
/// read as a number, whatever it holds besides.
pub proof fn lemma_non_digit_refused(s: Seq<char>, max: nat, i: int)
    requires
        0 <= i < digits_part(s).len(),
        !is_digit(digits_part(s)[i]),
    ensures
        parse_unsigned(s, max) is Err,
{
    let d = digits_part(s);
    lemma_digit_prefix_bounds(d);
    if digit_prefix_len(d) > i {
        assert(is_digit(d[i]));
    }
}

/// A text of one digit or more, with or without a `+` before them, is read
/// as the number that the digits denote, provided that it is at most `max`.
pub proof fn lemma_digits_accepted(s: Seq<char>, max: nat)
    requires
        digits_part(s).len() > 0,
        forall|i: int| 0 <= i < digits_part(s).len() ==> is_digit(#[trigger] digits_part(s)[i]),
        digits_value(digits_part(s)) <= max,
    ensures
        parse_unsigned(s, max) == Ok::<nat, ParseFailure>(digits_value(digits_part(s))),
{
    let d = digits_part(s);
    lemma_digit_prefix_len(d, d.len() as int);
    assert(d.take(d.len() as int) =~= d);
}

impl ParseFailure {
    /// The text that describes the failure.
    pub open spec fn text(self) -> Seq<char> {
        match self {
            ParseFailure::Empty => "cannot parse integer from empty string"@,
            ParseFailure::InvalidDigit => "invalid digit found in string"@,
            ParseFailure::PosOverflow => "number too large to fit in target type"@,
        }
    }

    /// Describes the failure in words.
    pub fn describe(&self) -> (r: &'static str)
        ensures
            r@ == self.text(),
    {
        match self {
            ParseFailure::Empty => "cannot parse integer from empty string",
            ParseFailure::InvalidDigit => "invalid digit found in string",
            ParseFailure::PosOverflow => "number too large to fit in target type",
        }
    }
}

/// Reads `s` as a decimal `usize`.
pub fn parse_usize(s: &str) -> (r: Result<usize, ParseFailure>)
    ensures
        match r {
            Ok(v) => parse_unsigned(s@, usize::MAX as nat) == Ok::<nat, ParseFailure>(v as nat),
            Err(e) => parse_unsigned(s@, usize::MAX as nat) == Err::<nat, ParseFailure>(e),
        },
{
    let mut it = s.chars();
    let first = match it.next() {
        None => {
            return Err(ParseFailure::Empty);
        },
        Some(c) => c,
    };
    let ghost d = digits_part(s@);
    let mut pending: Option<char> = Some(first);
    if first == '+' {
        pending = it.next();
        if pending.is_none() {
            proof {
                lemma_digit_prefix_len(d, 0);
            }
            return Err(ParseFailure::InvalidDigit);
        }
    }
    let mut value: usize = 0;
    let ghost mut i: int = 0;
    while pending.is_some()
        invariant
            d == digits_part(s@),
            s@.len() > 0,
            0 <= i <= d.len(),
            forall|k: int| 0 <= k < i ==> is_digit(#[trigger] d[k]),
            value as nat == digits_value(d.take(i)),
            it.obeys_prophetic_iter_laws(),
            match pending {
                Some(c) => i < d.len() && c == d[i] && it.remaining() == d.skip(i + 1),
                None => i == d.len(),
            },
        decreases d.len() - i,
    {
        let c = pending.unwrap();
        if !(c >= '0' && c <= '9') {
            proof {
                lemma_digit_prefix_len(d, i);
            }
            return Err(ParseFailure::InvalidDigit);
        }
        let digit: usize = (c as u32 - '0' as u32) as usize;
        proof {
            lemma_digits_value_step(d, i);
        }
        if value > (usize::MAX - digit) / 10 {
            proof {
                let n = digit_prefix_len(d) as int;
                lemma_digit_prefix_bounds(d);
                assert(n > i);
                lemma_digits_value_monotonic(d, i + 1, n);
            }
            return Err(ParseFailure::PosOverflow);
        }
        value = value * 10 + digit;
        pending = it.next();
        proof {
            i = i + 1;
        }
    }
    proof {
        lemma_digit_prefix_len(d, i);
        assert(d.take(i) =~= d);
    }
    Ok(value)
}

/// The character that writes the digit `d`.
pub open spec fn digit_char(d: int) -> char
    recommends
        0 <= d <= 9,
{
    ('0' as int + d) as char
}

/// The decimal numeral of `n`, without leading zeros.
pub open spec fn natural_text(n: nat) -> Seq<char>
    decreases n,
{
    if n < 10 {
        seq![digit_char(n as int)]
    } else {
        natural_text(n / 10).push(digit_char((n % 10) as int))
    }
}

/// The decimal numeral of `n`, with a minus sign where `n` is negative.
pub open spec fn integer_text(n: int) -> Seq<char> {
    if n < 0 {
        seq!['-'] + natural_text((-n) as nat)
    } else {
        natural_text(n as nat)
    }
}

fn digit_text(d: u32) -> (r: &'static str)
    requires
        d <= 9,
    ensures
        r@ == seq![digit_char(d as int)],
{
    proof {
        reveal_strlit("0");
        reveal_strlit("1");
        reveal_strlit("2");
        reveal_strlit("3");
        reveal_strlit("4");
        reveal_strlit("5");
        reveal_strlit("6");
        reveal_strlit("7");
        reveal_strlit("8");
        reveal_strlit("9");
    }
    let r = match d {
        0 => "0",
        1 => "1",
        2 => "2",
        3 => "3",
        4 => "4",
        5 => "5",
        6 => "6",
        7 => "7",
        8 => "8",
        _ => "9",
    };
    assert(r@ =~= seq![digit_char(d as int)]);
    r
}

/// Writes `n` as a decimal numeral.
pub fn natural_to_string(n: u32) -> (r: String)
    ensures
        r@ == natural_text(n as nat),
    decreases n,
{
    if n < 10 {
        String::from_str(digit_text(n))
    } else {
        let mut s = natural_to_string(n / 10);
        s.append(digit_text(n % 10));
        s
    }
}

/// Writes `n` as a decimal numeral, with a minus sign where it is negative.
pub fn integer_to_string(n: i32) -> (r: String)
    ensures
        r@ == integer_text(n as int),
{
    if n < 0 {
        let magnitude: u32 = (-(n as i64)) as u32;
        proof {
            reveal_strlit("-");
        }
        let r = String::from_str("-").concat(natural_to_string(magnitude).as_str());
        assert("-"@ =~= seq!['-']);
        r
    } else {
        natural_to_string(n as u32)
    }
}

} // verus!
