//! Text helpers: decimal numbers, prefixes and surrounding white space.
//!
//! Row ids travel as decimal text between the row store and the tuple
//! service, so writing and reading them back are specified exactly here.

use vstd::prelude::*;
use vstd::string::*;

verus! {

/// The character of a single decimal digit.
pub open spec fn digit_char(d: int) -> char {
    if d == 0 {
        '0'
    } else if d == 1 {
        '1'
    } else if d == 2 {
        '2'
    } else if d == 3 {
        '3'
    } else if d == 4 {
        '4'
    } else if d == 5 {
        '5'
    } else if d == 6 {
        '6'
    } else if d == 7 {
        '7'
    } else if d == 8 {
        '8'
    } else {
        '9'
    }
}

/// The decimal digits of a natural number, without leading zeros.
pub open spec fn decimal(n: nat) -> Seq<char>
    decreases n,
{
    if n < 10 {
        seq![digit_char(n as int)]
    } else {
        decimal(n / 10).push(digit_char((n % 10) as int))
    }
}

/// The decimal text of an integer: a minus sign before the digits of a
/// negative number, no sign otherwise.
pub open spec fn signed_decimal(n: int) -> Seq<char> {
    if n < 0 {
        seq!['-'] + decimal((-n) as nat)
    } else {
        decimal(n as nat)
    }
}

/// The ten decimal digits.
pub open spec fn is_digit(c: char) -> bool {
    '0' <= c && c <= '9'
}

/// The number that a decimal digit denotes.
pub open spec fn digit_value(c: char) -> int {
    c as int - '0' as int
}

/// Every character of the text is a decimal digit.
pub open spec fn all_digits(s: Seq<char>) -> bool {
    forall|i: int| 0 <= i < s.len() ==> is_digit(#[trigger] s[i])
}

/// The number that a run of decimal digits denotes; leading zeros count for
/// nothing.
pub open spec fn digits_value(s: Seq<char>) -> int
    decreases s.len(),
{
    if s.len() == 0 {
        0
    } else {
        digits_value(s.drop_last()) * 10 + digit_value(s.last())
    }
}

/// The text starts with `-` or `+`.
pub open spec fn has_sign(s: Seq<char>) -> bool {
    s.len() > 0 && (s[0] == '-' || s[0] == '+')
}

/// What follows the optional sign.
pub open spec fn unsigned_part(s: Seq<char>) -> Seq<char> {
    if has_sign(s) {
        s.subrange(1, s.len() as int)
    } else {
        s
    }
}

/// The integer that a text denotes: an optional `+` or `-`, then one or more
/// decimal digits and nothing else, with a value that fits in 64 bits.
pub open spec fn parsed_i64(s: Seq<char>) -> Option<i64> {
    let digits = unsigned_part(s);
    let magnitude = digits_value(digits);
    let value = if s.len() > 0 && s[0] == '-' {
        -magnitude
    } else {
        magnitude
    };
    if digits.len() > 0 && all_digits(digits) && i64::MIN <= value <= i64::MAX {
        Some(value as i64)
    } else {
        None
    }
}

/// `s` without `prefix` at its start; `s` itself where it does not start
/// with `prefix`.
pub open spec fn without_prefix(s: Seq<char>, prefix: Seq<char>) -> Seq<char> {
    if prefix.is_prefix_of(s) {
        s.subrange(prefix.len() as int, s.len() as int)
    } else {
        s
    }
}

/// White space as Unicode defines it: the characters with the property
/// `White_Space`.
pub open spec fn is_white_space(c: char) -> bool {
    ||| '\u{9}' <= c && c <= '\u{d}'
    ||| c == ' '
    ||| c == '\u{85}'
    ||| c == '\u{a0}'
    ||| c == '\u{1680}'
    ||| '\u{2000}' <= c && c <= '\u{200a}'
    ||| c == '\u{2028}'
    ||| c == '\u{2029}'
    ||| c == '\u{202f}'
    ||| c == '\u{205f}'
    ||| c == '\u{3000}'
}

/// How many characters of white space a text starts with.
pub open spec fn leading_white(s: Seq<char>) -> int
    decreases s.len(),
{
    if s.len() > 0 && is_white_space(s[0]) {
        1 + leading_white(s.drop_first())
    } else {
        0
    }
}

/// How many characters of white space a text ends with.
pub open spec fn trailing_white(s: Seq<char>) -> int
    decreases s.len(),
{
    if s.len() > 0 && is_white_space(s.last()) {
        1 + trailing_white(s.drop_last())
    } else {
        0
    }
}

/// A text without the white space at its two ends.
pub open spec fn trimmed(s: Seq<char>) -> Seq<char> {
    if leading_white(s) >= s.len() {
        Seq::empty()
    } else {
        s.subrange(leading_white(s), s.len() - trailing_white(s))
    }
}

fn digit_text(d: u64) -> (r: &'static str)
    requires
        d < 10,
    ensures
        r@ == seq![digit_char(d as int)],
{
    proof {
        reveal_strlit("0");
        reveal_strlit("1");
        reveal_strlit("2");
        reveal_strlit("3");
        reveal_strlit("4");
        reveal_strlit("5");
        reveal_strlit("6");
        reveal_strlit("7");
        reveal_strlit("8");
        reveal_strlit("9");
    }
    let r = if d == 0 {
        "0"
    } else if d == 1 {
        "1"
    } else if d == 2 {
        "2"
    } else if d == 3 {
        "3"
    } else if d == 4 {
        "4"
    } else if d == 5 {
        "5"
    } else if d == 6 {
        "6"
    } else if d == 7 {
        "7"
    } else if d == 8 {
        "8"
    } else {
        "9"
    };
    assert(r@ =~= seq![digit_char(d as int)]);
    r
}

/// Renders a natural number in decimal.
pub fn render_u64(n: u64) -> (r: String)
    ensures
        r@ == decimal(n as nat),
    decreases n,
{
    if n < 10 {
        String::from_str(digit_text(n))
    } else {
        let mut s = render_u64(n / 10);
        s.append(digit_text(n % 10));
        assert(s@ =~= decimal((n / 10) as nat).push(digit_char((n % 10) as int)));
        s
    }
}

/// Renders an integer in decimal.
pub fn render_i64(n: i64) -> (r: String)
    ensures
        r@ == signed_decimal(n as int),
{
    if n >= 0 {
        render_u64(n as u64)
    } else {
        let magnitude: u64 = ((-(n + 1)) as u64) + 1;
        let mut s = String::from_str("-");
        let digits = render_u64(magnitude);
        s.append(digits.as_str());
        proof {
            reveal_strlit("-");
            assert("-"@ =~= seq!['-']);
        }
        s
    }
}

/// A longer run of digits denotes no smaller a number than its start does.
proof fn lemma_digits_value_grows(s: Seq<char>, k: int)
    requires
        all_digits(s),
        0 <= k <= s.len(),
    ensures
        0 <= digits_value(s.subrange(0, k)) <= digits_value(s),
    decreases s.len(),
{
    if s.len() == 0 {
        assert(s.subrange(0, k) =~= s);
    } else if k == s.len() {
        assert(s.subrange(0, k) =~= s);
        lemma_digits_value_grows(s.drop_last(), s.len() - 1);
        assert(s.drop_last().subrange(0, s.len() - 1) =~= s.drop_last());
        assert(is_digit(s[s.len() - 1]));
    } else {
        assert(s.drop_last().subrange(0, k) =~= s.subrange(0, k));
        lemma_digits_value_grows(s.drop_last(), k);
        assert(is_digit(s[s.len() - 1]));
    }
}

/// Reads a decimal integer. Returns `None` for any text that is not an
/// optional sign followed by digits, or whose value does not fit.
pub fn parse_i64(s: &str) -> (r: Option<i64>)
    ensures
        r == parsed_i64(s@),
{
    if !s.is_ascii() {
        proof {
            let i = choose|i: int| 0 <= i < s@.len() && !('\0' <= #[trigger] s@[i] <= '\u{7f}');
            let digits = unsigned_part(s@);
            if has_sign(s@) {
                assert(i >= 1);
                assert(digits[i - 1] == s@[i]);
                assert(!is_digit(digits[i - 1]));
            } else {
                assert(!is_digit(digits[i]));
            }
        }
        return None;
    }
    broadcast use is_ascii_spec_bytes;

    let n: usize = s.unicode_len();
    if n == 0 {
        return None;
    }
    let first: u8 = s.get_ascii(0);
    let negative: bool = first == 45;
    let start: usize = if first == 45 || first == 43 {
        1
    } else {
        0
    };
    assert(has_sign(s@) == (start == 1));
    assert(negative == (s@[0] == '-'));
    let ghost digits = unsigned_part(s@);
    assert(digits =~= s@.subrange(start as int, n as int));
    if start == n {
        return None;
    }
    // The largest magnitude that still fits: one more on the negative side.
    let limit: u64 = if negative {
        9223372036854775808
    } else {
        9223372036854775807
    };
    let mut acc: u64 = 0;
    let mut i: usize = start;
    while i < n
        invariant
            s.is_ascii(),
            n == s@.len(),
            start <= i <= n,
            start < n,
            digits == unsigned_part(s@),
            digits =~= s@.subrange(start as int, n as int),
            negative == (s@[0] == '-'),
            negative ==> limit == 9223372036854775808,
            !negative ==> limit == 9223372036854775807,
            all_digits(digits.subrange(0, i - start)),
            acc as int == digits_value(digits.subrange(0, i - start)),
            acc <= limit,
            9223372036854775807 <= limit <= 9223372036854775808,
        decreases n - i,
    {
        let b: u8 = s.get_ascii(i);
        let ghost c = s@[i as int];
        assert(digits[i - start] == c);
        assert(c as u8 == b);
        assert('\0' <= c <= '\u{7f}');
        if b < 48 || b > 57 {
            assert(!is_digit(c));
            assert(!is_digit(digits[i - start]));
            return None;
        }
        let d: u64 = (b - 48) as u64;
        assert(is_digit(c));
        assert(d as int == digit_value(c));
        let ghost next = digits.subrange(0, i - start + 1);
        proof {
            assert(next.drop_last() =~= digits.subrange(0, i - start));
            assert(next.last() == c);
            assert(all_digits(next)) by {
                assert forall|j: int| 0 <= j < next.len() implies is_digit(#[trigger] next[j]) by {
                    if j < i - start {
                        assert(digits.subrange(0, i - start)[j] == next[j]);
                    }
                }
            }
        }
        if acc > (limit - d) / 10 {
            proof {
                assert(acc as int * 10 + d as int > limit as int);
                assert(digits_value(next) > limit as int);
                if all_digits(digits) {
                    lemma_digits_value_grows(digits, i - start + 1);
                }
            }
            return None;
        }
        acc = acc * 10 + d;
        i = i + 1;
    }
    assert(digits.subrange(0, i - start) =~= digits);
    if negative {
        if acc == 9223372036854775808 {
            Some(i64::MIN)
        } else {
            Some(-(acc as i64))
        }
    } else {
        Some(acc as i64)
    }
}

/// Removes `prefix` from the start of `s` where it stands there, and returns
/// `s` unchanged where it does not.
pub fn strip_prefix(s: &str, prefix: &str) -> (r: String)
    ensures
        r@ == without_prefix(s@, prefix@),
{
    let n: usize = s.unicode_len();
    let k: usize = prefix.unicode_len();
    if k > n {
        return s.to_owned();
    }
    let mut i: usize = 0;
    while i < k
        invariant
            n == s@.len(),
            k == prefix@.len(),
            k <= n,
            i <= k,
            forall|j: int| 0 <= j < i ==> s@[j] == prefix@[j],
        decreases k - i,
    {
        if s.get_char(i) != prefix.get_char(i) {
            assert(s@.subrange(0, k as int)[i as int] != prefix@[i as int]);
            return s.to_owned();
        }
        i = i + 1;
    }
    assert(prefix@ =~= s@.subrange(0, k as int));
    s.substring_char(k, n).to_owned()
}

/// The digits of a number are digits, and denote that number.
pub proof fn lemma_decimal_denotes(n: nat)
    ensures
        decimal(n).len() > 0,
        all_digits(decimal(n)),
        digits_value(decimal(n)) == n,
    decreases n,
{
    if n < 10 {
        let s = decimal(n);
        assert(s.len() == 1);
        assert(s[0] == digit_char(n as int));
        assert(s.drop_last() =~= Seq::<char>::empty());
        assert(digits_value(s.drop_last()) == 0);
        assert(digit_value(s.last()) == n);
    } else {
        lemma_decimal_denotes(n / 10);
        let head = decimal(n / 10);
        let s = decimal(n);
        let d = digit_char((n % 10) as int);
        assert(s == head.push(d));
        assert(s.drop_last() =~= head);
        assert(s.last() == d);
        assert(is_digit(d));
        assert(digit_value(d) == n % 10);
        assert forall|i: int| 0 <= i < s.len() implies is_digit(#[trigger] s[i]) by {
            if i < head.len() {
                assert(s[i] == head[i]);
            }
        }
    }
}

/// An integer that is written in decimal and read back is the same integer.
pub proof fn lemma_render_then_parse(n: i64)
    ensures
        parsed_i64(signed_decimal(n as int)) == Some(n),
{
    let s = signed_decimal(n as int);
    if n < 0 {
        let m = (-(n as int)) as nat;
        lemma_decimal_denotes(m);
        assert(s[0] == '-');
        assert(has_sign(s));
        assert(unsigned_part(s) =~= decimal(m));
    } else {
        let m = n as nat;
        lemma_decimal_denotes(m);
        assert(is_digit(s[0]));
        assert(!has_sign(s));
    }
}

/// Tells white space from other characters.
pub fn is_whitespace(c: char) -> (r: bool)
    ensures
        r == is_white_space(c),
{
    ('\u{9}' <= c && c <= '\u{d}') || c == ' ' || c == '\u{85}' || c == '\u{a0}' || c == '\u{1680}'
        || ('\u{2000}' <= c && c <= '\u{200a}') || c == '\u{2028}' || c == '\u{2029}' || c
        == '\u{202f}' || c == '\u{205f}' || c == '\u{3000}'
}

/// The white space at the end of a text stops short of any character of the
/// text that is no white space.
proof fn lemma_trailing_white_bounds(s: Seq<char>, k: int)
    requires
        0 <= k < s.len(),
        !is_white_space(s[k]),
    ensures
        0 <= trailing_white(s) < s.len() - k,
    decreases s.len(),
{
    if is_white_space(s.last()) {
        let rest = s.drop_last();
        assert(k < rest.len());
        assert(rest[k] == s[k]);
        lemma_trailing_white_bounds(rest, k);
    }
}

/// Removes the white space at the two ends of a text.
pub fn trim(s: &str) -> (r: String)
    ensures
        r@ == trimmed(s@),
{
    let n: usize = s.unicode_len();
    let mut start: usize = 0;
    assert(s@.subrange(0, n as int) =~= s@);
    while start < n && is_whitespace(s.get_char(start))
        invariant
            n == s@.len(),
            start <= n,
            leading_white(s@) == start + leading_white(s@.subrange(start as int, n as int)),
        decreases n - start,
    {
        let ghost rest = s@.subrange(start as int, n as int);
        assert(rest[0] == s@[start as int]);
        assert(rest.drop_first() =~= s@.subrange(start + 1, n as int));
        start = start + 1;
    }
    proof {
        let rest = s@.subrange(start as int, n as int);
        if start < n {
            assert(rest[0] == s@[start as int]);
        }
        assert(leading_white(rest) == 0);
    }
    if start == n {
        return String::new();
    }
    proof {
        lemma_trailing_white_bounds(s@, start as int);
    }
    let mut end: usize = n;
    assert(s@.subrange(0, n as int) =~= s@);
    while end > start + 1 && is_whitespace(s.get_char(end - 1))
        invariant
            n == s@.len(),
            start < end <= n,
            !is_white_space(s@[start as int]),
            trailing_white(s@) == (n - end) + trailing_white(s@.subrange(0, end as int)),
        decreases end,
    {
        let ghost head = s@.subrange(0, end as int);
        assert(head.last() == s@[end - 1]);
        assert(head.drop_last() =~= s@.subrange(0, end - 1));
        end = end - 1;
    }
    proof {
        let head = s@.subrange(0, end as int);
        assert(head.last() == s@[end - 1]);
        assert(trailing_white(head) == 0);
    }
    s.substring_char(start, end).to_owned()
}

} // verus!
