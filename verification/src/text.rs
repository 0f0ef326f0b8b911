//! Decimal text for unsigned integers: printing and parsing.
//!
//! Row ids travel as decimal strings (the strata IPC `key` field), so the two
//! directions must agree: parsing what was printed gives the number back.

use vstd::prelude::*;
use vstd::string::*;

verus! {

/// The character of a decimal digit `d` (`0 <= d < 10`).
pub open spec fn digit_char(d: int) -> char {
    if d == 0 { '0' }
    else if d == 1 { '1' }
    else if d == 2 { '2' }
    else if d == 3 { '3' }
    else if d == 4 { '4' }
    else if d == 5 { '5' }
    else if d == 6 { '6' }
    else if d == 7 { '7' }
    else if d == 8 { '8' }
    else { '9' }
}

/// Whether `c` is an ASCII decimal digit.
pub open spec fn is_digit(c: char) -> bool {
    '0' <= c && c <= '9'
}

/// The value of a decimal digit character.
pub open spec fn digit_value(c: char) -> int {
    c as int - '0' as int
}

/// Whether every character of `s` is a decimal digit.
pub open spec fn all_digits(s: Seq<char>) -> bool {
    forall|i: int| 0 <= i < s.len() ==> is_digit(#[trigger] s[i])
}

/// The number that a string of decimal digits denotes (most significant first).
pub open spec fn digits_value(s: Seq<char>) -> int
    decreases s.len(),
{
    if s.len() == 0 {
        0
    } else {
        digits_value(s.drop_last()) * 10 + digit_value(s.last())
    }
}

/// The shortest decimal text of `n`, without sign or leading zeros.
pub open spec fn decimal_chars(n: nat) -> Seq<char>
    decreases n,
{
    if n < 10 {
        seq![digit_char(n as int)]
    } else {
        decimal_chars(n / 10).push(digit_char((n % 10) as int))
    }
}

/// What `str::parse::<u64>` gives: an optional leading `+`, then one or more
/// decimal digits whose value fits in a `u64`; anything else is refused.
pub open spec fn parse_u64_spec(s: Seq<char>) -> Option<u64> {
    let digits = if s.len() > 0 && s[0] == '+' { s.drop_first() } else { s };
    if digits.len() == 0 || !all_digits(digits) || digits_value(digits) > u64::MAX {
        None
    } else {
        Some(digits_value(digits) as u64)
    }
}

/// Appends one character to a string.
///
/// Trusted: calls `String::push`, which std documents as appending the given
/// `char` to the end of the string.
#[verifier::external_body]
pub(crate) fn push_char(s: &mut String, c: char)
    ensures
        final(s)@ == old(s)@.push(c),
{
    s.push(c);
}

fn digit_to_char(d: u64) -> (c: char)
    requires
        d < 10,
    ensures
        c == digit_char(d as int),
{
    if d == 0 { '0' }
    else if d == 1 { '1' }
    else if d == 2 { '2' }
    else if d == 3 { '3' }
    else if d == 4 { '4' }
    else if d == 5 { '5' }
    else if d == 6 { '6' }
    else if d == 7 { '7' }
    else if d == 8 { '8' }
    else { '9' }
}

proof fn lemma_digit_char_is_digit(d: int)
    requires
        0 <= d < 10,
    ensures
        is_digit(digit_char(d)),
        digit_value(digit_char(d)) == d,
{
}

/// Every character of a decimal text is a digit, and the text denotes `n`.
pub proof fn lemma_decimal_chars_value(n: nat)
    ensures
        decimal_chars(n).len() >= 1,
        all_digits(decimal_chars(n)),
        digits_value(decimal_chars(n)) == n,
    decreases n,
{
    if n < 10 {
        lemma_digit_char_is_digit(n as int);
        let s = decimal_chars(n);
        assert(s.drop_last() =~= Seq::<char>::empty());
        assert(s.last() == digit_char(n as int));
        assert(digits_value(s.drop_last()) == 0);
    } else {
        lemma_decimal_chars_value(n / 10);
        lemma_digit_char_is_digit((n % 10) as int);
        let s = decimal_chars(n);
        assert(s.drop_last() =~= decimal_chars(n / 10));
        assert forall|i: int| 0 <= i < s.len() implies is_digit(#[trigger] s[i]) by {
            if i < s.len() - 1 {
                assert(s[i] == decimal_chars(n / 10)[i]);
            }
        }
    }
}

/// The text of `n` ends with the text of `n / 10` followed by the last digit.
proof fn lemma_decimal_chars_step(n: nat)
    requires
        n >= 10,
    ensures
        decimal_chars(n) == decimal_chars(n / 10).push(digit_char((n % 10) as int)),
{
}

/// Prints `n` in decimal, as `u64`'s `Display` does.
pub fn u64_to_decimal(n: u64) -> (s: String)
    ensures
        s@ == decimal_chars(n as nat),
{
    // collect digits least significant first
    let mut rev: Vec<char> = Vec::new();
    let mut m: u64 = n;
    let ghost mut divs: Seq<nat> = seq![n as nat];
    while m >= 10
        invariant
            rev.len() + 1 == divs.len(),
            divs[0] == n as nat,
            divs.last() == m as nat,
            forall|i: int| 0 <= i < rev.len() ==> #[trigger] divs[i] >= 10 && divs[i + 1] == divs[i] / 10,
            forall|i: int| #![auto] 0 <= i < rev.len() ==> rev@[i] == digit_char((divs[i] % 10) as int),
        decreases m,
    {
        let d = m % 10;
        let c = digit_to_char(d);
        proof {
            divs = divs.push((m / 10) as nat);
        }
        rev.push(c);
        m = m / 10;
    }
    // emit the leading digit, then the rest in reverse order of collection
    let mut s = String::new();
    push_char(&mut s, digit_to_char(m));
    let mut j: usize = rev.len();
    while j > 0
        invariant
            j <= rev.len(),
            rev.len() + 1 == divs.len(),
            divs[0] == n as nat,
            divs.last() == m as nat,
            m < 10,
            forall|i: int| 0 <= i < rev.len() ==> #[trigger] divs[i] >= 10 && divs[i + 1] == divs[i] / 10,
            forall|i: int| #![auto] 0 <= i < rev.len() ==> rev@[i] == digit_char((divs[i] % 10) as int),
            s@ == decimal_chars(divs[j as int]),
        decreases j,
    {
        j = j - 1;
        let c = rev[j];
        proof {
            lemma_decimal_chars_step(divs[j as int]);
        }
        push_char(&mut s, c);
    }
    s
}

/// Parses `s` as `str::parse::<u64>` does; `None` where std returns an error.
pub fn parse_u64(s: &str) -> (r: Option<u64>)
    ensures
        r == parse_u64_spec(s@),
{
    let len = s.unicode_len();
    let mut start: usize = 0;
    if len > 0 && s.get_char(0) == '+' {
        start = 1;
    }
    let ghost digits = if s@.len() > 0 && s@[0] == '+' { s@.drop_first() } else { s@ };
    assert(digits =~= s@.subrange(start as int, len as int));
    if start == len {
        return None;
    }
    let mut acc: u64 = 0;
    let mut i: usize = start;
    while i < len
        invariant
            start <= i <= len,
            len == s@.len(),
            start < len,
            digits =~= s@.subrange(start as int, len as int),
            digits == (if s@.len() > 0 && s@[0] == '+' { s@.drop_first() } else { s@ }),
            all_digits(s@.subrange(start as int, i as int)),
            acc as int == digits_value(s@.subrange(start as int, i as int)),
        decreases len - i,
    {
        let c = s.get_char(i);
        let ghost prefix = s@.subrange(start as int, i as int);
        let ghost next = s@.subrange(start as int, i + 1);
        assert(next.drop_last() =~= prefix);
        assert(next.last() == c);
        assert(digits[i - start] == c);
        if !('0' <= c && c <= '9') {
            assert(!is_digit(digits[i - start]));
            assert(!all_digits(digits));
            return None;
        }
        proof {
            lemma_digits_value_nonneg(prefix);
        }
        let d: u64 = (c as u32 - '0' as u32) as u64;
        assert(d as int == digit_value(c));
        match acc.checked_mul(10) {
            None => {
                proof {
                    if all_digits(digits) {
                        assert(next =~= digits.subrange(0, i + 1 - start));
                        lemma_digits_value_monotone(digits, i + 1 - start);
                    }
                }
                return None;
            },
            Some(t) => match t.checked_add(d) {
                None => {
                    proof {
                        if all_digits(digits) {
                            assert(next =~= digits.subrange(0, i + 1 - start));
                            lemma_digits_value_monotone(digits, i + 1 - start);
                        }
                    }
                    return None;
                },
                Some(v) => {
                    acc = v;
                },
            },
        }
        i = i + 1;
        assert forall|j: int| 0 <= j < next.len() implies is_digit(#[trigger] next[j]) by {
            if j < prefix.len() {
                assert(next[j] == prefix[j]);
            }
        }
    }
    assert(s@.subrange(start as int, len as int) =~= digits);
    Some(acc)
}

/// A prefix of a digit string never denotes more than the whole string.
proof fn lemma_digits_value_monotone(s: Seq<char>, k: int)
    requires
        0 <= k <= s.len(),
        all_digits(s),
    ensures
        digits_value(s.subrange(0, k)) <= digits_value(s),
    decreases s.len() - k,
{
    if k < s.len() {
        lemma_digits_value_monotone(s, k + 1);
        let a = s.subrange(0, k + 1);
        assert(a.drop_last() =~= s.subrange(0, k));
        assert(is_digit(s[k]));
        assert(digits_value(s.subrange(0, k)) >= 0) by {
            lemma_digits_value_nonneg(s.subrange(0, k));
        }
    } else {
        assert(s.subrange(0, k) =~= s);
    }
}

proof fn lemma_digits_value_nonneg(s: Seq<char>)
    requires
        all_digits(s),
    ensures
        digits_value(s) >= 0,
    decreases s.len(),
{
    if s.len() > 0 {
        assert(is_digit(s.last()));
        assert(all_digits(s.drop_last())) by {
            assert forall|i: int| 0 <= i < s.drop_last().len() implies is_digit(#[trigger] s.drop_last()[i]) by {
                assert(s.drop_last()[i] == s[i]);
            }
        }
        lemma_digits_value_nonneg(s.drop_last());
    }
}

/// Parsing the decimal text of a number gives the number back: a row id that
/// was stringified into an IPC key is recovered exactly from that key.
pub proof fn lemma_parse_decimal_roundtrip(n: u64)
    ensures
        parse_u64_spec(decimal_chars(n as nat)) == Some(n),
{
    lemma_decimal_chars_value(n as nat);
    let s = decimal_chars(n as nat);
    assert(is_digit(s[0]));
}

/// The decimal text of a signed number, with a leading `-` when negative, as
/// `i64`'s `Display` prints it.
pub open spec fn signed_decimal_chars(v: int) -> Seq<char> {
    if v < 0 {
        seq!['-'] + decimal_chars((-v) as nat)
    } else {
        decimal_chars(v as nat)
    }
}

/// Prints `v` in decimal, as `i64`'s `Display` does.
pub fn i64_to_decimal(v: i64) -> (s: String)
    ensures
        s@ == signed_decimal_chars(v as int),
{
    if v < 0 {
        let mag: u64 = ((-(v as i128)) as u64);
        let digits = u64_to_decimal(mag);
        let mut s = String::new();
        push_char(&mut s, '-');
        s.append(digits.as_str());
        s
    } else {
        u64_to_decimal(v as u64)
    }
}

/// Whether two strings hold the same characters.
pub fn str_eq(a: &str, b: &str) -> (r: bool)
    ensures
        r == (a@ == b@),
{
    let n = a.unicode_len();
    if n != b.unicode_len() {
        return false;
    }
    let mut i: usize = 0;
    while i < n
        invariant
            i <= n,
            n == a@.len(),
            n == b@.len(),
            a@.take(i as int) == b@.take(i as int),
        decreases n - i,
    {
        if a.get_char(i) != b.get_char(i) {
            assert(a@[i as int] != b@[i as int]);
            return false;
        }
        i = i + 1;
        assert(a@.take(i as int) =~= a@.take(i - 1).push(a@[i - 1]));
        assert(b@.take(i as int) =~= b@.take(i - 1).push(b@[i - 1]));
    }
    assert(a@ =~= a@.take(n as int));
    assert(b@ =~= b@.take(n as int));
    true
}

/// `a` followed by `b`, as a new string.
pub fn concat2(a: &str, b: &str) -> (s: String)
    ensures
        s@ == a@ + b@,
{
    let mut s = String::from_str(a);
    s.append(b);
    s
}

/// `a`, `b` and `c` one after another, as a new string.
pub fn concat3(a: &str, b: &str, c: &str) -> (s: String)
    ensures
        s@ == a@ + b@ + c@,
{
    let mut s = String::from_str(a);
    s.append(b);
    s.append(c);
    s
}

/// Five pieces one after another, as a new string.
pub fn concat5(a: &str, b: &str, c: &str, d: &str, e: &str) -> (s: String)
    ensures
        s@ == a@ + b@ + c@ + d@ + e@,
{
    let mut s = String::from_str(a);
    s.append(b);
    s.append(c);
    s.append(d);
    s.append(e);
    s
}

} // verus!
