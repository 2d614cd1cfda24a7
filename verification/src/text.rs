//! Decimal numbers in text.
use vstd::prelude::*;
use vstd::utf8::{decode_utf8, encode_utf8, valid_utf8};

verus! {

/// Whether `c` is one of the ten ASCII digits.
pub open spec fn is_digit(c: char) -> bool {
    '0' <= c && c <= '9'
}

/// The number that a digit stands for.
pub open spec fn digit_value(c: char) -> nat {
    (c as int - '0' as int) as nat
}

/// How many digits `s` starts with.
pub open spec fn leading_digits(s: Seq<char>) -> nat
    decreases s.len(),
{
    if s.len() > 0 && is_digit(s[0]) {
        1 + leading_digits(s.drop_first())
    } else {
        0
    }
}

/// The number that a run of digits stands for.
pub open spec fn decimal_value(s: Seq<char>) -> nat
    decreases s.len(),
{
    if s.len() == 0 {
        0
    } else {
        10 * decimal_value(s.drop_last()) + digit_value(s.last())
    }
}

/// The number at the front of `s`, with how many characters it takes: all the leading digits.
/// There is none where `s` starts with no digit or the number is no `u64`.
pub open spec fn leading_u64(s: Seq<char>) -> Option<(u64, nat)> {
    let n = leading_digits(s);
    let value = decimal_value(s.take(n as int));
    if n == 0 || value > u64::MAX {
        None
    } else {
        Some((value as u64, n))
    }
}

/// The number that the whole of `s` stands for: digits, behind an optional plus sign.
pub open spec fn whole_u64(s: Seq<char>) -> Option<u64> {
    let digits = if s.len() > 0 && s[0] == '+' {
        s.drop_first()
    } else {
        s
    };
    match leading_u64(digits) {
        Some((value, n)) => if n == digits.len() {
            Some(value)
        } else {
            None
        },
        None => None,
    }
}

/// The digits of `n`, most significant first, with no leading zero.
pub open spec fn decimal(n: nat) -> Seq<char>
    decreases n,
{
    let last = ((n % 10) + '0' as int) as char;
    if n < 10 {
        seq![last]
    } else {
        decimal(n / 10).push(last)
    }
}

proof fn lemma_leading_digits(s: Seq<char>, n: int)
    requires
        0 <= n <= s.len(),
        forall|i: int| 0 <= i < n ==> is_digit(#[trigger] s[i]),
        n == s.len() || !is_digit(s[n]),
    ensures
        leading_digits(s) == n,
    decreases n,
{
    if n > 0 {
        assert(is_digit(s[0]));
        let rest = s.drop_first();
        assert forall|i: int| 0 <= i < n - 1 implies is_digit(#[trigger] rest[i]) by {
            assert(rest[i] == s[i + 1]);
        }
        if n < s.len() {
            assert(rest[n - 1] == s[n]);
        }
        lemma_leading_digits(rest, n - 1);
    }
}

proof fn lemma_prefix_value(s: Seq<char>, i: int, n: int)
    requires
        0 <= i <= n <= s.len(),
    ensures
        decimal_value(s.take(i)) <= decimal_value(s.take(n)),
    decreases n - i,
{
    if i < n {
        lemma_prefix_value(s, i, n - 1);
        assert(s.take(n).drop_last() =~= s.take(n - 1));
    }
}

proof fn lemma_decimal(n: nat)
    ensures
        decimal(n).len() > 0,
        forall|i: int| 0 <= i < decimal(n).len() ==> is_digit(#[trigger] decimal(n)[i]),
        decimal_value(decimal(n)) == n,
    decreases n,
{
    if n >= 10 {
        lemma_decimal(n / 10);
        assert(decimal(n).drop_last() =~= decimal(n / 10));
    } else {
        assert(decimal(n).drop_last() =~= Seq::empty());
        assert(decimal_value(Seq::<char>::empty()) == 0);
    }
}

/// The digits of a `u64`, behind any text that does not go on with a digit, read back as it.
pub proof fn law_leading_u64_reads_decimal(n: u64, rest: Seq<char>)
    requires
        rest.len() == 0 || !is_digit(rest[0]),
    ensures
        leading_u64(decimal(n as nat) + rest) == Some((n, decimal(n as nat).len())),
{
    let digits = decimal(n as nat);
    let s = digits + rest;
    lemma_decimal(n as nat);
    assert forall|i: int| 0 <= i < digits.len() implies is_digit(#[trigger] s[i]) by {
        assert(s[i] == digits[i]);
    }
    if rest.len() > 0 {
        assert(s[digits.len() as int] == rest[0]);
    }
    lemma_leading_digits(s, digits.len() as int);
    assert(s.take(digits.len() as int) =~= digits);
}

/// The digits of a `u64` read back as it.
pub proof fn law_whole_u64_reads_decimal(n: u64)
    ensures
        whole_u64(decimal(n as nat)) == Some(n),
{
    let digits = decimal(n as nat);
    lemma_decimal(n as nat);
    assert(is_digit(digits[0]));
    law_leading_u64_reads_decimal(n, Seq::empty());
    assert(digits + Seq::empty() =~= digits);
}

/// The characters of a string.
pub fn chars_of(s: &str) -> (r: Vec<char>)
    ensures
        r@ == s@,
{
    let mut r: Vec<char> = Vec::new();
    for c in it: s.chars()
        invariant
            it.seq() == s@,
            r@ == s@.take(it.index() as int),
    {
        r.push(c);
    }
    assert(s@.take(s@.len() as int) =~= s@);
    r
}

/// Calls `String::from_utf8`: the text that UTF-8 bytes encode, and nothing for other bytes.
#[verifier::external_body]
pub(crate) fn from_utf8(bytes: &[u8]) -> (r: Option<String>)
    ensures
        r is Some == valid_utf8(bytes@),
        r matches Some(text) ==> text@ == decode_utf8(bytes@),
{
    String::from_utf8(bytes.to_vec()).ok()
}

/// A text that goes over the wire as UTF-8 comes back as it was.
pub proof fn law_utf8_reads_back(text: Seq<char>)
    ensures
        valid_utf8(encode_utf8(text)),
        decode_utf8(encode_utf8(text)) == text,
{
    broadcast use {vstd::utf8::encode_utf8_valid_utf8, vstd::utf8::encode_utf8_decode_utf8};

}

/// Whether two strings hold the same text.
pub fn same_text(a: &str, b: &str) -> (r: bool)
    ensures
        r == (a@ == b@),
{
    a.to_owned() == b.to_owned()
}

/// Reads the number that starts at `from`, with the place behind it.
pub fn read_u64(s: &Vec<char>, from: usize) -> (r: Option<(u64, usize)>)
    requires
        from <= s@.len(),
    ensures
        match leading_u64(s@.skip(from as int)) {
            Some((value, n)) => r == Some((value, (from + n) as usize)) && from + n <= s@.len(),
            None => r is None,
        },
{
    let ghost rest = s@.skip(from as int);
    let ghost mut n: int = 0;
    let mut value: u64 = 0;
    let mut at: usize = from;
    while at < s.len() && '0' <= s[at] && s[at] <= '9'
        invariant
            from <= at <= s@.len(),
            rest == s@.skip(from as int),
            n == at - from,
            forall|i: int| 0 <= i < n ==> is_digit(#[trigger] rest[i]),
            value == decimal_value(rest.take(n)),
        decreases s@.len() - at,
    {
        let digit: u64 = (s[at] as u32 - '0' as u32) as u64;
        proof {
            assert(rest[n] == s@[at as int]);
            assert(rest.take(n + 1).drop_last() =~= rest.take(n));
        }
        if value > (u64::MAX - digit) / 10 {
            proof {
                let all = leading_digits(rest) as int;
                lemma_digits_run(rest);
                if all < n + 1 {
                    assert(is_digit(rest[all]));
                }
                lemma_prefix_value(rest, n + 1, all);
            }
            return None;
        }
        value = value * 10 + digit;
        at = at + 1;
        proof {
            n = n + 1;
        }
    }
    proof {
        if n < rest.len() {
            assert(rest[n] == s@[at as int]);
        }
        lemma_leading_digits(rest, n);
    }
    if at == from {
        return None;
    }
    Some((value, at))
}

proof fn lemma_digits_run(s: Seq<char>)
    ensures
        leading_digits(s) <= s.len(),
        forall|i: int| 0 <= i < leading_digits(s) ==> is_digit(#[trigger] s[i]),
        leading_digits(s) == s.len() || !is_digit(s[leading_digits(s) as int]),
    decreases s.len(),
{
    if s.len() > 0 && is_digit(s[0]) {
        let rest = s.drop_first();
        lemma_digits_run(rest);
        assert forall|i: int| 0 <= i < leading_digits(s) implies is_digit(#[trigger] s[i]) by {
            if i > 0 {
                assert(rest[i - 1] == s[i]);
            }
        }
        if leading_digits(s) < s.len() {
            assert(s[leading_digits(s) as int] == rest[leading_digits(rest) as int]);
        }
    }
}

/// Reads the number that the whole text stands for.
pub fn parse_u64(input: &str) -> (r: Option<u64>)
    ensures
        r == whole_u64(input@),
{
    let s = chars_of(input);
    let from: usize = if s.len() > 0 && s[0] == '+' {
        1
    } else {
        0
    };
    proof {
        if from == 1 {
            assert(s@.skip(1) =~= input@.drop_first());
        } else {
            assert(s@.skip(0) =~= input@);
        }
    }
    match read_u64(&s, from) {
        Some((value, end)) => if end == s.len() {
            Some(value)
        } else {
            None
        },
        None => None,
    }
}

} // verus!
