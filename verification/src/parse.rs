//! Small verified text helpers for schedule definitions: string equality,
//! plain decimal numbers, a `HH:MM` time of day and a one-digit weekday.

use vstd::prelude::*;

verus! {

/// A decimal digit.
pub open spec fn is_digit(c: char) -> bool {
    '0' <= c && c <= '9'
}

/// The numeric value of one digit.
pub open spec fn digit_val(c: char) -> int {
    (c as u32) - ('0' as u32)
}

/// Every character a digit.
pub open spec fn all_digits(s: Seq<char>) -> bool {
    forall|i: int| 0 <= i < s.len() ==> is_digit(#[trigger] s[i])
}

/// The number a digit string denotes, most significant digit first.
pub open spec fn decimal_val(s: Seq<char>) -> int
    decreases s.len(),
{
    if s.len() == 0 {
        0
    } else {
        decimal_val(s.drop_last()) * 10 + digit_val(s.last())
    }
}

/// Powers of ten.
pub open spec fn pow10(n: nat) -> nat
    decreases n,
{
    if n == 0 {
        1
    } else {
        10 * pow10((n - 1) as nat)
    }
}

/// A digit string of length `n` denotes a number below `pow10(n)`.
pub proof fn lemma_decimal_val_bound(s: Seq<char>)
    requires
        all_digits(s),
    ensures
        0 <= decimal_val(s) < pow10(s.len()),
    decreases s.len(),
{
    if s.len() > 0 {
        assert(all_digits(s.drop_last()));
        lemma_decimal_val_bound(s.drop_last());
        assert(0 <= digit_val(s.last()) <= 9);
    }
}

/// `pow10` grows with its argument.
pub proof fn lemma_pow10_mono(m: nat, n: nat)
    requires
        m <= n,
    ensures
        pow10(m) <= pow10(n),
    decreases n,
{
    if m < n {
        lemma_pow10_mono(m, (n - 1) as nat);
    }
}

/// Character-for-character string equality.
pub fn str_eq(a: &str, b: &str) -> (r: bool)
    ensures
        r == (a@ == b@),
{
    let na = a.unicode_len();
    let nb = b.unicode_len();
    if na != nb {
        return false;
    }
    let mut i: usize = 0;
    while i < na
        invariant
            i <= na,
            na == a@.len(),
            na == b@.len(),
            forall|j: int| 0 <= j < i ==> a@[j] == b@[j],
        decreases na - i,
    {
        if a.get_char(i) != b.get_char(i) {
            return false;
        }
        i = i + 1;
    }
    proof {
        assert(a@ =~= b@);
    }
    true
}

/// Parse a plain decimal number of at most fifteen digits; anything
/// longer, empty, or holding a non-digit is rejected.
pub fn parse_decimal_u64(s: &str) -> (r: Option<u64>)
    ensures
        r is Some <==> (1 <= s@.len() <= 15 && all_digits(s@)),
        r is Some ==> r->0 == decimal_val(s@) && r->0 < pow10(15),
{
    let n = s.unicode_len();
    if n < 1 || n > 15 {
        return None;
    }
    let mut acc: u64 = 0;
    let mut i: usize = 0;
    while i < n
        invariant
            i <= n,
            1 <= n <= 15,
            n == s@.len(),
            all_digits(s@.take(i as int)),
            acc == decimal_val(s@.take(i as int)),
            acc < pow10(i as nat),
        decreases n - i,
    {
        let c = s.get_char(i);
        if c < '0' || c > '9' {
            return None;
        }
        let d: u64 = (c as u32 - '0' as u32) as u64;
        proof {
            assert(all_digits(s@.take(i + 1)));
            lemma_decimal_val_bound(s@.take(i + 1));
            lemma_pow10_mono((i + 1) as nat, 15nat);
            assert(pow10(15) == 1000000000000000) by {
                reveal_with_fuel(pow10, 16);
            }
            assert(s@.take(i + 1).drop_last() =~= s@.take(i as int));
            assert(s@.take(i + 1).last() == s@[i as int]);
        }
        acc = acc * 10 + d;
        i = i + 1;
    }
    proof {
        assert(s@.take(n as int) =~= s@);
        lemma_pow10_mono(n as nat, 15nat);
    }
    Some(acc)
}

/// A time of day written `HH:MM` on the twenty-four-hour clock.
pub open spec fn valid_clock_time(s: Seq<char>) -> bool {
    &&& s.len() == 5
    &&& s[2] == ':'
    &&& is_digit(s[0])
    &&& is_digit(s[1])
    &&& is_digit(s[3])
    &&& is_digit(s[4])
    &&& digit_val(s[0]) * 10 + digit_val(s[1]) < 24
    &&& digit_val(s[3]) * 10 + digit_val(s[4]) < 60
}

/// The second of the day a valid `HH:MM` denotes.
pub open spec fn clock_time_seconds(s: Seq<char>) -> int {
    (digit_val(s[0]) * 10 + digit_val(s[1])) * 3600 + (digit_val(s[3]) * 10 + digit_val(s[4]))
        * 60
}

/// Parse a `HH:MM` time of day into a second of the day.
pub fn parse_clock_time(s: &str) -> (r: Option<u64>)
    ensures
        r is Some <==> valid_clock_time(s@),
        r is Some ==> r->0 == clock_time_seconds(s@) && r->0 < 86400,
{
    let n = s.unicode_len();
    if n != 5 {
        return None;
    }
    if s.get_char(2) != ':' {
        return None;
    }
    let h1 = s.get_char(0);
    let h0 = s.get_char(1);
    let m1 = s.get_char(3);
    let m0 = s.get_char(4);
    if h1 < '0' || h1 > '9' || h0 < '0' || h0 > '9' || m1 < '0' || m1 > '9' || m0 < '0' || m0
        > '9' {
        return None;
    }
    let hours: u64 = ((h1 as u32 - '0' as u32) * 10 + (h0 as u32 - '0' as u32)) as u64;
    let minutes: u64 = ((m1 as u32 - '0' as u32) * 10 + (m0 as u32 - '0' as u32)) as u64;
    if hours >= 24 || minutes >= 60 {
        return None;
    }
    Some(hours * 3600 + minutes * 60)
}

/// A weekday written as one digit, `0` (Monday) through `6` (Sunday).
pub open spec fn valid_weekday(s: Seq<char>) -> bool {
    s.len() == 1 && '0' <= s[0] && s[0] <= '6'
}

/// Parse a one-digit weekday, `0` (Monday) through `6` (Sunday).
pub fn parse_weekday(s: &str) -> (r: Option<u64>)
    ensures
        r is Some <==> valid_weekday(s@),
        r is Some ==> r->0 == digit_val(s@[0]) && r->0 < 7,
{
    let n = s.unicode_len();
    if n != 1 {
        return None;
    }
    let c = s.get_char(0);
    if c < '0' || c > '6' {
        return None;
    }
    Some((c as u32 - '0' as u32) as u64)
}

} // verus!
