//! Decimal integers: writing them out, and reading them back the way std's
//! `FromStr` for `i32` and `u64` does.

use vstd::prelude::*;
use crate::text::push_char;
use crate::text::chars_of;

verus! {

/// The character of the decimal digit `d`.
pub open spec fn digit_char(d: nat) -> char {
    (48 + d) as char
}

/// The decimal digits of `n`, most significant first, without leading zeros.
pub open spec fn decimal(n: nat) -> Seq<char>
    decreases n,
{
    if n < 10 {
        seq![digit_char(n)]
    } else {
        decimal(n / 10).push(digit_char(n % 10))
    }
}

/// The decimal digits of `n`, padded with a leading zero to at least two
/// characters (what `{:02}` prints).
pub open spec fn decimal_pad2(n: nat) -> Seq<char> {
    if n < 10 {
        seq!['0'].add(decimal(n))
    } else {
        decimal(n)
    }
}

/// The character of the decimal digit `d`.
fn digit_to_char(d: u64) -> (c: char)
    requires
        d < 10,
    ensures
        c == digit_char(d as nat),
{
    let b: u8 = 48u8 + (d as u8);
    b as char
}

/// Appends the decimal digits of `n` to `s`.
pub fn push_decimal(s: &mut String, n: u64)
    ensures
        final(s)@ == old(s)@ + decimal(n as nat),
    decreases n,
{
    if n >= 10 {
        push_decimal(s, n / 10);
    }
    push_char(s, digit_to_char(n % 10));
    assert(s@ =~= old(s)@ + decimal(n as nat));
}

/// Appends the decimal digits of `n` to `s`, zero-padded to two characters.
pub fn push_decimal_pad2(s: &mut String, n: u64)
    ensures
        final(s)@ == old(s)@ + decimal_pad2(n as nat),
{
    if n < 10 {
        push_char(s, '0');
    }
    push_decimal(s, n);
    assert(s@ =~= old(s)@ + decimal_pad2(n as nat));
}

/// The decimal digits of `n` as a string.
pub fn decimal_string(n: u64) -> (s: String)
    ensures
        s@ == decimal(n as nat),
{
    let mut s = String::new();
    push_decimal(&mut s, n);
    assert(s@ =~= decimal(n as nat));
    s
}

/// Why std refuses to read a string as an integer (the kinds of
/// `std::num::ParseIntError` that these types can produce).
#[derive(Clone, Copy, Debug, PartialEq, Eq)]
pub enum IntErrorKind {
    /// The string is empty.
    Empty,
    /// A character other than a digit (or a single leading sign) was found.
    InvalidDigit,
    /// The value is above the type's maximum.
    PosOverflow,
    /// The value is below the type's minimum.
    NegOverflow,
}

/// The text that std prints for an error of kind `k`.
pub open spec fn int_error_text(k: IntErrorKind) -> Seq<char> {
    match k {
        IntErrorKind::Empty => "cannot parse integer from empty string"@,
        IntErrorKind::InvalidDigit => "invalid digit found in string"@,
        IntErrorKind::PosOverflow => "number too large to fit in target type"@,
        IntErrorKind::NegOverflow => "number too small to fit in target type"@,
    }
}

impl IntErrorKind {
    /// The text that std prints for this error.
    pub fn message(&self) -> (r: String)
        ensures
            r@ == int_error_text(*self),
    {
        match self {
            IntErrorKind::Empty => String::from_str("cannot parse integer from empty string"),
            IntErrorKind::InvalidDigit => String::from_str("invalid digit found in string"),
            IntErrorKind::PosOverflow => String::from_str("number too large to fit in target type"),
            IntErrorKind::NegOverflow => String::from_str("number too small to fit in target type"),
        }
    }
}

/// `c` is one of `0`..`9`.
pub open spec fn is_digit(c: char) -> bool {
    '0' <= c && c <= '9'
}

/// The number written by the digits `s` (all of them assumed to be digits).
pub open spec fn digits_value(s: Seq<char>) -> nat
    decreases s.len(),
{
    if s.len() == 0 {
        0
    } else {
        digits_value(s.subrange(0, s.len() - 1)) * 10 + ((s[s.len() - 1] as u32) - 48) as nat
    }
}

/// How many digits `s` begins with.
pub open spec fn digit_run(s: Seq<char>) -> nat
    decreases s.len(),
{
    if s.len() > 0 && is_digit(s[0]) {
        1 + digit_run(s.subrange(1, s.len() as int))
    } else {
        0
    }
}

/// `s` with one leading `+` removed (and, when `signed`, one leading `-`).
pub open spec fn unsigned_body(s: Seq<char>, signed: bool) -> Seq<char> {
    if s.len() > 0 && (s[0] == '+' || (signed && s[0] == '-')) {
        s.subrange(1, s.len() as int)
    } else {
        s
    }
}

/// What std's `str::parse::<u64>` gives for the characters `s`: an optional
/// `+` then decimal digits. Digits are read from the left, so an overflow in
/// the leading digits is reported before a later stray character.
pub open spec fn parse_u64_spec(s: Seq<char>) -> Result<u64, IntErrorKind> {
    if s.len() == 0 {
        Err(IntErrorKind::Empty)
    } else if s.len() == 1 && (s[0] == '+' || s[0] == '-') {
        Err(IntErrorKind::InvalidDigit)
    } else {
        let body = unsigned_body(s, false);
        let k = digit_run(body);
        let v = digits_value(body.subrange(0, k as int));
        if v > u64::MAX {
            Err(IntErrorKind::PosOverflow)
        } else if k < body.len() {
            Err(IntErrorKind::InvalidDigit)
        } else {
            Ok(v as u64)
        }
    }
}

/// What std's `str::parse::<i32>` gives for the characters `s`: an optional
/// sign then decimal digits, read from the left as for `parse_u64_spec`.
pub open spec fn parse_i32_spec(s: Seq<char>) -> Result<i32, IntErrorKind> {
    if s.len() == 0 {
        Err(IntErrorKind::Empty)
    } else if s.len() == 1 && (s[0] == '+' || s[0] == '-') {
        Err(IntErrorKind::InvalidDigit)
    } else {
        let negative = s[0] == '-';
        let body = unsigned_body(s, true);
        let k = digit_run(body);
        let v = digits_value(body.subrange(0, k as int));
        if !negative && v > i32::MAX {
            Err(IntErrorKind::PosOverflow)
        } else if negative && v > 0x8000_0000 {
            Err(IntErrorKind::NegOverflow)
        } else if k < body.len() {
            Err(IntErrorKind::InvalidDigit)
        } else if negative {
            Ok((-v) as i32)
        } else {
            Ok(v as i32)
        }
    }
}

proof fn lemma_digit_run_bound(s: Seq<char>)
    ensures
        digit_run(s) <= s.len(),
    decreases s.len(),
{
    if s.len() > 0 && is_digit(s[0]) {
        lemma_digit_run_bound(s.subrange(1, s.len() as int));
    }
}

proof fn lemma_digit_run_at_least(s: Seq<char>, i: int)
    requires
        0 <= i <= s.len(),
        forall|j: int| 0 <= j < i ==> is_digit(s[j]),
    ensures
        digit_run(s) >= i,
    decreases i,
{
    if i > 0 {
        let t = s.subrange(1, s.len() as int);
        assert forall|j: int| 0 <= j < i - 1 implies is_digit(t[j]) by {
            assert(t[j] == s[j + 1]);
        }
        lemma_digit_run_at_least(t, i - 1);
    }
}

proof fn lemma_digit_run_exact(s: Seq<char>, i: int)
    requires
        0 <= i <= s.len(),
        forall|j: int| 0 <= j < i ==> is_digit(s[j]),
        i == s.len() || !is_digit(s[i]),
    ensures
        digit_run(s) == i,
    decreases i,
{
    if i > 0 {
        let t = s.subrange(1, s.len() as int);
        assert forall|j: int| 0 <= j < i - 1 implies is_digit(t[j]) by {
            assert(t[j] == s[j + 1]);
        }
        if i - 1 < t.len() {
            assert(t[i - 1] == s[i]);
        }
        lemma_digit_run_exact(t, i - 1);
    }
}

proof fn lemma_digits_value_monotone(s: Seq<char>, j: int, k: int)
    requires
        0 <= j <= k <= s.len(),
    ensures
        digits_value(s.subrange(0, j)) <= digits_value(s.subrange(0, k)),
    decreases k - j,
{
    if j < k {
        lemma_digits_value_monotone(s, j, k - 1);
        assert(s.subrange(0, k).subrange(0, k - 1) =~= s.subrange(0, k - 1));
    }
}

/// Reads the digits of `body` from the left, giving the value when it stays
/// within `limit`.
fn read_digits(body: &Vec<char>, start: usize, limit: u64) -> (r: Result<u64, IntErrorKind>)
    requires
        start <= body.len(),
    ensures
        ({
            let t = body@.subrange(start as int, body@.len() as int);
            let k = digit_run(t);
            let v = digits_value(t.subrange(0, k as int));
            match r {
                Ok(x) => v <= limit && k == t.len() && x == v,
                Err(e) => (e == IntErrorKind::PosOverflow && v > limit) || (e
                    == IntErrorKind::InvalidDigit && v <= limit && k < t.len()),
            }
        }),
{
    let ghost t = body@.subrange(start as int, body@.len() as int);
    let mut acc: u64 = 0;
    let mut i: usize = start;
    assert(t.subrange(0, 0) =~= Seq::<char>::empty());
    while i < body.len()
        invariant
            start <= i <= body.len(),
            t == body@.subrange(start as int, body@.len() as int),
            forall|j: int| 0 <= j < i - start ==> is_digit(t[j]),
            acc <= limit,
            acc == digits_value(t.subrange(0, i - start)),
        decreases body.len() - i,
    {
        let c = body[i];
        if c < '0' || c > '9' {
            proof {
                lemma_digit_run_exact(t, i - start);
            }
            return Err(IntErrorKind::InvalidDigit);
        }
        let d = ((c as u32) - 48) as u64;
        proof {
            assert(t.subrange(0, i - start + 1).subrange(0, i - start) =~= t.subrange(0, i - start));
            assert(t[i - start] == c);
        }
        let over = match acc.checked_mul(10) {
            Some(m) => match m.checked_add(d) {
                Some(x) => if x > limit { None } else { Some(x) },
                None => None,
            },
            None => None,
        };
        match over {
            Some(x) => {
                acc = x;
                i = i + 1;
            },
            None => {
                proof {
                    lemma_digit_run_at_least(t, i - start + 1);
                    lemma_digit_run_bound(t);
                    lemma_digits_value_monotone(t, i - start + 1, digit_run(t) as int);
                }
                return Err(IntErrorKind::PosOverflow);
            },
        }
    }
    proof {
        lemma_digit_run_exact(t, i - start);
    }
    Ok(acc)
}

/// Reads `s` as a `u64` the way std's `str::parse::<u64>` does.
pub fn parse_u64(s: &str) -> (r: Result<u64, IntErrorKind>)
    ensures
        r == parse_u64_spec(s@),
{
    let v = chars_of(s);
    if v.len() == 0 {
        return Err(IntErrorKind::Empty);
    }
    if v.len() == 1 && (v[0] == '+' || v[0] == '-') {
        return Err(IntErrorKind::InvalidDigit);
    }
    let start: usize = if v[0] == '+' { 1 } else { 0 };
    assert(v@.subrange(start as int, v@.len() as int) =~= unsigned_body(s@, false));
    read_digits(&v, start, u64::MAX)
}

/// Reads `s` as an `i32` the way std's `str::parse::<i32>` does.
pub fn parse_i32(s: &str) -> (r: Result<i32, IntErrorKind>)
    ensures
        r == parse_i32_spec(s@),
{
    let v = chars_of(s);
    if v.len() == 0 {
        return Err(IntErrorKind::Empty);
    }
    if v.len() == 1 && (v[0] == '+' || v[0] == '-') {
        return Err(IntErrorKind::InvalidDigit);
    }
    let negative = v[0] == '-';
    let start: usize = if v[0] == '+' || v[0] == '-' { 1 } else { 0 };
    assert(v@.subrange(start as int, v@.len() as int) =~= unsigned_body(s@, true));
    let limit: u64 = if negative { 0x8000_0000 } else { 0x7fff_ffff };
    match read_digits(&v, start, limit) {
        Ok(x) => {
            if negative {
                if x == 0x8000_0000 {
                    Ok(-2147483648i32)
                } else {
                    Ok(-(x as i32))
                }
            } else {
                Ok(x as i32)
            }
        },
        Err(IntErrorKind::PosOverflow) => {
            if negative {
                Err(IntErrorKind::NegOverflow)
            } else {
                Err(IntErrorKind::PosOverflow)
            }
        },
        Err(e) => Err(e),
    }
}

pub proof fn lemma_decimal_digits(n: nat)
    ensures
        decimal(n).len() >= 1,
        forall|i: int| 0 <= i < decimal(n).len() ==> is_digit(#[trigger] decimal(n)[i]),
        digits_value(decimal(n)) == n,
    decreases n,
{
    let d = n % 10;
    assert((digit_char(d) as u32) == 48 + d);
    if n < 10 {
        let t = decimal(n);
        assert(t.subrange(0, 0) =~= Seq::<char>::empty());
        assert(t[0] == digit_char(n));
        assert(digits_value(t) == digits_value(t.subrange(0, 0)) * 10 + ((t[0] as u32) - 48) as nat);
    } else {
        lemma_decimal_digits(n / 10);
        let s = decimal(n / 10);
        let t = decimal(n);
        assert(t.subrange(0, t.len() - 1) =~= s);
        assert(t[t.len() - 1] == digit_char(d));
        assert(digits_value(t) == digits_value(s) * 10 + ((t[t.len() - 1] as u32) - 48) as nat);
        assert(n == (n / 10) * 10 + d);
    }
}

/// Reading back what `decimal` writes gives the number again: for every
/// `u64`, and for every `i32` that is not negative.
pub proof fn law_decimal_parses_back(n: nat)
    ensures
        n <= u64::MAX ==> parse_u64_spec(decimal(n)) == Ok::<u64, IntErrorKind>(n as u64),
        n <= i32::MAX ==> parse_i32_spec(decimal(n)) == Ok::<i32, IntErrorKind>(n as i32),
{
    lemma_decimal_digits(n);
    let s = decimal(n);
    assert(!(s[0] == '+' || s[0] == '-')) by {
        assert(is_digit(s[0]));
    }
    assert(unsigned_body(s, false) == s);
    assert(unsigned_body(s, true) == s);
    lemma_digit_run_exact(s, s.len() as int);
    assert(s.subrange(0, s.len() as int) =~= s);
}

} // verus!
