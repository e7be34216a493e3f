//! Small text utilities: string equality, decimal rendering.

use vstd::prelude::*;

verus! {

use vstd::string::StringExecFns;

/// Compares two string slices by contents.
pub fn str_eq(a: &str, b: &str) -> (r: bool)
    ensures
        r == (a@ == b@),
{
    let x = a.to_owned();
    let y = b.to_owned();
    x == y
}

/// The decimal digit character for a value below ten.
pub open spec fn dec_digit(d: nat) -> char {
    if d == 0 {
        '0'
    } else if d == 1 {
        '1'
    } else if d == 2 {
        '2'
    } else if d == 3 {
        '3'
    } else if d == 4 {
        '4'
    } else if d == 5 {
        '5'
    } else if d == 6 {
        '6'
    } else if d == 7 {
        '7'
    } else if d == 8 {
        '8'
    } else {
        '9'
    }
}

/// The decimal rendering of a number, most significant digit first.
pub open spec fn dec_of(n: nat) -> Seq<char>
    decreases n,
{
    if n < 10 {
        seq![dec_digit(n)]
    } else {
        dec_of(n / 10).push(dec_digit(n % 10))
    }
}

/// One decimal digit as a string slice.
fn digit_str(d: u64) -> (r: &'static str)
    requires
        d < 10,
    ensures
        r@ == seq![dec_digit(d as nat)],
{
    proof {
        reveal_strlit("0");
        reveal_strlit("1");
        reveal_strlit("2");
        reveal_strlit("3");
        reveal_strlit("4");
        reveal_strlit("5");
        reveal_strlit("6");
        reveal_strlit("7");
        reveal_strlit("8");
        reveal_strlit("9");
    }
    let r = if d == 0 {
        "0"
    } else if d == 1 {
        "1"
    } else if d == 2 {
        "2"
    } else if d == 3 {
        "3"
    } else if d == 4 {
        "4"
    } else if d == 5 {
        "5"
    } else if d == 6 {
        "6"
    } else if d == 7 {
        "7"
    } else if d == 8 {
        "8"
    } else {
        "9"
    };
    proof {
        assert(r@ =~= seq![dec_digit(d as nat)]);
    }
    r
}

/// Renders a number in decimal.
pub fn u64_to_dec(n: u64) -> (r: String)
    ensures
        r@ == dec_of(n as nat),
    decreases n,
{
    if n < 10 {
        digit_str(n).to_owned()
    } else {
        let mut s = u64_to_dec(n / 10);
        s.append(digit_str(n % 10));
        proof {
            assert(s@ =~= dec_of(n as nat));
        }
        s
    }
}

/// Renders a machine-word count in decimal.
pub fn usize_to_dec(n: usize) -> (r: String)
    ensures
        r@ == dec_of(n as nat),
{
    u64_to_dec(n as u64)
}

/// A decimal digit character.
pub open spec fn is_digit(c: char) -> bool {
    '0' <= c && c <= '9'
}

/// The value of a digit character.
pub open spec fn digit_of(c: char) -> nat
    recommends
        is_digit(c),
{
    (c as nat - '0' as nat) as nat
}

/// A non-empty, all-digit text.
pub open spec fn all_digits(s: Seq<char>) -> bool {
    s.len() > 0 && forall|i: int| 0 <= i < s.len() ==> is_digit(#[trigger] s[i])
}

/// The numeric value of a digit text.
pub open spec fn dec_val(s: Seq<char>) -> nat
    decreases s.len(),
{
    if s.len() == 0 {
        0
    } else {
        dec_val(s.drop_last()) * 10 + digit_of(s.last())
    }
}

/// Extending a digit text by one digit scales its value.
pub proof fn lemma_dec_val_take_step(s: Seq<char>, i: int)
    requires
        0 <= i < s.len(),
    ensures
        dec_val(s.take(i + 1)) == dec_val(s.take(i)) * 10 + digit_of(s[i]),
{
    assert(s.take(i + 1).drop_last() =~= s.take(i));
}

/// The word a digit text denotes, when it is non-empty, all digits, and in
/// range.
pub open spec fn spec_dec_u64(s: Seq<char>) -> Option<u64> {
    if all_digits(s) && dec_val(s) <= u64::MAX {
        Some(dec_val(s) as u64)
    } else {
        None
    }
}

/// Parses a decimal number: succeeds exactly on non-empty all-digit text
/// whose value fits the word.
pub fn parse_dec(t: &str) -> (r: Option<u64>)
    ensures
        r == spec_dec_u64(t@),
{
    let n = vstd::string::StrSliceExecFns::unicode_len(t);
    if n == 0 {
        return None;
    }
    let mut v: u64 = 0;
    let mut i: usize = 0;
    while i < n
        invariant
            i <= n,
            n == t@.len(),
            forall|j: int| 0 <= j < i ==> is_digit(#[trigger] t@[j]),
            v == dec_val(t@.take(i as int)),
        decreases n - i,
    {
        let c = vstd::string::StrSliceExecFns::get_char(t, i);
        if !(c >= '0' && c <= '9') {
            return None;
        }
        let d: u64 = (c as u32 as u64) - ('0' as u32 as u64);
        let wide: u128 = (v as u128) * 10 + (d as u128);
        proof {
            lemma_dec_val_take_step(t@, i as int);
            assert((v as u128) * 10 + (d as u128) == dec_val(t@.take(i as int)) * 10 + digit_of(
                t@[i as int],
            ));
        }
        if wide > u64::MAX as u128 {
            proof {
                if all_digits(t@) {
                    lemma_dec_val_prefix_monotone(t@, i as int + 1);
                }
            }
            return None;
        }
        v = wide as u64;
        i = i + 1;
    }
    proof {
        assert(t@.take(n as int) =~= t@);
    }
    Some(v)
}

/// The value of a digit text dominates the value of any of its prefixes.
pub proof fn lemma_dec_val_prefix_monotone(s: Seq<char>, i: int)
    requires
        0 <= i <= s.len(),
        forall|j: int| 0 <= j < s.len() ==> is_digit(#[trigger] s[j]),
    ensures
        dec_val(s.take(i)) <= dec_val(s),
    decreases s.len() - i,
{
    if i == s.len() {
        assert(s.take(i) =~= s);
    } else {
        lemma_dec_val_take_step(s, i);
        lemma_dec_val_prefix_monotone(s, i + 1);
    }
}

/// The digit text and nanosecond scale a duration token splits into:
/// trailing `ms`, `us` or `ns` scale by the unit, a trailing `s` means
/// seconds, anything else is a bare nanosecond count.
pub open spec fn duration_split(t: Seq<char>) -> (Seq<char>, nat) {
    if t.len() >= 2 && t[t.len() - 2] == 'm' && t[t.len() - 1] == 's' {
        (t.take(t.len() - 2), 1000000)
    } else if t.len() >= 2 && t[t.len() - 2] == 'u' && t[t.len() - 1] == 's' {
        (t.take(t.len() - 2), 1000)
    } else if t.len() >= 2 && t[t.len() - 2] == 'n' && t[t.len() - 1] == 's' {
        (t.take(t.len() - 2), 1)
    } else if t.len() >= 1 && t[t.len() - 1] == 's' {
        (t.take(t.len() - 1), 1000000000)
    } else {
        (t, 1)
    }
}

/// The nanosecond count a duration token denotes, when it is well formed
/// and fits the word.
pub open spec fn spec_duration_ns(t: Seq<char>) -> Option<u64> {
    let (digits, scale) = duration_split(t);
    if all_digits(digits) && dec_val(digits) * scale <= u64::MAX {
        Some((dec_val(digits) * scale) as u64)
    } else {
        None
    }
}

/// Parses a duration token (`10ms`, `1s`, `500us`, `250ns`, or a bare
/// nanosecond count).
pub fn parse_duration_ns(t: &str) -> (r: Option<u64>)
    ensures
        r == spec_duration_ns(t@),
{
    let n = vstd::string::StrSliceExecFns::unicode_len(t);
    let (digits, scale): (&str, u64) = if n >= 2 && vstd::string::StrSliceExecFns::get_char(
        t,
        n - 2,
    ) == 'm' && vstd::string::StrSliceExecFns::get_char(t, n - 1) == 's' {
        (vstd::string::StrSliceExecFns::substring_char(t, 0, n - 2), 1000000)
    } else if n >= 2 && vstd::string::StrSliceExecFns::get_char(t, n - 2) == 'u'
        && vstd::string::StrSliceExecFns::get_char(t, n - 1) == 's' {
        (vstd::string::StrSliceExecFns::substring_char(t, 0, n - 2), 1000)
    } else if n >= 2 && vstd::string::StrSliceExecFns::get_char(t, n - 2) == 'n'
        && vstd::string::StrSliceExecFns::get_char(t, n - 1) == 's' {
        (vstd::string::StrSliceExecFns::substring_char(t, 0, n - 2), 1)
    } else if n >= 1 && vstd::string::StrSliceExecFns::get_char(t, n - 1) == 's' {
        (vstd::string::StrSliceExecFns::substring_char(t, 0, n - 1), 1000000000)
    } else {
        (t, 1)
    };
    proof {
        assert(digits@ == duration_split(t@).0);
        assert(scale == duration_split(t@).1);
    }
    match parse_dec(digits) {
        Some(v) => {
            let wide: u128 = (v as u128) * (scale as u128);
            if wide > u64::MAX as u128 {
                None
            } else {
                Some(wide as u64)
            }
        },
        None => None,
    }
}

} // verus!
