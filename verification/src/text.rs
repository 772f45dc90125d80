//! Small, fully specified text helpers: decimal rendering of integers,
//! prefix and character search, and ASCII-case-insensitive comparison.

use vstd::prelude::*;
use vstd::string::StringExecFns;
use vstd::string::StrSliceExecFns;

verus! {

/// The digit character for `d` (meaningful for `0 <= d <= 9`).
pub open spec fn dec_digit(d: int) -> char {
    if d == 0 {
        '0'
    } else if d == 1 {
        '1'
    } else if d == 2 {
        '2'
    } else if d == 3 {
        '3'
    } else if d == 4 {
        '4'
    } else if d == 5 {
        '5'
    } else if d == 6 {
        '6'
    } else if d == 7 {
        '7'
    } else if d == 8 {
        '8'
    } else {
        '9'
    }
}

/// The decimal rendering of a non-negative integer, most significant digit
/// first.
pub open spec fn spec_u64_string(n: int) -> Seq<char>
    decreases n,
{
    if n < 10 {
        seq![dec_digit(n)]
    } else {
        spec_u64_string(n / 10) + seq![dec_digit(n % 10)]
    }
}

/// The decimal rendering of a signed integer.
pub open spec fn spec_i64_string(n: int) -> Seq<char> {
    if n < 0 {
        seq!['-'] + spec_u64_string(-n)
    } else {
        spec_u64_string(n)
    }
}

fn digit_literal(d: u64) -> (r: &'static str)
    requires
        d < 10,
    ensures
        r@ == seq![dec_digit(d as int)],
{
    if d == 0 {
        proof {
            reveal_strlit("0");
            assert("0"@ =~= seq![dec_digit(0)]);
        }
        "0"
    } else if d == 1 {
        proof {
            reveal_strlit("1");
            assert("1"@ =~= seq![dec_digit(1)]);
        }
        "1"
    } else if d == 2 {
        proof {
            reveal_strlit("2");
            assert("2"@ =~= seq![dec_digit(2)]);
        }
        "2"
    } else if d == 3 {
        proof {
            reveal_strlit("3");
            assert("3"@ =~= seq![dec_digit(3)]);
        }
        "3"
    } else if d == 4 {
        proof {
            reveal_strlit("4");
            assert("4"@ =~= seq![dec_digit(4)]);
        }
        "4"
    } else if d == 5 {
        proof {
            reveal_strlit("5");
            assert("5"@ =~= seq![dec_digit(5)]);
        }
        "5"
    } else if d == 6 {
        proof {
            reveal_strlit("6");
            assert("6"@ =~= seq![dec_digit(6)]);
        }
        "6"
    } else if d == 7 {
        proof {
            reveal_strlit("7");
            assert("7"@ =~= seq![dec_digit(7)]);
        }
        "7"
    } else if d == 8 {
        proof {
            reveal_strlit("8");
            assert("8"@ =~= seq![dec_digit(8)]);
        }
        "8"
    } else {
        proof {
            reveal_strlit("9");
            assert("9"@ =~= seq![dec_digit(9)]);
        }
        "9"
    }
}

/// Append the decimal rendering of `n` to `out`.
pub fn append_u64_decimal(out: &mut String, n: u64)
    ensures
        final(out)@ == old(out)@ + spec_u64_string(n as int),
    decreases n,
{
    if n >= 10 {
        append_u64_decimal(out, n / 10);
        let d = digit_literal(n % 10);
        out.append(d);
        proof {
            assert(out@ =~= old(out)@ + spec_u64_string(n as int));
        }
    } else {
        let d = digit_literal(n);
        out.append(d);
        proof {
            assert(out@ =~= old(out)@ + spec_u64_string(n as int));
        }
    }
}

/// Append the decimal rendering of a signed `n` to `out`.
pub fn append_i64_decimal(out: &mut String, n: i64)
    ensures
        final(out)@ == old(out)@ + spec_i64_string(n as int),
{
    if n < 0 {
        proof {
            reveal_strlit("-");
        }
        out.append("-");
        let mag: u64 = if n == i64::MIN {
            9223372036854775808
        } else {
            (-n) as u64
        };
        proof {
            assert(mag as int == -(n as int));
        }
        append_u64_decimal(out, mag);
        proof {
            assert("-"@ =~= seq!['-']);
            assert(out@ =~= old(out)@ + spec_i64_string(n as int));
        }
    } else {
        append_u64_decimal(out, n as u64);
    }
}

/// Whether `c` is a decimal digit.
pub open spec fn is_digit(c: char) -> bool {
    48 <= c as u32 <= 57
}

/// The numeric value of a digit character.
pub open spec fn digit_value(c: char) -> int {
    c as u32 - 48
}

/// The value of a run of digit characters, most significant first.
pub open spec fn spec_digits_value(s: Seq<char>) -> int
    decreases s.len(),
{
    if s.len() == 0 {
        0
    } else {
        spec_digits_value(s.drop_last()) * 10 + digit_value(s.last())
    }
}

/// Whether every character of `s` is a decimal digit.
pub open spec fn all_digits(s: Seq<char>) -> bool {
    forall|i: int| 0 <= i < s.len() ==> is_digit(#[trigger] s[i])
}

/// The signed integer a text denotes: an optional sign, then at least one
/// digit, with the value within the range of `i64`; anything else denotes
/// nothing.
pub open spec fn spec_parse_i64(s: Seq<char>) -> Option<int> {
    let ds = if s.len() > 0 && (s[0] == '-' || s[0] == '+') {
        s.skip(1)
    } else {
        s
    };
    let neg = s.len() > 0 && s[0] == '-';
    if ds.len() == 0 || !all_digits(ds) {
        None
    } else {
        let v = if neg {
            -spec_digits_value(ds)
        } else {
            spec_digits_value(ds)
        };
        if i64::MIN <= v <= i64::MAX {
            Some(v)
        } else {
            None
        }
    }
}

/// The value `spec_parse_i64` gives, with `0` for a text that denotes
/// nothing.
pub open spec fn spec_parse_i64_or_zero(s: Seq<char>) -> int {
    match spec_parse_i64(s) {
        Some(v) => v,
        None => 0,
    }
}

proof fn lemma_digits_value_nonneg(s: Seq<char>)
    requires
        all_digits(s),
    ensures
        spec_digits_value(s) >= 0,
    decreases s.len(),
{
    if s.len() > 0 {
        lemma_digits_value_nonneg(s.drop_last());
    }
}

proof fn lemma_digits_value_grows(s: Seq<char>, i: int)
    requires
        all_digits(s),
        0 <= i <= s.len(),
    ensures
        spec_digits_value(s) >= spec_digits_value(s.take(i)),
    decreases s.len() - i,
{
    if i < s.len() {
        lemma_digits_value_grows(s, i + 1);
        assert(s.take(i + 1).drop_last() =~= s.take(i));
        assert(s.take(i + 1).last() == s[i]);
        lemma_digits_value_nonneg(s.take(i));
    } else {
        assert(s.take(i) =~= s);
    }
}

/// Parse a signed decimal integer, `0` for any text that does not denote
/// one.
pub fn parse_i64_or_zero(s: &str) -> (r: i64)
    ensures
        r as int == spec_parse_i64_or_zero(s@),
{
    let n = s.unicode_len();
    let ghost whole = s@;
    let mut start: usize = 0;
    let mut neg = false;
    if n > 0 {
        let c0 = s.get_char(0);
        if c0 == '-' {
            neg = true;
            start = 1;
        } else if c0 == '+' {
            start = 1;
        }
    }
    let ghost ds = if start == 1 { whole.skip(1) } else { whole };
    if start >= n {
        // No digits at all.
        return 0;
    }
    // The magnitude is accumulated exactly while it stays within bounds; a
    // magnitude beyond 2^63 can never denote an i64, whatever follows.
    let bound: u128 = 9223372036854775808;
    let mut acc: u128 = 0;
    let mut i: usize = start;
    while i < n
        invariant
            start <= i <= n,
            whole == s@,
            n as nat == whole.len(),
            start == 0 || start == 1,
            start < n,
            ds == (if start == 1 { whole.skip(1) } else { whole }),
            (start == 1) <==> (whole.len() > 0 && (whole[0] == '-' || whole[0] == '+')),
            neg <==> (whole.len() > 0 && whole[0] == '-'),
            bound == 9223372036854775808,
            all_digits(ds.take(i - start)),
            acc == spec_digits_value(ds.take(i - start)),
            acc <= 9223372036854775808,
        decreases n - i,
    {
        let c = s.get_char(i);
        let cv = c as u32;
        proof {
            assert(ds[i - start] == whole[i as int]);
        }
        if !(48 <= cv && cv <= 57) {
            // A non-digit: the text denotes nothing.
            proof {
                assert(!is_digit(ds[i - start]));
                assert(!all_digits(ds));
            }
            return 0;
        }
        let d: u128 = (cv - 48) as u128;
        proof {
            assert(is_digit(ds[i - start]));
            assert(ds.take(i + 1 - start).drop_last() =~= ds.take(i - start));
            assert(ds.take(i + 1 - start).last() == ds[i - start]);
            assert(digit_value(ds[i - start]) == d as int);
            assert forall|j: int| 0 <= j < i + 1 - start implies is_digit(
                #[trigger] ds.take(i + 1 - start)[j],
            ) by {
                if j < i - start {
                    assert(ds.take(i + 1 - start)[j] == ds.take(i - start)[j]);
                } else {
                    assert(ds.take(i + 1 - start)[j] == ds[i - start]);
                }
            }
        }
        acc = acc * 10 + d;
        i = i + 1;
        if acc > bound {
            // Too large for an i64 even before the remaining characters;
            // whether they are digits or not, the text denotes nothing.
            proof {
                assert(acc == spec_digits_value(ds.take(i - start)));
                if all_digits(ds) {
                    lemma_digits_value_grows(ds, i - start);
                    assert(ds.take(ds.len() as int) =~= ds);
                    assert(spec_digits_value(ds) >= acc);
                }
            }
            return 0;
        }
    }
    proof {
        assert(ds.take(ds.len() as int) =~= ds);
        assert(all_digits(ds));
        assert(acc == spec_digits_value(ds));
    }
    if neg {
        if acc == bound {
            i64::MIN
        } else {
            -((acc as u64) as i64)
        }
    } else {
        if acc >= bound {
            // Exactly 2^63: representable only as a negative value.
            return 0;
        }
        (acc as u64) as i64
    }
}

/// Whether two texts hold the same characters.
pub fn str_eq(a: &str, b: &str) -> (r: bool)
    ensures
        r == (a@ == b@),
{
    let x = a.to_owned();
    let y = b.to_owned();
    x == y
}

/// Whether `p` is a prefix of `s`.
pub open spec fn spec_has_prefix(s: Seq<char>, p: Seq<char>) -> bool {
    p.len() <= s.len() && forall|i: int| 0 <= i < p.len() ==> s[i] == p[i]
}

/// Whether the text `s` starts with `p`.
pub fn has_prefix(s: &str, p: &str) -> (r: bool)
    ensures
        r == spec_has_prefix(s@, p@),
{
    let sl = s.unicode_len();
    let pl = p.unicode_len();
    if pl > sl {
        return false;
    }
    let mut i: usize = 0;
    while i < pl
        invariant
            i <= pl,
            pl as nat == p@.len(),
            sl as nat == s@.len(),
            pl <= sl,
            forall|j: int| 0 <= j < i ==> s@[j] == p@[j],
        decreases pl - i,
    {
        if s.get_char(i) != p.get_char(i) {
            return false;
        }
        i = i + 1;
    }
    true
}

/// Whether the text `s` holds the character `c` anywhere.
pub fn contains_char(s: &str, c: char) -> (r: bool)
    ensures
        r == s@.contains(c),
{
    let n = s.unicode_len();
    let mut i: usize = 0;
    while i < n
        invariant
            i <= n,
            n as nat == s@.len(),
            forall|j: int| 0 <= j < i ==> s@[j] != c,
        decreases n - i,
    {
        if s.get_char(i) == c {
            proof {
                assert(s@[i as int] == c);
            }
            return true;
        }
        i = i + 1;
    }
    proof {
        assert(!s@.contains(c));
    }
    false
}

/// Two characters that match up to ASCII letter case, stated over their
/// scalar values.
pub open spec fn chars_eq_nocase(a: char, b: char) -> bool {
    ||| a as u32 == b as u32
    ||| (65 <= a as u32 <= 90 && b as u32 == a as u32 + 32)
    ||| (65 <= b as u32 <= 90 && a as u32 == b as u32 + 32)
}

/// Two texts equal up to ASCII letter case.
pub open spec fn spec_eq_nocase(s: Seq<char>, t: Seq<char>) -> bool {
    s.len() == t.len() && forall|i: int| 0 <= i < s.len() ==> chars_eq_nocase(s[i], t[i])
}

/// Compare `s` and `t`, treating ASCII letters case-insensitively.
pub fn eq_ignore_ascii_case(s: &str, t: &str) -> (r: bool)
    ensures
        r == spec_eq_nocase(s@, t@),
{
    let sl = s.unicode_len();
    let tl = t.unicode_len();
    if sl != tl {
        return false;
    }
    let mut i: usize = 0;
    while i < sl
        invariant
            i <= sl,
            sl as nat == s@.len(),
            tl as nat == t@.len(),
            sl == tl,
            forall|j: int| 0 <= j < i ==> chars_eq_nocase(s@[j], t@[j]),
        decreases sl - i,
    {
        let a = s.get_char(i) as u32;
        let b = t.get_char(i) as u32;
        let same = a == b || (65 <= a && a <= 90 && b == a + 32) || (65 <= b && b <= 90 && a == b
            + 32);
        if !same {
            return false;
        }
        i = i + 1;
    }
    true
}

} // verus!
