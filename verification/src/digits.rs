//! Decimal text for machine integers: rendering `u64`/`i64` values in their
//! canonical form, and parsing an unsigned decimal the way the runtime's
//! delay flag is read (an optional leading `+`, then decimal digits).

use vstd::prelude::*;
use vstd::string::StringExecFns;

verus! {

/// The decimal digit character for `d`.
pub open spec fn digit_char(d: nat) -> char {
    if d == 0 {
        '0'
    } else if d == 1 {
        '1'
    } else if d == 2 {
        '2'
    } else if d == 3 {
        '3'
    } else if d == 4 {
        '4'
    } else if d == 5 {
        '5'
    } else if d == 6 {
        '6'
    } else if d == 7 {
        '7'
    } else if d == 8 {
        '8'
    } else {
        '9'
    }
}

/// The canonical decimal rendering of `n`: no sign, no leading zero except
/// for the number zero itself.
pub open spec fn dec_str(n: nat) -> Seq<char>
    decreases n,
{
    if n < 10 {
        seq![digit_char(n)]
    } else {
        dec_str(n / 10).push(digit_char(n % 10))
    }
}

/// The canonical decimal rendering of a signed value: a `-` before the
/// magnitude for negative values.
pub open spec fn int_str(v: int) -> Seq<char> {
    if v >= 0 {
        dec_str(v as nat)
    } else {
        seq!['-'] + dec_str((-v) as nat)
    }
}

/// The one-character string for decimal digit `d`.
fn digit_str(d: u64) -> (s: &'static str)
    requires
        d < 10,
    ensures
        s@ == seq![digit_char(d as nat)],
{
    if d == 0 {
        proof {
            reveal_strlit("0");
            assert("0"@ =~= seq![digit_char(0)]);
        }
        "0"
    } else if d == 1 {
        proof {
            reveal_strlit("1");
            assert("1"@ =~= seq![digit_char(1)]);
        }
        "1"
    } else if d == 2 {
        proof {
            reveal_strlit("2");
            assert("2"@ =~= seq![digit_char(2)]);
        }
        "2"
    } else if d == 3 {
        proof {
            reveal_strlit("3");
            assert("3"@ =~= seq![digit_char(3)]);
        }
        "3"
    } else if d == 4 {
        proof {
            reveal_strlit("4");
            assert("4"@ =~= seq![digit_char(4)]);
        }
        "4"
    } else if d == 5 {
        proof {
            reveal_strlit("5");
            assert("5"@ =~= seq![digit_char(5)]);
        }
        "5"
    } else if d == 6 {
        proof {
            reveal_strlit("6");
            assert("6"@ =~= seq![digit_char(6)]);
        }
        "6"
    } else if d == 7 {
        proof {
            reveal_strlit("7");
            assert("7"@ =~= seq![digit_char(7)]);
        }
        "7"
    } else if d == 8 {
        proof {
            reveal_strlit("8");
            assert("8"@ =~= seq![digit_char(8)]);
        }
        "8"
    } else {
        proof {
            reveal_strlit("9");
            assert("9"@ =~= seq![digit_char(9)]);
        }
        "9"
    }
}

/// Appends the decimal rendering of `n` to `out`.
fn push_dec(n: u64, out: &mut String)
    ensures
        final(out)@ == old(out)@ + dec_str(n as nat),
    decreases n,
{
    if n >= 10 {
        push_dec(n / 10, out);
    }
    let d = digit_str(n % 10);
    out.append(d);
    proof {
        if n < 10 {
            assert(old(out)@ + seq![digit_char(n as nat)] =~= old(out)@ + dec_str(n as nat));
        } else {
            assert((old(out)@ + dec_str((n / 10) as nat)) + seq![digit_char((n % 10) as nat)]
                =~= old(out)@ + dec_str(n as nat));
        }
    }
}

/// The decimal text of `n`.
pub fn format_u64(n: u64) -> (s: String)
    ensures
        s@ == dec_str(n as nat),
{
    let mut s = String::new();
    push_dec(n, &mut s);
    proof {
        assert(Seq::<char>::empty() + dec_str(n as nat) =~= dec_str(n as nat));
    }
    s
}

/// The decimal text of `v`, with a leading `-` for negative values.
pub fn format_i64(v: i64) -> (s: String)
    ensures
        s@ == int_str(v as int),
{
    if v >= 0 {
        format_u64(v as u64)
    } else {
        let mut s = String::new();
        s.append("-");
        // `-(v + 1)` stays in range even for the smallest value.
        let magnitude: u64 = (-(v + 1)) as u64 + 1;
        assert(magnitude == -(v as int));
        push_dec(magnitude, &mut s);
        proof {
            reveal_strlit("-");
            assert((Seq::<char>::empty() + "-"@) + dec_str(magnitude as nat) =~= int_str(
                v as int,
            ));
        }
        s
    }
}

/// The textual form of `b`: `true` or `false`.
pub fn format_bool(b: bool) -> (s: String)
    ensures
        b ==> s@ == "true"@,
        !b ==> s@ == "false"@,
{
    if b {
        "true".to_owned()
    } else {
        "false".to_owned()
    }
}

/// Why a string was rejected as an unsigned decimal number.
#[derive(Copy, Debug, Clone, PartialEq, Eq, Structural)]
pub enum IntParseError {
    /// The string was empty.
    Empty,
    /// A character was not a decimal digit.
    InvalidDigit,
    /// The value does not fit in the target type.
    PosOverflow,
}

/// Whether `c` is a decimal digit.
pub open spec fn is_dec_digit(c: char) -> bool {
    48 <= c as int <= 57
}

/// The value of decimal digit `c`.
pub open spec fn digit_val(c: char) -> nat {
    (c as int - 48) as nat
}

/// One left-to-right scan step over decimal digits, as the standard unsigned
/// parser performs it: the first non-digit rejects the string, and an
/// accumulated value beyond the target range rejects it as overflow, in
/// whichever order the scan meets them.
pub open spec fn scan_digits(s: Seq<char>, acc: u64) -> Result<u64, IntParseError>
    decreases s.len(),
{
    if s.len() == 0 {
        Ok(acc)
    } else if !is_dec_digit(s[0]) {
        Err(IntParseError::InvalidDigit)
    } else if acc * 10 + digit_val(s[0]) > u64::MAX {
        Err(IntParseError::PosOverflow)
    } else {
        scan_digits(s.skip(1), (acc * 10 + digit_val(s[0])) as u64)
    }
}

/// The digits of an unsigned decimal string: everything after one optional
/// leading `+`.
pub open spec fn unsigned_body(s: Seq<char>) -> Seq<char> {
    if s.len() > 0 && s[0] == '+' {
        s.skip(1)
    } else {
        s
    }
}

/// What parsing `s` as a `u64` returns, mirroring the standard library's
/// unsigned integer parser on this input class.
pub open spec fn spec_parse_u64(s: Seq<char>) -> Result<u64, IntParseError> {
    if s.len() == 0 {
        Err(IntParseError::Empty)
    } else if unsigned_body(s).len() == 0 {
        Err(IntParseError::InvalidDigit)
    } else {
        scan_digits(unsigned_body(s), 0)
    }
}

/// A digit's character carries the digit's value.
proof fn lemma_digit_char_val(d: nat)
    requires
        d < 10,
    ensures
        is_dec_digit(digit_char(d)),
        digit_val(digit_char(d)) == d,
{
}

/// Every decimal rendering starts with a digit.
proof fn lemma_dec_str_starts_with_digit(n: nat)
    ensures
        dec_str(n).len() >= 1,
        is_dec_digit(dec_str(n)[0]),
    decreases n,
{
    if n >= 10 {
        lemma_dec_str_starts_with_digit(n / 10);
    }
}

/// Scanning a concatenation continues from where the first part's scan
/// succeeded.
proof fn lemma_scan_digits_append(s1: Seq<char>, s2: Seq<char>, acc: u64)
    requires
        scan_digits(s1, acc) is Ok,
    ensures
        scan_digits(s1 + s2, acc) == scan_digits(s2, scan_digits(s1, acc).unwrap()),
    decreases s1.len(),
{
    if s1.len() == 0 {
        assert(s1 + s2 =~= s2);
    } else {
        let next = (acc * 10 + digit_val(s1[0])) as u64;
        assert((s1 + s2)[0] == s1[0]);
        assert((s1 + s2).skip(1) =~= s1.skip(1) + s2);
        lemma_scan_digits_append(s1.skip(1), s2, next);
    }
}

/// The scan of a canonical rendering recovers the value.
proof fn lemma_scan_dec_str(n: u64)
    ensures
        scan_digits(dec_str(n as nat), 0) == Ok::<u64, IntParseError>(n),
    decreases n,
{
    if n < 10 {
        lemma_digit_char_val(n as nat);
        let s = dec_str(n as nat);
        assert(s == seq![digit_char(n as nat)]);
        assert(s[0] == digit_char(n as nat));
        assert(s.len() == 1);
        assert(is_dec_digit(s[0]));
        assert(0 * 10 + digit_val(s[0]) == n);
        assert(s.skip(1) =~= Seq::<char>::empty());
        assert(scan_digits(s.skip(1), n) == Ok::<u64, IntParseError>(n));
        assert(scan_digits(s, 0) == scan_digits(s.skip(1), n));
    } else {
        lemma_scan_dec_str(n / 10);
        lemma_digit_char_val((n % 10) as nat);
        let head = dec_str((n / 10) as nat);
        let tail = seq![digit_char((n % 10) as nat)];
        assert(dec_str(n as nat) =~= head + tail);
        lemma_scan_digits_append(head, tail, 0);
        assert(tail.skip(1) =~= Seq::<char>::empty());
        assert((n / 10) * 10 + (n % 10) == n);
        assert(tail[0] == digit_char((n % 10) as nat));
        assert(is_dec_digit(tail[0]));
        assert((n / 10) * 10 + digit_val(tail[0]) == n);
        assert(scan_digits(tail.skip(1), n) == Ok::<u64, IntParseError>(n));
        assert(scan_digits(tail, n / 10) == scan_digits(tail.skip(1), n));
        assert(scan_digits(tail, n / 10) == Ok::<u64, IntParseError>(n));
    }
}

/// Law: rendering and parsing cohere — the canonical decimal text of any
/// value parses back to exactly that value.
pub proof fn lemma_parse_format_round_trip(n: u64)
    ensures
        spec_parse_u64(dec_str(n as nat)) == Ok::<u64, IntParseError>(n),
{
    lemma_dec_str_starts_with_digit(n as nat);
    assert(dec_str(n as nat)[0] != '+');
    lemma_scan_dec_str(n);
}

/// Parses `s` as an unsigned 64-bit decimal number: an optional leading `+`,
/// then one or more decimal digits whose value fits the type.
pub fn parse_u64(s: &str) -> (r: Result<u64, IntParseError>)
    ensures
        r == spec_parse_u64(s@),
{
    let n = s.unicode_len();
    if n == 0 {
        return Err(IntParseError::Empty);
    }
    let first = s.get_char(0);
    let start: usize = if first == '+' {
        1
    } else {
        0
    };
    if n == start {
        return Err(IntParseError::InvalidDigit);
    }
    proof {
        if start == 0 {
            assert(unsigned_body(s@) == s@);
            assert(s@.skip(0) =~= s@);
        }
    }
    let mut acc: u64 = 0;
    let mut i: usize = start;
    while i < n
        invariant
            start <= i <= n,
            n == s@.len(),
            spec_parse_u64(s@) == scan_digits(s@.skip(i as int), acc),
        decreases n - i,
    {
        let c = s.get_char(i);
        let u = c as u32;
        proof {
            assert(s@.skip(i as int)[0] == s@[i as int]);
        }
        if u < 48 || u > 57 {
            return Err(IntParseError::InvalidDigit);
        }
        let d = (u - 48) as u64;
        proof {
            assert(d == digit_val(s@[i as int]));
        }
        if acc > (u64::MAX - d) / 10 {
            proof {
                assert(acc * 10 + d > u64::MAX) by (nonlinear_arith)
                    requires
                        d < 10,
                        acc > (u64::MAX - d) / 10,
                ;
            }
            return Err(IntParseError::PosOverflow);
        }
        proof {
            assert(acc * 10 + d <= u64::MAX) by (nonlinear_arith)
                requires
                    d < 10,
                    acc <= (u64::MAX - d) / 10,
            ;
        }
        acc = acc * 10 + d;
        i = i + 1;
        proof {
            assert(s@.skip(i - 1).skip(1) =~= s@.skip(i as int));
        }
    }
    proof {
        assert(s@.skip(n as int) =~= Seq::<char>::empty());
    }
    Ok(acc)
}

} // verus!
