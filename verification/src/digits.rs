//! Strict base-10 integer text: the grammar `[+-]?[0-9]+`, its value, and
//! the verified parser and printer the engine uses for it.
//!
//! The `integer` filter accepts exactly the byte strings that the standard
//! signed-integer grammar accepts, with no leading or trailing slack. Bytes
//! outside ASCII never match the grammar, so parsing the raw bytes agrees
//! with decoding them (lossily or not) and parsing the text.

use vstd::prelude::*;

verus! {

use vstd::string::StringExecFns;

/// An ASCII decimal digit.
pub open spec fn is_ascii_digit(b: u8) -> bool {
    48 <= b <= 57
}

/// Every byte of `s` is an ASCII decimal digit.
pub open spec fn all_digits(s: Seq<u8>) -> bool {
    forall|i: int| 0 <= i < s.len() ==> is_ascii_digit(#[trigger] s[i])
}

/// The value of a digit sequence read in base 10.
pub open spec fn digits_value(s: Seq<u8>) -> int
    decreases s.len(),
{
    if s.len() == 0 {
        0
    } else {
        digits_value(s.drop_last()) * 10 + (s.last() - 48)
    }
}

/// The length of the optional leading sign of an integer text.
pub open spec fn sign_len(s: Seq<u8>) -> int {
    if s.len() > 0 && (s[0] == 43 || s[0] == 45) {
        1int
    } else {
        0int
    }
}

/// The digit part of an integer text: everything after the optional sign.
pub open spec fn int_digits(s: Seq<u8>) -> Seq<u8> {
    s.subrange(sign_len(s), s.len() as int)
}

/// `s` matches the strict signed decimal grammar `[+-]?[0-9]+`.
pub open spec fn is_int_text(s: Seq<u8>) -> bool {
    int_digits(s).len() > 0 && all_digits(int_digits(s))
}

/// The mathematical value of an integer text.
pub open spec fn int_text_value(s: Seq<u8>) -> int {
    if s.len() > 0 && s[0] == 45 {
        -digits_value(int_digits(s))
    } else {
        digits_value(int_digits(s))
    }
}

/// A digit sequence's value is never negative.
proof fn lemma_digits_value_nonneg(s: Seq<u8>)
    requires
        all_digits(s),
    ensures
        digits_value(s) >= 0,
    decreases s.len(),
{
    if s.len() > 0 {
        assert(all_digits(s.drop_last()));
        lemma_digits_value_nonneg(s.drop_last());
    }
}

/// Extending a digit sequence never lowers its value.
proof fn lemma_digits_value_prefix(s: Seq<u8>, k: int)
    requires
        all_digits(s),
        0 <= k <= s.len(),
    ensures
        digits_value(s.subrange(0, k)) <= digits_value(s),
    decreases s.len(),
{
    if k == s.len() {
        assert(s.subrange(0, k) =~= s);
    } else {
        let t = s.drop_last();
        assert(all_digits(t));
        assert(s.subrange(0, k) =~= t.subrange(0, k));
        lemma_digits_value_prefix(t, k);
        lemma_digits_value_nonneg(t);
    }
}

/// Parses the strict signed decimal grammar over raw bytes.
///
/// Returns the value exactly when the bytes match `[+-]?[0-9]+` and the
/// value fits in an `i64`; returns `None` otherwise. This is the behavior
/// of the standard signed 64-bit integer parse applied to the (lossily)
/// decoded text, since any byte that decodes to a non-ASCII-digit
/// character fails that parse as well.
pub fn parse_i64(s: &[u8]) -> (r: Option<i64>)
    ensures
        match r {
            Some(v) => is_int_text(s@) && v as int == int_text_value(s@),
            None => !(is_int_text(s@) && i64::MIN <= int_text_value(s@) <= i64::MAX),
        },
{
    let n: usize = s.len();
    if n == 0 {
        return None;
    }
    let negative: bool = s[0] == 45;
    let start: usize = if s[0] == 43 || s[0] == 45 {
        1
    } else {
        0
    };
    if start == n {
        // a bare sign has no digits
        assert(int_digits(s@).len() == 0);
        return None;
    }
    // the largest magnitude an i64 can hold, split for a linear overflow test
    let cap_head: u64 = 922337203685477580;
    let cap_last: u64 = if negative {
        8
    } else {
        7
    };
    let ghost limit: int = 9223372036854775800int + cap_last as int;
    let mut acc: u64 = 0;
    let mut i: usize = start;
    while i < n
        invariant
            start <= i <= n,
            n == s@.len(),
            start as int == sign_len(s@),
            start < n,
            negative == (s@[0] == 45),
            cap_head == 922337203685477580,
            cap_last == (if negative { 8u64 } else { 7u64 }),
            limit == 9223372036854775800int + cap_last as int,
            all_digits(s@.subrange(start as int, i as int)),
            acc as int == digits_value(s@.subrange(start as int, i as int)),
            acc as int <= limit,
        decreases n - i,
    {
        let b = s[i];
        if b < 48u8 || b > 57u8 {
            // grammar violation: this byte sits in the digit region
            assert(!is_int_text(s@)) by {
                assert(int_digits(s@)[i - sign_len(s@)] == b);
            }
            return None;
        }
        let d: u64 = (b - 48) as u64;
        if acc > cap_head || (acc == cap_head && d > cap_last) {
            // the value read so far already exceeds the i64 range, and
            // further digits can only raise it
            proof {
                let digits = int_digits(s@);
                if is_int_text(s@) {
                    let p = s@.subrange(start as int, i + 1);
                    assert(p =~= s@.subrange(start as int, i as int).push(b));
                    assert(p.drop_last() =~= s@.subrange(start as int, i as int));
                    assert(digits_value(p) == acc as int * 10 + d);
                    assert(p =~= digits.subrange(0, i + 1 - start));
                    lemma_digits_value_prefix(digits, i + 1 - start);
                    assert(digits_value(digits) > limit);
                    lemma_digits_value_nonneg(digits);
                }
            }
            return None;
        }
        proof {
            let p = s@.subrange(start as int, i + 1);
            assert(p =~= s@.subrange(start as int, i as int).push(b));
            assert(p.drop_last() =~= s@.subrange(start as int, i as int));
        }
        acc = acc * 10 + d;
        i = i + 1;
    }
    proof {
        assert(s@.subrange(start as int, n as int) =~= int_digits(s@));
    }
    if negative {
        if acc == 9223372036854775808 {
            Some(i64::MIN)
        } else {
            Some(-(acc as i64))
        }
    } else {
        Some(acc as i64)
    }
}

/// The decimal digit character for `d` (defined for 0 through 9).
pub open spec fn digit_char(d: int) -> char {
    if d == 0 {
        '0'
    } else if d == 1 {
        '1'
    } else if d == 2 {
        '2'
    } else if d == 3 {
        '3'
    } else if d == 4 {
        '4'
    } else if d == 5 {
        '5'
    } else if d == 6 {
        '6'
    } else if d == 7 {
        '7'
    } else if d == 8 {
        '8'
    } else {
        '9'
    }
}

/// The decimal rendering of a non-negative integer, no sign, no leading
/// zeros (except for zero itself).
pub open spec fn dec_of_nat(n: int) -> Seq<char>
    decreases n,
{
    if n < 10 {
        seq![digit_char(n)]
    } else {
        dec_of_nat(n / 10).push(digit_char(n % 10))
    }
}

/// The decimal rendering of a signed integer: a `-` sign for negative
/// values, then the magnitude.
pub open spec fn dec_of_int(v: int) -> Seq<char> {
    if v < 0 {
        seq!['-'] + dec_of_nat(-v)
    } else {
        dec_of_nat(v)
    }
}

/// The one-character string for a decimal digit.
fn digit_str(d: u64) -> (r: &'static str)
    requires
        d < 10,
    ensures
        r@ == seq![digit_char(d as int)],
{
    proof {
        reveal_strlit("0");
        reveal_strlit("1");
        reveal_strlit("2");
        reveal_strlit("3");
        reveal_strlit("4");
        reveal_strlit("5");
        reveal_strlit("6");
        reveal_strlit("7");
        reveal_strlit("8");
        reveal_strlit("9");
    }
    let r = if d == 0 {
        "0"
    } else if d == 1 {
        "1"
    } else if d == 2 {
        "2"
    } else if d == 3 {
        "3"
    } else if d == 4 {
        "4"
    } else if d == 5 {
        "5"
    } else if d == 6 {
        "6"
    } else if d == 7 {
        "7"
    } else if d == 8 {
        "8"
    } else {
        "9"
    };
    assert(r@ =~= seq![digit_char(d as int)]);
    r
}

/// Appends the decimal rendering of `n` to `out`.
fn push_dec_u64(n: u64, out: &mut String)
    ensures
        final(out)@ == old(out)@ + dec_of_nat(n as int),
    decreases n,
{
    if n < 10 {
        out.append(digit_str(n));
        assert(final(out)@ =~= old(out)@ + dec_of_nat(n as int));
    } else {
        assert(n / 10 < n) by (nonlinear_arith)
            requires
                n >= 10,
        ;
        push_dec_u64(n / 10, out);
        out.append(digit_str(n % 10));
        assert(final(out)@ =~= old(out)@ + dec_of_nat(n as int));
    }
}

/// Renders a signed 64-bit integer in decimal, exactly as the standard
/// integer formatting does.
pub fn i64_to_string(v: i64) -> (r: String)
    ensures
        r@ == dec_of_int(v as int),
{
    let mut out = String::new();
    if v >= 0 {
        push_dec_u64(v as u64, &mut out);
    } else {
        proof {
            reveal_strlit("-");
        }
        out.append("-");
        let mag: u64 = if v == i64::MIN {
            9223372036854775808
        } else {
            (-v) as u64
        };
        push_dec_u64(mag, &mut out);
        assert(out@ =~= dec_of_int(v as int));
    }
    out
}

} // verus!
