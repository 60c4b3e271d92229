//! The decimal grammar that count and coordinate fields are read with, a
//! verified scanner for it, and decimal formatting of the truncated values.
//!
//! A count or coordinate field is accepted when, after an optional leading
//! `+` or `-`, it consists of decimal digits and at most one `.`, with at
//! least one digit.  The displayed value of a count is the digits before the
//! point read as an integer (truncation toward zero), capped at the largest
//! value a signed 32-bit counter can show.

use vstd::prelude::*;
use vstd::string::StrSliceExecFns;
use vstd::string::StringExecFns;

verus! {

/// Largest count that is ever displayed; larger counts saturate here.
pub const COUNT_DISPLAY_CAP: u64 = 2147483647;

pub open spec fn is_digit(c: char) -> bool {
    48 <= c as u32 <= 57
}

pub open spec fn digit_val(c: char) -> nat {
    (c as u32 - 48) as nat
}

/// The digit sequence read as a base-10 number; the empty sequence reads as 0.
pub open spec fn digits_val(s: Seq<char>) -> nat
    decreases s.len(),
{
    if s.len() == 0 {
        0
    } else {
        digits_val(s.drop_last()) * 10 + digit_val(s.last())
    }
}

/// The text after an optional leading sign.
pub open spec fn strip_sign(s: Seq<char>) -> Seq<char> {
    if s.len() > 0 && (s[0] == '+' || s[0] == '-') {
        s.drop_first()
    } else {
        s
    }
}

/// Digits and at most one point, with at least one digit.
pub open spec fn decimal_body(t: Seq<char>) -> bool {
    &&& forall|i: int| 0 <= i < t.len() ==> is_digit(t[i]) || t[i] == '.'
    &&& forall|i: int, j: int|
        0 <= i < t.len() && 0 <= j < t.len() && t[i] == '.' && t[j] == '.' ==> i == j
    &&& exists|i: int| 0 <= i < t.len() && is_digit(t[i])
}

/// Whether the whole text is an acceptable decimal numeral.
pub open spec fn decimal_text(s: Seq<char>) -> bool {
    decimal_body(strip_sign(s))
}

pub open spec fn decimal_negative(s: Seq<char>) -> bool {
    s.len() > 0 && s[0] == '-'
}

/// A decimal numeral denotes a value strictly greater than zero exactly when
/// it carries no minus sign and some digit other than zero.
pub open spec fn decimal_positive(s: Seq<char>) -> bool {
    &&& !decimal_negative(s)
    &&& exists|i: int|
        0 <= i < strip_sign(s).len() && is_digit(strip_sign(s)[i]) && strip_sign(s)[i] != '0'
}

/// The run of digits before the first non-digit.
pub open spec fn int_digits(t: Seq<char>) -> Seq<char>
    decreases t.len(),
{
    if t.len() == 0 || !is_digit(t[0]) {
        Seq::empty()
    } else {
        seq![t[0]] + int_digits(t.drop_first())
    }
}

pub open spec fn capped(n: nat) -> nat {
    if n > COUNT_DISPLAY_CAP as nat {
        COUNT_DISPLAY_CAP as nat
    } else {
        n
    }
}

/// The displayed (truncated, capped) value of a decimal numeral.
pub open spec fn decimal_display(s: Seq<char>) -> nat {
    capped(digits_val(int_digits(strip_sign(s))))
}

/// When the first `k` characters are digits and the text ends or continues
/// with a non-digit there, the digit run is exactly that prefix.
proof fn lemma_int_digits_prefix(t: Seq<char>, k: int)
    requires
        0 <= k <= t.len(),
        forall|j: int| 0 <= j < k ==> is_digit(t[j]),
        k == t.len() || !is_digit(t[k]),
    ensures
        int_digits(t) == t.take(k),
    decreases k,
{
    if k == 0 {
        assert(t.take(0) =~= Seq::<char>::empty());
    } else {
        lemma_int_digits_prefix(t.drop_first(), k - 1);
        assert(seq![t[0]] + t.drop_first().take(k - 1) =~= t.take(k));
    }
}

/// Scans a field: returns whether it is an acceptable decimal numeral,
/// whether it denotes a value strictly greater than zero, and its displayed
/// value.
pub fn scan_decimal(s: &str) -> (r: (bool, bool, u64))
    ensures
        r.0 == decimal_text(s@),
        r.0 ==> r.1 == decimal_positive(s@),
        r.0 && r.1 ==> r.2 as nat == decimal_display(s@),
{
    let n = s.unicode_len();
    let mut start: usize = 0;
    let mut neg = false;
    if n > 0 {
        let c0 = s.get_char(0);
        if c0 == '+' || c0 == '-' {
            start = 1;
            neg = c0 == '-';
        }
    }
    let ghost t = strip_sign(s@);
    proof {
        assert(t =~= s@.subrange(start as int, n as int));
    }
    let mut i: usize = start;
    let mut dot_seen = false;
    let mut digit_seen = false;
    let mut nonzero_seen = false;
    let mut val: u64 = 0;
    while i < n
        invariant
            start <= i <= n,
            n as nat == s@.len(),
            t == strip_sign(s@),
            t == s@.subrange(start as int, n as int),
            t.len() == n - start,
            neg == decimal_negative(s@),
            forall|j: int| 0 <= j < i - start ==> is_digit(t[j]) || t[j] == '.',
            forall|j: int, k: int|
                0 <= j < i - start && 0 <= k < i - start && t[j] == '.' && t[k] == '.' ==> j == k,
            dot_seen == exists|j: int| 0 <= j < i - start && t[j] == '.',
            digit_seen == exists|j: int| 0 <= j < i - start && is_digit(t[j]),
            nonzero_seen == exists|j: int| 0 <= j < i - start && is_digit(t[j]) && t[j] != '0',
            !dot_seen ==> forall|j: int| 0 <= j < i - start ==> is_digit(t[j]),
            !dot_seen ==> val as nat == capped(digits_val(t.take(i - start))),
            dot_seen ==> val as nat == capped(digits_val(int_digits(t))),
            val <= COUNT_DISPLAY_CAP,
        decreases n - i,
    {
        let c = s.get_char(i);
        proof {
            assert(t[i - start] == s@[i as int]);
        }
        let cv = c as u32;
        if 48 <= cv && cv <= 57 {
            if cv != 48 {
                nonzero_seen = true;
            }
            digit_seen = true;
            if !dot_seen {
                let d = (cv - 48) as u64;
                proof {
                    let j = i - start;
                    assert(t.take(j + 1).drop_last() =~= t.take(j));
                    assert(t.take(j + 1).last() == t[j]);
                    let dvo = digits_val(t.take(j));
                    assert(dvo * 10 >= dvo);
                }
                let nv = val * 10 + d;
                val = if nv > COUNT_DISPLAY_CAP {
                    COUNT_DISPLAY_CAP
                } else {
                    nv
                };
            }
        } else if c == '.' {
            if dot_seen {
                proof {
                    let j = choose|j: int| 0 <= j < i - start && t[j] == '.';
                    assert(t[i - start] == '.');
                    assert(!is_digit('.'));
                    assert(j != i - start);
                    assert(!decimal_body(t));
                }
                return (false, false, 0);
            }
            dot_seen = true;
            proof {
                lemma_int_digits_prefix(t, i - start);
            }
        } else {
            proof {
                assert(!is_digit(t[i - start]) && t[i - start] != '.');
                assert(!decimal_body(t));
            }
            return (false, false, 0);
        }
        i = i + 1;
    }
    if !digit_seen {
        return (false, false, 0);
    }
    proof {
        if !dot_seen {
            lemma_int_digits_prefix(t, t.len() as int);
            assert(t.take(t.len() as int) =~= t);
        }
    }
    (true, !neg && nonzero_seen, val)
}

pub open spec fn digit_char(d: nat) -> char {
    if d == 0 {
        '0'
    } else if d == 1 {
        '1'
    } else if d == 2 {
        '2'
    } else if d == 3 {
        '3'
    } else if d == 4 {
        '4'
    } else if d == 5 {
        '5'
    } else if d == 6 {
        '6'
    } else if d == 7 {
        '7'
    } else if d == 8 {
        '8'
    } else {
        '9'
    }
}

/// The usual base-10 numeral of `n`, most significant digit first.
pub open spec fn dec_rep(n: nat) -> Seq<char>
    decreases n,
{
    if n < 10 {
        seq![digit_char(n)]
    } else {
        dec_rep(n / 10).push(digit_char(n % 10))
    }
}

fn digit_str(d: u64) -> (r: &'static str)
    requires
        d < 10,
    ensures
        r@ == seq![digit_char(d as nat)],
{
    proof {
        reveal_strlit("0");
        reveal_strlit("1");
        reveal_strlit("2");
        reveal_strlit("3");
        reveal_strlit("4");
        reveal_strlit("5");
        reveal_strlit("6");
        reveal_strlit("7");
        reveal_strlit("8");
        reveal_strlit("9");
    }
    let r = if d == 0 {
        "0"
    } else if d == 1 {
        "1"
    } else if d == 2 {
        "2"
    } else if d == 3 {
        "3"
    } else if d == 4 {
        "4"
    } else if d == 5 {
        "5"
    } else if d == 6 {
        "6"
    } else if d == 7 {
        "7"
    } else if d == 8 {
        "8"
    } else {
        "9"
    };
    proof {
        assert(r@ =~= seq![digit_char(d as nat)]);
    }
    r
}

/// Formats `n` as its base-10 numeral.
pub fn to_decimal(n: u64) -> (r: String)
    ensures
        r@ == dec_rep(n as nat),
    decreases n,
{
    if n < 10 {
        digit_str(n).to_owned()
    } else {
        let mut s = to_decimal(n / 10);
        let d = digit_str(n % 10);
        s.append(d);
        proof {
            assert(s@ =~= dec_rep((n / 10) as nat).push(digit_char((n % 10) as nat)));
        }
        s
    }
}

} // verus!
