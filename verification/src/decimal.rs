//! Decimal reading and writing of the two numeric line fields.
//!
//! The line grammar carries an unsigned 64-bit timestamp and a signed 64-bit
//! event code in decimal text. Reading follows the shape `std`'s integer
//! parsing accepts: one optional sign (`+` for the unsigned field, `+` or `-`
//! for the signed one), then one or more ASCII digits, and failure on any
//! other character or on a value out of range. Writing produces the plain
//! decimal form with no sign for non-negative values and a leading `-`
//! otherwise.

use vstd::prelude::*;

verus! {

/// Whether `c` is an ASCII decimal digit.
pub open spec fn is_digit_char(c: char) -> bool {
    48 <= c as u32 <= 57
}

/// The numeric value of a digit character.
pub open spec fn digit_val(c: char) -> int {
    c as u32 - 48
}

/// The digit character for a value below ten.
pub open spec fn digit_char(d: int) -> char {
    if d == 0 {
        '0'
    } else if d == 1 {
        '1'
    } else if d == 2 {
        '2'
    } else if d == 3 {
        '3'
    } else if d == 4 {
        '4'
    } else if d == 5 {
        '5'
    } else if d == 6 {
        '6'
    } else if d == 7 {
        '7'
    } else if d == 8 {
        '8'
    } else {
        '9'
    }
}

/// Whether every character of `s` is an ASCII decimal digit.
pub open spec fn all_digits(s: Seq<char>) -> bool {
    forall|i: int| 0 <= i < s.len() ==> is_digit_char(#[trigger] s[i])
}

/// The value of a digit string, most significant digit first.
pub open spec fn dec_val(s: Seq<char>) -> int
    decreases s.len(),
{
    if s.len() == 0 {
        0
    } else {
        dec_val(s.drop_last()) * 10 + digit_val(s.last())
    }
}

/// The decimal digit string of a non-negative value.
pub open spec fn dec_str(n: int) -> Seq<char>
    decreases n,
{
    if n < 10 {
        seq![digit_char(n)]
    } else {
        dec_str(n / 10).push(digit_char(n % 10))
    }
}

/// The decimal string of a signed value: a `-` before the magnitude for
/// negative values, the bare magnitude otherwise.
pub open spec fn i64_str(v: int) -> Seq<char> {
    if v < 0 {
        seq!['-'] + dec_str(-v)
    } else {
        dec_str(v)
    }
}

/// What parsing a run of digits yields: the value, if the run is non-empty,
/// all digits, and within the unsigned 64-bit range.
pub open spec fn parse_digits_spec(body: Seq<char>) -> Option<u64> {
    if body.len() > 0 && all_digits(body) && dec_val(body) <= u64::MAX {
        Some(dec_val(body) as u64)
    } else {
        None
    }
}

/// What parsing an unsigned 64-bit decimal field yields: an optional `+`,
/// then digits.
pub open spec fn parse_u64_spec(s: Seq<char>) -> Option<u64> {
    let body = if s.len() > 0 && s[0] == '+' {
        s.drop_first()
    } else {
        s
    };
    parse_digits_spec(body)
}

/// What parsing a signed 64-bit decimal field yields: an optional sign, then
/// digits, within the signed 64-bit range.
pub open spec fn parse_i64_spec(s: Seq<char>) -> Option<i64> {
    let neg = s.len() > 0 && s[0] == '-';
    let body = if s.len() > 0 && (s[0] == '-' || s[0] == '+') {
        s.drop_first()
    } else {
        s
    };
    if body.len() > 0 && all_digits(body) {
        let v = if neg {
            -dec_val(body)
        } else {
            dec_val(body)
        };
        if i64::MIN <= v <= i64::MAX {
            Some(v as i64)
        } else {
            None
        }
    } else {
        None
    }
}

/// The value of a digit string is non-negative and grows (weakly) with every
/// digit appended, so a prefix never exceeds the whole.
pub proof fn lemma_dec_val_prefix(s: Seq<char>, k: int)
    requires
        all_digits(s),
        0 <= k <= s.len(),
    ensures
        0 <= dec_val(s.subrange(0, k)) <= dec_val(s),
    decreases s.len() - k,
{
    if k == s.len() {
        assert(s.subrange(0, k) =~= s);
        lemma_dec_val_nonneg(s);
    } else {
        lemma_dec_val_prefix(s, k + 1);
        let t = s.subrange(0, k + 1);
        assert(t.drop_last() =~= s.subrange(0, k));
        assert(is_digit_char(s[k]));
        lemma_dec_val_nonneg(s.subrange(0, k));
        assert(dec_val(t) == dec_val(s.subrange(0, k)) * 10 + digit_val(s[k]));
        assert(dec_val(s.subrange(0, k)) * 10 >= dec_val(s.subrange(0, k))) by (nonlinear_arith)
            requires
                dec_val(s.subrange(0, k)) >= 0,
        ;
    }
}

/// The value of a digit string is non-negative.
pub proof fn lemma_dec_val_nonneg(s: Seq<char>)
    requires
        all_digits(s),
    ensures
        dec_val(s) >= 0,
    decreases s.len(),
{
    if s.len() > 0 {
        assert(all_digits(s.drop_last())) by {
            assert(forall|i: int|
                0 <= i < s.len() - 1 ==> #[trigger] s.drop_last()[i] == s[i]);
        }
        lemma_dec_val_nonneg(s.drop_last());
        assert(is_digit_char(s.last()));
        assert(dec_val(s.drop_last()) * 10 >= 0) by (nonlinear_arith)
            requires
                dec_val(s.drop_last()) >= 0,
        ;
    }
}

/// The digit string of a non-negative value is non-empty, holds digits only,
/// starts with a digit other than a sign, and reads back as that value.
pub proof fn lemma_dec_str_ok(n: int)
    requires
        0 <= n,
    ensures
        dec_str(n).len() >= 1,
        all_digits(dec_str(n)),
        dec_val(dec_str(n)) == n,
    decreases n,
{
    if n < 10 {
        assert(dec_str(n) =~= seq![digit_char(n)]);
        assert(dec_val(dec_str(n)) == dec_val(seq![digit_char(n)].drop_last()) * 10 + digit_val(
            digit_char(n),
        ));
        assert(seq![digit_char(n)].drop_last() =~= Seq::<char>::empty());
    } else {
        lemma_dec_str_ok(n / 10);
        let s = dec_str(n);
        assert(s =~= dec_str(n / 10).push(digit_char(n % 10)));
        assert(s.drop_last() =~= dec_str(n / 10));
        assert(0 <= n % 10 < 10);
        assert(digit_val(digit_char(n % 10)) == n % 10);
        assert(all_digits(s)) by {
            assert(forall|i: int|
                0 <= i < s.len() - 1 ==> #[trigger] s[i] == dec_str(n / 10)[i]);
            assert(is_digit_char(digit_char(n % 10)));
        }
        assert(dec_val(s) == (n / 10) * 10 + n % 10);
        assert((n / 10) * 10 + n % 10 == n) by (nonlinear_arith)
            requires
                n >= 0,
        ;
    }
}

/// Reading back what writing produced: the digit string of `n` parses as `n`
/// for every value an unsigned 64-bit field can hold.
pub proof fn lemma_parse_u64_dec_str(n: u64)
    ensures
        parse_u64_spec(dec_str(n as int)) == Some(n),
{
    lemma_dec_str_ok(n as int);
    let s = dec_str(n as int);
    assert(is_digit_char(s[0]));
    assert(s[0] != '+');
}

/// Reading back what writing produced: the signed decimal string of `v`
/// parses as `v` for every signed 64-bit value.
pub proof fn lemma_parse_i64_i64_str(v: i64)
    ensures
        parse_i64_spec(i64_str(v as int)) == Some(v),
{
    let s = i64_str(v as int);
    if v < 0 {
        lemma_dec_str_ok(-(v as int));
        assert(s[0] == '-');
        assert(s.drop_first() =~= dec_str(-(v as int)));
    } else {
        lemma_dec_str_ok(v as int);
        assert(is_digit_char(s[0]));
        assert(s[0] != '-' && s[0] != '+');
    }
}

/// No decimal string holds a separator or a line break: it is digits and at
/// most one leading sign.
pub proof fn lemma_i64_str_chars(v: int)
    ensures
        forall|i: int|
            0 <= i < i64_str(v).len() ==> (#[trigger] i64_str(v)[i] == '-' || is_digit_char(
                i64_str(v)[i],
            )),
{
    if v < 0 {
        lemma_dec_str_ok(-v);
        assert(forall|i: int|
            1 <= i < i64_str(v).len() ==> #[trigger] i64_str(v)[i] == dec_str(-v)[i - 1]);
    } else if v >= 0 {
        lemma_dec_str_ok(v);
    }
}

/// The digit string for a value below ten, as text.
fn digit_str(d: u64) -> (r: &'static str)
    requires
        d < 10,
    ensures
        r@ =~= seq![digit_char(d as int)],
{
    proof {
        reveal_strlit("0");
        reveal_strlit("1");
        reveal_strlit("2");
        reveal_strlit("3");
        reveal_strlit("4");
        reveal_strlit("5");
        reveal_strlit("6");
        reveal_strlit("7");
        reveal_strlit("8");
        reveal_strlit("9");
    }
    if d == 0 {
        "0"
    } else if d == 1 {
        "1"
    } else if d == 2 {
        "2"
    } else if d == 3 {
        "3"
    } else if d == 4 {
        "4"
    } else if d == 5 {
        "5"
    } else if d == 6 {
        "6"
    } else if d == 7 {
        "7"
    } else if d == 8 {
        "8"
    } else {
        "9"
    }
}

/// Writes an unsigned 64-bit value in decimal.
pub fn u64_to_string(v: u64) -> (r: String)
    ensures
        r@ == dec_str(v as int),
    decreases v,
{
    let d = v % 10;
    let ds = digit_str(d);
    if v < 10 {
        String::from_str(ds)
    } else {
        let s = u64_to_string(v / 10);
        proof {
            assert(s@.push(digit_char(d as int)) =~= s@ + ds@);
        }
        s.concat(ds)
    }
}

/// Writes a signed 64-bit value in decimal, with a `-` for negative values.
pub fn i64_to_string(v: i64) -> (r: String)
    ensures
        r@ == i64_str(v as int),
{
    if v >= 0 {
        u64_to_string(v as u64)
    } else {
        let mag: u64 = if v == i64::MIN {
            9223372036854775808u64
        } else {
            (-v) as u64
        };
        let s = String::from_str("-");
        let tail = u64_to_string(mag);
        proof {
            reveal_strlit("-");
            assert(seq!['-'] + dec_str(mag as int) =~= "-"@ + tail@);
        }
        s.concat(tail.as_str())
    }
}

/// Reads a run of ASCII digits from `start` to the end of `s` as an unsigned
/// 64-bit value; fails on a non-digit or a value out of range.
fn parse_digits(s: &str, start: usize, n: usize) -> (r: Option<u64>)
    requires
        start <= n,
        n == s@.len(),
    ensures
        r == parse_digits_spec(s@.subrange(start as int, n as int)),
{
    let ghost body = s@.subrange(start as int, n as int);
    if start == n {
        return None;
    }
    let mut acc: u64 = 0;
    let mut i = start;
    while i < n
        invariant
            start <= i <= n,
            n == s@.len(),
            body == s@.subrange(start as int, n as int),
            all_digits(s@.subrange(start as int, i as int)),
            acc == dec_val(s@.subrange(start as int, i as int)),
        decreases n - i,
    {
        let c = s.get_char(i);
        let cu = c as u32;
        proof {
            assert(body[i - start] == s@[i as int]);
        }
        if cu < 48 || cu > 57 {
            // A non-digit inside the run: the whole run is rejected.
            return None;
        }
        let d = (cu - 48) as u64;
        let ghost prefix = s@.subrange(start as int, i as int);
        let ghost prefix1 = s@.subrange(start as int, i as int + 1);
        proof {
            assert(prefix1.drop_last() =~= prefix);
            assert(prefix1.last() == s@[i as int]);
            assert(all_digits(prefix1)) by {
                assert(forall|j: int| 0 <= j < prefix1.len() ==> prefix1[j] == body[j]);
            }
        }
        let step = match acc.checked_mul(10) {
            Some(m) => m.checked_add(d),
            None => None,
        };
        match step {
            Some(x) => {
                acc = x;
            },
            None => {
                // The run so far already exceeds the range; a longer run can
                // only be larger, so the whole run is rejected.
                proof {
                    assert(dec_val(prefix1) > u64::MAX);
                    if all_digits(body) {
                        lemma_dec_val_prefix(body, i - start + 1);
                        assert(body.subrange(0, i - start + 1) =~= prefix1);
                    }
                }
                return None;
            },
        }
        i = i + 1;
    }
    proof {
        assert(s@.subrange(start as int, i as int) =~= body);
    }
    Some(acc)
}

/// Reads an unsigned 64-bit decimal field, as the timestamp field of a line
/// is read: an optional `+`, then digits.
pub fn parse_u64(s: &str) -> (r: Option<u64>)
    ensures
        r == parse_u64_spec(s@),
{
    let n = s.unicode_len();
    let start: usize = if n > 0 && s.get_char(0) == '+' {
        1
    } else {
        0
    };
    proof {
        if n > 0 && s@[0] == '+' {
            assert(s@.drop_first() =~= s@.subrange(1, n as int));
        } else {
            assert(s@ =~= s@.subrange(0, n as int));
        }
    }
    parse_digits(s, start, n)
}

/// Reads a signed 64-bit decimal field, as the event-code field of a line is
/// read: an optional sign, then digits.
pub fn parse_i64(s: &str) -> (r: Option<i64>)
    ensures
        r == parse_i64_spec(s@),
{
    let n = s.unicode_len();
    let mut neg = false;
    let mut start: usize = 0;
    if n > 0 {
        let c0 = s.get_char(0);
        if c0 == '-' {
            neg = true;
            start = 1;
        } else if c0 == '+' {
            start = 1;
        }
    }
    let ghost body = if s@.len() > 0 && (s@[0] == '-' || s@[0] == '+') {
        s@.drop_first()
    } else {
        s@
    };
    proof {
        if start == 1 {
            assert(body =~= s@.subrange(1, n as int));
        } else {
            assert(body =~= s@.subrange(0, n as int));
        }
    }
    let mag = match parse_digits(s, start, n) {
        Some(m) => {
            proof {
                lemma_dec_val_nonneg(body);
            }
            m
        },
        None => {
            proof {
                if body.len() > 0 && all_digits(body) {
                    lemma_dec_val_nonneg(body);
                    assert(dec_val(body) > u64::MAX);
                }
            }
            return None;
        },
    };
    if neg {
        if mag <= 9223372036854775807u64 {
            Some(-(mag as i64))
        } else if mag == 9223372036854775808u64 {
            Some(i64::MIN)
        } else {
            None
        }
    } else {
        if mag <= 9223372036854775807u64 {
            Some(mag as i64)
        } else {
            None
        }
    }
}

} // verus!
