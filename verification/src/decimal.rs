//! Decimal text for 32-bit signed integers.
//!
//! User ids travel through the session cookie as decimal text: they are
//! written with `format_i32` when a user logs in and read back with
//! `parse_i32` on every later request.  Both follow the standard library's
//! conventions for `i32` (`to_string` and `str::parse::<i32>`).
use vstd::prelude::*;
use vstd::string::*;

verus! {

/// Whether `c` is one of the ASCII digits `0` to `9`.
pub open spec fn is_digit_char(c: char) -> bool {
    48 <= (c as int) && (c as int) <= 57
}

/// The numeric value of an ASCII digit.
pub open spec fn digit_value(c: char) -> int {
    (c as int) - 48
}

/// The ASCII digit for a value in `0..10`.
pub open spec fn digit_char(d: int) -> char {
    if d == 0 {
        '0'
    } else if d == 1 {
        '1'
    } else if d == 2 {
        '2'
    } else if d == 3 {
        '3'
    } else if d == 4 {
        '4'
    } else if d == 5 {
        '5'
    } else if d == 6 {
        '6'
    } else if d == 7 {
        '7'
    } else if d == 8 {
        '8'
    } else {
        '9'
    }
}

/// Every character of `s` is an ASCII digit.
pub open spec fn all_digits(s: Seq<char>) -> bool {
    forall|i: int| 0 <= i < s.len() ==> is_digit_char(#[trigger] s[i])
}

/// The value of a string of digits read in base ten (0 for the empty string).
pub open spec fn digits_value(s: Seq<char>) -> int
    decreases s.len(),
{
    if s.len() == 0 {
        0
    } else {
        10 * digits_value(s.drop_last()) + digit_value(s.last())
    }
}

/// What `str::parse::<i32>` gives for `s`: an optional sign (`+` or `-`)
/// followed by one or more ASCII digits whose value fits in an `i32`;
/// anything else is refused.
pub open spec fn parse_i32_spec(s: Seq<char>) -> Option<i32> {
    let negative = s.len() > 0 && s[0] == '-';
    let signed = s.len() > 0 && (s[0] == '-' || s[0] == '+');
    let body = if signed {
        s.drop_first()
    } else {
        s
    };
    if body.len() == 0 || !all_digits(body) {
        None
    } else {
        let v = if negative {
            -digits_value(body)
        } else {
            digits_value(body)
        };
        if i32::MIN <= v && v <= i32::MAX {
            Some(v as i32)
        } else {
            None
        }
    }
}

/// The shortest decimal digits of a natural number.
pub open spec fn nat_digits(m: nat) -> Seq<char>
    decreases m,
{
    if m < 10 {
        seq![digit_char(m as int)]
    } else {
        nat_digits(m / 10) + seq![digit_char((m % 10) as int)]
    }
}

/// What `i32::to_string` gives: a `-` for negative numbers, then the
/// digits of the magnitude without leading zeros.
pub open spec fn decimal_i32(n: i32) -> Seq<char> {
    if n < 0 {
        seq!['-'] + nat_digits((-n) as nat)
    } else {
        nat_digits(n as nat)
    }
}

proof fn lemma_digit_char(d: int)
    requires
        0 <= d < 10,
    ensures
        is_digit_char(digit_char(d)),
        digit_value(digit_char(d)) == d,
{
}

proof fn lemma_nat_digits(m: nat)
    ensures
        nat_digits(m).len() >= 1,
        all_digits(nat_digits(m)),
        digits_value(nat_digits(m)) == m,
    decreases m,
{
    if m < 10 {
        lemma_digit_char(m as int);
        assert(nat_digits(m).drop_last() =~= Seq::<char>::empty());
        assert(digits_value(Seq::<char>::empty()) == 0);
    } else {
        lemma_nat_digits(m / 10);
        lemma_digit_char((m % 10) as int);
        let s = nat_digits(m);
        assert(s.drop_last() =~= nat_digits(m / 10));
        assert(s.last() == digit_char((m % 10) as int));
        assert(digits_value(s) == 10 * digits_value(nat_digits(m / 10)) + (m % 10));
        assert(m == 10 * (m / 10) + m % 10);
        assert forall|i: int| 0 <= i < s.len() implies is_digit_char(#[trigger] s[i]) by {
            if i < s.len() - 1 {
                assert(s[i] == nat_digits(m / 10)[i]);
            }
        }
    }
}

/// Reading back the decimal text of an `i32` gives the same number.
pub proof fn lemma_parse_decimal_roundtrip(n: i32)
    ensures
        parse_i32_spec(decimal_i32(n)) == Some(n),
{
    let s = decimal_i32(n);
    if n < 0 {
        let m = (-n) as nat;
        lemma_nat_digits(m);
        assert(s.drop_first() =~= nat_digits(m));
    } else {
        lemma_nat_digits(n as nat);
        let d = nat_digits(n as nat);
        assert(is_digit_char(d[0]));
    }
}

/// Leading zero digits do not change a value.
proof fn lemma_leading_zero(s: Seq<char>)
    ensures
        digits_value(seq!['0'] + s) == digits_value(s),
    decreases s.len(),
{
    let t = seq!['0'] + s;
    if s.len() == 0 {
        assert(t.drop_last() =~= Seq::<char>::empty());
        assert(digits_value(Seq::<char>::empty()) == 0);
        assert(t.last() == '0');
        assert(digits_value(s) == 0);
    } else {
        assert(t.drop_last() =~= seq!['0'] + s.drop_last());
        assert(t.last() == s.last());
        lemma_leading_zero(s.drop_last());
    }
}

proof fn lemma_nat_digits_no_leading_zero(m: nat)
    ensures
        nat_digits(m).len() > 1 ==> nat_digits(m)[0] != '0',
        m > 0 ==> nat_digits(m)[0] != '0',
    decreases m,
{
    if m >= 10 {
        lemma_nat_digits_no_leading_zero(m / 10);
        assert(nat_digits(m)[0] == nat_digits(m / 10)[0]);
    }
}

/// The decimal text of an `i32` is canonical: a `-` exactly for negative
/// numbers, then one or more digits without a leading zero (except for
/// zero itself, written `0`).
pub proof fn lemma_decimal_canonical(n: i32)
    ensures
        (decimal_i32(n)[0] == '-') <==> n < 0,
        n < 0 ==> all_digits(decimal_i32(n).drop_first()) && decimal_i32(n).len() >= 2
            && decimal_i32(n)[1] != '0',
        n >= 0 ==> all_digits(decimal_i32(n)) && decimal_i32(n).len() >= 1,
        n > 0 ==> decimal_i32(n)[0] != '0',
        n == 0 ==> decimal_i32(n) == seq!['0'],
{
    if n < 0 {
        let m = (-n) as nat;
        lemma_nat_digits(m);
        lemma_nat_digits_no_leading_zero(m);
        assert(decimal_i32(n).drop_first() =~= nat_digits(m));
    } else {
        lemma_nat_digits(n as nat);
        lemma_nat_digits_no_leading_zero(n as nat);
        let d = nat_digits(n as nat);
        assert(is_digit_char(d[0]));
    }
}

/// Reading ignores leading zeros and a leading `+`, and a leading `-`
/// negates what the digits say.
pub proof fn lemma_parse_sign_and_zeros(s: Seq<char>)
    requires
        s.len() > 0,
        all_digits(s),
    ensures
        parse_i32_spec(seq!['0'] + s) == parse_i32_spec(s),
        parse_i32_spec(seq!['+'] + s) == parse_i32_spec(s),
        parse_i32_spec(s) matches Some(v) ==> v == digits_value(s),
        i32::MIN <= -digits_value(s) ==> parse_i32_spec(seq!['-'] + s) == Some(
            (-digits_value(s)) as i32,
        ),
{
    assert(is_digit_char(s[0]));
    let z = seq!['0'] + s;
    lemma_leading_zero(s);
    assert(all_digits(z)) by {
        assert forall|i: int| 0 <= i < z.len() implies is_digit_char(#[trigger] z[i]) by {
            if i > 0 {
                assert(z[i] == s[i - 1]);
            }
        }
    }
    assert((seq!['+'] + s).drop_first() =~= s);
    assert((seq!['-'] + s).drop_first() =~= s);
    lemma_digits_value_nonneg(s);
}

proof fn lemma_digits_value_nonneg(s: Seq<char>)
    requires
        all_digits(s),
    ensures
        digits_value(s) >= 0,
    decreases s.len(),
{
    if s.len() > 0 {
        assert(all_digits(s.drop_last()));
        lemma_digits_value_nonneg(s.drop_last());
        assert(is_digit_char(s[s.len() - 1]));
    }
}

/// Text with a character other than an ASCII digit after the optional sign
/// is refused.
pub proof fn lemma_parse_rejects_non_digits(s: Seq<char>, i: int)
    requires
        0 <= i < s.len(),
        !is_digit_char(s[i]),
        !(i == 0 && (s[0] == '-' || s[0] == '+')),
    ensures
        parse_i32_spec(s) is None,
{
    if s[0] == '-' || s[0] == '+' {
        assert(s.drop_first()[i - 1] == s[i]);
    }
}

/// The one-character string for the digit `d`.
fn digit_str(d: u8) -> (r: &'static str)
    requires
        d < 10,
    ensures
        r@ == seq![digit_char(d as int)],
{
    proof {
        reveal_strlit("0");
        reveal_strlit("1");
        reveal_strlit("2");
        reveal_strlit("3");
        reveal_strlit("4");
        reveal_strlit("5");
        reveal_strlit("6");
        reveal_strlit("7");
        reveal_strlit("8");
        reveal_strlit("9");
    }
    if d == 0 {
        "0"
    } else if d == 1 {
        "1"
    } else if d == 2 {
        "2"
    } else if d == 3 {
        "3"
    } else if d == 4 {
        "4"
    } else if d == 5 {
        "5"
    } else if d == 6 {
        "6"
    } else if d == 7 {
        "7"
    } else if d == 8 {
        "8"
    } else {
        "9"
    }
}

/// The decimal text of `n`, as `i32::to_string` writes it.
pub fn format_i32(n: i32) -> (r: String)
    ensures
        r@ == decimal_i32(n),
{
    let wide: i64 = n as i64;
    let m0: u64 = if wide < 0 {
        (-wide) as u64
    } else {
        wide as u64
    };
    // Digits are collected least significant first.
    let mut ds: Vec<u8> = Vec::new();
    let mut m: u64 = m0;
    let ghost mut tail: Seq<char> = Seq::empty();
    while m >= 10
        invariant
            nat_digits(m0 as nat) == nat_digits(m as nat) + tail,
            tail.len() == ds.len(),
            forall|j: int| 0 <= j < ds.len() ==> #[trigger] ds[j] < 10,
            forall|j: int|
                0 <= j < tail.len() ==> #[trigger] tail[j] == digit_char(
                    ds[ds.len() - 1 - j] as int,
                ),
            m0 <= 2147483648,
        decreases m,
    {
        let d: u8 = (m % 10) as u8;
        proof {
            let old_tail = tail;
            tail = seq![digit_char(d as int)] + old_tail;
            assert(nat_digits(m as nat) == nat_digits((m / 10) as nat) + seq![
                digit_char((m % 10) as int),
            ]);
            assert(nat_digits(m0 as nat) =~= nat_digits((m / 10) as nat) + tail);
        }
        ds.push(d);
        m = m / 10;
    }
    let last: u8 = m as u8;
    ds.push(last);
    proof {
        tail = seq![digit_char(last as int)] + tail;
        assert(nat_digits(m0 as nat) =~= tail);
    }
    let mut r = String::new();
    if n < 0 {
        proof {
            reveal_strlit("-");
        }
        r.append("-");
    }
    let ghost prefix: Seq<char> = r@;
    let mut k: usize = ds.len();
    while k > 0
        invariant
            k <= ds.len(),
            tail.len() == ds.len(),
            forall|j: int| 0 <= j < ds.len() ==> #[trigger] ds[j] < 10,
            forall|j: int|
                0 <= j < tail.len() ==> #[trigger] tail[j] == digit_char(
                    ds[ds.len() - 1 - j] as int,
                ),
            r@ == prefix + tail.subrange(0, (ds.len() - k) as int),
        decreases k,
    {
        let d = ds[k - 1];
        r.append(digit_str(d));
        k = k - 1;
        proof {
            assert(tail[(ds.len() - 1 - k) as int] == digit_char(d as int));
            assert(tail.subrange(0, (ds.len() - k) as int) =~= tail.subrange(
                0,
                (ds.len() - 1 - k) as int,
            ) + seq![digit_char(d as int)]);
        }
    }
    proof {
        assert(tail.subrange(0, ds.len() as int) =~= tail);
        if n < 0 {
            reveal_strlit("-");
            assert((-n) as nat == m0 as nat);
        }
    }
    r
}

/// The largest magnitude the parser tracks exactly; anything larger is out
/// of range for an `i32` in either direction.
const PARSE_CAP: u64 = 2147483649;

/// Reads an `i32` written in decimal, as `str::parse::<i32>` does: `None`
/// for empty text, a lone sign, any character that is not an ASCII digit
/// after the optional sign, or a value outside the range of `i32`.
pub fn parse_i32(s: &str) -> (r: Option<i32>)
    ensures
        r == parse_i32_spec(s@),
{
    let n = s.unicode_len();
    if n == 0 {
        return None;
    }
    let first = s.get_char(0);
    let negative = first == '-';
    let start: usize = if first == '-' || first == '+' {
        1
    } else {
        0
    };
    let ghost body = if start == 1 {
        s@.drop_first()
    } else {
        s@
    };
    proof {
        assert(body =~= s@.subrange(start as int, n as int));
    }
    if start == n {
        return None;
    }
    let mut acc: u64 = 0;
    let mut i: usize = start;
    while i < n
        invariant
            start <= i <= n,
            n == s@.len(),
            n > 0,
            start <= 1,
            start == 1 <==> (s@[0] == '-' || s@[0] == '+'),
            negative == (s@[0] == '-'),
            body == s@.subrange(start as int, n as int),
            all_digits(s@.subrange(start as int, i as int)),
            acc <= PARSE_CAP,
            digits_value(s@.subrange(start as int, i as int)) >= 0,
            digits_value(s@.subrange(start as int, i as int)) < PARSE_CAP ==> acc
                == digits_value(s@.subrange(start as int, i as int)),
            digits_value(s@.subrange(start as int, i as int)) >= PARSE_CAP ==> acc == PARSE_CAP,
        decreases n - i,
    {
        let c = s.get_char(i);
        let code = c as u32;
        if code < 48 || code > 57 {
            proof {
                assert(body[i - start] == c);
                assert(!is_digit_char(body[i - start]));
            }
            return None;
        }
        let d: u64 = (code - 48) as u64;
        let ghost prev = s@.subrange(start as int, i as int);
        let ghost next = s@.subrange(start as int, i + 1);
        proof {
            assert(next.drop_last() =~= prev);
            assert(next.last() == c);
            assert(all_digits(next));
        }
        if acc >= PARSE_CAP {
            acc = PARSE_CAP;
        } else {
            let t = acc * 10 + d;
            if t >= PARSE_CAP {
                acc = PARSE_CAP;
            } else {
                acc = t;
            }
        }
        i = i + 1;
    }
    proof {
        assert(s@.subrange(start as int, n as int) == body);
    }
    if negative {
        if acc <= 2147483648 {
            let v: i64 = -(acc as i64);
            Some(v as i32)
        } else {
            None
        }
    } else {
        if acc <= 2147483647 {
            Some(acc as i32)
        } else {
            None
        }
    }
}

} // verus!
