//! Decimal text: parsing digit strings into bounded integers and formatting
//! integers back, with exact specifications of both directions.

use vstd::prelude::*;

verus! {

/// Whether `c` is an ASCII decimal digit.
pub open spec fn is_digit(c: char) -> bool {
    '0' <= c && c <= '9'
}

/// Numeric value of a digit character.
pub open spec fn digit_val(c: char) -> nat {
    (c as int - '0' as int) as nat
}

/// The digit character for a value below ten.
pub open spec fn digit_char(d: nat) -> char {
    if d == 0 {
        '0'
    } else if d == 1 {
        '1'
    } else if d == 2 {
        '2'
    } else if d == 3 {
        '3'
    } else if d == 4 {
        '4'
    } else if d == 5 {
        '5'
    } else if d == 6 {
        '6'
    } else if d == 7 {
        '7'
    } else if d == 8 {
        '8'
    } else {
        '9'
    }
}

/// Whether `s` is a nonempty string of ASCII decimal digits.
pub open spec fn is_dec(s: Seq<char>) -> bool {
    s.len() > 0 && forall|i: int| 0 <= i < s.len() ==> is_digit(#[trigger] s[i])
}

/// The value of a digit string read in base ten.
pub open spec fn dec_value(s: Seq<char>) -> nat
    decreases s.len(),
{
    if s.len() == 0 {
        0
    } else {
        dec_value(s.drop_last()) * 10 + digit_val(s.last())
    }
}

/// The canonical decimal digits of `n`, most significant first.
pub open spec fn dec_digits(n: nat) -> Seq<char>
    decreases n,
{
    if n < 10 {
        seq![digit_char(n)]
    } else {
        dec_digits(n / 10).push(digit_char(n % 10))
    }
}

/// The library's integer-parse rule for signed decimal text: an optional
/// leading minus sign followed by at least one digit, nothing else.
pub open spec fn parse_int(s: Seq<char>) -> Option<int> {
    if s.len() > 0 && s[0] == '-' {
        if is_dec(s.subrange(1, s.len() as int)) {
            Some(-(dec_value(s.subrange(1, s.len() as int)) as int))
        } else {
            None
        }
    } else {
        if is_dec(s) {
            Some(dec_value(s) as int)
        } else {
            None
        }
    }
}

/// Signed decimal digits: a minus sign before the magnitude when negative.
pub open spec fn dec_digits_int(n: int) -> Seq<char> {
    if n < 0 {
        seq!['-'] + dec_digits((-n) as nat)
    } else {
        dec_digits(n as nat)
    }
}

/// Parses `s` as an unsigned decimal integer no greater than `cap`.
/// Returns `None` when `s` is empty, holds a non-digit character, or its
/// value exceeds `cap`.
pub fn parse_dec_capped(s: &str, cap: u64) -> (r: Option<u64>)
    ensures
        match r {
            Some(v) => is_dec(s@) && v as nat == dec_value(s@) && v <= cap,
            None => !(is_dec(s@) && dec_value(s@) <= cap),
        },
{
    let n = s.unicode_len();
    if n == 0 {
        return None;
    }
    let mut acc: u64 = 0;
    let mut over: bool = false;
    let mut i: usize = 0;
    while i < n
        invariant
            0 <= i <= n,
            n == s@.len(),
            forall|j: int| 0 <= j < i ==> is_digit(#[trigger] s@[j]),
            !over ==> acc as nat == dec_value(s@.subrange(0, i as int)) && acc <= cap,
            over ==> dec_value(s@.subrange(0, i as int)) > cap,
        decreases n - i,
    {
        let c = s.get_char(i);
        if c < '0' || c > '9' {
            assert(!is_digit(s@[i as int]));
            return None;
        }
        let d: u64 = (c as u32 as u64) - 48;
        proof {
            assert(s@.subrange(0, i + 1).drop_last() =~= s@.subrange(0, i as int));
            assert(s@.subrange(0, i + 1).last() == s@[i as int]);
        }
        if !over {
            if acc > cap / 10 || (acc == cap / 10 && d > cap % 10) {
                proof {
                    assert(acc * 10 + d > cap) by (nonlinear_arith)
                        requires
                            acc > cap / 10 || (acc == cap / 10 && d > cap % 10),
                            cap / 10 == (cap as int) / 10,
                            cap % 10 == (cap as int) % 10,
                            acc >= 0,
                            d >= 0,
                            cap >= 0,
                    ;
                }
                over = true;
            } else {
                proof {
                    assert(acc * 10 + d <= cap) by (nonlinear_arith)
                        requires
                            acc <= cap / 10,
                            !(acc == cap / 10 && d > cap % 10),
                            d <= 9,
                            cap / 10 == (cap as int) / 10,
                            cap % 10 == (cap as int) % 10,
                            acc >= 0,
                            cap >= 0,
                    ;
                }
                acc = acc * 10 + d;
            }
        } else {
            proof {
                let p = s@.subrange(0, i as int);
                assert(dec_value(p) * 10 + digit_val(s@[i as int]) >= dec_value(p)) by (nonlinear_arith)
                    requires
                        dec_value(p) >= 0,
                        digit_val(s@[i as int]) >= 0,
                ;
            }
        }
        i = i + 1;
    }
    assert(s@.subrange(0, n as int) =~= s@);
    if over {
        None
    } else {
        Some(acc)
    }
}

/// The single-character string for a digit value below ten.
fn digit_str(d: u64) -> (r: &'static str)
    requires
        d < 10,
    ensures
        r@ =~= seq![digit_char(d as nat)],
        r.is_ascii(),
{
    proof {
        reveal_strlit("0");
        reveal_strlit("1");
        reveal_strlit("2");
        reveal_strlit("3");
        reveal_strlit("4");
        reveal_strlit("5");
        reveal_strlit("6");
        reveal_strlit("7");
        reveal_strlit("8");
        reveal_strlit("9");
    }
    if d == 0 {
        "0"
    } else if d == 1 {
        "1"
    } else if d == 2 {
        "2"
    } else if d == 3 {
        "3"
    } else if d == 4 {
        "4"
    } else if d == 5 {
        "5"
    } else if d == 6 {
        "6"
    } else if d == 7 {
        "7"
    } else if d == 8 {
        "8"
    } else {
        "9"
    }
}

/// Formats `n` as its canonical decimal digits.
pub fn u64_to_dec(n: u64) -> (r: String)
    ensures
        r@ == dec_digits(n as nat),
    decreases n,
{
    if n < 10 {
        String::from_str(digit_str(n))
    } else {
        let rest = u64_to_dec(n / 10);
        let r = rest.concat(digit_str(n % 10));
        proof {
            assert(r@ =~= dec_digits((n / 10) as nat).push(digit_char((n % 10) as nat)));
        }
        r
    }
}

/// Formats a signed integer, minus sign first when negative.
pub fn i64_to_dec(n: i64) -> (r: String)
    ensures
        r@ == dec_digits_int(n as int),
{
    if n >= 0 {
        u64_to_dec(n as u64)
    } else {
        proof {
            reveal_strlit("-");
        }
        let m: u64 = if n == i64::MIN {
            9223372036854775808u64
        } else {
            (-n) as u64
        };
        assert(m as nat == (-(n as int)) as nat);
        let r = String::from_str("-").concat(u64_to_dec(m).as_str());
        proof {
            assert("-"@ =~= seq!['-']);
            assert(r@ =~= dec_digits_int(n as int));
        }
        r
    }
}

/// Parses signed decimal text into an `i64`, `None` outside the `i64` range
/// or when the text is not an optional minus sign followed by digits.
pub fn parse_i64(s: &str) -> (r: Option<i64>)
    ensures
        match r {
            Some(v) => parse_int(s@) == Some(v as int),
            None => match parse_int(s@) {
                Some(v) => !(i64::MIN <= v <= i64::MAX),
                None => true,
            },
        },
{
    let n = s.unicode_len();
    if n == 0 {
        return None;
    }
    let c0 = s.get_char(0);
    if c0 == '-' {
        let rest = s.substring_char(1, n);
        let v = parse_dec_capped(rest, 9223372036854775808);
        proof {
            assert(rest@ =~= s@.subrange(1, s@.len() as int));
        }
        match v {
            Some(m) => if m == 9223372036854775808u64 {
                Some(i64::MIN)
            } else {
                Some(-(m as i64))
            },
            None => None,
        }
    } else {
        let v = parse_dec_capped(s, 9223372036854775807);
        match v {
            Some(m) => Some(m as i64),
            None => None,
        }
    }
}

/// Every integer prints to digits that parse back to itself.
pub proof fn lemma_dec_round_trip(n: nat)
    ensures
        is_dec(dec_digits(n)),
        dec_value(dec_digits(n)) == n,
    decreases n,
{
    if n < 10 {
        assert(dec_digits(n) =~= seq![digit_char(n)]);
        assert(dec_value(dec_digits(n)) == dec_value(seq![digit_char(n)].drop_last()) * 10 + digit_val(digit_char(n)));
        assert(seq![digit_char(n)].drop_last() =~= Seq::<char>::empty());
    } else {
        lemma_dec_round_trip(n / 10);
        let d = dec_digits(n / 10);
        assert(dec_digits(n) == d.push(digit_char(n % 10)));
        assert(d.push(digit_char(n % 10)).drop_last() =~= d);
        assert(d.push(digit_char(n % 10)).last() == digit_char(n % 10));
        assert(dec_value(dec_digits(n)) == (n / 10) * 10 + digit_val(digit_char(n % 10)));
        assert(digit_val(digit_char(n % 10)) == n % 10);
        assert((n / 10) * 10 + n % 10 == n) by (nonlinear_arith);
        assert forall|i: int| 0 <= i < dec_digits(n).len() implies is_digit(#[trigger] dec_digits(n)[i]) by {
            if i < d.len() {
                assert(dec_digits(n)[i] == d[i]);
            }
        }
    }
}

/// Signed round trip: formatting then parsing returns the same integer.
pub proof fn lemma_int_round_trip(n: int)
    ensures
        parse_int(dec_digits_int(n)) == Some(n),
{
    if n < 0 {
        lemma_dec_round_trip((-n) as nat);
        let s = dec_digits_int(n);
        assert(s[0] == '-');
        assert(s.subrange(1, s.len() as int) =~= dec_digits((-n) as nat));
    } else {
        lemma_dec_round_trip(n as nat);
        let s = dec_digits_int(n);
        assert(is_digit(s[0]));
        assert(s[0] != '-');
    }
}

} // verus!
