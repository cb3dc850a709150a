//! Decimal text for `i64` values, and character-level string equality.
//!
//! JSON numbers travel through this crate as their literal decimal text, so
//! integer-valued fields need an exact correspondence between an `i64` and
//! its digit string in both directions.

use vstd::prelude::*;

verus! {

pub open spec fn is_digit_char(c: char) -> bool {
    '0' <= c && c <= '9'
}

/// Numeric value of a decimal digit character.
pub open spec fn digit_val(c: char) -> nat {
    (c as nat - '0' as nat) as nat
}

/// The digit character for a value below ten.
pub open spec fn digit_char(d: nat) -> char {
    if d == 0 {
        '0'
    } else if d == 1 {
        '1'
    } else if d == 2 {
        '2'
    } else if d == 3 {
        '3'
    } else if d == 4 {
        '4'
    } else if d == 5 {
        '5'
    } else if d == 6 {
        '6'
    } else if d == 7 {
        '7'
    } else if d == 8 {
        '8'
    } else {
        '9'
    }
}

/// Decimal rendering of a natural number, most significant digit first.
pub open spec fn spec_udec(n: nat) -> Seq<char>
    decreases n,
{
    if n < 10 {
        seq![digit_char(n)]
    } else {
        spec_udec(n / 10).push(digit_char(n % 10))
    }
}

/// Value of a sequence of decimal digit characters.
pub open spec fn spec_dec_val(s: Seq<char>) -> nat
    decreases s.len(),
{
    if s.len() == 0 {
        0
    } else {
        spec_dec_val(s.drop_last()) * 10 + digit_val(s.last())
    }
}

pub open spec fn all_digits(s: Seq<char>) -> bool {
    forall|i: int| 0 <= i < s.len() ==> is_digit_char(#[trigger] s[i])
}

/// The decimal texts this crate accepts for an `i64`: an optional leading
/// minus sign, then one or more digits, with the value in range. Leading
/// zeros are tolerated.
pub open spec fn spec_parse_i64(s: Seq<char>) -> Option<i64> {
    if s.len() > 0 && s[0] == '-' {
        let d = s.drop_first();
        if d.len() > 0 && all_digits(d) && spec_dec_val(d) <= 0x8000_0000_0000_0000 {
            Some((-(spec_dec_val(d) as int)) as i64)
        } else {
            None
        }
    } else {
        if s.len() > 0 && all_digits(s) && spec_dec_val(s) <= 0x7fff_ffff_ffff_ffff {
            Some(spec_dec_val(s) as i64)
        } else {
            None
        }
    }
}

/// Canonical decimal text of an `i64`.
pub open spec fn spec_i64_str(n: i64) -> Seq<char> {
    if n < 0 {
        seq!['-'] + spec_udec((-(n as int)) as nat)
    } else {
        spec_udec(n as nat)
    }
}

pub proof fn lemma_udec_shape(n: nat)
    ensures
        spec_udec(n).len() >= 1,
        all_digits(spec_udec(n)),
    decreases n,
{
    if n < 10 {
        assert(spec_udec(n) =~= seq![digit_char(n)]);
    } else {
        lemma_udec_shape(n / 10);
        let prefix = spec_udec(n / 10);
        let whole = prefix.push(digit_char(n % 10));
        assert forall|i: int| 0 <= i < whole.len() implies is_digit_char(#[trigger] whole[i]) by {
            if i < prefix.len() {
                assert(whole[i] == prefix[i]);
            }
        }
    }
}

pub proof fn lemma_udec_val(n: nat)
    ensures
        spec_dec_val(spec_udec(n)) == n,
    decreases n,
{
    if n < 10 {
        let s = seq![digit_char(n)];
        assert(s.drop_last() =~= Seq::<char>::empty());
        assert(spec_dec_val(Seq::<char>::empty()) == 0);
        assert(spec_dec_val(s) == digit_val(digit_char(n)));
    } else {
        lemma_udec_val(n / 10);
        let prefix = spec_udec(n / 10);
        let whole = prefix.push(digit_char(n % 10));
        assert(whole.drop_last() =~= prefix);
        assert(whole.last() == digit_char(n % 10));
        assert(spec_dec_val(whole) == spec_dec_val(prefix) * 10 + digit_val(digit_char(n % 10)));
        assert(n / 10 * 10 + n % 10 == n) by (nonlinear_arith);
    }
}

/// Printing an `i64` and parsing the text back returns the same value.
pub proof fn lemma_parse_i64_print(n: i64)
    ensures
        spec_parse_i64(spec_i64_str(n)) == Some(n),
{
    if n >= 0 {
        let s = spec_udec(n as nat);
        lemma_udec_shape(n as nat);
        lemma_udec_val(n as nat);
        assert(is_digit_char(s[0]));
        assert(s[0] != '-');
    } else {
        let m = (-(n as int)) as nat;
        let digits = spec_udec(m);
        let s = seq!['-'] + digits;
        lemma_udec_shape(m);
        lemma_udec_val(m);
        assert(s[0] == '-');
        assert(s.drop_first() =~= digits);
        assert(m <= 0x8000_0000_0000_0000);
        assert((-(m as int)) as i64 == n);
    }
}

/// One-character string slice for a digit value.
fn digit_str(d: u64) -> (r: &'static str)
    requires
        d < 10,
    ensures
        r@ =~= seq![digit_char(d as nat)],
{
    proof {
        reveal_strlit("0");
        reveal_strlit("1");
        reveal_strlit("2");
        reveal_strlit("3");
        reveal_strlit("4");
        reveal_strlit("5");
        reveal_strlit("6");
        reveal_strlit("7");
        reveal_strlit("8");
        reveal_strlit("9");
    }
    match d {
        0 => "0",
        1 => "1",
        2 => "2",
        3 => "3",
        4 => "4",
        5 => "5",
        6 => "6",
        7 => "7",
        8 => "8",
        _ => "9",
    }
}

pub fn u64_dec_string(n: u64) -> (r: String)
    ensures
        r@ == spec_udec(n as nat),
    decreases n,
{
    if n < 10 {
        let mut s = String::new();
        s.append(digit_str(n));
        proof {
            assert(s@ =~= spec_udec(n as nat));
        }
        s
    } else {
        let mut s = u64_dec_string(n / 10);
        s.append(digit_str(n % 10));
        proof {
            assert(s@ =~= spec_udec(n as nat));
        }
        s
    }
}

pub fn i64_dec_string(n: i64) -> (r: String)
    ensures
        r@ == spec_i64_str(n),
{
    if n >= 0 {
        u64_dec_string(n as u64)
    } else {
        let mag: u64 = if n == i64::MIN {
            9223372036854775808
        } else {
            (-n) as u64
        };
        let mut s = String::new();
        s.append("-");
        let d = u64_dec_string(mag);
        s.append(d.as_str());
        proof {
            reveal_strlit("-");
            assert(mag as int == -(n as int));
            assert(s@ =~= spec_i64_str(n));
        }
        s
    }
}

proof fn lemma_dec_val_take_le(s: Seq<char>, i: int)
    requires
        0 <= i <= s.len(),
    ensures
        spec_dec_val(s.take(i)) <= spec_dec_val(s),
    decreases s.len() - i,
{
    if i == s.len() {
        assert(s.take(i) =~= s);
    } else {
        assert(s.take(i + 1).drop_last() =~= s.take(i));
        assert(spec_dec_val(s.take(i + 1)) == spec_dec_val(s.take(i)) * 10 + digit_val(
            s.take(i + 1).last(),
        ));
        assert(spec_dec_val(s.take(i)) <= spec_dec_val(s.take(i)) * 10) by (nonlinear_arith);
        lemma_dec_val_take_le(s, i + 1);
    }
}

/// Parse the decimal text of an `i64`, accepting exactly what
/// `spec_parse_i64` accepts.
pub fn parse_i64_str(s: &str) -> (r: Option<i64>)
    ensures
        r == spec_parse_i64(s@),
{
    let len = s.unicode_len();
    if len == 0 {
        return None;
    }
    let neg = s.get_char(0) == '-';
    let start: usize = if neg {
        1
    } else {
        0
    };
    let ghost d: Seq<char> = if neg {
        s@.drop_first()
    } else {
        s@
    };
    proof {
        assert(d =~= s@.subrange(start as int, len as int));
    }
    if start == len {
        return None;
    }
    let limit: u64 = if neg {
        9223372036854775808
    } else {
        9223372036854775807
    };
    let mut i = start;
    let mut acc: u64 = 0;
    while i < len
        invariant
            start <= i <= len,
            len == s@.len(),
            start == if neg { 1int } else { 0int },
            neg ==> s@[0] == '-',
            !neg ==> !(s@.len() > 0 && s@[0] == '-'),
            d =~= s@.subrange(start as int, len as int),
            d.len() > 0,
            limit == if neg { 0x8000_0000_0000_0000u64 } else { 0x7fff_ffff_ffff_ffffu64 },
            acc == spec_dec_val(d.take(i - start)),
            acc <= limit,
            all_digits(d.take(i - start)),
        decreases len - i,
    {
        let c = s.get_char(i);
        let u = c as u32;
        if u < 48 || u > 57 {
            proof {
                assert(d[i - start] == s@[i as int]);
                assert(!is_digit_char(d[i - start]));
                assert(!all_digits(d));
            }
            return None;
        }
        let dv: u64 = (u - 48) as u64;
        proof {
            assert(is_digit_char(c));
            assert(dv as nat == digit_val(c));
        }
        let step = match acc.checked_mul(10) {
            Some(m) => m.checked_add(dv),
            None => None,
        };
        let ghost full = spec_dec_val(d.take(i + 1 - start));
        proof {
            assert(d.take(i + 1 - start).drop_last() =~= d.take(i - start));
            assert(d.take(i + 1 - start).last() == d[i - start] == s@[i as int]);
            assert(full == acc * 10 + digit_val(c));
        }
        let next = match step {
            Some(v) => {
                if v > limit {
                    proof {
                        lemma_dec_val_take_le(d, i + 1 - start);
                        assert(spec_dec_val(d) > limit);
                        if neg {
                            assert(s@.drop_first() =~= d);
                        } else {
                            assert(s@ =~= d);
                        }
                    }
                    return None;
                }
                v
            },
            None => {
                proof {
                    assert(full > u64::MAX >= limit);
                    lemma_dec_val_take_le(d, i + 1 - start);
                    assert(spec_dec_val(d) > limit);
                    if neg {
                        assert(s@.drop_first() =~= d);
                    } else {
                        assert(s@ =~= d);
                    }
                }
                return None;
            },
        };
        acc = next;
        i += 1;
        proof {
            assert forall|j: int| 0 <= j < d.take(i - start).len() implies is_digit_char(
                #[trigger] d.take(i - start)[j],
            ) by {
                if j < i - 1 - start {
                    assert(d.take(i - 1 - start)[j] == d.take(i - start)[j]);
                }
            }
        }
    }
    proof {
        assert(d.take(i - start) =~= d);
    }
    if neg {
        if acc == 9223372036854775808 {
            Some(i64::MIN)
        } else {
            Some(-(acc as i64))
        }
    } else {
        Some(acc as i64)
    }
}

/// Character-by-character equality of two string slices.
pub fn str_eq(a: &str, b: &str) -> (r: bool)
    ensures
        r == (a@ == b@),
{
    let alen = a.unicode_len();
    let blen = b.unicode_len();
    if alen != blen {
        return false;
    }
    let mut i: usize = 0;
    while i < alen
        invariant
            i <= alen,
            alen == a@.len(),
            alen == b@.len(),
            forall|j: int| 0 <= j < i ==> a@[j] == b@[j],
        decreases alen - i,
    {
        if a.get_char(i) != b.get_char(i) {
            return false;
        }
        i += 1;
    }
    proof {
        assert(a@ =~= b@);
    }
    true
}

} // verus!

