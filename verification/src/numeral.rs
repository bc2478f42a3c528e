//! Canonical decimal numerals: printing a number as digits and the strict
//! parse that token subjects go through. A numeral is canonical when it is
//! non-empty, all digits, and free of leading zeros.

use vstd::prelude::*;
use vstd::string::StrSliceExecFns;
use vstd::string::StringExecFns;

verus! {

pub open spec fn is_digit(c: char) -> bool {
    '0' <= c && c <= '9'
}

pub open spec fn digit_val(c: char) -> nat {
    (c as nat - '0' as nat) as nat
}

/// The numeric value of a digit string, most significant digit first.
pub open spec fn dec_value(s: Seq<char>) -> nat
    decreases s.len(),
{
    if s.len() == 0 {
        0
    } else {
        dec_value(s.drop_last()) * 10 + digit_val(s.last())
    }
}

/// A canonical numeral: non-empty, all digits, no leading zero.
pub open spec fn is_canonical_dec(s: Seq<char>) -> bool {
    &&& s.len() > 0
    &&& forall|i: int| 0 <= i < s.len() ==> is_digit(#[trigger] s[i])
    &&& (s.len() == 1 || s[0] != '0')
}

/// The one-character string for a digit, with its view pinned.
fn digit_str(d: u32) -> (r: &'static str)
    requires
        d < 10,
    ensures
        r@.len() == 1,
        is_digit(r@[0]),
        digit_val(r@[0]) == d,
        d > 0 ==> r@[0] != '0',
{
    proof {
        reveal_strlit("0");
        reveal_strlit("1");
        reveal_strlit("2");
        reveal_strlit("3");
        reveal_strlit("4");
        reveal_strlit("5");
        reveal_strlit("6");
        reveal_strlit("7");
        reveal_strlit("8");
        reveal_strlit("9");
    }
    match d {
        0 => "0",
        1 => "1",
        2 => "2",
        3 => "3",
        4 => "4",
        5 => "5",
        6 => "6",
        7 => "7",
        8 => "8",
        _ => "9",
    }
}

/// Print a number as its canonical decimal numeral.
pub fn u32_to_decimal(n: u32) -> (s: String)
    ensures
        is_canonical_dec(s@),
        dec_value(s@) == n,
    decreases n,
{
    if n < 10 {
        let s = digit_str(n).to_owned();
        proof {
            assert(s@.len() == 1);
            assert(s@.drop_last() =~= Seq::<char>::empty());
            assert(dec_value(Seq::<char>::empty()) == 0);
            assert(dec_value(s@) == dec_value(s@.drop_last()) * 10 + digit_val(s@.last()));
        }
        s
    } else {
        let mut s = u32_to_decimal(n / 10);
        let d = digit_str(n % 10);
        let ghost prefix = s@;
        s.append(d);
        proof {
            assert(s@.drop_last() =~= prefix);
            assert(s@.last() == d@[0]);
            assert(dec_value(s@) == dec_value(prefix) * 10 + digit_val(d@[0]));
            assert(dec_value(prefix) == n / 10);
            assert(n / 10 * 10 + n % 10 == n) by (nonlinear_arith);
            assert(s@[0] == prefix[0]);
            assert(prefix[0] != '0') by {
                if prefix.len() == 1 {
                    assert(dec_value(prefix.drop_last()) == 0) by {
                        assert(prefix.drop_last() =~= Seq::<char>::empty());
                    }
                    assert(digit_val(prefix[0]) == n / 10);
                    assert(n / 10 >= 1);
                }
            }
        }
        s
    }
}

/// A longer prefix of a digit string never has a smaller value.
proof fn lemma_dec_value_take_le(s: Seq<char>, j: int)
    requires
        0 <= j <= s.len(),
    ensures
        dec_value(s.take(j)) <= dec_value(s),
    decreases s.len() - j,
{
    if j < s.len() {
        assert(s.take(j + 1).drop_last() =~= s.take(j));
        assert(dec_value(s.take(j + 1)) == dec_value(s.take(j)) * 10 + digit_val(
            s.take(j + 1).last(),
        ));
        assert(dec_value(s.take(j)) * 10 >= dec_value(s.take(j))) by (nonlinear_arith);
        lemma_dec_value_take_le(s, j + 1);
        assert(s.take(s.len() as int) =~= s);
    } else {
        assert(s.take(j) =~= s);
    }
}

/// Parse a string as a canonical decimal numeral.
///
/// Returns the value exactly when the string is a canonical numeral whose
/// value fits in `u32`; anything else is rejected.
pub fn parse_decimal(s: &str) -> (r: Option<u32>)
    ensures
        match r {
            Some(n) => is_canonical_dec(s@) && dec_value(s@) == n,
            None => !(is_canonical_dec(s@) && dec_value(s@) <= u32::MAX),
        },
{
    let len = s.unicode_len();
    if len == 0 {
        return None;
    }
    let mut acc: u64 = 0;
    let mut i: usize = 0;
    while i < len
        invariant
            0 < len == s@.len(),
            0 <= i <= len,
            forall|k: int| 0 <= k < i ==> is_digit(#[trigger] s@[k]),
            i > 0 ==> (len == 1 || s@[0] != '0'),
            acc == dec_value(s@.take(i as int)),
            acc <= u32::MAX,
        decreases len - i,
    {
        let c = s.get_char(i);
        if !(c >= '0' && c <= '9') {
            return None;
        }
        if i == 0 && c == '0' && len > 1 {
            return None;
        }
        let d: u64 = (c as u32 as u64) - 48;
        proof {
            assert(s@.take(i + 1).drop_last() =~= s@.take(i as int));
            assert(dec_value(s@.take(i + 1)) == dec_value(s@.take(i as int)) * 10 + digit_val(c));
            assert(digit_val(c) == d);
        }
        let next: u64 = acc * 10 + d;
        if next > u32::MAX as u64 {
            proof {
                lemma_dec_value_take_le(s@, i + 1);
            }
            return None;
        }
        acc = next;
        i = i + 1;
    }
    proof {
        assert(s@.take(len as int) =~= s@);
    }
    Some(acc as u32)
}

} // verus!
