//! The wire form of numeric quantities.
//!
//! The node reports block heights and counters as `0x` followed by one or
//! more hexadecimal digits. Parsing that shape is the decode step the
//! polling and confirmation logic depends on; a reply outside the grammar,
//! or one whose value does not fit the machine word, is a decode error.

use vstd::prelude::*;

use crate::error::Error;

verus! {

/// Whether the byte is an ASCII hexadecimal digit.
pub open spec fn is_hex_digit(b: u8) -> bool {
    (48 <= b <= 57)  // '0' to '9'
    || (97 <= b <= 102)  // 'a' to 'f'
    || (65 <= b <= 70)  // 'A' to 'F'

}

/// The numeric value of one ASCII hexadecimal digit.
pub open spec fn hex_digit_value(b: u8) -> nat {
    if 48 <= b <= 57 {
        (b - 48) as nat
    } else if 97 <= b <= 102 {
        (b - 87) as nat
    } else {
        (b - 55) as nat
    }
}

/// The value of a big-endian string of hexadecimal digits.
pub open spec fn hex_value(digits: Seq<u8>) -> nat
    decreases digits.len(),
{
    if digits.len() == 0 {
        0
    } else {
        hex_value(digits.drop_last()) * 16 + hex_digit_value(digits.last())
    }
}

/// The quantity grammar: `0x`, then at least one hexadecimal digit.
pub open spec fn is_quantity(s: Seq<u8>) -> bool {
    s.len() >= 3 && s[0] == 48 && s[1] == 120 && (forall|k: int|
        2 <= k < s.len() ==> is_hex_digit(#[trigger] s[k]))
}

spec fn pow16(n: nat) -> nat
    decreases n,
{
    if n == 0 {
        1
    } else {
        16 * pow16((n - 1) as nat)
    }
}

proof fn lemma_pow16_bounds(n: nat)
    ensures
        pow16(n) >= 1,
        n >= 1 ==> pow16(n) >= 16,
    decreases n,
{
    if n >= 1 {
        lemma_pow16_bounds((n - 1) as nat);
    }
}

/// Digits appended on the right only grow the value: the whole string is
/// worth at least any prefix shifted by the remaining positions.
proof fn lemma_hex_value_extend(t: Seq<u8>, m: int)
    requires
        0 <= m <= t.len(),
    ensures
        hex_value(t) >= hex_value(t.subrange(0, m)) * pow16((t.len() - m) as nat),
    decreases t.len() - m,
{
    if m == t.len() {
        assert(t.subrange(0, m) =~= t);
        assert(pow16((t.len() - m) as nat) == 1);
    } else {
        let t1 = t.drop_last();
        assert(t1.subrange(0, m) =~= t.subrange(0, m));
        assert(hex_value(t) == hex_value(t1) * 16 + hex_digit_value(t.last()));
        lemma_hex_value_extend(t1, m);
        let hv = hex_value(t.subrange(0, m));
        let p1 = pow16((t.len() - 1 - m) as nat);
        assert(pow16((t.len() - m) as nat) == 16 * p1);
        assert(hex_value(t1) * 16 >= (hv * p1) * 16) by (nonlinear_arith)
            requires
                hex_value(t1) >= hv * p1,
        ;
        assert((hv * p1) * 16 == hv * (16 * p1)) by (nonlinear_arith);
    }
}

/// Parses the hex-quantity wire form. Returns the value exactly when the
/// input follows the grammar and the value fits the machine word; any other
/// input is a decode error.
pub fn parse_quantity(s: &Vec<u8>) -> (r: Result<u64, Error>)
    ensures
        match r {
            Ok(n) => is_quantity(s@) && n == hex_value(s@.subrange(2, s@.len() as int)),
            Err(e) => e is Decode && (!is_quantity(s@) || hex_value(
                s@.subrange(2, s@.len() as int),
            ) > u64::MAX),
        },
{
    if s.len() < 3 {
        return Err(Error::Decode(String::from_str("quantity is shorter than 0x plus one digit")));
    }
    if s[0] != 48 || s[1] != 120 {
        return Err(Error::Decode(String::from_str("quantity does not begin with 0x")));
    }
    let mut acc: u64 = 0;
    let mut i: usize = 2;
    while i < s.len()
        invariant
            2 <= i <= s@.len(),
            s@.len() >= 3,
            s@[0] == 48,
            s@[1] == 120,
            forall|k: int| 2 <= k < i ==> is_hex_digit(#[trigger] s@[k]),
            acc == hex_value(s@.subrange(2, i as int)),
        decreases s@.len() - i,
    {
        let b = s[i];
        let d: u64;
        if 48 <= b && b <= 57 {
            d = (b - 48) as u64;
        } else if 97 <= b && b <= 102 {
            d = (b - 87) as u64;
        } else if 65 <= b && b <= 70 {
            d = (b - 55) as u64;
        } else {
            proof {
                assert(!is_hex_digit(s@[i as int]));
            }
            return Err(Error::Decode(String::from_str("quantity holds a non-hex byte")));
        }
        if acc >= 0x1000000000000000u64 {
            // One more digit pushes the value past the machine word, and the
            // digits still to come can only grow it further.
            proof {
                let digits = s@.subrange(2, s@.len() as int);
                let m = i - 2;
                assert(digits.subrange(0, m as int) =~= s@.subrange(2, i as int));
                lemma_hex_value_extend(digits, m as int);
                lemma_pow16_bounds((digits.len() - m) as nat);
                let p = pow16((digits.len() - m) as nat);
                assert(hex_value(digits) >= acc * p);
                assert(acc * p >= acc * 16) by (nonlinear_arith)
                    requires
                        p >= 16,
                        acc >= 0,
                ;
            }
            return Err(Error::Decode(String::from_str("quantity exceeds the machine word")));
        }
        acc = acc * 16 + d;
        proof {
            assert(s@.subrange(2, i as int + 1).drop_last() =~= s@.subrange(2, i as int));
            assert(s@.subrange(2, i as int + 1).last() == s@[i as int]);
            assert(hex_digit_value(s@[i as int]) == d);
        }
        i = i + 1;
    }
    proof {
        assert(s@.subrange(2, i as int) =~= s@.subrange(2, s@.len() as int));
    }
    Ok(acc)
}

} // verus!
