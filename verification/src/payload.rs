//! The publish payload: a temperature in hundredths of a degree Celsius
//! rendered as ASCII decimal with exactly two fraction digits, e.g. `21.16`
//! or `-0.05`.

use vstd::prelude::*;
use vstd::math::abs;
use vstd::arithmetic::div_mod::{
    lemma_div_nonincreasing,
    lemma_div_pos_is_pos,
    lemma_fundamental_div_mod,
};

verus! {

/// The ASCII decimal digits of `n`, most significant first.
pub open spec fn dec_digits(n: nat) -> Seq<u8>
    decreases n,
{
    if n < 10 {
        seq![(48 + n) as u8]
    } else {
        dec_digits(n / 10) + seq![(48 + n % 10) as u8]
    }
}

/// The payload encoding a reading of `centi` hundredths of a degree: a
/// minus sign where negative, the whole degrees without leading zeros, a
/// dot, and exactly two fraction digits.
pub open spec fn payload_bytes(centi: int) -> Seq<u8> {
    let m = abs(centi);
    let unsigned_part = dec_digits(m / 100) + seq![46u8] + dec_digits((m % 100) / 10)
        + dec_digits(m % 10);
    if centi < 0 {
        seq![45u8] + unsigned_part
    } else {
        unsigned_part
    }
}

/// Append the decimal digits of `n` to `out`.
fn push_dec_digits(n: u64, out: &mut Vec<u8>)
    ensures
        final(out)@ == old(out)@ + dec_digits(n as nat),
    decreases n,
{
    if n < 10 {
        out.push(48 + n as u8);
    } else {
        proof {
            lemma_div_pos_is_pos(n as int, 10);
            lemma_div_nonincreasing(n as int, 10);
        }
        push_dec_digits(n / 10, out);
        out.push(48 + (n % 10) as u8);
        proof {
            assert(dec_digits(n as nat) == dec_digits((n / 10) as nat) + seq![
                (48 + (n % 10) as nat) as u8,
            ]);
            assert(out@ =~= old(out)@ + dec_digits(n as nat));
        }
    }
}

/// Render a temperature given in hundredths of a degree Celsius as its
/// decimal payload with exactly two fraction digits.
pub fn format_temperature(centi: i64) -> (r: Vec<u8>)
    ensures
        r@ == payload_bytes(centi as int),
{
    let mut out: Vec<u8> = Vec::new();
    let m: u64 = if centi >= 0 {
        centi as u64
    } else {
        let wide: i128 = -(centi as i128);
        wide as u64
    };
    proof {
        assert(m as int == abs(centi as int));
        lemma_div_pos_is_pos(m as int, 100);
        lemma_div_nonincreasing(m as int, 100);
        lemma_fundamental_div_mod(m as int, 100);
        lemma_fundamental_div_mod((m % 100) as int, 10);
    }
    if centi < 0 {
        out.push(45);
    }
    push_dec_digits(m / 100, &mut out);
    out.push(46);
    out.push(48 + ((m % 100) / 10) as u8);
    out.push(48 + (m % 10) as u8);
    proof {
        assert((m % 100) / 10 < 10);
        assert(m % 10 == (m as nat) % 10);
        assert(dec_digits(((m % 100) / 10) as nat) == seq![(48 + ((m % 100) / 10) as nat) as u8]);
        assert(dec_digits((m % 10) as nat) == seq![(48 + (m % 10) as nat) as u8]);
        assert(out@ =~= payload_bytes(centi as int));
    }
    out
}

/// Every byte of `dec_digits` is an ASCII digit, and there is at least one.
pub proof fn lemma_dec_digits_are_digits(n: nat)
    ensures
        dec_digits(n).len() >= 1,
        forall|i: int|
            0 <= i < dec_digits(n).len() ==> 48 <= #[trigger] dec_digits(n)[i] <= 57,
    decreases n,
{
    if n >= 10 {
        lemma_dec_digits_are_digits(n / 10);
    }
}

/// Every payload carries exactly two fraction digits: it ends in a dot
/// followed by two ASCII digits, and no other dot occurs after that one.
pub proof fn lemma_payload_two_fraction_digits(centi: int)
    ensures
        payload_bytes(centi).len() >= 4,
        payload_bytes(centi)[payload_bytes(centi).len() - 3] == 46u8,
        48 <= payload_bytes(centi)[payload_bytes(centi).len() - 2] <= 57,
        48 <= payload_bytes(centi)[payload_bytes(centi).len() - 1] <= 57,
{
    let m = abs(centi);
    lemma_dec_digits_are_digits(m / 100);
    lemma_dec_digits_are_digits((m % 100) / 10);
    lemma_dec_digits_are_digits(m % 10);
    lemma_div_pos_is_pos(m as int, 100);
}

} // verus!
