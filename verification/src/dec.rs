//! Canonical base-ten rendering of integers.

use vstd::prelude::*;

verus! {

/// The ASCII digits of `n` in base ten, most significant digit first: the
/// canonical decimal form, with no leading zeros except for "0" itself.
pub open spec fn dec_digits(n: nat) -> Seq<u8>
    decreases n,
{
    if n < 10 {
        seq![(n + 48) as u8]
    } else {
        dec_digits(n / 10).push(((n % 10) + 48) as u8)
    }
}

/// The canonical base-ten rendering of an integer: the digits of its
/// absolute value, preceded by a minus sign when the integer is negative.
pub open spec fn dec_int(n: int) -> Seq<u8> {
    if n < 0 {
        seq![45u8] + dec_digits((-n) as nat)
    } else {
        dec_digits(n as nat)
    }
}

/// The decimal form of `n` is canonical: at least one byte, every byte an
/// ASCII digit, and a leading zero digit only for zero itself.
pub proof fn lemma_dec_digits_canonical(n: nat)
    ensures
        dec_digits(n).len() >= 1,
        forall|i: int| 0 <= i < dec_digits(n).len() ==> 48 <= #[trigger] dec_digits(n)[i] <= 57,
        dec_digits(n)[0] == 48 <==> n == 0,
    decreases n,
{
    if n >= 10 {
        lemma_dec_digits_canonical(n / 10);
    }
}

/// Appends the canonical decimal digits of `n` to `out`.
fn push_dec_digits(n: u64, out: &mut Vec<u8>)
    ensures
        final(out)@ == old(out)@ + dec_digits(n as nat),
    decreases n,
{
    if n >= 10 {
        push_dec_digits(n / 10, out);
    }
    out.push((n % 10) as u8 + 48);
    proof {
        assert(out@ =~= old(out)@ + dec_digits(n as nat));
    }
}

/// Renders an unsigned 64-bit integer in canonical decimal form.
pub fn u64_dec_bytes(n: u64) -> (v: Vec<u8>)
    ensures
        v@ == dec_digits(n as nat),
{
    let mut v: Vec<u8> = Vec::new();
    push_dec_digits(n, &mut v);
    proof {
        assert(v@ =~= dec_digits(n as nat));
    }
    v
}

/// Renders a signed 64-bit integer in canonical decimal form.
pub fn i64_dec_bytes(n: i64) -> (v: Vec<u8>)
    ensures
        v@ == dec_int(n as int),
{
    let mut v: Vec<u8> = Vec::new();
    if n < 0 {
        v.push(45);
        let m: u64 = if n == i64::MIN {
            9223372036854775808
        } else {
            (-n) as u64
        };
        push_dec_digits(m, &mut v);
        proof {
            assert(v@ =~= dec_int(n as int));
        }
    } else {
        push_dec_digits(n as u64, &mut v);
        proof {
            assert(v@ =~= dec_int(n as int));
        }
    }
    v
}

} // verus!
