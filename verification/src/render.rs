//! Rendering the report line that states the two buffer lengths.

use vstd::prelude::*;

verus! {

/// The decimal digits of `n`, most significant first, as ASCII bytes.
pub open spec fn dec_digits(n: nat) -> Seq<u8>
    decreases n,
{
    if n < 10 {
        seq![(48 + n) as u8]
    } else {
        dec_digits(n / 10) + seq![(48 + n % 10) as u8]
    }
}

/// The ASCII bytes of `"a.len="`.
pub open spec fn label_a() -> Seq<u8> {
    seq![97u8, 46u8, 108u8, 101u8, 110u8, 61u8]
}

/// The ASCII bytes of `"  b.len="`: two spaces, then the second label.
pub open spec fn label_b() -> Seq<u8> {
    seq![32u8, 32u8, 98u8, 46u8, 108u8, 101u8, 110u8, 61u8]
}

/// The full report line `a.len=<a>  b.len=<b>`, as ASCII bytes.
pub open spec fn line_of(a: nat, b: nat) -> Seq<u8> {
    label_a() + dec_digits(a) + label_b() + dec_digits(b)
}

/// Appends the decimal digits of `n` to `out`, most significant first.
fn push_decimal(out: &mut Vec<u8>, n: usize)
    ensures
        final(out)@ == old(out)@ + dec_digits(n as nat),
    decreases n,
{
    let ghost pre: Seq<u8> = out@;
    if n >= 10 {
        push_decimal(out, n / 10);
    }
    let d: u8 = 48 + (n % 10) as u8;
    out.push(d);
    proof {
        assert(out@ =~= pre + dec_digits(n as nat));
    }
}

/// Builds the report line for the two lengths, as ASCII bytes.
pub fn format_lengths(a_len: usize, b_len: usize) -> (r: Vec<u8>)
    ensures
        r@ == line_of(a_len as nat, b_len as nat),
{
    let mut out: Vec<u8> = Vec::new();
    out.push(97);
    out.push(46);
    out.push(108);
    out.push(101);
    out.push(110);
    out.push(61);
    proof {
        assert(out@ =~= label_a());
    }
    push_decimal(&mut out, a_len);
    out.push(32);
    out.push(32);
    out.push(98);
    out.push(46);
    out.push(108);
    out.push(101);
    out.push(110);
    out.push(61);
    push_decimal(&mut out, b_len);
    proof {
        assert(out@ =~= line_of(a_len as nat, b_len as nat));
    }
    out
}

} // verus!
