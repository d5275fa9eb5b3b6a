//! Byte counts for people: `1.50 KB`, `12.00 GB`. The value is the count
//! divided by the unit as a double-precision number would hold it, shown
//! with two decimals rounded to nearest (ties to even), computed here with
//! integers only.

use vstd::prelude::*;
use crate::numeric::{chars_of, decimal, digit_char, push_decimal};
use crate::text::{push_all, string_from_chars};

verus! {

/// `n / d` rounded to the nearest integer, ties to the even one.
pub open spec fn round_half_even(n: nat, d: nat) -> nat
    recommends
        d > 0,
{
    let q = n / d;
    let r = n % d;
    if 2 * r > d || (2 * r == d && q % 2 == 1) {
        q + 1
    } else {
        q
    }
}

/// The multiple of `d` nearest to `n` (ties to the even multiple).
pub open spec fn rounded_to(n: nat, d: nat) -> nat {
    round_half_even(n, d) * d
}

/// The integer `b` as a double-precision number holds it: exact below 2^53,
/// else rounded to 53 significant bits.
pub open spec fn as_double(b: nat) -> nat {
    if b < 0x20_0000_0000_0000 {
        b
    } else if b < 0x40_0000_0000_0000 {
        rounded_to(b, 2)
    } else if b < 0x80_0000_0000_0000 {
        rounded_to(b, 4)
    } else if b < 0x100_0000_0000_0000 {
        rounded_to(b, 8)
    } else if b < 0x200_0000_0000_0000 {
        rounded_to(b, 16)
    } else if b < 0x400_0000_0000_0000 {
        rounded_to(b, 32)
    } else if b < 0x800_0000_0000_0000 {
        rounded_to(b, 64)
    } else if b < 0x1000_0000_0000_0000 {
        rounded_to(b, 128)
    } else if b < 0x2000_0000_0000_0000 {
        rounded_to(b, 256)
    } else if b < 0x4000_0000_0000_0000 {
        rounded_to(b, 512)
    } else if b < 0x8000_0000_0000_0000 {
        rounded_to(b, 1024)
    } else {
        rounded_to(b, 2048)
    }
}

/// `n` hundredths written with two decimals (`1234` is `12.34`).
pub open spec fn two_decimals(n: nat) -> Seq<char> {
    decimal(n / 100) + seq!['.', digit_char((n % 100) / 10), digit_char(n % 10)]
}

/// `b` in units of `unit` bytes, with two decimals.
pub open spec fn in_unit(b: nat, unit: nat) -> Seq<char> {
    two_decimals(round_half_even(b * 100, unit))
}

/// The size `b` for people, up to gigabytes, or up to terabytes when `with_tb`.
pub open spec fn size_text(b: nat, with_tb: bool) -> Seq<char> {
    if with_tb && b >= 0x100_0000_0000 {
        in_unit(as_double(b), 0x100_0000_0000) + " TB"@
    } else if b >= 0x4000_0000 {
        in_unit(as_double(b), 0x4000_0000) + " GB"@
    } else if b >= 0x10_0000 {
        in_unit(b, 0x10_0000) + " MB"@
    } else if b >= 0x400 {
        in_unit(b, 0x400) + " KB"@
    } else {
        decimal(b) + " B"@
    }
}

fn round_div(n: u128, d: u128) -> (r: u128)
    requires
        0 < d <= 0x1_0000_0000_0000_0000,
        n <= 0x1_0000_0000_0000_0000_0000,
    ensures
        r == round_half_even(n as nat, d as nat),
        r <= n / d + 1,
{
    let q = n / d;
    let rem = n % d;
    if 2 * rem > d || (2 * rem == d && q % 2 == 1) {
        q + 1
    } else {
        q
    }
}

fn double_of(b: u64) -> (r: u128)
    ensures
        r == as_double(b as nat),
        r <= 0x1_0000_0000_0000_0000,
{
    let n = b as u128;
    let d: u128 = if b < 0x20_0000_0000_0000 {
        1
    } else if b < 0x40_0000_0000_0000 {
        2
    } else if b < 0x80_0000_0000_0000 {
        4
    } else if b < 0x100_0000_0000_0000 {
        8
    } else if b < 0x200_0000_0000_0000 {
        16
    } else if b < 0x400_0000_0000_0000 {
        32
    } else if b < 0x800_0000_0000_0000 {
        64
    } else if b < 0x1000_0000_0000_0000 {
        128
    } else if b < 0x2000_0000_0000_0000 {
        256
    } else if b < 0x4000_0000_0000_0000 {
        512
    } else if b < 0x8000_0000_0000_0000 {
        1024
    } else {
        2048
    };
    if d == 1 {
        return n;
    }
    let q = round_div(n, d);
    assert(q <= n / d + 1);
    assert(q * d <= n + d) by (nonlinear_arith)
        requires
            q <= n / d + 1,
            d > 0,
    {
    }
    q * d
}

fn push_two_decimals(out: &mut Vec<char>, n: u128)
    requires
        n / 100 <= 0xffff_ffff_ffff_ffff,
    ensures
        final(out)@ == old(out)@ + two_decimals(n as nat),
{
    push_decimal(out, (n / 100) as u64);
    out.push('.');
    out.push(crate::numeric::char_from_digit(((n % 100) / 10) as u32));
    out.push(crate::numeric::char_from_digit((n % 10) as u32));
    assert(final(out)@ =~= old(out)@ + two_decimals(n as nat));
}

fn push_in_unit(out: &mut Vec<char>, v: u128, unit: u128)
    requires
        v <= 0x1_0000_0000_0000_0000,
        0x400 <= unit <= 0x100_0000_0000,
    ensures
        final(out)@ == old(out)@ + in_unit(v as nat, unit as nat),
{
    let n = round_div(v * 100, unit);
    proof {
        let vv = v as int;
        let uu = unit as int;
        let nn = n as int;
        assert(nn <= (vv * 100) / uu + 1);
        assert((vv * 100) / uu <= (vv * 100) / 0x400) by (nonlinear_arith)
            requires
                uu >= 0x400,
                vv >= 0,
        {
            vstd::arithmetic::div_mod::lemma_div_is_ordered_by_denominator(vv * 100, 0x400, uu);
        }
        assert((vv * 100) / 0x400 <= 0x1_0000_0000_0000_0000 * 100 / 0x400);
    }
    push_two_decimals(out, n);
}

fn sized(b: u64, with_tb: bool) -> (r: String)
    ensures
        r@ == size_text(b as nat, with_tb),
{
    let mut out: Vec<char> = Vec::new();
    if with_tb && b >= 0x100_0000_0000 {
        push_in_unit(&mut out, double_of(b), 0x100_0000_0000);
        push_all(&mut out, &chars_of(" TB"));
    } else if b >= 0x4000_0000 {
        push_in_unit(&mut out, double_of(b), 0x4000_0000);
        push_all(&mut out, &chars_of(" GB"));
    } else if b >= 0x10_0000 {
        push_in_unit(&mut out, b as u128, 0x10_0000);
        push_all(&mut out, &chars_of(" MB"));
    } else if b >= 0x400 {
        push_in_unit(&mut out, b as u128, 0x400);
        push_all(&mut out, &chars_of(" KB"));
    } else {
        push_decimal(&mut out, b);
        push_all(&mut out, &chars_of(" B"));
    }
    string_from_chars(out)
}

/// The size `bytes` for people, in B, KB, MB, GB or TB (as the command
/// line shows sizes).
pub fn human_bytes(bytes: u64) -> (r: String)
    ensures
        r@ == size_text(bytes as nat, true),
{
    sized(bytes, true)
}

/// The size `bytes` for people, in B, KB, MB or GB (as the desktop app shows sizes).
pub fn format_bytes(bytes: u64) -> (r: String)
    ensures
        r@ == size_text(bytes as nat, false),
{
    sized(bytes, false)
}

} // verus!
