use crate::text::{decimal, digit_char, spec_decimal};
use vstd::prelude::*;

verus! {

/// `base` to the power `k`.
pub open spec fn power(base: nat, k: nat) -> nat
    decreases k,
{
    if k == 0 {
        1
    } else {
        base * power(base, (k - 1) as nat)
    }
}

/// The quotient of `num` by `den`, rounded to the nearest whole number; of
/// two that lie equally near, the even one.
pub open spec fn round_half_even(num: nat, den: nat) -> nat {
    let q = num / den;
    let r = num % den;
    if 2 * r > den || (2 * r == den && q % 2 == 1) {
        q + 1
    } else {
        q
    }
}

/// Two to the power 53.
pub open spec fn two_to_53() -> nat {
    0x20_0000_0000_0000
}

/// How many low bits a size loses when it is kept with 53 significant bits:
/// the least `s`, from `from` on and up to 11, with `n` below `2^(53 + s)`.
pub open spec fn lost_bits_from(n: nat, from: nat) -> nat
    decreases 11 - from,
{
    if from >= 11 || n < power(2, from) * two_to_53() {
        from
    } else {
        lost_bits_from(n, from + 1)
    }
}

/// A size as it is kept with 53 significant bits: the nearest number that
/// has no more; of two that lie equally near, the one whose 53 bits make an
/// even number.
pub open spec fn spec_kept(size: nat) -> nat {
    let s = lost_bits_from(size, 0);
    round_half_even(size, power(2, s)) * power(2, s)
}

/// The unit in which a size is shown: the largest of five, from `from` on,
/// of which the size holds one or more.
pub open spec fn unit_from(v: nat, from: nat) -> nat
    decreases 4 - from,
{
    if from >= 4 || v < power(1024, from + 1) {
        from
    } else {
        unit_from(v, from + 1)
    }
}

/// The names of the units.
pub open spec fn spec_unit_name(k: nat) -> Seq<char> {
    if k == 0 {
        "B"@
    } else if k == 1 {
        "KB"@
    } else if k == 2 {
        "MB"@
    } else if k == 3 {
        "GB"@
    } else {
        "TB"@
    }
}

/// A number of hundredths, written with two decimals.
pub open spec fn spec_two_decimals(hundredths: nat) -> Seq<char> {
    spec_decimal(hundredths / 100) + seq!['.', digit_char((hundredths % 100) / 10), digit_char(hundredths % 10)]
}

/// A size in bytes as it is shown to people: in the largest unit of which
/// it holds one or more, with two decimals, rounded to the nearest
/// hundredth (to the even one of two that lie equally near). Sizes are
/// shown from 53 significant bits.
pub open spec fn spec_format_file_size(size: u64) -> Seq<char> {
    let v = spec_kept(size as nat);
    let k = unit_from(v, 0);
    spec_two_decimals(round_half_even(v * 100, power(1024, k))) + " "@ + spec_unit_name(k)
}

/// The powers of two grow.
proof fn lemma_powers_grow(s: nat, t: nat)
    requires
        s <= t,
    ensures
        1 <= power(2, s) <= power(2, t),
    decreases t,
{
    if t == 0 {
    } else if s == t {
        lemma_powers_grow(0, (t - 1) as nat);
    } else {
        lemma_powers_grow(s, (t - 1) as nat);
    }
}

/// The quotient of `num` by `den`, rounded to the nearest whole number; of
/// two that lie equally near, the even one.
fn rounded_quotient(num: u128, den: u128) -> (q: u128)
    requires
        den > 0,
        num < 0x100_0000_0000_0000_0000_0000,
        den <= 0x1_0000_0000_0000_0000,
    ensures
        q == round_half_even(num as nat, den as nat),
        q <= num / den + 1,
{
    let q = num / den;
    let r = num % den;
    if 2 * r > den || (2 * r == den && q % 2 == 1) {
        q + 1
    } else {
        q
    }
}

/// A size as it is kept with 53 significant bits.
fn kept(size: u64) -> (v: u128)
    ensures
        v == spec_kept(size as nat),
        v <= 0x1_0000_0000_0000_0000,
{
    let n: u128 = size as u128;
    let mut s: u32 = 0;
    let mut scale: u128 = 1;
    while s < 11 && n >= scale * 0x20_0000_0000_0000u128
        invariant
            s <= 11,
            n == size,
            scale == power(2, s as nat),
            1 <= scale <= 0x800,
            lost_bits_from(n as nat, 0) == lost_bits_from(n as nat, s as nat),
        decreases 11 - s,
    {
        proof {
            reveal_with_fuel(power, 13);
            lemma_powers_grow((s + 1) as nat, 11);
        }
        s += 1;
        scale = scale * 2;
    }
    let ghost limit = scale * two_to_53();
    proof {
        reveal_with_fuel(power, 13);
        if s == 11 {
            assert(scale == 0x800);
        }
    }
    let q = rounded_quotient(n, scale);
    proof {
        assert(n < limit);
        assert(n / scale < 0x20_0000_0000_0000int) by (nonlinear_arith)
            requires
                n < scale * 0x20_0000_0000_0000int,
                scale > 0,
        ;
        assert(q * scale <= 0x20_0000_0000_0000int * scale) by (nonlinear_arith)
            requires
                q <= 0x20_0000_0000_0000int,
                scale > 0,
        ;
    }
    q * scale
}

/// The name of a unit.
fn unit_name(k: u32) -> (name: &'static str)
    ensures
        name@ == spec_unit_name(k as nat),
{
    if k == 0 {
        "B"
    } else if k == 1 {
        "KB"
    } else if k == 2 {
        "MB"
    } else if k == 3 {
        "GB"
    } else {
        "TB"
    }
}

/// A size in bytes as it is shown to people: in the largest unit of which it
/// holds one or more, with two decimals.
pub fn format_file_size(size: u64) -> (shown: String)
    ensures
        shown@ == spec_format_file_size(size),
{
    let v = kept(size);
    let mut k: u32 = 0;
    let mut unit: u128 = 1;
    while k < 4 && v >= unit * 1024
        invariant
            k <= 4,
            unit == power(1024, k as nat),
            1 <= unit <= 1099511627776,
            k < 4 ==> unit <= 1073741824,
            unit_from(v as nat, 0) == unit_from(v as nat, k as nat),
        decreases 4 - k,
    {
        proof {
            reveal_with_fuel(power, 6);
        }
        k += 1;
        unit = unit * 1024;
    }
    proof {
        reveal_with_fuel(power, 6);
    }
    let hundredths = rounded_quotient(v * 100, unit);
    let mut shown = decimal(hundredths / 100);
    shown.push('.');
    shown.push((48u8 + ((hundredths % 100) / 10) as u8) as char);
    shown.push((48u8 + (hundredths % 10) as u8) as char);
    shown.push(' ');
    shown.append(unit_name(k));
    proof {
        reveal_strlit(" ");
        assert(" "@ =~= seq![' ']);
        assert(shown@ =~= spec_two_decimals(hundredths as nat) + " "@ + spec_unit_name(k as nat));
    }
    shown
}

} // verus!
