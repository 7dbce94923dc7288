//! Converting raw byte counts and rates into displayable values.
use crate::models::{
    lemma_pow10_mono, pow10, pow10_exec, unit_size, unit_symbol, ByteInfo, ByteUnit,
};
use vstd::prelude::*;
use vstd::string::*;

verus! {

/// The largest number of fractional digits a formatted value can carry.
pub const MAX_PRECISION: usize = 18;

/// The number of fractional digits used when none is asked for.
pub const DEFAULT_PRECISION: usize = 2;

/// `bytes / unit_size(unit)` times `10^p`, rounded to the nearest integer,
/// halves away from zero.
pub open spec fn rounded_scaled(bytes: nat, unit: ByteUnit, p: nat) -> nat {
    (2 * bytes * pow10(p) + unit_size(unit)) / (2 * unit_size(unit))
}

/// The unit text of a rate: the unit's symbol followed by `/s`.
pub open spec fn rate_symbol(unit: ByteUnit) -> Seq<char> {
    unit_symbol(unit) + seq!['/', 's']
}

/// The rounded amount shared by both formatters.
fn scaled_amount(bytes: u64, byte_unit: ByteUnit, precision: usize) -> (r: u128)
    requires
        precision <= MAX_PRECISION,
    ensures
        r as nat == rounded_scaled(bytes as nat, byte_unit, precision as nat),
{
    let size = byte_unit.to_bytes() as u128;
    let mult = pow10_exec(precision);
    proof {
        lemma_pow10_mono(precision as nat, 18);
        reveal_with_fuel(pow10, 19);
        assert(pow10(18) == 1000000000000000000nat);
        let b = bytes as nat;
        let m = mult as nat;
        assert(b * m <= 18446744073709551615nat * 1000000000000000000nat) by (nonlinear_arith)
            requires
                b <= 18446744073709551615nat,
                m <= 1000000000000000000nat,
        ;
    }
    let prod = (bytes as u128) * mult;
    let numer = 2 * prod + size;
    proof {
        let (b, m) = (bytes as nat, mult as nat);
        assert(2 * b * m == 2 * (b * m)) by (nonlinear_arith);
    }
    numer / (2 * size)
}

/// Formats a byte count in `byte_unit` with `precision` fractional digits.
pub fn format_bytes_with_precision(bytes: u64, byte_unit: ByteUnit, precision: usize) -> (r:
    ByteInfo)
    requires
        precision <= MAX_PRECISION,
    ensures
        r.scaled as nat == rounded_scaled(bytes as nat, byte_unit, precision as nat),
        r.unit@ == unit_symbol(byte_unit),
        r.precision == precision,
{
    ByteInfo { scaled: scaled_amount(bytes, byte_unit, precision), unit: byte_unit.to_string(), precision }
}

/// Formats a byte count in `byte_unit` with two fractional digits.
pub fn format_bytes(bytes: u64, byte_unit: ByteUnit) -> (r: ByteInfo)
    ensures
        r.scaled as nat == rounded_scaled(bytes as nat, byte_unit, 2),
        r.unit@ == unit_symbol(byte_unit),
        r.precision == 2,
{
    format_bytes_with_precision(bytes, byte_unit, DEFAULT_PRECISION)
}

/// Formats a rate in bytes per second as `byte_unit` per second with
/// `precision` fractional digits.
pub fn format_rate_with_precision(bytes_per_second: u64, byte_unit: ByteUnit, precision: usize) -> (r:
    ByteInfo)
    requires
        precision <= MAX_PRECISION,
    ensures
        r.scaled as nat == rounded_scaled(bytes_per_second as nat, byte_unit, precision as nat),
        r.unit@ == rate_symbol(byte_unit),
        r.precision == precision,
{
    let mut unit = byte_unit.to_string();
    proof { reveal_strlit("/s"); }
    unit.append("/s");
    ByteInfo { scaled: scaled_amount(bytes_per_second, byte_unit, precision), unit, precision }
}

/// Formats a rate in bytes per second with two fractional digits.
pub fn format_rate(bytes_per_second: u64, byte_unit: ByteUnit) -> (r: ByteInfo)
    ensures
        r.scaled as nat == rounded_scaled(bytes_per_second as nat, byte_unit, 2),
        r.unit@ == rate_symbol(byte_unit),
        r.precision == 2,
{
    format_rate_with_precision(bytes_per_second, byte_unit, DEFAULT_PRECISION)
}

} // verus!

verus! {

/// A formatted amount is the nearest whole number of `10^-p` units to the
/// exact quotient `bytes * 10^p / unit_size`, a tie going up:
/// `q - 1/2 <= bytes * 10^p / unit_size < q + 1/2`.
pub proof fn lemma_rounded_is_nearest(bytes: nat, unit: ByteUnit, p: nat)
    ensures
        2 * rounded_scaled(bytes, unit, p) * unit_size(unit) <= 2 * bytes * pow10(p) + unit_size(unit),
        2 * bytes * pow10(p) + unit_size(unit) < 2 * (rounded_scaled(bytes, unit, p) + 1) * unit_size(
            unit,
        ),
{
    let s = unit_size(unit);
    let n = 2 * bytes * pow10(p) + s;
    let d = 2 * s;
    let q = n / d;
    assert(s > 0);
    assert(q * d <= n && n < (q + 1) * d) by (nonlinear_arith)
        requires
            d > 0,
            q == n / d,
    ;
    assert(2 * q * s == q * d && 2 * (q + 1) * s == (q + 1) * d) by (nonlinear_arith)
        requires
            d == 2 * s,
    ;
}

} // verus!
