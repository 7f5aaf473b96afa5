//! Decimal rounding and text formatting for micro-unit values.
//!
//! A micro-unit value carries one millionth of a percent (or of a degree)
//! per count, so rounding to a number of decimal places and rendering the
//! digits a display expects are exact integer computations.

use vstd::prelude::*;

verus! {

/// Micro-unit counts per whole unit.
pub const MICROS_PER_UNIT: u64 = 1_000_000;

/// Fractional decimal digits that a micro-unit value can hold.
pub const MAX_DECIMALS: u32 = 6;

pub open spec fn pow10_spec(e: nat) -> nat
    decreases e,
{
    if e == 0 {
        1
    } else {
        10 * pow10_spec((e - 1) as nat)
    }
}

pub proof fn lemma_pow10_pos(e: nat)
    ensures
        pow10_spec(e) >= 1,
    decreases e,
{
    if e > 0 {
        lemma_pow10_pos((e - 1) as nat);
    }
}

pub proof fn lemma_pow10_monotone(a: nat, b: nat)
    requires
        a <= b,
    ensures
        pow10_spec(a) <= pow10_spec(b),
    decreases b,
{
    if a < b {
        lemma_pow10_monotone(a, (b - 1) as nat);
        lemma_pow10_pos((b - 1) as nat);
    }
}

/// Raise ten to the exponent `e`.
pub fn pow10(e: u32) -> (r: u64)
    requires
        e <= 19,
    ensures
        r == pow10_spec(e as nat),
{
    let mut r: u64 = 1;
    let mut i: u32 = 0;
    while i < e
        invariant
            i <= e <= 19,
            r == pow10_spec(i as nat),
        decreases e - i,
    {
        proof {
            lemma_pow10_monotone((i + 1) as nat, 19);
            reveal_with_fuel(pow10_spec, 20);
            assert(pow10_spec(19) == 10_000_000_000_000_000_000);
        }
        r = r * 10;
        i = i + 1;
    }
    r
}

/// Half-up rounding of a micro-unit value to `d` decimal places: everything
/// below the kept digits is dropped, and the last kept digit is raised by one
/// when the dropped remainder is at least half a step.
pub open spec fn round_to_decimal_spec(v: nat, d: nat) -> nat {
    if d >= MAX_DECIMALS {
        v
    } else {
        let step = pow10_spec((MAX_DECIMALS - d) as nat);
        let q = v / step;
        let r = v % step;
        if 2 * r >= step {
            (q + 1) * step
        } else {
            q * step
        }
    }
}

/// Round a micro-unit value to `rounding` decimal places, halves upward.
pub fn round_to_decimal(value: u64, rounding: u32) -> (r: u64)
    requires
        value <= u64::MAX - MICROS_PER_UNIT,
    ensures
        r == round_to_decimal_spec(value as nat, rounding as nat),
{
    if rounding >= MAX_DECIMALS {
        return value;
    }
    let step = pow10(MAX_DECIMALS - rounding);
    proof {
        lemma_pow10_pos((MAX_DECIMALS - rounding) as nat);
        lemma_pow10_monotone((MAX_DECIMALS - rounding) as nat, MAX_DECIMALS as nat);
        reveal_with_fuel(pow10_spec, 7);
        assert(pow10_spec(MAX_DECIMALS as nat) == 1_000_000);
    }
    let q = value / step;
    let rem = value % step;
    proof {
        vstd::arithmetic::div_mod::lemma_fundamental_div_mod(value as int, step as int);
        assert(q * step <= value && (q + 1) * step <= value + step) by (nonlinear_arith)
            requires
                q == value as int / step as int,
                value == q * step + rem,
                0 <= rem < step,
        ;
    }
    if 2 * rem >= step {
        (q + 1) * step
    } else {
        q * step
    }
}

/// The decimal digits of `n`, most significant first, as ASCII bytes.
pub open spec fn spec_digits(n: nat) -> Seq<u8>
    decreases n,
{
    if n < 10 {
        seq![(48 + n) as u8]
    } else {
        spec_digits(n / 10).push((48 + n % 10) as u8)
    }
}

/// The `width` least significant decimal digits of `n`, zero padded, as
/// ASCII bytes.
pub open spec fn spec_padded_digits(n: nat, width: nat) -> Seq<u8>
    decreases width,
{
    if width == 0 {
        seq![]
    } else {
        spec_padded_digits(n / 10, (width - 1) as nat).push((48 + n % 10) as u8)
    }
}

/// Append the decimal digits of `n` to `out`.
fn push_digits(n: u64, out: &mut Vec<u8>)
    ensures
        final(out)@ == old(out)@ + spec_digits(n as nat),
    decreases n,
{
    if n < 10 {
        out.push(48 + n as u8);
    } else {
        push_digits(n / 10, out);
        out.push(48 + (n % 10) as u8);
    }
    proof {
        assert(out@ =~= old(out)@ + spec_digits(n as nat));
    }
}

/// Append the `width` least significant decimal digits of `n` to `out`,
/// zero padded.
fn push_padded_digits(n: u64, width: u32, out: &mut Vec<u8>)
    ensures
        final(out)@ == old(out)@ + spec_padded_digits(n as nat, width as nat),
    decreases width,
{
    if width > 0 {
        push_padded_digits(n / 10, width - 1, out);
        out.push(48 + (n % 10) as u8);
    }
    proof {
        assert(out@ =~= old(out)@ + spec_padded_digits(n as nat, width as nat));
    }
}

/// How many fractional digits are shown for a requested number of decimal
/// places: at least one (a whole number is still written with one fractional
/// zero, as float formatters do) and at most what micro-units can hold.
pub open spec fn shown_decimals(d: nat) -> nat {
    if d == 0 {
        1
    } else if d > MAX_DECIMALS {
        MAX_DECIMALS as nat
    } else {
        d
    }
}

/// The ASCII text of a micro-unit value with `d` decimal places: the whole
/// part's digits, a dot, and the first `shown_decimals(d)` fractional digits.
pub open spec fn spec_format(v: nat, d: nat) -> Seq<u8> {
    let shown = shown_decimals(d);
    let frac = (v % (MICROS_PER_UNIT as nat)) / pow10_spec((MAX_DECIMALS - shown) as nat);
    spec_digits(v / (MICROS_PER_UNIT as nat)) + seq![46u8] + spec_padded_digits(frac, shown)
}

/// Write a micro-unit value as decimal text with `decimals` decimal places.
pub fn format_micros(value: u64, decimals: u32) -> (out: Vec<u8>)
    ensures
        out@ == spec_format(value as nat, decimals as nat),
{
    let shown: u32 = if decimals == 0 {
        1
    } else if decimals > MAX_DECIMALS {
        MAX_DECIMALS
    } else {
        decimals
    };
    let step = pow10(MAX_DECIMALS - shown);
    proof {
        lemma_pow10_pos((MAX_DECIMALS - shown) as nat);
    }
    let int_part = value / MICROS_PER_UNIT;
    let frac_part = (value % MICROS_PER_UNIT) / step;
    let mut out: Vec<u8> = Vec::new();
    push_digits(int_part, &mut out);
    out.push(46);
    push_padded_digits(frac_part, shown, &mut out);
    proof {
        assert(out@ =~= spec_format(value as nat, decimals as nat));
    }
    out
}

/// The text that the display shows for a humidity value: the value rounded
/// to `rounding` decimal places, written with that many digits.
pub fn humidity_text(hum_micros: u64, rounding: u32) -> (out: Vec<u8>)
    requires
        hum_micros <= u64::MAX - MICROS_PER_UNIT,
    ensures
        out@ == spec_format(
            round_to_decimal_spec(hum_micros as nat, rounding as nat),
            rounding as nat,
        ),
{
    let rounded = round_to_decimal(hum_micros, rounding);
    format_micros(rounded, rounding)
}

} // verus!
