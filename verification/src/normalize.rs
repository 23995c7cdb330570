//! Decimal normalizer: converts an amount between two fixed-point precisions.
//!
//! Downscaling truncates (floor division); no rounding compensation is
//! applied.  This lossy step matches the protocol's canonical behaviour.
use vstd::prelude::*;

verus! {

use crate::errors::SpokeError;

/// Largest precision difference accepted when downscaling.
pub const MAX_DECIMAL_SHIFT: u8 = 12;

/// 10 to the power `k`.
pub open spec fn pow10(k: nat) -> nat
    decreases k,
{
    if k == 0 {
        1
    } else {
        10 * pow10((k - 1) as nat)
    }
}

/// What `normalize_decimals` returns: unchanged for equal precisions, floor
/// division for a downscale of at most [`MAX_DECIMAL_SHIFT`] digits,
/// multiplication for an upscale that stays within `u64`.
pub open spec fn normalize_spec(amount: u64, minted_decimals: u8, target_decimals: u8) -> Result<
    u64,
    SpokeError,
> {
    if minted_decimals == target_decimals {
        Ok(amount)
    } else if minted_decimals > target_decimals {
        let shift = (minted_decimals - target_decimals) as nat;
        if shift > MAX_DECIMAL_SHIFT {
            Err(SpokeError::DecimalConversionOverflow)
        } else {
            Ok((amount as nat / pow10(shift)) as u64)
        }
    } else {
        let shift = (target_decimals - minted_decimals) as nat;
        if pow10(shift) > u64::MAX {
            Err(SpokeError::DecimalConversionOverflow)
        } else if amount as nat * pow10(shift) > u64::MAX {
            Err(SpokeError::DecimalConversionOverflow)
        } else {
            Ok((amount as nat * pow10(shift)) as u64)
        }
    }
}

pub proof fn lemma_pow10_pos(k: nat)
    ensures
        pow10(k) >= 1,
    decreases k,
{
    if k > 0 {
        lemma_pow10_pos((k - 1) as nat);
    }
}

pub proof fn lemma_pow10_increases(a: nat, b: nat)
    requires
        a <= b,
    ensures
        pow10(a) <= pow10(b),
    decreases b,
{
    if a < b {
        lemma_pow10_increases(a, (b - 1) as nat);
        lemma_pow10_pos((b - 1) as nat);
    }
}

pub proof fn lemma_pow10_12()
    ensures
        pow10(12) == 1_000_000_000_000,
{
    reveal_with_fuel(pow10, 13);
}

/// Computes 10^shift if it fits in a u64.
fn pow10_checked(shift: u8) -> (r: Option<u64>)
    ensures
        match r {
            Some(v) => v == pow10(shift as nat),
            None => pow10(shift as nat) > u64::MAX,
        },
{
    let mut res: u64 = 1;
    let mut k: u8 = 0;
    while k < shift
        invariant
            k <= shift,
            res == pow10(k as nat),
        decreases shift - k,
    {
        if res > u64::MAX / 10 {
            proof {
                assert(res * 10 > u64::MAX) by (nonlinear_arith)
                    requires
                        res > u64::MAX / 10,
                ;
                assert(pow10((k + 1) as nat) == res * 10);
                lemma_pow10_increases((k + 1) as nat, shift as nat);
            }
            return None;
        }
        proof {
            assert(res * 10 <= u64::MAX) by (nonlinear_arith)
                requires
                    res <= u64::MAX / 10,
            ;
        }
        res = res * 10;
        k = k + 1;
    }
    Some(res)
}

/// Converts `amount` from `minted_decimals` fixed-point digits to
/// `target_decimals` digits.  Downscaling floors; a shift of more than
/// [`MAX_DECIMAL_SHIFT`] digits or an upscale that leaves `u64` fails with
/// `DecimalConversionOverflow`.
pub fn normalize_decimals(amount: u64, minted_decimals: u8, target_decimals: u8) -> (r: Result<
    u64,
    SpokeError,
>)
    ensures
        r == normalize_spec(amount, minted_decimals, target_decimals),
{
    if minted_decimals == target_decimals {
        Ok(amount)
    } else if minted_decimals > target_decimals {
        let shift = minted_decimals - target_decimals;
        if shift > MAX_DECIMAL_SHIFT {
            return Err(SpokeError::DecimalConversionOverflow);
        }
        let divisor = match pow10_checked(shift) {
            Some(d) => d,
            None => {
                proof {
                    lemma_pow10_increases(shift as nat, 12);
                    lemma_pow10_12();
                }
                return Err(SpokeError::DecimalConversionOverflow);
            },
        };
        proof {
            lemma_pow10_pos(shift as nat);
        }
        Ok(amount / divisor)
    } else {
        let shift = target_decimals - minted_decimals;
        let factor = match pow10_checked(shift) {
            Some(f) => f,
            None => {
                return Err(SpokeError::DecimalConversionOverflow);
            },
        };
        proof {
            lemma_pow10_pos(shift as nat);
        }
        if amount > u64::MAX / factor {
            proof {
                vstd::arithmetic::div_mod::lemma_fundamental_div_mod(u64::MAX as int, factor as int);
                assert(amount * factor > u64::MAX) by (nonlinear_arith)
                    requires
                        factor >= 1,
                        amount > u64::MAX / factor,
                        u64::MAX as int == factor * (u64::MAX as int / factor as int) + u64::MAX as int
                            % factor as int,
                        0 <= u64::MAX % factor < factor,
                ;
            }
            Err(SpokeError::DecimalConversionOverflow)
        } else {
            proof {
                vstd::arithmetic::div_mod::lemma_fundamental_div_mod(u64::MAX as int, factor as int);
                assert(amount * factor <= u64::MAX) by (nonlinear_arith)
                    requires
                        factor >= 1,
                        amount <= u64::MAX / factor,
                        u64::MAX as int == factor * (u64::MAX as int / factor as int) + u64::MAX as int
                            % factor as int,
                        0 <= u64::MAX % factor < factor,
                ;
            }
            Ok(amount * factor)
        }
    }
}

/// Upscaling and then downscaling by the same precision difference returns
/// the original amount exactly: the upscale multiplies by a power of ten and
/// the downscale floor-divides by the same power, losing nothing.
pub proof fn lemma_normalize_round_trip_up_down(x: u64, low: u8, high: u8)
    requires
        low < high,
        high - low <= MAX_DECIMAL_SHIFT,
        normalize_spec(x, low, high) is Ok,
    ensures
        normalize_spec(normalize_spec(x, low, high)->Ok_0, high, low) == Ok::<u64, SpokeError>(x),
{
    let shift = (high - low) as nat;
    let p = pow10(shift);
    lemma_pow10_pos(shift);
    let y = normalize_spec(x, low, high)->Ok_0;
    assert(y == x as nat * p);
    vstd::arithmetic::div_mod::lemma_div_multiples_vanish(x as int, p as int);
    assert(x as int * p as int == p as int * x as int) by (nonlinear_arith);
    assert((x as nat * p) as nat / p == x as nat);
}

/// Downscaling and then upscaling by the same precision difference never
/// exceeds the original amount, and returns it exactly if and only if the
/// amount is a multiple of the power of ten that was divided out.
pub proof fn lemma_normalize_round_trip_down_up(x: u64, high: u8, low: u8)
    requires
        low < high,
        high - low <= MAX_DECIMAL_SHIFT,
    ensures
        normalize_spec(x, high, low) is Ok,
        normalize_spec(normalize_spec(x, high, low)->Ok_0, low, high) is Ok,
        normalize_spec(normalize_spec(x, high, low)->Ok_0, low, high)->Ok_0 <= x,
        normalize_spec(normalize_spec(x, high, low)->Ok_0, low, high)->Ok_0 == x <==> x as nat
            % pow10((high - low) as nat) == 0,
{
    let shift = (high - low) as nat;
    let p = pow10(shift);
    lemma_pow10_pos(shift);
    lemma_pow10_increases(shift, 12);
    lemma_pow10_12();
    let y = (x as nat / p) as u64;
    assert(normalize_spec(x, high, low) == Ok::<u64, SpokeError>(y));
    vstd::arithmetic::div_mod::lemma_fundamental_div_mod(x as int, p as int);
    assert(x as nat == p * (x as nat / p) + x as nat % p);
    assert(y as nat * p == p * (x as nat / p)) by (nonlinear_arith)
        requires
            y as nat == x as nat / p,
    ;
    assert(y as nat * p <= x);
    assert(normalize_spec(y, low, high) == Ok::<u64, SpokeError>((y as nat * p) as u64));
    assert((y as nat * p) as u64 == x <==> x as nat % p == 0);
}

} // verus!
