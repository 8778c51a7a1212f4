//! Token amounts expressed in whole units, scaled by the mint's decimals.

use vstd::prelude::*;

verus! {

/// `10^n` as a mathematical integer.
pub open spec fn pow10(n: nat) -> nat
    decreases n,
{
    if n == 0 {
        1
    } else {
        10 * pow10((n - 1) as nat)
    }
}

/// `10^decimals` as a `u64`, or `None` when it does not fit.
pub fn pow10_u64(decimals: u8) -> (r: Option<u64>)
    ensures
        r is Some <==> pow10(decimals as nat) <= u64::MAX,
        r is Some ==> r->0 == pow10(decimals as nat),
{
    let mut acc: u64 = 1;
    let mut i: u8 = 0;
    while i < decimals
        invariant
            i <= decimals,
            acc == pow10(i as nat),
            acc <= u64::MAX,
        decreases decimals - i,
    {
        if acc > u64::MAX / 10 {
            proof {
                assert(pow10((i + 1) as nat) == 10 * pow10(i as nat));
                lemma_pow10_increases((i + 1) as nat, decimals as nat);
            }
            return None;
        }
        acc = acc * 10;
        i = i + 1;
    }
    Some(acc)
}

/// A power of ten is never zero.
pub proof fn lemma_pow10_pos(n: nat)
    ensures
        pow10(n) >= 1,
    decreases n,
{
    if n > 0 {
        lemma_pow10_pos((n - 1) as nat);
    }
}

/// `pow10` grows with its argument.
proof fn lemma_pow10_increases(m: nat, n: nat)
    requires
        m <= n,
    ensures
        pow10(m) <= pow10(n),
    decreases n,
{
    if m < n {
        lemma_pow10_increases(m, (n - 1) as nat);
    }
}

/// Scale a whole-unit amount by the mint's decimals: `units * 10^decimals`,
/// or `None` when the product does not fit in a `u64`.
pub fn scale_units(units: u64, decimals: u8) -> (r: Option<u64>)
    ensures
        r is Some <==> units * pow10(decimals as nat) <= u64::MAX,
        r is Some ==> r->0 == units * pow10(decimals as nat),
{
    if units == 0 {
        return Some(0);
    }
    match pow10_u64(decimals) {
        None => {
            proof {
                assert(units * pow10(decimals as nat) >= 1 * pow10(decimals as nat))
                    by (nonlinear_arith)
                    requires
                        units >= 1,
                ;
            }
            None
        },
        Some(p) => {
            proof {
                lemma_pow10_pos(decimals as nat);
            }
            if units <= u64::MAX / p {
                proof {
                    assert(units * p <= (u64::MAX as int / p as int) * p <= u64::MAX)
                        by (nonlinear_arith)
                        requires
                            p > 0,
                            units <= u64::MAX as int / p as int,
                    ;
                }
                Some(units * p)
            } else {
                proof {
                    assert(units * p > u64::MAX) by (nonlinear_arith)
                        requires
                            p > 0,
                            units > u64::MAX as int / p as int,
                    ;
                }
                None
            }
        },
    }
}

} // verus!
