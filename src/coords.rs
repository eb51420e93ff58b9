use vstd::prelude::*;
use vstd::arithmetic::div_mod::{lemma_fundamental_div_mod, lemma_fundamental_div_mod_converse};

verus! {

/// Floor division and the matching non-negative remainder of `a` by a positive `m`,
/// the arithmetic behind every coordinate wrap of the chip.
pub fn floor_div_mod(a: i32, m: i32) -> (r: (i32, i32))
    requires
        m > 0,
    ensures
        r.0 == a as int / m as int,
        r.1 == a as int % m as int,
        0 <= r.1 < m,
{
    if a >= 0 {
        let q = (a as u32) / (m as u32);
        let rem = (a as u32) % (m as u32);
        proof {
            lemma_fundamental_div_mod(a as int, m as int);
            lemma_fundamental_div_mod_converse(a as int, m as int, q as int, rem as int);
        }
        (q as i32, rem as i32)
    } else {
        let n = (-(a as i64)) as u64;
        let q0 = n / (m as u64);
        let r0 = n % (m as u64);
        proof {
            lemma_fundamental_div_mod(n as int, m as int);
            assert(n == q0 * m + r0) by (nonlinear_arith)
                requires
                    n == m * q0 + r0,
            ;
            assert(q0 <= n) by (nonlinear_arith)
                requires
                    n == q0 * m + r0,
                    m >= 1,
                    r0 >= 0,
                    q0 >= 0,
            ;
        }
        if r0 == 0 {
            proof {
                assert(a == (-(q0 as int)) * m + 0) by (nonlinear_arith)
                    requires
                        a == -(n as int),
                        n == q0 * m,
                ;
                lemma_fundamental_div_mod_converse(a as int, m as int, -(q0 as int), 0);
            }
            (-(q0 as i64) as i32, 0)
        } else {
            proof {
                assert(q0 < n) by (nonlinear_arith)
                    requires
                        n == q0 * m + r0,
                        m >= 1,
                        r0 > 0,
                        q0 >= 0,
                ;
                assert(a == (-(q0 as int) - 1) * m + (m - r0)) by (nonlinear_arith)
                    requires
                        a == -(n as int),
                        n == q0 * m + r0,
                ;
                lemma_fundamental_div_mod_converse(
                    a as int,
                    m as int,
                    -(q0 as int) - 1,
                    m - r0,
                );
            }
            ((-(q0 as i64) - 1) as i32, m - r0 as i32)
        }
    }
}

} // verus!
