//! Coordinates on a torus.
//!
//! An axis of size `n` has the indices `0..n`. Every integer is a coordinate
//! on it: the axis closes on itself, so that `n` denotes index `0` again and
//! `-1` denotes index `n - 1`.

use vstd::arithmetic::div_mod::{
    lemma_add_mod_noop_right, lemma_fundamental_div_mod, lemma_fundamental_div_mod_converse,
    lemma_small_mod,
};
use vstd::prelude::*;

verus! {

/// The index that the coordinate `v` denotes on an axis of size `n`: the
/// least non-negative remainder of `v` by `n`.
pub open spec fn wrap(v: int, n: int) -> int
    recommends
        n > 0,
{
    v % n
}

/// An index of the axis denotes itself.
pub proof fn lemma_wrap_of_index(v: int, n: int)
    requires
        0 <= v < n,
    ensures
        wrap(v, n) == v,
{
    lemma_small_mod(v as nat, n as nat);
}

/// Moving by `d` from a coordinate or from the index it denotes ends on the
/// same index.
pub proof fn lemma_wrap_shift(v: int, d: int, n: int)
    requires
        n > 0,
    ensures
        wrap(wrap(v, n) + d, n) == wrap(v + d, n),
{
    lemma_add_mod_noop_right(d, v, n);
}

/// Coordinates that are `n` apart denote the same index.
pub proof fn lemma_wrap_period(v: int, n: int)
    requires
        n > 0,
    ensures
        wrap(v + n, n) == wrap(v, n),
        wrap(v - n, n) == wrap(v, n),
{
    lemma_fundamental_div_mod(v, n);
    let q = v / n;
    let r = v % n;
    assert(v + n == (q + 1) * n + r) by (nonlinear_arith)
        requires
            v == n * q + r,
    ;
    assert(v - n == (q - 1) * n + r) by (nonlinear_arith)
        requires
            v == n * q + r,
    ;
    lemma_fundamental_div_mod_converse(v + n, n, q + 1, r);
    lemma_fundamental_div_mod_converse(v - n, n, q - 1, r);
}

/// One step up from a coordinate ends one index higher, or on index 0 from
/// the last index.
pub proof fn lemma_wrap_after(v: int, n: int)
    requires
        n > 0,
    ensures
        wrap(v + 1, n) == if wrap(v, n) == n - 1 {
            0
        } else {
            wrap(v, n) + 1
        },
{
    lemma_wrap_shift(v, 1, n);
    if wrap(v, n) == n - 1 {
        lemma_wrap_period(0, n);
    } else {
        lemma_wrap_of_index(wrap(v, n) + 1, n);
    }
}

/// One step down from a coordinate ends one index lower, or on the last
/// index from index 0.
pub proof fn lemma_wrap_before(v: int, n: int)
    requires
        n > 0,
    ensures
        wrap(v - 1, n) == if wrap(v, n) == 0 {
            n - 1
        } else {
            wrap(v, n) - 1
        },
{
    lemma_wrap_shift(v, -1, n);
    if wrap(v, n) == 0 {
        lemma_wrap_period(-1, n);
        lemma_wrap_of_index(n - 1, n);
    } else {
        lemma_wrap_of_index(wrap(v, n) - 1, n);
    }
}

/// A move by `d` leads from `u` to the index of `v` exactly when the move
/// back leads from `v` to the index of `u`.
pub proof fn lemma_wrap_move_back(u: int, v: int, d: int, n: int)
    requires
        n > 0,
    ensures
        wrap(u + d, n) == wrap(v, n) <==> wrap(v - d, n) == wrap(u, n),
{
    lemma_wrap_shift(u + d, -d, n);
    lemma_wrap_shift(v, -d, n);
    lemma_wrap_shift(v - d, d, n);
    lemma_wrap_shift(u, d, n);
}

/// Computes the index that `v` denotes on an axis of size `n`.
pub fn wrap_index(v: i64, n: usize) -> (r: usize)
    requires
        n > 0,
    ensures
        r == wrap(v as int, n as int),
        r < n,
{
    let size: i128 = n as i128;
    let rest: i128 = (v as i128) % size;
    let index: i128 = if rest < 0 {
        rest + size
    } else {
        rest
    };
    proof {
        if v < 0 {
            let back: int = -(v as int);
            lemma_fundamental_div_mod(back, n as int);
            let q = back / (n as int);
            let m = back % (n as int);
            if m == 0 {
                assert(v as int == (-q) * n + 0) by (nonlinear_arith)
                    requires
                        -(v as int) == n * q + m,
                        m == 0,
                ;
                lemma_fundamental_div_mod_converse(v as int, n as int, -q, 0);
            } else {
                assert(v as int == (-q - 1) * n + (n - m)) by (nonlinear_arith)
                    requires
                        -(v as int) == n * q + m,
                ;
                lemma_fundamental_div_mod_converse(v as int, n as int, -q - 1, n - m);
            }
        }
    }
    index as usize
}

/// The index one step below `i` on an axis of size `n`.
pub fn index_before(i: usize, n: usize) -> (r: usize)
    requires
        i < n,
    ensures
        r == wrap(i - 1, n as int),
        r < n,
{
    proof {
        if i == 0 {
            lemma_wrap_period(-1, n as int);
            lemma_wrap_of_index(n - 1, n as int);
        } else {
            lemma_wrap_of_index(i - 1, n as int);
        }
    }
    if i == 0 {
        n - 1
    } else {
        i - 1
    }
}

/// The index one step above `i` on an axis of size `n`.
pub fn index_after(i: usize, n: usize) -> (r: usize)
    requires
        i < n,
    ensures
        r == wrap(i + 1, n as int),
        r < n,
{
    proof {
        if i + 1 < n {
            lemma_wrap_of_index(i + 1, n as int);
        }
    }
    if i + 1 == n {
        0
    } else {
        i + 1
    }
}

} // verus!
