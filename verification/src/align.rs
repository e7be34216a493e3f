//! Alignment arithmetic: rounding an offset up to the next multiple of an
//! alignment, as the layout engine does before each field and at the end of
//! a record.

use vstd::prelude::*;

verus! {

use vstd::arithmetic::div_mod::{
    lemma_fundamental_div_mod, lemma_mod_bound, lemma_mod_multiples_vanish, lemma_small_mod,
};

/// Round `x` up to the next multiple of `w`.
pub open spec fn align_up(x: int, w: int) -> int
    recommends
        x >= 0,
        w > 0,
{
    if x % w == 0 {
        x
    } else {
        x + (w - x % w)
    }
}

/// The rounded value is a multiple of the alignment and lies within one
/// alignment above the original value.
pub proof fn lemma_align_up(x: int, w: int)
    requires
        x >= 0,
        w > 0,
    ensures
        align_up(x, w) % w == 0,
        x <= align_up(x, w) < x + w,
{
    lemma_mod_bound(x, w);
    if x % w != 0 {
        let r = x % w;
        lemma_fundamental_div_mod(x, w);
        assert(x + (w - r) == w * (x / w + 1)) by (nonlinear_arith)
            requires
                x == w * (x / w) + r,
        ;
        lemma_mod_multiples_vanish(x / w + 1, 0, w);
        lemma_small_mod(0nat, w as nat);
    }
}

/// Two distinct multiples of `w` differ by at least `w`.
pub proof fn lemma_multiples_apart(a: int, b: int, w: int)
    requires
        w > 0,
        a % w == 0,
        b % w == 0,
        a > b,
    ensures
        a >= b + w,
{
    lemma_fundamental_div_mod(a, w);
    lemma_fundamental_div_mod(b, w);
    assert(a == w * (a / w) && b == w * (b / w) && a > b && w > 0 ==> a >= b + w)
        by (nonlinear_arith);
}

/// Rounding up is monotone in the value being rounded.
pub proof fn lemma_align_up_monotone(x: int, y: int, w: int)
    requires
        0 <= x <= y,
        w > 0,
    ensures
        align_up(x, w) <= align_up(y, w),
{
    lemma_align_up(x, w);
    lemma_align_up(y, w);
    if align_up(x, w) > align_up(y, w) {
        lemma_multiples_apart(align_up(x, w), align_up(y, w), w);
        assert(false);
    }
}

} // verus!
