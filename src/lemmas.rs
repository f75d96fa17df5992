//! Laws that relate several operations of the library, proved for 64-bit
//! integer scalars.
use vstd::arithmetic::div_mod::{
    lemma_div_denominator, lemma_div_multiples_vanish, lemma_div_pos_is_pos,
};
use vstd::prelude::*;

use crate::scalar::{lerp_req, spec_lerp, One};
use crate::unit::{ToCM, ToKM, ToM, ToMM, CM, KM, M, MM};

verus! {

/// Interpolating at `t == 0` returns the start point exactly, whatever the
/// end point, and the interpolation cannot overflow there.
pub proof fn lemma_lerp_at_zero(a: i64, b: i64)
    ensures
        lerp_req(a, b, 0i64),
        spec_lerp(a, b, 0i64) == a,
{
    assert(<i64 as One>::spec_one() == 1);
}

proof fn lemma_scale_back(x: int, k: int)
    requires
        k > 0,
    ensures
        x >= 0 ==> x * k >= 0 && (x * k) / k == x,
        x < 0 ==> x * k < 0 && -((-(x * k)) / k) == x,
{
    assert(x * k == k * x) by (nonlinear_arith);
    assert((-x) * k == k * (-x)) by (nonlinear_arith);
    if x >= 0 {
        lemma_div_multiples_vanish(x, k);
        assert(x * k >= 0) by (nonlinear_arith)
            requires
                x >= 0,
                k > 0,
        ;
    } else {
        lemma_div_multiples_vanish(-x, k);
        assert(x * k < 0) by (nonlinear_arith)
            requires
                x < 0,
                k > 0,
        ;
        assert((-x) * k == -(x * k)) by (nonlinear_arith);
    }
}

/// Converting a length to a finer unit and back to the coarser one returns
/// the original value exactly, wherever the first conversion does not
/// overflow: each factor is applied once each way.
pub proof fn lemma_length_round_trip(x: i64)
    ensures
        M(x).to_cm_req() ==> M(x).spec_to_cm().to_m_req() && M(x).spec_to_cm().spec_to_m() == M(x),
        M(x).to_mm_req() ==> M(x).spec_to_mm().to_m_req() && M(x).spec_to_mm().spec_to_m() == M(x),
        CM(x).to_mm_req() ==> CM(x).spec_to_mm().to_cm_req() && CM(x).spec_to_mm().spec_to_cm()
            == CM(x),
        KM(x).to_m_req() ==> KM(x).spec_to_m().to_km_req() && KM(x).spec_to_m().spec_to_km()
            == KM(x),
        KM(x).to_cm_req() ==> KM(x).spec_to_cm().to_km_req() && KM(x).spec_to_cm().spec_to_km()
            == KM(x),
        KM(x).to_mm_req() ==> KM(x).spec_to_mm().to_km_req() && KM(x).spec_to_mm().spec_to_km()
            == KM(x),
{
    lemma_scale_back(x as int, 10);
    lemma_scale_back(x as int, 100);
    lemma_scale_back(x as int, 1000);
    lemma_scale_back(x as int, 100000);
    lemma_scale_back(x as int, 1000000);
}

/// Division of `x` by `k`, truncated toward zero.
spec fn trunc_div(x: int, k: int) -> int {
    if x >= 0 {
        x / k
    } else {
        -((-x) / k)
    }
}

proof fn lemma_trunc_div_twice(x: int, c: int, d: int)
    requires
        c > 0,
        d > 0,
    ensures
        trunc_div(trunc_div(x, c), d) == trunc_div(x, c * d),
{
    assert(c * d > 0) by (nonlinear_arith)
        requires
            c > 0,
            d > 0,
    ;
    if x >= 0 {
        lemma_div_pos_is_pos(x, c);
        lemma_div_denominator(x, c, d);
    } else {
        lemma_div_pos_is_pos(-x, c);
        lemma_div_pos_is_pos(-x, c * d);
        lemma_div_denominator(-x, c, d);
        if (-x) / c == 0 {
            assert(0int / d == 0);
        }
    }
}

/// Converting a length to a coarser unit in two steps gives the same value as
/// converting it in one: integer division truncates toward zero, and
/// truncating by two factors in turn is truncating once by their product.
/// None of these conversions can overflow.
pub proof fn lemma_length_paths_agree(x: i64)
    ensures
        MM(x).to_cm_req() && MM(x).spec_to_cm().to_m_req(),
        MM(x).spec_to_cm().spec_to_m() == MM(x).spec_to_m(),
        MM(x).to_m_req() && MM(x).spec_to_m().to_km_req(),
        MM(x).spec_to_m().spec_to_km() == MM(x).spec_to_km(),
        MM(x).spec_to_cm().to_km_req(),
        MM(x).spec_to_cm().spec_to_km() == MM(x).spec_to_km(),
        CM(x).to_m_req() && CM(x).spec_to_m().to_km_req(),
        CM(x).spec_to_m().spec_to_km() == CM(x).spec_to_km(),
{
    lemma_trunc_div_twice(x as int, 10, 100);
    lemma_trunc_div_twice(x as int, 1000, 1000);
    lemma_trunc_div_twice(x as int, 10, 100000);
    lemma_trunc_div_twice(x as int, 100, 1000);
}

} // verus!
