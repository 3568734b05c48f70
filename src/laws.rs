use vstd::prelude::*;
use crate::measurement::{abs, sign, MeasurementView};

verus! {

/// `c` stands for the value `(v_a / s_a) * (v_b / s_b)`.
pub open spec fn value_is_product(a: MeasurementView, b: MeasurementView, c: MeasurementView) -> bool {
    c.value * (a.scale * b.scale) == (a.value * b.value) * c.scale
}

/// `c` stands for the value `(v_a / s_a) / (v_b / s_b)`.
pub open spec fn value_is_quotient(a: MeasurementView, b: MeasurementView, c: MeasurementView) -> bool {
    c.value * (a.scale * b.value) == (a.value * b.scale) * c.scale
}

/// The uncertainty of `c` is its value times the sum of the relative
/// uncertainties of `a` and `b`:
/// `u_c / s_c == (u_a / |v_a| + u_b / |v_b|) * (v_c / s_c)`, multiplied out.
pub open spec fn relative_uncertainties_add(a: MeasurementView, b: MeasurementView, c: MeasurementView) -> bool {
    c.uncertainty * (abs(a.value) * abs(b.value)) == (a.uncertainty * abs(b.value) + b.uncertainty * abs(
        a.value,
    )) * c.value
}

/// The uncertainty that `m` stands for, `u_m / s_m`, is at least that of `o`.
pub open spec fn uncertainty_at_least(m: MeasurementView, o: MeasurementView) -> bool {
    m.uncertainty * o.scale >= o.uncertainty * m.scale
}

proof fn lemma_relative_identity(ua: int, ub: int, va: int, vb: int, sa: int, sb: int, aa: int, ab: int)
    by (nonlinear_arith)
    requires
        (sa == 1 && aa == va) || (sa == -1 && aa == -va),
        (sb == 1 && ab == vb) || (sb == -1 && ab == -vb),
    ensures
        (sa * (ua * vb) + sb * (ub * va)) * (aa * ab) == (ua * ab + ub * aa) * (va * vb),
{
}

proof fn lemma_scaled_identity(x: int, y: int, z: int, w: int, k: int)
    by (nonlinear_arith)
    requires
        x * y == z * w,
    ensures
        (x * k) * y == z * (w * k),
{
}

proof fn lemma_quotient_value_identity(va: int, vb: int, sa: int, sb: int)
    by (nonlinear_arith)
    ensures
        ((va * vb) * sb) * (sa * vb) == (va * sb) * ((vb * vb) * sa),
{
}

/// The product of two measurements of nonzero value is their product as
/// numbers, and its relative uncertainty is the sum of theirs.
pub proof fn lemma_product_propagates(a: MeasurementView, b: MeasurementView)
    requires
        a.value != 0,
        b.value != 0,
    ensures
        value_is_product(a, b, a.product(b)),
        relative_uncertainties_add(a, b, a.product(b)),
{
    lemma_relative_identity(
        a.uncertainty,
        b.uncertainty,
        a.value,
        b.value,
        sign(a.value),
        sign(b.value),
        abs(a.value),
        abs(b.value),
    );
}

/// The quotient of two measurements of nonzero value is their quotient as
/// numbers, and its relative uncertainty is the sum of theirs.
pub proof fn lemma_quotient_propagates(a: MeasurementView, b: MeasurementView)
    requires
        a.value != 0,
        b.value != 0,
    ensures
        value_is_quotient(a, b, a.quotient(b)),
        relative_uncertainties_add(a, b, a.quotient(b)),
{
    lemma_quotient_value_identity(a.value, b.value, a.scale, b.scale);
    lemma_relative_identity(
        a.uncertainty,
        b.uncertainty,
        a.value,
        b.value,
        sign(a.value),
        sign(b.value),
        abs(a.value),
        abs(b.value),
    );
    lemma_scaled_identity(
        a.relative_cross(b),
        abs(a.value) * abs(b.value),
        a.uncertainty * abs(b.value) + b.uncertainty * abs(a.value),
        a.value * b.value,
        b.scale,
    );
}

/// Combining two measurements of non-negative uncertainty by addition or by
/// subtraction never yields a smaller uncertainty than either of them had.
pub proof fn lemma_uncertainty_never_decreases(a: MeasurementView, b: MeasurementView)
    requires
        a.scale > 0,
        b.scale > 0,
        a.uncertainty >= 0,
        b.uncertainty >= 0,
    ensures
        uncertainty_at_least(a.sum(b), a),
        uncertainty_at_least(a.sum(b), b),
        uncertainty_at_least(a.difference(b), a),
        uncertainty_at_least(a.difference(b), b),
{
    let (ua, ub, sa, sb) = (a.uncertainty, b.uncertainty, a.scale, b.scale);
    assert((ua * sb + ub * sa) * sa >= ua * (sa * sb)) by (nonlinear_arith)
        requires
            sa > 0,
            sb > 0,
            ua >= 0,
            ub >= 0,
    ;
    assert((ua * sb + ub * sa) * sb >= ub * (sa * sb)) by (nonlinear_arith)
        requires
            sa > 0,
            sb > 0,
            ua >= 0,
            ub >= 0,
    ;
}

} // verus!
