use vstd::prelude::*;
use crate::laws::{
    lemma_product_propagates, lemma_quotient_propagates, relative_uncertainties_add,
    value_is_product, value_is_quotient,
};

verus! {

/// The mathematical content of a [`Measurement`]: the value `value / scale`
/// known to within `uncertainty / scale`.
pub struct MeasurementView {
    pub value: int,
    pub uncertainty: int,
    pub scale: int,
}

/// Why two measurements could not be combined.
#[derive(Debug, Clone, Copy, PartialEq, Eq, Structural)]
pub enum PropagationError {
    /// A factor, dividend or divisor has the value zero, so its relative
    /// uncertainty `uncertainty / |value|` does not exist.
    ZeroMagnitude,
    /// The exact result does not fit the integer fields of a [`Measurement`].
    OutOfRange,
}

/// Sign of `x`: `1`, `0` or `-1`.
pub open spec fn sign(x: int) -> int {
    if x > 0 {
        1
    } else if x < 0 {
        -1
    } else {
        0
    }
}

/// Absolute value of `x`.
pub open spec fn abs(x: int) -> int {
    if x < 0 {
        -x
    } else {
        x
    }
}

impl MeasurementView {
    /// The numerators and the scale can be held by a [`Measurement`].
    pub open spec fn fits(self) -> bool {
        &&& i64::MIN <= self.value <= i64::MAX
        &&& i64::MIN <= self.uncertainty <= i64::MAX
        &&& 0 < self.scale <= u64::MAX
    }

    /// `self + o` over the product of the two scales: the values add and,
    /// as for independent errors in the worst case, so do the uncertainties.
    pub open spec fn sum(self, o: Self) -> Self {
        MeasurementView {
            value: self.value * o.scale + o.value * self.scale,
            uncertainty: self.uncertainty * o.scale + o.uncertainty * self.scale,
            scale: self.scale * o.scale,
        }
    }

    /// `self - o` over the product of the two scales: the values subtract,
    /// the uncertainties still add.
    pub open spec fn difference(self, o: Self) -> Self {
        MeasurementView {
            value: self.value * o.scale - o.value * self.scale,
            uncertainty: self.uncertainty * o.scale + o.uncertainty * self.scale,
            scale: self.scale * o.scale,
        }
    }

    /// `(u_a / |v_a| + u_b / |v_b|) * v_a * v_b` for `a = self`, `b = o`,
    /// written without division: the sum of the relative uncertainties
    /// times the product of the values.
    pub open spec fn relative_cross(self, o: Self) -> int {
        sign(self.value) * (self.uncertainty * o.value) + sign(o.value) * (o.uncertainty * self.value)
    }

    /// `self * o` over the product of the two scales: the values multiply
    /// and the relative uncertainties add.
    pub open spec fn product(self, o: Self) -> Self {
        MeasurementView {
            value: self.value * o.value,
            uncertainty: self.relative_cross(o),
            scale: self.scale * o.scale,
        }
    }

    /// `self / o` over the scale `self.scale * o.value²`: the values divide
    /// and the relative uncertainties add.
    pub open spec fn quotient(self, o: Self) -> Self {
        MeasurementView {
            value: (self.value * o.value) * o.scale,
            uncertainty: self.relative_cross(o) * o.scale,
            scale: (o.value * o.value) * self.scale,
        }
    }
}

/// A measured value paired with its absolute uncertainty, both counted in
/// units of `1 / scale`.
#[derive(Debug, Clone, Copy)]
pub struct Measurement {
    measurement: i64,
    uncertainty: i64,
    scale: u64,
}

impl View for Measurement {
    type V = MeasurementView;

    closed spec fn view(&self) -> MeasurementView {
        MeasurementView {
            value: self.measurement as int,
            uncertainty: self.uncertainty as int,
            scale: self.scale as int,
        }
    }
}

impl Measurement {
    #[verifier::type_invariant]
    spec fn well_formed(self) -> bool {
        self.scale > 0
    }

    /// The measurement `measurement / scale ± uncertainty / scale`.
    ///
    /// The uncertainty is not checked: a negative one is accepted and
    /// propagated by the same rules as any other.
    pub fn new(measurement: i64, uncertainty: i64, scale: u64) -> (m: Self)
        requires
            scale > 0,
        ensures
            m@ == (MeasurementView {
                value: measurement as int,
                uncertainty: uncertainty as int,
                scale: scale as int,
            }),
    {
        Measurement { measurement, uncertainty, scale }
    }

    /// Numerator of the measured value.
    pub fn get_measurement(&self) -> (r: i64)
        ensures
            r == self@.value,
    {
        self.measurement
    }

    /// Numerator of the uncertainty.
    pub fn get_uncertainty(&self) -> (r: i64)
        ensures
            r == self@.uncertainty,
    {
        self.uncertainty
    }

    /// Common denominator of the value and the uncertainty; always positive.
    pub fn get_scale(&self) -> (r: u64)
        ensures
            r == self@.scale,
            r > 0,
    {
        proof {
            use_type_invariant(self);
        }
        self.scale
    }

    /// `self + rhs`: the values add and the absolute uncertainties add.
    pub fn add(&self, rhs: &Measurement) -> (r: Result<Measurement, PropagationError>)
        ensures
            r is Ok <==> self@.sum(rhs@).fits(),
            r matches Ok(c) ==> c@ == self@.sum(rhs@),
            r matches Err(e) ==> e == PropagationError::OutOfRange,
    {
        proof {
            use_type_invariant(self);
            use_type_invariant(rhs);
        }
        let (value, uncertainty, scale) = cross_sums(self, rhs, false);
        let (value, uncertainty, scale) = match (value, uncertainty) {
            (Some(v), Some(u)) => (v, u, scale),
            _ => return Err(PropagationError::OutOfRange),
        };
        narrow(value, uncertainty, scale)
    }

    /// `self - rhs`: the values subtract and the absolute uncertainties add.
    pub fn subtract(&self, rhs: &Measurement) -> (r: Result<Measurement, PropagationError>)
        ensures
            r is Ok <==> self@.difference(rhs@).fits(),
            r matches Ok(c) ==> c@ == self@.difference(rhs@),
            r matches Err(e) ==> e == PropagationError::OutOfRange,
    {
        proof {
            use_type_invariant(self);
            use_type_invariant(rhs);
        }
        let (value, uncertainty, scale) = cross_sums(self, rhs, true);
        let (value, uncertainty, scale) = match (value, uncertainty) {
            (Some(v), Some(u)) => (v, u, scale),
            _ => return Err(PropagationError::OutOfRange),
        };
        narrow(value, uncertainty, scale)
    }

    /// `self * rhs`: the values multiply and the relative uncertainties
    /// `uncertainty / |value|` add. The result's uncertainty is that sum
    /// times the result's value, so it takes the sign of the product.
    pub fn multiply(&self, rhs: &Measurement) -> (r: Result<Measurement, PropagationError>)
        ensures
            r == Err::<Measurement, PropagationError>(PropagationError::ZeroMagnitude) <==> (
            self@.value == 0 || rhs@.value == 0),
            r is Ok <==> self@.value != 0 && rhs@.value != 0 && self@.product(rhs@).fits(),
            r matches Ok(c) ==> c@ == self@.product(rhs@),
            r matches Ok(c) ==> value_is_product(self@, rhs@, c@),
            r matches Ok(c) ==> relative_uncertainties_add(self@, rhs@, c@),
    {
        proof {
            use_type_invariant(self);
            use_type_invariant(rhs);
        }
        if self.measurement == 0 || rhs.measurement == 0 {
            return Err(PropagationError::ZeroMagnitude);
        }
        proof {
            lemma_product_propagates(self@, rhs@);
            lemma_narrow_product(self.measurement as int, rhs.measurement as int);
            lemma_scale_product(self.scale as int, rhs.scale as int);
        }
        let value = (self.measurement as i128) * (rhs.measurement as i128);
        let uncertainty = match relative_cross(self, rhs) {
            Some(u) => u,
            None => return Err(PropagationError::OutOfRange),
        };
        narrow(value, uncertainty, (self.scale as u128) * (rhs.scale as u128))
    }

    /// `self / rhs`: the values divide and the relative uncertainties
    /// `uncertainty / |value|` add. The result's uncertainty is that sum
    /// times the result's value, so it takes the sign of the quotient.
    pub fn divide(&self, rhs: &Measurement) -> (r: Result<Measurement, PropagationError>)
        ensures
            r == Err::<Measurement, PropagationError>(PropagationError::ZeroMagnitude) <==> (
            self@.value == 0 || rhs@.value == 0),
            r is Ok <==> self@.value != 0 && rhs@.value != 0 && self@.quotient(rhs@).fits(),
            r matches Ok(c) ==> c@ == self@.quotient(rhs@),
            r matches Ok(c) ==> value_is_quotient(self@, rhs@, c@),
            r matches Ok(c) ==> relative_uncertainties_add(self@, rhs@, c@),
    {
        proof {
            use_type_invariant(self);
            use_type_invariant(rhs);
        }
        if self.measurement == 0 || rhs.measurement == 0 {
            return Err(PropagationError::ZeroMagnitude);
        }
        proof {
            lemma_quotient_propagates(self@, rhs@);
            lemma_narrow_product(self.measurement as int, rhs.measurement as int);
            lemma_narrow_product(rhs.measurement as int, rhs.measurement as int);
        }
        let sb = rhs.scale as i128;
        let value = match ((self.measurement as i128) * (rhs.measurement as i128)).checked_mul(sb) {
            Some(v) => v,
            None => return Err(PropagationError::OutOfRange),
        };
        proof {
            lemma_widen_stays_out(self@.relative_cross(rhs@), rhs.scale as int);
        }
        let cross = match relative_cross(self, rhs) {
            Some(u) => u,
            None => return Err(PropagationError::OutOfRange),
        };
        let uncertainty = match cross.checked_mul(sb) {
            Some(u) => u,
            None => return Err(PropagationError::OutOfRange),
        };
        proof {
            let vb = rhs.measurement as int;
            assert(vb * vb > 0) by (nonlinear_arith)
                requires
                    vb != 0,
            ;
            let sq = vb * vb;
            let sa = self.scale as int;
            assert(sq * sa > 0) by (nonlinear_arith)
                requires
                    sq > 0,
                    sa > 0,
            ;
        }
        let square = ((rhs.measurement as i128) * (rhs.measurement as i128)) as u128;
        let scale = match square.checked_mul(self.scale as u128) {
            Some(s) => s,
            None => return Err(PropagationError::OutOfRange),
        };
        narrow(value, uncertainty, scale)
    }
}

/// `a@.relative_cross(b@)` in a wide integer, or `None` when it lies outside
/// `i128`, far outside `i64`.
fn relative_cross(a: &Measurement, b: &Measurement) -> (r: Option<i128>)
    requires
        a@.value != 0,
        b@.value != 0,
    ensures
        r is Some <==> i128::MIN <= a@.relative_cross(b@) <= i128::MAX,
        r matches Some(u) ==> u == a@.relative_cross(b@),
{
    proof {
        lemma_narrow_product(a.uncertainty as int, b.measurement as int);
        lemma_narrow_product(b.uncertainty as int, a.measurement as int);
    }
    let ta = (a.uncertainty as i128) * (b.measurement as i128);
    let tb = (b.uncertainty as i128) * (a.measurement as i128);
    let ta = if a.measurement < 0 {
        -ta
    } else {
        ta
    };
    let tb = if b.measurement < 0 {
        -tb
    } else {
        tb
    };
    proof {
        lemma_signed(a@.value, a@.uncertainty * b@.value);
        lemma_signed(b@.value, b@.uncertainty * a@.value);
    }
    ta.checked_add(tb)
}

/// `a.value * b.scale ± b.value * a.scale` and
/// `a.uncertainty * b.scale + b.uncertainty * a.scale` in wide integers, and
/// the product of the scales. A numerator is `None` exactly when it lies
/// outside `i128`, which is far outside `i64`.
fn cross_sums(a: &Measurement, b: &Measurement, negate: bool) -> (r: (Option<i128>, Option<i128>, u128))
    requires
        a@.scale > 0,
        b@.scale > 0,
    ensures
        ({
            let m = if negate { a@.difference(b@) } else { a@.sum(b@) };
            &&& r.0 is Some <==> i128::MIN <= m.value <= i128::MAX
            &&& r.0 matches Some(v) ==> v == m.value
            &&& r.1 is Some <==> i128::MIN <= m.uncertainty <= i128::MAX
            &&& r.1 matches Some(u) ==> u == m.uncertainty
            &&& r.2 == m.scale
            &&& r.2 > 0
        }),
{
    let sa = a.scale as i128;
    let sb = b.scale as i128;
    proof {
        lemma_wide_product(a.measurement as int, sb as int);
        lemma_wide_product(b.measurement as int, sa as int);
        lemma_wide_product(a.uncertainty as int, sb as int);
        lemma_wide_product(b.uncertainty as int, sa as int);
        lemma_scale_product(a.scale as int, b.scale as int);
    }
    let va = (a.measurement as i128) * sb;
    let vb = (b.measurement as i128) * sa;
    let value = if negate {
        va.checked_sub(vb)
    } else {
        va.checked_add(vb)
    };
    let uncertainty = ((a.uncertainty as i128) * sb).checked_add((b.uncertainty as i128) * sa);
    (value, uncertainty, (a.scale as u128) * (b.scale as u128))
}

/// The measurement with the given numerators and scale, when they fit.
fn narrow(value: i128, uncertainty: i128, scale: u128) -> (r: Result<Measurement, PropagationError>)
    requires
        scale > 0,
    ensures
        ({
            let m = MeasurementView {
                value: value as int,
                uncertainty: uncertainty as int,
                scale: scale as int,
            };
            &&& r is Ok <==> m.fits()
            &&& r matches Ok(c) ==> c@ == m
            &&& r matches Err(e) ==> e == PropagationError::OutOfRange
        }),
{
    if value < i64::MIN as i128 || value > i64::MAX as i128 || uncertainty < i64::MIN as i128
        || uncertainty > i64::MAX as i128 || scale > u64::MAX as u128 {
        Err(PropagationError::OutOfRange)
    } else {
        Ok(Measurement { measurement: value as i64, uncertainty: uncertainty as i64, scale: scale as u64 })
    }
}

/// A product of an `i64` and a positive `u64` fits in an `i128`.
proof fn lemma_wide_product(x: int, y: int)
    requires
        i64::MIN <= x <= i64::MAX,
        0 < y <= u64::MAX,
    ensures
        i128::MIN < x * y < i128::MAX,
{
    assert(i128::MIN < x * y < i128::MAX) by (nonlinear_arith)
        requires
            -0x8000_0000_0000_0000 <= x <= 0x7fff_ffff_ffff_ffff,
            0 < y <= 0xffff_ffff_ffff_ffff,
    ;
}

/// Multiplying by the sign of a nonzero `v` keeps `x` or negates it.
proof fn lemma_signed(v: int, x: int)
    requires
        v != 0,
    ensures
        sign(v) * x == if v < 0 {
            -x
        } else {
            x
        },
{
}

/// A product of two `i64` lies within `±2^126`.
proof fn lemma_narrow_product(x: int, y: int)
    requires
        i64::MIN <= x <= i64::MAX,
        i64::MIN <= y <= i64::MAX,
    ensures
        -0x4000_0000_0000_0000_0000_0000_0000_0000 <= x * y <= 0x4000_0000_0000_0000_0000_0000_0000_0000,
{
    assert(-0x4000_0000_0000_0000_0000_0000_0000_0000 <= x * y <= 0x4000_0000_0000_0000_0000_0000_0000_0000)
        by (nonlinear_arith)
        requires
            -0x8000_0000_0000_0000 <= x <= 0x7fff_ffff_ffff_ffff,
            -0x8000_0000_0000_0000 <= y <= 0x7fff_ffff_ffff_ffff,
    ;
}

/// Multiplying by a positive integer moves no value closer to zero.
proof fn lemma_widen_stays_out(x: int, k: int)
    requires
        k > 0,
    ensures
        x >= 0 ==> x * k >= x,
        x <= 0 ==> x * k <= x,
{
    assert(x >= 0 ==> x * k >= x) by (nonlinear_arith)
        requires
            k > 0,
    ;
    assert(x <= 0 ==> x * k <= x) by (nonlinear_arith)
        requires
            k > 0,
    ;
}

/// A product of two positive `u64` is positive and fits in a `u128`.
proof fn lemma_scale_product(x: int, y: int)
    requires
        0 < x <= u64::MAX,
        0 < y <= u64::MAX,
    ensures
        0 < x * y <= u128::MAX,
{
    assert(0 < x * y <= u128::MAX) by (nonlinear_arith)
        requires
            0 < x <= 0xffff_ffff_ffff_ffff,
            0 < y <= 0xffff_ffff_ffff_ffff,
    ;
}

} // verus!
