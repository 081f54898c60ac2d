use vstd::prelude::*;
use vstd::arithmetic::div_mod::lemma_fundamental_div_mod;
use crate::domain::{constrained, constrain_to_domain};
use crate::error::Error;

verus! {

/// A damping factor `num / den` lies in `(0, 1]`.
pub open spec fn gamma_valid(num: int, den: int) -> bool {
    (den > 0 && 0 < num <= den) || (den < 0 && den <= num < 0)
}

/// `a / b` rounded toward negative infinity, for `b != 0`.
pub open spec fn floor_div(a: int, b: int) -> int {
    if b > 0 { a / b } else { (-a) / (-b) }
}

/// The damped Newton step `(num / den) * hessian⁻¹ * gradient`, rounded
/// toward negative infinity.
pub open spec fn damped_step(gradient: int, hessian: int, num: int, den: int) -> int {
    floor_div(num * gradient, den * hessian)
}

/// The unconstrained candidate: the current parameter minus the damped step.
pub open spec fn newton_candidate(
    param: int,
    gradient: int,
    hessian: int,
    num: int,
    den: int,
) -> int {
    param - damped_step(gradient, hessian, num, den)
}

/// Whether a candidate overshoots the domain `[low, high]` by at most one span.
pub open spec fn within_one_span(low: int, high: int, c: int) -> bool {
    low - (high - low) <= c <= high + (high - low)
}

proof fn lemma_floor_div_bounded(x: int, d: int, m: int)
    requires
        d > 0,
        m >= 0,
        -m <= x <= m,
    ensures
        -m <= x / d <= m,
{
    lemma_fundamental_div_mod(x, d);
    let q = x / d;
    let r = x % d;
    assert(-m <= q <= m) by (nonlinear_arith)
        requires
            x == d * q + r,
            0 <= r < d,
            d > 0,
            m >= 0,
            -m <= x <= m,
    ;
}

/// A damped Newton iteration for the parameter of a curve closest to a query
/// point, kept inside the parameter domain `knot_domain`.
#[derive(Clone, Copy, Debug)]
pub struct ClosestParameterNewton {
    /// Numerator of the damping factor.
    pub gamma_num: i64,
    /// Denominator of the damping factor.
    pub gamma_den: i64,
    /// The parameter domain `(low, high)`.
    pub knot_domain: (i64, i64),
    /// Whether the curve is closed, so that its domain wraps around.
    pub closed: bool,
}

impl ClosestParameterNewton {
    /// The domain is ordered and the damping factor lies in `(0, 1]`.
    pub open spec fn wf(&self) -> bool {
        &&& self.knot_domain.0 <= self.knot_domain.1
        &&& gamma_valid(self.gamma_num as int, self.gamma_den as int)
    }

    /// A step over `domain`, for a closed or an open curve, with no damping.
    pub fn new(domain: (i64, i64), closed: bool) -> (r: Self)
        requires
            domain.0 <= domain.1,
        ensures
            r.knot_domain == domain,
            r.closed == closed,
            r.gamma_num == 1,
            r.gamma_den == 1,
            r.wf(),
    {
        ClosestParameterNewton { gamma_num: 1, gamma_den: 1, knot_domain: domain, closed }
    }

    /// Sets the damping factor to `gamma_num / gamma_den`, which must lie in
    /// `(0, 1]`.
    pub fn with_gamma(self, gamma_num: i64, gamma_den: i64) -> (r: Result<Self, Error>)
        ensures
            gamma_valid(gamma_num as int, gamma_den as int) ==> r == Ok::<Self, Error>(
                (ClosestParameterNewton { gamma_num, gamma_den, ..self }),
            ),
            !gamma_valid(gamma_num as int, gamma_den as int) ==> r == Err::<Self, Error>(
                Error::InvalidParameter,
            ),
    {
        let valid = (gamma_den > 0 && 0 < gamma_num && gamma_num <= gamma_den) || (gamma_den < 0
            && gamma_den <= gamma_num && gamma_num < 0);
        if !valid {
            return Err(Error::InvalidParameter);
        }
        Ok(ClosestParameterNewton { gamma_num, gamma_den, ..self })
    }

    /// One Newton iteration from `param`, given the gradient and the Hessian of
    /// the distance objective there: the damped step is taken and the
    /// candidate brought back into the domain.
    pub fn next_iter(&self, param: i64, gradient: i64, hessian: i64) -> (r: Result<i64, Error>)
        requires
            self.wf(),
        ensures
            hessian == 0 ==> r == Err::<i64, Error>(Error::SingularMatrix),
            hessian != 0 ==> {
                let v = constrained(
                    self.knot_domain.0 as int,
                    self.knot_domain.1 as int,
                    self.closed,
                    newton_candidate(
                        param as int,
                        gradient as int,
                        hessian as int,
                        self.gamma_num as int,
                        self.gamma_den as int,
                    ),
                );
                &&& i64::MIN <= v <= i64::MAX ==> r == Ok::<i64, Error>(v as i64)
                &&& !(i64::MIN <= v <= i64::MAX) ==> r == Err::<i64, Error>(
                    Error::ParameterOverflow,
                )
            },
            hessian != 0 && (!self.closed || within_one_span(
                self.knot_domain.0 as int,
                self.knot_domain.1 as int,
                newton_candidate(
                    param as int,
                    gradient as int,
                    hessian as int,
                    self.gamma_num as int,
                    self.gamma_den as int,
                ),
            )) ==> {
                &&& r is Ok
                &&& self.knot_domain.0 <= r->Ok_0 <= self.knot_domain.1
            },
    {
        if hessian == 0 {
            return Err(Error::SingularMatrix);
        }
        let ghost bound: int = 0x4000_0000_0000_0000_0000_0000_0000_0000;
        proof {
            let g = gradient as int;
            let h = hessian as int;
            let n = self.gamma_num as int;
            let d = self.gamma_den as int;
            assert(-bound <= n * g <= bound) by (nonlinear_arith)
                requires
                    -0x8000_0000_0000_0000 <= n <= 0x7fff_ffff_ffff_ffff,
                    -0x8000_0000_0000_0000 <= g <= 0x7fff_ffff_ffff_ffff,
                    bound == 0x4000_0000_0000_0000_0000_0000_0000_0000,
            ;
            assert(-bound <= d * h <= bound && d * h != 0) by (nonlinear_arith)
                requires
                    -0x8000_0000_0000_0000 <= d <= 0x7fff_ffff_ffff_ffff,
                    -0x8000_0000_0000_0000 <= h <= 0x7fff_ffff_ffff_ffff,
                    d != 0,
                    h != 0,
                    bound == 0x4000_0000_0000_0000_0000_0000_0000_0000,
            ;
        }
        let scaled_gradient: i128 = self.gamma_num as i128 * gradient as i128;
        let scaled_hessian: i128 = self.gamma_den as i128 * hessian as i128;
        let (dividend, divisor): (i128, i128) = if scaled_hessian > 0 {
            (scaled_gradient, scaled_hessian)
        } else {
            (-scaled_gradient, -scaled_hessian)
        };
        proof {
            lemma_floor_div_bounded(dividend as int, divisor as int, bound);
        }
        let step: i128 = match dividend.checked_div_euclid(divisor) {
            Some(q) => q,
            None => return Err(Error::ParameterOverflow),
        };
        let candidate: i128 = param as i128 - step;
        let (low, high) = self.knot_domain;
        let v: i128 = constrain_to_domain(low, high, self.closed, candidate);
        if v < i64::MIN as i128 || v > i64::MAX as i128 {
            Err(Error::ParameterOverflow)
        } else {
            Ok(v as i64)
        }
    }
}

} // verus!
