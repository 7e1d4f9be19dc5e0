use vstd::prelude::*;
use crate::scalar::{isqrt, lemma_isqrt_exists, norm, norm3, Scalar, SCALE};
use crate::validity::IsValid;

verus! {

/// A vector in three-dimensional space.
#[derive(Clone, Copy, Debug)]
pub struct Vector3d {
    pub x: Scalar,
    pub y: Scalar,
    pub z: Scalar,
}

impl Vector3d {
    pub open spec fn spec_add(self, o: Vector3d) -> Vector3d {
        Vector3d { x: self.x.spec_add(o.x), y: self.y.spec_add(o.y), z: self.z.spec_add(o.z) }
    }

    pub open spec fn spec_sub(self, o: Vector3d) -> Vector3d {
        Vector3d { x: self.x.spec_sub(o.x), y: self.y.spec_sub(o.y), z: self.z.spec_sub(o.z) }
    }

    pub open spec fn spec_mul(self, o: Vector3d) -> Vector3d {
        Vector3d { x: self.x.spec_mul(o.x), y: self.y.spec_mul(o.y), z: self.z.spec_mul(o.z) }
    }

    pub open spec fn spec_div(self, o: Vector3d) -> Vector3d {
        Vector3d { x: self.x.spec_div(o.x), y: self.y.spec_div(o.y), z: self.z.spec_div(o.z) }
    }

    pub open spec fn spec_scale(self, f: Scalar) -> Vector3d {
        Vector3d { x: self.x.spec_mul(f), y: self.y.spec_mul(f), z: self.z.spec_mul(f) }
    }

    pub open spec fn spec_shrink(self, f: Scalar) -> Vector3d {
        Vector3d { x: self.x.spec_div(f), y: self.y.spec_div(f), z: self.z.spec_div(f) }
    }

    /// Exact componentwise equality; a vector with an unset component equals nothing.
    pub open spec fn spec_eq(self, o: Vector3d) -> bool {
        self.x.spec_eq(o.x) && self.y.spec_eq(o.y) && self.z.spec_eq(o.z)
    }

    pub open spec fn spec_length(self) -> Scalar {
        norm(self.x, self.y, self.z)
    }

    pub open spec fn spec_cross(self, b: Vector3d) -> Vector3d {
        Vector3d {
            x: self.y.spec_mul(b.z).spec_sub(self.z.spec_mul(b.y)),
            y: self.z.spec_mul(b.x).spec_sub(self.x.spec_mul(b.z)),
            z: self.x.spec_mul(b.y).spec_sub(self.y.spec_mul(b.x)),
        }
    }

    /// A value with every component unset.
    pub open spec fn unset_value() -> Vector3d {
        Vector3d { x: Scalar::Unset, y: Scalar::Unset, z: Scalar::Unset }
    }

    /// The whole factor that brings a vector of raw length `l`, shorter than
    /// one unit, to at least one unit.
    pub open spec fn magnification(l: int) -> int {
        (SCALE as int) / l + 1
    }

    /// The vector itself, or, where its length is finite, nonzero and below
    /// one unit, the vector magnified to at least one unit.
    pub open spec fn spec_magnified(self) -> Vector3d {
        let len = self.spec_length();
        if len is Finite && 0 < len->Finite_0 < SCALE {
            self.spec_scale(crate::scalar::saturate(Vector3d::magnification(len->Finite_0 as int) * SCALE))
        } else {
            self
        }
    }

    /// The vector in the same direction with unit length.
    pub open spec fn spec_unitize(self) -> Vector3d {
        let w = self.spec_magnified();
        w.spec_shrink(w.spec_length())
    }

    pub fn new(x: Scalar, y: Scalar, z: Scalar) -> (r: Vector3d)
        ensures
            r == (Vector3d { x, y, z }),
    {
        Vector3d { x, y, z }
    }

    /// The origin, (0, 0, 0).
    pub fn origin() -> (r: Vector3d)
        ensures
            r == (Vector3d { x: Scalar::Finite(0), y: Scalar::Finite(0), z: Scalar::Finite(0) }),
    {
        Vector3d::new(Scalar::zero(), Scalar::zero(), Scalar::zero())
    }

    /// A vector that does not exist: every component unset.
    pub fn unset() -> (r: Vector3d)
        ensures
            r == Vector3d::unset_value(),
    {
        Vector3d::new(Scalar::Unset, Scalar::Unset, Scalar::Unset)
    }

    /// The vector at the edge of positive infinity.
    pub fn infinity() -> (r: Vector3d)
        ensures
            r == (Vector3d { x: Scalar::Infinity, y: Scalar::Infinity, z: Scalar::Infinity }),
    {
        Vector3d::new(Scalar::Infinity, Scalar::Infinity, Scalar::Infinity)
    }

    /// The vector at the edge of negative infinity.
    pub fn negative_infinity() -> (r: Vector3d)
        ensures
            r == (Vector3d { x: Scalar::NegInfinity, y: Scalar::NegInfinity, z: Scalar::NegInfinity }),
    {
        Vector3d::new(Scalar::NegInfinity, Scalar::NegInfinity, Scalar::NegInfinity)
    }

    /// The largest finite vector.
    pub fn max() -> (r: Vector3d)
        ensures
            r == (Vector3d { x: Scalar::Finite(i64::MAX), y: Scalar::Finite(i64::MAX), z: Scalar::Finite(i64::MAX) }),
    {
        Vector3d::new(Scalar::max_value(), Scalar::max_value(), Scalar::max_value())
    }

    /// The smallest finite vector.
    pub fn min() -> (r: Vector3d)
        ensures
            r == (Vector3d { x: Scalar::Finite(i64::MIN), y: Scalar::Finite(i64::MIN), z: Scalar::Finite(i64::MIN) }),
    {
        Vector3d::new(Scalar::min_value(), Scalar::min_value(), Scalar::min_value())
    }

    /// The unit vector along the x axis.
    pub fn xaxis() -> (r: Vector3d)
        ensures
            r == (Vector3d { x: Scalar::Finite(SCALE), y: Scalar::Finite(0), z: Scalar::Finite(0) }),
    {
        Vector3d::new(Scalar::one(), Scalar::zero(), Scalar::zero())
    }

    /// The unit vector along the y axis.
    pub fn yaxis() -> (r: Vector3d)
        ensures
            r == (Vector3d { x: Scalar::Finite(0), y: Scalar::Finite(SCALE), z: Scalar::Finite(0) }),
    {
        Vector3d::new(Scalar::zero(), Scalar::one(), Scalar::zero())
    }

    /// The unit vector along the z axis.
    pub fn zaxis() -> (r: Vector3d)
        ensures
            r == (Vector3d { x: Scalar::Finite(0), y: Scalar::Finite(0), z: Scalar::Finite(SCALE) }),
    {
        Vector3d::new(Scalar::zero(), Scalar::zero(), Scalar::one())
    }

    /// Componentwise sum.
    pub fn add(p1: &Vector3d, p2: &Vector3d) -> (r: Vector3d)
        ensures
            r == p1.spec_add(*p2),
    {
        Vector3d::new(p1.x.add(p2.x), p1.y.add(p2.y), p1.z.add(p2.z))
    }

    /// Componentwise difference `lhs - rhs`.
    pub fn subtract(lhs: &Vector3d, rhs: &Vector3d) -> (r: Vector3d)
        ensures
            r == lhs.spec_sub(*rhs),
    {
        Vector3d::new(lhs.x.sub(rhs.x), lhs.y.sub(rhs.y), lhs.z.sub(rhs.z))
    }

    /// Componentwise product.
    pub fn multiply(p1: &Vector3d, p2: &Vector3d) -> (r: Vector3d)
        ensures
            r == p1.spec_mul(*p2),
    {
        Vector3d::new(p1.x.mul(p2.x), p1.y.mul(p2.y), p1.z.mul(p2.z))
    }

    /// Every component multiplied by `factor`.
    pub fn multiply_by_factor(p1: &Vector3d, factor: Scalar) -> (r: Vector3d)
        ensures
            r == p1.spec_scale(factor),
    {
        Vector3d::new(p1.x.mul(factor), p1.y.mul(factor), p1.z.mul(factor))
    }

    /// Componentwise quotient `lhs / rhs`.
    pub fn divide(lhs: &Vector3d, rhs: &Vector3d) -> (r: Vector3d)
        ensures
            r == lhs.spec_div(*rhs),
    {
        Vector3d::new(lhs.x.div(rhs.x), lhs.y.div(rhs.y), lhs.z.div(rhs.z))
    }

    /// Every component divided by `factor`.
    pub fn divide_by_factor(p1: &Vector3d, factor: Scalar) -> (r: Vector3d)
        ensures
            r == p1.spec_shrink(factor),
    {
        Vector3d::new(p1.x.div(factor), p1.y.div(factor), p1.z.div(factor))
    }

    /// Euclidean length.
    pub fn length(&self) -> (r: Scalar)
        ensures
            r == self.spec_length(),
    {
        norm3(self.x, self.y, self.z)
    }

    /// The vector divided by its own length.
    ///
    /// A vector shorter than one unit is first magnified by a whole factor,
    /// which keeps its direction, so that the division is not coarsened by
    /// the fixed-point grid.
    pub fn unitize(vec: &Vector3d) -> (r: Vector3d)
        ensures
            r == vec.spec_unitize(),
            vec.valid() && vec.spec_length() is Finite && vec.spec_length()->Finite_0 > 0 ==> {
                &&& r.spec_length() is Finite
                &&& SCALE - 4 <= r.spec_length()->Finite_0 <= SCALE + 1
            },
    {
        let len = vec.length();
        let w = match len {
            Scalar::Finite(l) => {
                if 0 < l && l < SCALE {
                    Vector3d::multiply_by_factor(vec, Scalar::from_units(SCALE / l + 1))
                } else {
                    *vec
                }
            },
            _ => *vec,
        };
        proof {
            if vec.valid() && vec.spec_length() is Finite && vec.spec_length()->Finite_0 > 0 {
                lemma_unitize_length(*vec);
            }
        }
        Vector3d::divide_by_factor(&w, w.length())
    }

    /// The cross product `a × b`, orthogonal to both.
    pub fn cross_product(a: &Vector3d, b: &Vector3d) -> (r: Vector3d)
        ensures
            r == a.spec_cross(*b),
    {
        Vector3d::new(
            a.y.mul(b.z).sub(a.z.mul(b.y)),
            a.z.mul(b.x).sub(a.x.mul(b.z)),
            a.x.mul(b.y).sub(a.y.mul(b.x)),
        )
    }
}

/// A vector built from three scalars is valid exactly when all three are
/// finite: any unset or infinite component makes it invalid.
pub proof fn lemma_vector_validity(x: Scalar, y: Scalar, z: Scalar)
    ensures
        (Vector3d { x, y, z }).valid() <==> (x.is_finite() && y.is_finite() && z.is_finite()),
{
}

/// Adding `b` to a valid `a` and subtracting it again gives `a` back exactly,
/// wherever the sum itself stays within range.
pub proof fn lemma_vector_add_sub_round_trip(a: Vector3d, b: Vector3d)
    requires
        a.valid(),
        b.valid(),
        a.spec_add(b).valid(),
    ensures
        a.spec_add(b).spec_sub(b) == a,
{
}

/// One component of a unitized vector: `a` is the magnitude of a component,
/// `l` the length (at least `a`), and `q` the rounded-down quotient `a / l`
/// in raw units.
proof fn lemma_unit_component(a: int, l: int, q: int)
    requires
        0 <= a <= l,
        l >= 1,
        q == (a * SCALE) / l,
    ensures
        0 <= q <= SCALE,
        q * q * (l * l) <= a * a * (SCALE * SCALE),
        a * a * (SCALE * SCALE) < (q + 1) * (q + 1) * (l * l),
{
    let s = SCALE as int;
    assert(a * s >= 0) by (nonlinear_arith)
        requires
            a >= 0,
            s > 0,
    ;
    vstd::arithmetic::div_mod::lemma_fundamental_div_mod(a * s, l);
    vstd::arithmetic::div_mod::lemma_mod_pos_bound(a * s, l);
    assert(q * l <= a * s < q * l + l);
    assert(0 <= q <= s) by (nonlinear_arith)
        requires
            q * l <= a * s < q * l + l,
            0 <= a <= l,
            l >= 1,
            s > 0,
    ;
    assert(q * q * (l * l) <= a * a * (s * s)) by (nonlinear_arith)
        requires
            0 <= q * l <= a * s,
    ;
    assert((q + 1) * l == q * l + l) by (nonlinear_arith);
    assert(a * a * (s * s) < (q + 1) * (q + 1) * (l * l)) by (nonlinear_arith)
        requires
            0 <= a * s < (q + 1) * l,
    ;
}

/// The raw value of a unitized component, given the raw component `x` and
/// the length `l`.
proof fn lemma_unit_component_value(x: int, l: int, n: int) -> (q: int)
    requires
        x * x <= n < (l + 1) * (l + 1),
        l >= 1,
        i64::MIN <= x <= i64::MAX,
        i64::MIN <= l <= i64::MAX,
    ensures
        0 <= q <= SCALE,
        Scalar::Finite(x as i64).spec_div(Scalar::Finite(l as i64)) == Scalar::Finite(
            crate::scalar::tdiv(x * SCALE, l) as i64,
        ),
        crate::scalar::abs(crate::scalar::tdiv(x * SCALE, l)) <= SCALE,
        crate::scalar::tdiv(x * SCALE, l) * crate::scalar::tdiv(x * SCALE, l) == q * q,
        q * q * (l * l) <= x * x * (SCALE * SCALE),
        x * x * (SCALE * SCALE) < (q + 1) * (q + 1) * (l * l),
{
    let s = SCALE as int;
    let a = crate::scalar::abs(x);
    assert(a * a == x * x) by (nonlinear_arith)
        requires
            a == crate::scalar::abs(x),
    ;
    assert(a <= l) by (nonlinear_arith)
        requires
            a * a < (l + 1) * (l + 1),
            a >= 0,
            l >= 1,
    ;
    assert(crate::scalar::abs(x * s) == a * s) by (nonlinear_arith)
        requires
            a == crate::scalar::abs(x),
            s > 0,
    ;
    let q = (a * s) / l;
    lemma_unit_component(a, l, q);
    let t = crate::scalar::tdiv(x * s, l);
    assert(t == q || t == -q);
    assert(t * t == q * q) by (nonlinear_arith)
        requires
            t == q || t == -q,
    ;
    q
}

/// Dividing a vector whose length is finite and at least one unit by that
/// length gives a vector of unit length, up to the rounding of the
/// fixed-point grid.
proof fn lemma_shrink_long_vector(v: Vector3d)
    requires
        v.valid(),
        v.spec_length() is Finite,
        v.spec_length()->Finite_0 >= SCALE,
    ensures
        v.spec_shrink(v.spec_length()).spec_length() is Finite,
        SCALE - 4 <= v.spec_shrink(v.spec_length()).spec_length()->Finite_0 <= SCALE + 1,
{
    let s = SCALE as int;
    let x = v.x->Finite_0 as int;
    let y = v.y->Finite_0 as int;
    let z = v.z->Finite_0 as int;
    let n = x * x + y * y + z * z;
    assert(x * x >= 0 && y * y >= 0 && z * z >= 0) by (nonlinear_arith);
    lemma_isqrt_exists(n);
    let l = isqrt(n);
    assert(l == v.spec_length()->Finite_0);
    let qx = lemma_unit_component_value(x, l, n);
    let qy = lemma_unit_component_value(y, l, n);
    let qz = lemma_unit_component_value(z, l, n);
    let u = v.spec_shrink(v.spec_length());
    assert(u.x == Scalar::Finite(crate::scalar::tdiv(x * s, l) as i64));
    assert(u.y == Scalar::Finite(crate::scalar::tdiv(y * s, l) as i64));
    assert(u.z == Scalar::Finite(crate::scalar::tdiv(z * s, l) as i64));
    let m = qx * qx + qy * qy + qz * qz;
    assert(m == u.x->Finite_0 * u.x->Finite_0 + u.y->Finite_0 * u.y->Finite_0 + u.z->Finite_0
        * u.z->Finite_0);
    lemma_isqrt_exists(m);
    let r = isqrt(m);
    // Upper bound: m * l^2 <= n * s^2 < (l + 1)^2 * s^2 <= (s + 2)^2 * l^2.
    assert(m * (l * l) <= n * (s * s)) by (nonlinear_arith)
        requires
            qx * qx * (l * l) <= x * x * (s * s),
            qy * qy * (l * l) <= y * y * (s * s),
            qz * qz * (l * l) <= z * z * (s * s),
            m == qx * qx + qy * qy + qz * qz,
            n == x * x + y * y + z * z,
    ;
    assert(m < (s + 2) * (s + 2)) by (nonlinear_arith)
        requires
            m * (l * l) <= n * (s * s),
            n < (l + 1) * (l + 1),
            l >= s,
            s > 0,
    ;
    assert(r <= s + 1) by (nonlinear_arith)
        requires
            r * r <= m,
            m < (s + 2) * (s + 2),
            r >= 0,
            s > 0,
    ;
    // Lower bound: l^2 * s^2 <= n * s^2 < l^2 * (m + 2 (qx + qy + qz) + 3).
    assert(n * (s * s) < (l * l) * (m + 2 * (qx + qy + qz) + 3)) by (nonlinear_arith)
        requires
            x * x * (s * s) < (qx + 1) * (qx + 1) * (l * l),
            y * y * (s * s) < (qy + 1) * (qy + 1) * (l * l),
            z * z * (s * s) < (qz + 1) * (qz + 1) * (l * l),
            m == qx * qx + qy * qy + qz * qz,
            n == x * x + y * y + z * z,
    ;
    assert(s * s < m + 2 * (qx + qy + qz) + 3) by (nonlinear_arith)
        requires
            n * (s * s) < (l * l) * (m + 2 * (qx + qy + qz) + 3),
            l * l <= n,
            l >= 1,
    ;
    assert(r >= s - 4) by (nonlinear_arith)
        requires
            s * s < m + 6 * s + 3,
            m < (r + 1) * (r + 1),
            r >= 0,
            s == 1_000_000,
    ;
}

/// Magnifying a vector of finite length below one unit gives a valid vector
/// of finite length at least one unit.
proof fn lemma_magnified_short_vector(v: Vector3d)
    requires
        v.valid(),
        v.spec_length() is Finite,
        0 < v.spec_length()->Finite_0 < SCALE,
    ensures
        v.spec_magnified().valid(),
        v.spec_magnified().spec_length() is Finite,
        v.spec_magnified().spec_length()->Finite_0 >= SCALE,
{
    let s = SCALE as int;
    let x = v.x->Finite_0 as int;
    let y = v.y->Finite_0 as int;
    let z = v.z->Finite_0 as int;
    let n = x * x + y * y + z * z;
    assert(x * x >= 0 && y * y >= 0 && z * z >= 0) by (nonlinear_arith);
    lemma_isqrt_exists(n);
    let l = isqrt(n);
    assert(l == v.spec_length()->Finite_0);
    let k = Vector3d::magnification(l);
    vstd::arithmetic::div_mod::lemma_fundamental_div_mod(s, l);
    vstd::arithmetic::div_mod::lemma_mod_pos_bound(s, l);
    assert(s < k * l <= s + l) by (nonlinear_arith)
        requires
            s == l * (s / l) + s % l,
            0 <= s % l < l,
            k == s / l + 1,
    ;
    assert(1 <= k <= s + 1) by (nonlinear_arith)
        requires
            s < k * l <= s + l,
            0 < l < s,
    ;
    assert(k * s <= (s + 1) * s) by (nonlinear_arith)
        requires
            1 <= k <= s + 1,
            s > 0,
    ;
    let f = Scalar::Finite((k * s) as i64);
    assert(crate::scalar::saturate(k * s) == f);
    lemma_magnified_component(x, k, l, n);
    lemma_magnified_component(y, k, l, n);
    lemma_magnified_component(z, k, l, n);
    let w = v.spec_magnified();
    assert(w == v.spec_scale(f));
    assert(w.x == Scalar::Finite((x * k) as i64));
    assert(w.y == Scalar::Finite((y * k) as i64));
    assert(w.z == Scalar::Finite((z * k) as i64));
    let nw = (x * k) * (x * k) + (y * k) * (y * k) + (z * k) * (z * k);
    let kk = k * k;
    let (xx, yy, zz) = (x * x, y * y, z * z);
    assert((x * k) * (x * k) == kk * xx) by (nonlinear_arith)
        requires
            kk == k * k,
            xx == x * x,
    ;
    assert((y * k) * (y * k) == kk * yy) by (nonlinear_arith)
        requires
            kk == k * k,
            yy == y * y,
    ;
    assert((z * k) * (z * k) == kk * zz) by (nonlinear_arith)
        requires
            kk == k * k,
            zz == z * z,
    ;
    assert(kk * (xx + yy + zz) == kk * xx + kk * yy + kk * zz) by (nonlinear_arith);
    assert(nw == (k * k) * n);
    lemma_isqrt_exists(nw);
    let lw = isqrt(nw);
    assert((k * l) * (k * l) <= nw) by (nonlinear_arith)
        requires
            l * l <= n,
            nw == (k * k) * n,
    ;
    assert(lw >= k * l) by (nonlinear_arith)
        requires
            (k * l) * (k * l) <= nw,
            nw < (lw + 1) * (lw + 1),
            lw >= 0,
            k * l > 0,
    ;
    assert(nw < (k * (l + 1)) * (k * (l + 1))) by (nonlinear_arith)
        requires
            n < (l + 1) * (l + 1),
            nw == (k * k) * n,
            k >= 1,
    ;
    assert(lw < k * (l + 1)) by (nonlinear_arith)
        requires
            lw * lw <= nw,
            nw < (k * (l + 1)) * (k * (l + 1)),
            lw >= 0,
            k >= 1,
            l >= 0,
    ;
    assert(k * (l + 1) == k * l + k) by (nonlinear_arith);
}

/// One component `x` of a vector of length `l` (below one unit), times the
/// fixed-point factor `k`, is exactly `x * k`, at most `2 * SCALE` in size.
proof fn lemma_magnified_component(x: int, k: int, l: int, n: int)
    requires
        x * x <= n < (l + 1) * (l + 1),
        0 < l < SCALE,
        SCALE < k * l <= SCALE + l,
        1 <= k <= SCALE + 1,
        i64::MIN <= x <= i64::MAX,
    ensures
        -2 * SCALE <= x * k <= 2 * SCALE,
        Scalar::Finite(x as i64).spec_mul(Scalar::Finite((k * SCALE) as i64)) == Scalar::Finite(
            (x * k) as i64,
        ),
{
    let s = SCALE as int;
    let a = crate::scalar::abs(x);
    assert(a * a == x * x) by (nonlinear_arith)
        requires
            a == crate::scalar::abs(x),
    ;
    assert(a <= l) by (nonlinear_arith)
        requires
            a * a < (l + 1) * (l + 1),
            a >= 0,
            l >= 1,
    ;
    assert(-2 * s <= x * k <= 2 * s) by (nonlinear_arith)
        requires
            a == crate::scalar::abs(x),
            a <= l,
            k >= 1,
            k * l <= s + l,
            l < s,
    ;
    assert(x * (k * s) == (x * k) * s) by (nonlinear_arith);
    crate::scalar::lemma_tdiv_scale(x * k);
}

/// Unitizing a vector of finite, nonzero length gives a vector of unit
/// length, up to the rounding of the fixed-point grid: its length lies
/// within four millionths below and one millionth above one unit.
pub proof fn lemma_unitize_length(v: Vector3d)
    requires
        v.valid(),
        v.spec_length() is Finite,
        v.spec_length()->Finite_0 > 0,
    ensures
        v.spec_unitize().spec_length() is Finite,
        SCALE - 4 <= v.spec_unitize().spec_length()->Finite_0 <= SCALE + 1,
{
    if v.spec_length()->Finite_0 < SCALE {
        lemma_magnified_short_vector(v);
        lemma_shrink_long_vector(v.spec_magnified());
    } else {
        lemma_shrink_long_vector(v);
    }
}

impl IsValid for Vector3d {
    open spec fn valid(&self) -> bool {
        self.x.is_finite() && self.y.is_finite() && self.z.is_finite()
    }

    fn is_valid(&self) -> (r: bool) {
        self.x.is_valid() && self.y.is_valid() && self.z.is_valid()
    }
}

impl PartialEq for Vector3d {
    fn eq(&self, o: &Vector3d) -> (r: bool) {
        self.x == o.x && self.y == o.y && self.z == o.z
    }
}

impl vstd::std_specs::cmp::PartialEqSpecImpl for Vector3d {
    open spec fn obeys_eq_spec() -> bool {
        true
    }

    open spec fn eq_spec(&self, o: &Vector3d) -> bool {
        self.spec_eq(*o)
    }
}

} // verus!
