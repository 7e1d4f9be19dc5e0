use vstd::prelude::*;

verus! {

/// Raw units in one whole unit: a finite scalar stores millionths.
pub const SCALE: i64 = 1_000_000;

/// A coordinate or length.
///
/// A finite value is a fixed-point number held as a count of millionths.
/// `Unset` marks a value that was never computed or is absent; the two
/// infinities mark boundary extremes and the result of an overflow.
#[derive(Clone, Copy, Debug)]
pub enum Scalar {
    Unset,
    NegInfinity,
    Finite(i64),
    Infinity,
}

/// The scalar that stands for the mathematical value `v` (in raw units):
/// a value beyond the range of `i64` becomes the infinity of its sign.
pub open spec fn saturate(v: int) -> Scalar {
    if v > i64::MAX {
        Scalar::Infinity
    } else if v < i64::MIN {
        Scalar::NegInfinity
    } else {
        Scalar::Finite(v as i64)
    }
}

/// Integer division rounding toward zero.
pub open spec fn tdiv(n: int, d: int) -> int {
    let q = abs(n) / abs(d);
    if (n < 0) != (d < 0) {
        -q
    } else {
        q
    }
}

pub open spec fn abs(n: int) -> int {
    if n < 0 {
        -n
    } else {
        n
    }
}

impl Scalar {
    pub open spec fn is_finite(self) -> bool {
        self is Finite
    }

    /// The sign of a value that is set: -1, 0 or 1.
    pub open spec fn signum(self) -> int {
        match self {
            Scalar::Unset => 0,
            Scalar::NegInfinity => -1,
            Scalar::Finite(v) => if v < 0 {
                -1
            } else if v > 0 {
                1
            } else {
                0
            },
            Scalar::Infinity => 1,
        }
    }

    /// The infinity whose sign is `s`.
    pub open spec fn infinity_of_sign(s: int) -> Scalar {
        if s < 0 {
            Scalar::NegInfinity
        } else {
            Scalar::Infinity
        }
    }

    pub open spec fn spec_add(self, o: Scalar) -> Scalar {
        match (self, o) {
            (Scalar::Unset, _) => Scalar::Unset,
            (_, Scalar::Unset) => Scalar::Unset,
            (Scalar::Finite(a), Scalar::Finite(b)) => saturate(a + b),
            (Scalar::Infinity, Scalar::NegInfinity) => Scalar::Unset,
            (Scalar::NegInfinity, Scalar::Infinity) => Scalar::Unset,
            (Scalar::Infinity, _) => Scalar::Infinity,
            (_, Scalar::Infinity) => Scalar::Infinity,
            _ => Scalar::NegInfinity,
        }
    }

    pub open spec fn spec_sub(self, o: Scalar) -> Scalar {
        match (self, o) {
            (Scalar::Unset, _) => Scalar::Unset,
            (_, Scalar::Unset) => Scalar::Unset,
            (Scalar::Finite(a), Scalar::Finite(b)) => saturate(a - b),
            (Scalar::Infinity, Scalar::Infinity) => Scalar::Unset,
            (Scalar::NegInfinity, Scalar::NegInfinity) => Scalar::Unset,
            (Scalar::Infinity, _) => Scalar::Infinity,
            (_, Scalar::NegInfinity) => Scalar::Infinity,
            _ => Scalar::NegInfinity,
        }
    }


    /// Fixed-point product; an infinity times zero is unset.
    pub open spec fn spec_mul(self, o: Scalar) -> Scalar {
        match (self, o) {
            (Scalar::Unset, _) => Scalar::Unset,
            (_, Scalar::Unset) => Scalar::Unset,
            (Scalar::Finite(a), Scalar::Finite(b)) => saturate(tdiv(a * b, SCALE as int)),
            _ => if self.signum() == 0 || o.signum() == 0 {
                Scalar::Unset
            } else {
                Scalar::infinity_of_sign(self.signum() * o.signum())
            },
        }
    }

    /// The sign a divisor lends to a quotient: zero counts as positive.
    pub open spec fn divisor_sign(self) -> int {
        if self.signum() < 0 {
            -1
        } else {
            1
        }
    }

    /// Fixed-point quotient, rounded toward zero. A nonzero value over zero
    /// is the infinity of its sign, zero over zero and an infinity over an
    /// infinity are unset, and a finite value over an infinity is zero.
    pub open spec fn spec_div(self, o: Scalar) -> Scalar {
        match (self, o) {
            (Scalar::Unset, _) => Scalar::Unset,
            (_, Scalar::Unset) => Scalar::Unset,
            (Scalar::Finite(a), Scalar::Finite(b)) => if b == 0 {
                if a == 0 {
                    Scalar::Unset
                } else {
                    Scalar::infinity_of_sign(self.signum())
                }
            } else {
                saturate(tdiv(a * SCALE, b as int))
            },
            (Scalar::Finite(_), _) => Scalar::Finite(0),
            (_, Scalar::Finite(_)) => Scalar::infinity_of_sign(self.signum() * o.divisor_sign()),
            _ => Scalar::Unset,
        }
    }

    /// Equality of set values; an unset value equals nothing, itself included.
    pub open spec fn spec_eq(self, o: Scalar) -> bool {
        match (self, o) {
            (Scalar::Finite(a), Scalar::Finite(b)) => a == b,
            (Scalar::Infinity, Scalar::Infinity) => true,
            (Scalar::NegInfinity, Scalar::NegInfinity) => true,
            _ => false,
        }
    }

    /// Strict order of set values: negative infinity, the finite values,
    /// positive infinity. An unset value is ordered against nothing.
    pub open spec fn spec_lt(self, o: Scalar) -> bool {
        match (self, o) {
            (Scalar::Finite(a), Scalar::Finite(b)) => a < b,
            (Scalar::NegInfinity, Scalar::Finite(_)) => true,
            (Scalar::NegInfinity, Scalar::Infinity) => true,
            (Scalar::Finite(_), Scalar::Infinity) => true,
            _ => false,
        }
    }

    pub open spec fn spec_le(self, o: Scalar) -> bool {
        self.spec_lt(o) || self.spec_eq(o)
    }

    pub open spec fn spec_min(self, o: Scalar) -> Scalar {
        if o.spec_lt(self) {
            o
        } else {
            self
        }
    }

    pub open spec fn spec_max(self, o: Scalar) -> Scalar {
        if self.spec_lt(o) {
            o
        } else {
            self
        }
    }

    /// The scalar `units` whole units; beyond range it is an infinity.
    pub fn from_units(units: i64) -> (r: Scalar)
        ensures
            r == saturate(units * SCALE),
    {
        let w = units as i128;
        proof {
            lemma_wide_product(w as int, SCALE as int);
        }
        from_wide(w * (SCALE as i128))
    }

    /// The scalar `raw` millionths of a unit.
    pub fn from_raw(raw: i64) -> (r: Scalar)
        ensures
            r == Scalar::Finite(raw),
    {
        Scalar::Finite(raw)
    }

    pub fn zero() -> (r: Scalar)
        ensures
            r == Scalar::Finite(0),
    {
        Scalar::Finite(0)
    }

    pub fn one() -> (r: Scalar)
        ensures
            r == Scalar::Finite(SCALE),
    {
        Scalar::Finite(SCALE)
    }

    pub fn two() -> (r: Scalar)
        ensures
            r == Scalar::Finite((2 * SCALE) as i64),
    {
        Scalar::Finite(2 * SCALE)
    }

    /// The largest finite scalar.
    pub fn max_value() -> (r: Scalar)
        ensures
            r == Scalar::Finite(i64::MAX),
    {
        Scalar::Finite(i64::MAX)
    }

    /// The smallest (most negative) finite scalar.
    pub fn min_value() -> (r: Scalar)
        ensures
            r == Scalar::Finite(i64::MIN),
    {
        Scalar::Finite(i64::MIN)
    }

    pub fn add(self, o: Scalar) -> (r: Scalar)
        ensures
            r == self.spec_add(o),
    {
        match (self, o) {
            (Scalar::Unset, _) => Scalar::Unset,
            (_, Scalar::Unset) => Scalar::Unset,
            (Scalar::Finite(a), Scalar::Finite(b)) => from_wide(a as i128 + b as i128),
            (Scalar::Infinity, Scalar::NegInfinity) => Scalar::Unset,
            (Scalar::NegInfinity, Scalar::Infinity) => Scalar::Unset,
            (Scalar::Infinity, _) => Scalar::Infinity,
            (_, Scalar::Infinity) => Scalar::Infinity,
            _ => Scalar::NegInfinity,
        }
    }

    pub fn sub(self, o: Scalar) -> (r: Scalar)
        ensures
            r == self.spec_sub(o),
    {
        match (self, o) {
            (Scalar::Unset, _) => Scalar::Unset,
            (_, Scalar::Unset) => Scalar::Unset,
            (Scalar::Finite(a), Scalar::Finite(b)) => from_wide(a as i128 - b as i128),
            (Scalar::Infinity, Scalar::Infinity) => Scalar::Unset,
            (Scalar::NegInfinity, Scalar::NegInfinity) => Scalar::Unset,
            (Scalar::Infinity, _) => Scalar::Infinity,
            (_, Scalar::NegInfinity) => Scalar::Infinity,
            _ => Scalar::NegInfinity,
        }
    }

    pub fn mul(self, o: Scalar) -> (r: Scalar)
        ensures
            r == self.spec_mul(o),
    {
        match (self, o) {
            (Scalar::Unset, _) => Scalar::Unset,
            (_, Scalar::Unset) => Scalar::Unset,
            (Scalar::Finite(a), Scalar::Finite(b)) => {
                let wa = a as i128;
                let wb = b as i128;
                proof {
                    lemma_wide_product(wa as int, wb as int);
                }
                from_wide(trunc_div(wa * wb, SCALE as i128))
            },
            _ => {
                let s = self.sign();
                let t = o.sign();
                if s == 0 || t == 0 {
                    Scalar::Unset
                } else if (s < 0) != (t < 0) {
                    Scalar::NegInfinity
                } else {
                    Scalar::Infinity
                }
            },
        }
    }

    pub fn div(self, o: Scalar) -> (r: Scalar)
        ensures
            r == self.spec_div(o),
    {
        match (self, o) {
            (Scalar::Unset, _) => Scalar::Unset,
            (_, Scalar::Unset) => Scalar::Unset,
            (Scalar::Finite(a), Scalar::Finite(b)) => {
                if b == 0 {
                    if a == 0 {
                        Scalar::Unset
                    } else if a < 0 {
                        Scalar::NegInfinity
                    } else {
                        Scalar::Infinity
                    }
                } else {
                    let wa = a as i128;
                    proof {
                        lemma_wide_product(wa as int, SCALE as int);
                    }
                    from_wide(trunc_div(wa * (SCALE as i128), b as i128))
                }
            },
            (Scalar::Finite(_), _) => Scalar::Finite(0),
            (_, Scalar::Finite(_)) => {
                let s = self.sign();
                let t = o.sign();
                if (s < 0) != (t < 0) {
                    Scalar::NegInfinity
                } else {
                    Scalar::Infinity
                }
            },
            _ => Scalar::Unset,
        }
    }

    /// The sign of the value: -1, 0 or 1 (0 for an unset value too).
    pub fn sign(self) -> (r: i8)
        ensures
            r as int == self.signum(),
    {
        match self {
            Scalar::Unset => 0,
            Scalar::NegInfinity => -1,
            Scalar::Finite(v) => if v < 0 {
                -1
            } else if v > 0 {
                1
            } else {
                0
            },
            Scalar::Infinity => 1,
        }
    }

    pub fn lt(self, o: Scalar) -> (r: bool)
        ensures
            r == self.spec_lt(o),
    {
        match (self, o) {
            (Scalar::Finite(a), Scalar::Finite(b)) => a < b,
            (Scalar::NegInfinity, Scalar::Finite(_)) => true,
            (Scalar::NegInfinity, Scalar::Infinity) => true,
            (Scalar::Finite(_), Scalar::Infinity) => true,
            _ => false,
        }
    }

    pub fn gt(self, o: Scalar) -> (r: bool)
        ensures
            r == o.spec_lt(self),
    {
        o.lt(self)
    }

    pub fn le(self, o: Scalar) -> (r: bool)
        ensures
            r == self.spec_le(o),
    {
        self.lt(o) || self.eq(&o)
    }

    /// The lesser of two values; where they are not ordered, `self`.
    pub fn min(self, o: Scalar) -> (r: Scalar)
        ensures
            r == self.spec_min(o),
    {
        if o.lt(self) {
            o
        } else {
            self
        }
    }

    /// The greater of two values; where they are not ordered, `self`.
    pub fn max(self, o: Scalar) -> (r: Scalar)
        ensures
            r == self.spec_max(o),
    {
        if self.lt(o) {
            o
        } else {
            self
        }
    }

    pub fn is_unset(self) -> (r: bool)
        ensures
            r == self is Unset,
    {
        match self {
            Scalar::Unset => true,
            _ => false,
        }
    }

    /// True of a set, finite value.
    pub fn is_valid(self) -> (r: bool)
        ensures
            r == self.is_finite(),
    {
        match self {
            Scalar::Finite(_) => true,
            _ => false,
        }
    }
}

impl PartialEq for Scalar {
    fn eq(&self, o: &Scalar) -> (r: bool) {
        match (*self, *o) {
            (Scalar::Finite(a), Scalar::Finite(b)) => a == b,
            (Scalar::Infinity, Scalar::Infinity) => true,
            (Scalar::NegInfinity, Scalar::NegInfinity) => true,
            _ => false,
        }
    }
}

impl vstd::std_specs::cmp::PartialEqSpecImpl for Scalar {
    open spec fn obeys_eq_spec() -> bool {
        true
    }

    open spec fn eq_spec(&self, o: &Scalar) -> bool {
        self.spec_eq(*o)
    }
}

/// Scaling a raw value up and back down gives it back exactly.
pub proof fn lemma_tdiv_scale(v: int)
    ensures
        tdiv(v * SCALE, SCALE as int) == v,
{
    let a = abs(v);
    assert(abs(v * SCALE) == a * SCALE) by (nonlinear_arith)
        requires
            a == abs(v),
    ;
    vstd::arithmetic::div_mod::lemma_div_by_multiple(a, SCALE as int);
}

proof fn lemma_wide_product(a: int, b: int)
    requires
        i64::MIN <= a <= i64::MAX,
        i64::MIN <= b <= i64::MAX,
    ensures
        -0x4000_0000_0000_0000_0000_0000_0000_0000 <= a * b <= 0x4000_0000_0000_0000_0000_0000_0000_0000,
{
    assert(abs(a) <= 0x8000_0000_0000_0000 && abs(b) <= 0x8000_0000_0000_0000);
    assert(abs(a * b) == abs(a) * abs(b)) by (nonlinear_arith);
    assert(abs(a) * abs(b) <= 0x8000_0000_0000_0000 * 0x8000_0000_0000_0000) by (nonlinear_arith)
        requires
            0 <= abs(a) <= 0x8000_0000_0000_0000,
            0 <= abs(b) <= 0x8000_0000_0000_0000,
    ;
}

/// Division rounding toward zero, on magnitudes that fit comfortably.
fn trunc_div(n: i128, d: i128) -> (r: i128)
    requires
        d != 0,
        -0x4000_0000_0000_0000_0000_0000_0000_0000 <= n <= 0x4000_0000_0000_0000_0000_0000_0000_0000,
        -0x4000_0000_0000_0000_0000_0000_0000_0000 <= d <= 0x4000_0000_0000_0000_0000_0000_0000_0000,
    ensures
        r == tdiv(n as int, d as int),
{
    let un: u128 = if n < 0 { (-n) as u128 } else { n as u128 };
    let ud: u128 = if d < 0 { (-d) as u128 } else { d as u128 };
    let q: u128 = un / ud;
    proof {
        assert(q <= un) by (nonlinear_arith)
            requires
                ud >= 1,
                q == un / ud,
        ;
    }
    if (n < 0) != (d < 0) {
        -(q as i128)
    } else {
        q as i128
    }
}


/// `r` is the integer square root of `n`.
pub open spec fn is_isqrt(r: int, n: int) -> bool {
    0 <= r && r * r <= n < (r + 1) * (r + 1)
}

/// The integer square root of a natural number.
pub open spec fn isqrt(n: int) -> int {
    choose|r: int| is_isqrt(r, n)
}

/// Euclidean norm of three scalars: unset if any is unset, else infinite if
/// any is infinite, else the square root of the sum of squares, rounded down.
pub open spec fn norm(x: Scalar, y: Scalar, z: Scalar) -> Scalar {
    if x is Unset || y is Unset || z is Unset {
        Scalar::Unset
    } else if x is Finite && y is Finite && z is Finite {
        saturate(isqrt(x->Finite_0 * x->Finite_0 + y->Finite_0 * y->Finite_0 + z->Finite_0 * z->Finite_0))
    } else {
        Scalar::Infinity
    }
}

/// Every natural number has an integer square root.
pub proof fn lemma_isqrt_exists(n: int)
    requires
        n >= 0,
    ensures
        is_isqrt(isqrt(n), n),
    decreases n,
{
    if n == 0 {
        assert(is_isqrt(0, 0));
    } else {
        lemma_isqrt_exists(n - 1);
        let r = isqrt(n - 1);
        if (r + 1) * (r + 1) <= n {
            assert(n < (r + 2) * (r + 2)) by (nonlinear_arith)
                requires
                    n - 1 < (r + 1) * (r + 1),
                    r >= 0,
            ;
            assert(is_isqrt(r + 1, n));
        } else {
            assert(is_isqrt(r, n));
        }
    }
}

proof fn lemma_isqrt_unique(r: int, n: int)
    requires
        is_isqrt(r, n),
    ensures
        isqrt(n) == r,
{
    let s = isqrt(n);
    assert(is_isqrt(s, n));
    if s < r {
        assert((s + 1) * (s + 1) <= r * r) by (nonlinear_arith)
            requires
                0 <= s < r,
        ;
    } else if r < s {
        assert((r + 1) * (r + 1) <= s * s) by (nonlinear_arith)
            requires
                0 <= r < s,
        ;
    }
}

/// Integer square root by bisection.
fn sqrt_floor(n: u128) -> (r: u64)
    ensures
        is_isqrt(r as int, n as int),
{
    let mut lo: u128 = 0;
    let mut hi: u128 = 0x1_0000_0000_0000_0000;
    assert(n < hi * hi);
    while hi - lo > 1
        invariant
            lo < hi <= 0x1_0000_0000_0000_0000,
            lo * lo <= n,
            n < hi * hi,
        decreases hi - lo,
    {
        let mid: u128 = lo + (hi - lo) / 2;
        assert(mid * mid < 0x1_0000_0000_0000_0000 * 0x1_0000_0000_0000_0000) by (nonlinear_arith)
            requires
                mid < 0x1_0000_0000_0000_0000,
        ;
        if mid * mid <= n {
            lo = mid;
        } else {
            hi = mid;
        }
    }
    assert(hi == lo + 1);
    lo as u64
}

/// Square of a raw value, as an unsigned wide integer.
fn square(v: i64) -> (r: u128)
    ensures
        r == v * v,
        r <= 0x4000_0000_0000_0000_0000_0000_0000_0000,
{
    let w = v as i128;
    proof {
        lemma_wide_product(w as int, w as int);
        assert(w * w >= 0) by (nonlinear_arith);
    }
    (w * w) as u128
}

/// The Euclidean norm of three scalars.
pub fn norm3(x: Scalar, y: Scalar, z: Scalar) -> (r: Scalar)
    ensures
        r == norm(x, y, z),
{
    match (x, y, z) {
        (Scalar::Finite(a), Scalar::Finite(b), Scalar::Finite(c)) => {
            let n = square(a) + square(b) + square(c);
            let root = sqrt_floor(n);
            proof {
                lemma_isqrt_unique(root as int, n as int);
            }
            from_wide(root as i128)
        },
        _ => {
            if x.is_unset() || y.is_unset() || z.is_unset() {
                Scalar::Unset
            } else {
                Scalar::Infinity
            }
        },
    }
}

/// Narrows a wide raw value to a scalar, overflowing to an infinity.
fn from_wide(v: i128) -> (r: Scalar)
    ensures
        r == saturate(v as int),
{
    if v > i64::MAX as i128 {
        Scalar::Infinity
    } else if v < i64::MIN as i128 {
        Scalar::NegInfinity
    } else {
        Scalar::Finite(v as i64)
    }
}

} // verus!
