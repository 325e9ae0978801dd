//! Exact decimal numbers: a value is `mantissa · 10^(-scale)`.
//!
//! Addition and subtraction align both operands to the larger scale, and
//! multiplication adds the scales, so no digit is ever rounded away.  Every
//! operation states the exact result; the only limit is the machine width of
//! the mantissa (`i128`) and of the scale (`u32`).

use vstd::prelude::*;

verus! {

/// `10^n`.
pub open spec fn pow10(n: nat) -> int
    decreases n,
{
    if n == 0 {
        1
    } else {
        10 * pow10((n - 1) as nat)
    }
}

/// Whether an integer fits in an `i128`.
pub open spec fn fits_i128(v: int) -> bool {
    i128::MIN <= v <= i128::MAX
}

pub open spec fn max_nat(a: nat, b: nat) -> nat {
    if a >= b {
        a
    } else {
        b
    }
}

/// The mathematical value of a decimal: `m · 10^(-s)`.
pub struct Dec {
    pub m: int,
    pub s: nat,
}

impl Dec {
    pub open spec fn zero() -> Dec {
        Dec { m: 0, s: 0 }
    }

    /// A whole number.
    pub open spec fn whole(n: int) -> Dec {
        Dec { m: n, s: 0 }
    }

    /// The mantissa of the same value written at scale `s` (for `s >= self.s`).
    pub open spec fn at(self, s: nat) -> int {
        self.m * pow10((s - self.s) as nat)
    }

    pub open spec fn plus(self, o: Dec) -> Dec {
        let s = max_nat(self.s, o.s);
        Dec { m: self.at(s) + o.at(s), s }
    }

    pub open spec fn minus(self, o: Dec) -> Dec {
        let s = max_nat(self.s, o.s);
        Dec { m: self.at(s) - o.at(s), s }
    }

    pub open spec fn times(self, o: Dec) -> Dec {
        Dec { m: self.m * o.m, s: self.s + o.s }
    }

    /// Both values denote the same number.
    pub open spec fn same_value(self, o: Dec) -> bool {
        let s = max_nat(self.s, o.s);
        self.at(s) == o.at(s)
    }

    pub open spec fn less_than(self, o: Dec) -> bool {
        let s = max_nat(self.s, o.s);
        self.at(s) < o.at(s)
    }

    pub open spec fn is_zero(self) -> bool {
        self.m == 0
    }

    pub open spec fn is_positive(self) -> bool {
        self.m > 0
    }

    /// The value can be held by a `Decimal`.
    pub open spec fn fits(self) -> bool {
        fits_i128(self.m) && self.s <= u32::MAX
    }

    /// Both operands, written at the common scale, fit in an `i128`.
    pub open spec fn aligned_fit(self, o: Dec) -> bool {
        let s = max_nat(self.s, o.s);
        fits_i128(self.at(s)) && fits_i128(o.at(s))
    }

    pub open spec fn plus_fits(self, o: Dec) -> bool {
        self.aligned_fit(o) && self.plus(o).fits()
    }

    pub open spec fn minus_fits(self, o: Dec) -> bool {
        self.aligned_fit(o) && self.minus(o).fits()
    }

    pub open spec fn times_fits(self, o: Dec) -> bool {
        self.times(o).fits()
    }
}

pub proof fn lemma_pow10_succ(n: nat)
    ensures
        pow10(n + 1) == 10 * pow10(n),
{
}

pub proof fn lemma_pow10_positive(n: nat)
    ensures
        pow10(n) >= 1,
    decreases n,
{
    if n > 0 {
        lemma_pow10_positive((n - 1) as nat);
    }
}

pub proof fn lemma_pow10_add(a: nat, b: nat)
    ensures
        pow10(a + b) == pow10(a) * pow10(b),
    decreases b,
{
    if b > 0 {
        lemma_pow10_add(a, (b - 1) as nat);
        assert(pow10(a + b) == 10 * pow10((a + b - 1) as nat));
        let p = pow10(a);
        let q = pow10((b - 1) as nat);
        assert(10 * (p * q) == p * (10 * q)) by (nonlinear_arith);
    }
}

/// Writing a nonzero mantissa at a larger scale moves it away from zero.
pub proof fn lemma_scaled_monotone(m: int, a: nat, b: nat)
    requires
        a <= b,
    ensures
        m > 0 ==> m * pow10(a) <= m * pow10(b),
        m < 0 ==> m * pow10(a) >= m * pow10(b),
{
    lemma_pow10_add(a, (b - a) as nat);
    lemma_pow10_positive(a);
    lemma_pow10_positive((b - a) as nat);
    let p = pow10(a);
    let q = pow10((b - a) as nat);
    assert(pow10(b) == p * q);
    assert(m > 0 ==> m * p <= m * (p * q)) by (nonlinear_arith)
        requires
            p >= 1,
            q >= 1,
    ;
    assert(m < 0 ==> m * p >= m * (p * q)) by (nonlinear_arith)
        requires
            p >= 1,
            q >= 1,
    ;
}

/// A value written at its own scale is itself.
pub proof fn lemma_at_own_scale(d: Dec)
    ensures
        d.at(d.s) == d.m,
{
    assert(pow10(0) == 1);
}

/// Adding and then subtracting the same value (or the other way round) gives
/// back the value.
pub proof fn lemma_plus_minus_cancel(b: Dec, a: Dec)
    ensures
        b.plus(a).minus(a).same_value(b),
        b.minus(a).plus(a).same_value(b),
{
    assert(pow10(0) == 1);
    let s = max_nat(b.s, a.s);
    let x = b.plus(a);
    let y = b.minus(a);
    lemma_at_own_scale(x);
    lemma_at_own_scale(y);
    lemma_at_own_scale(x.minus(a));
    lemma_at_own_scale(y.plus(a));
}

/// Zero written at any scale is zero.
pub proof fn lemma_zero_at(d: Dec, s: nat)
    requires
        d.m == 0,
    ensures
        d.at(s) == 0,
{
    assert(0 * pow10((s - d.s) as nat) == 0);
}

/// Writing a value at a scale `u` is writing it at a smaller scale `t` and
/// then shifting by the difference.
pub proof fn lemma_at_rescale(x: Dec, t: nat, u: nat)
    requires
        x.s <= t <= u,
    ensures
        x.at(u) == x.at(t) * pow10((u - t) as nat),
{
    lemma_pow10_add((t - x.s) as nat, (u - t) as nat);
    assert(((t - x.s) as nat + (u - t) as nat) as nat == (u - x.s) as nat);
    let m = x.m;
    let p = pow10((t - x.s) as nat);
    let q = pow10((u - t) as nat);
    assert(m * (p * q) == (m * p) * q) by (nonlinear_arith);
}

/// Comparing two values at any common scale at least their own gives the
/// same answer as comparing them at the smallest common scale.
proof fn lemma_less_than_at(a: Dec, b: Dec, u: nat)
    requires
        a.s <= u,
        b.s <= u,
    ensures
        a.less_than(b) <==> a.at(u) < b.at(u),
        a.same_value(b) <==> a.at(u) == b.at(u),
{
    let s = max_nat(a.s, b.s);
    lemma_at_rescale(a, s, u);
    lemma_at_rescale(b, s, u);
    let q = pow10((u - s) as nat);
    lemma_pow10_positive((u - s) as nat);
    let x = a.at(s);
    let y = b.at(s);
    assert(x < y <==> x * q < y * q) by (nonlinear_arith)
        requires
            q >= 1,
    ;
    assert(x == y <==> x * q == y * q) by (nonlinear_arith)
        requires
            q >= 1,
    ;
}

/// `<` on decimals compares values, not their written forms: two values
/// compare as their equals written at other scales do, and `a < b` holds
/// exactly when `b - a` is positive.
pub proof fn lemma_less_than_compares_values(a: Dec, b: Dec, a2: Dec, b2: Dec)
    requires
        a.same_value(a2),
        b.same_value(b2),
    ensures
        a.less_than(b) == a2.less_than(b2),
        a.less_than(b) <==> b.minus(a).is_positive(),
{
    let u = max_nat(max_nat(a.s, b.s), max_nat(a2.s, b2.s));
    lemma_less_than_at(a, b, u);
    lemma_less_than_at(a2, b2, u);
    lemma_less_than_at(a, a2, u);
    lemma_less_than_at(b, b2, u);
}

/// One and a half is less than two, and two is not less than one and a half.
pub proof fn lemma_less_than_example()
    ensures
        (Dec { m: 15, s: 1 }).less_than((Dec { m: 2, s: 0 })),
        !(Dec { m: 2, s: 0 }).less_than((Dec { m: 15, s: 1 })),
        (Dec { m: 7000, s: 2 }).less_than((Dec { m: 100, s: 0 })),
{
    assert(pow10(0) == 1);
    assert(pow10(1) == 10) by {
        lemma_pow10_succ(0);
    }
    assert(pow10(2) == 100) by {
        lemma_pow10_succ(1);
    }
}

/// An exact decimal number `mantissa · 10^(-scale)`.
#[derive(Clone, Copy, Debug, PartialEq, Eq, Structural)]
pub struct Decimal {
    pub mantissa: i128,
    pub scale: u32,
}

impl View for Decimal {
    type V = Dec;

    open spec fn view(&self) -> Dec {
        Dec { m: self.mantissa as int, s: self.scale as nat }
    }
}

impl Decimal {
    pub fn new(mantissa: i128, scale: u32) -> (r: Decimal)
        ensures
            r.mantissa == mantissa,
            r.scale == scale,
    {
        Decimal { mantissa, scale }
    }

    pub fn zero() -> (r: Decimal)
        ensures
            r@ == Dec::zero(),
    {
        Decimal { mantissa: 0, scale: 0 }
    }

    pub fn from_i64(n: i64) -> (r: Decimal)
        ensures
            r@ == Dec::whole(n as int),
    {
        Decimal { mantissa: n as i128, scale: 0 }
    }

    pub fn from_u64(n: u64) -> (r: Decimal)
        ensures
            r@ == Dec::whole(n as int),
    {
        Decimal { mantissa: n as i128, scale: 0 }
    }

    pub fn is_zero(&self) -> (r: bool)
        ensures
            r == self@.is_zero(),
    {
        self.mantissa == 0
    }

    pub fn is_positive(&self) -> (r: bool)
        ensures
            r == self@.is_positive(),
    {
        self.mantissa > 0
    }

    /// The mantissa of this value written at scale `s`, if it fits.
    fn aligned(&self, s: u32) -> (r: Option<i128>)
        requires
            self.scale <= s,
        ensures
            r is Some <==> fits_i128(self@.at(s as nat)),
            r matches Some(x) ==> x == self@.at(s as nat),
    {
        if self.mantissa == 0 {
            proof {
                lemma_zero_at(self@, s as nat);
            }
            return Some(0);
        }
        let mut x: i128 = self.mantissa;
        let mut k: u32 = self.scale;
        while k < s
            invariant
                self.scale <= k <= s,
                self.mantissa != 0,
                x == self@.m * pow10((k - self.scale) as nat),
            decreases s - k,
        {
            proof {
                lemma_pow10_succ((k - self.scale) as nat);
                assert(self@.m * (10 * pow10((k - self.scale) as nat)) == 10 * (self@.m * pow10(
                    (k - self.scale) as nat,
                ))) by (nonlinear_arith);
                assert(((k + 1) - self.scale) as nat == (k - self.scale) as nat + 1);
            }
            match x.checked_mul(10) {
                Some(y) => {
                    x = y;
                    k = k + 1;
                },
                None => {
                    proof {
                        let n1 = ((k + 1) - self.scale) as nat;
                        let n2 = (s - self.scale) as nat;
                        lemma_scaled_monotone(self@.m, n1, n2);
                        lemma_pow10_positive(n1);
                        let p = pow10(n1);
                        let m = self@.m;
                        assert(m > 0 ==> m * p > 0) by (nonlinear_arith)
                            requires
                                p >= 1,
                        ;
                        assert(m < 0 ==> m * p < 0) by (nonlinear_arith)
                            requires
                                p >= 1,
                        ;
                        assert(!fits_i128(self@.at(s as nat)));
                    }
                    return None;
                },
            }
        }
        Some(x)
    }

    /// `self + other`, or `None` where the result or an aligned operand leaves the machine range.
    pub fn checked_plus(&self, other: &Decimal) -> (r: Option<Decimal>)
        ensures
            r is Some <==> self@.plus_fits(other@),
            r matches Some(d) ==> d@ == self@.plus(other@),
    {
        let s = if self.scale >= other.scale {
            self.scale
        } else {
            other.scale
        };
        let a = self.aligned(s);
        let b = other.aligned(s);
        match (a, b) {
            (Some(x), Some(y)) => match x.checked_add(y) {
                Some(z) => Some(Decimal { mantissa: z, scale: s }),
                None => None,
            },
            _ => None,
        }
    }

    /// `self - other`, or `None` where the result or an aligned operand leaves the machine range.
    pub fn checked_minus(&self, other: &Decimal) -> (r: Option<Decimal>)
        ensures
            r is Some <==> self@.minus_fits(other@),
            r matches Some(d) ==> d@ == self@.minus(other@),
    {
        let s = if self.scale >= other.scale {
            self.scale
        } else {
            other.scale
        };
        let a = self.aligned(s);
        let b = other.aligned(s);
        match (a, b) {
            (Some(x), Some(y)) => match x.checked_sub(y) {
                Some(z) => Some(Decimal { mantissa: z, scale: s }),
                None => None,
            },
            _ => None,
        }
    }

    /// `self · other`, or `None` where the result leaves the machine range.
    pub fn checked_times(&self, other: &Decimal) -> (r: Option<Decimal>)
        ensures
            r is Some <==> self@.times_fits(other@),
            r matches Some(d) ==> d@ == self@.times(other@),
    {
        match (self.mantissa.checked_mul(other.mantissa), self.scale.checked_add(other.scale)) {
            (Some(m), Some(s)) => Some(Decimal { mantissa: m, scale: s }),
            _ => None,
        }
    }

    pub fn plus(&self, other: &Decimal) -> (r: Decimal)
        requires
            self@.plus_fits(other@),
        ensures
            r@ == self@.plus(other@),
    {
        self.checked_plus(other).unwrap()
    }

    pub fn minus(&self, other: &Decimal) -> (r: Decimal)
        requires
            self@.minus_fits(other@),
        ensures
            r@ == self@.minus(other@),
    {
        self.checked_minus(other).unwrap()
    }

    pub fn times(&self, other: &Decimal) -> (r: Decimal)
        requires
            self@.times_fits(other@),
        ensures
            r@ == self@.times(other@),
    {
        self.checked_times(other).unwrap()
    }

    /// `self < other`, by value.
    pub fn less_than(&self, other: &Decimal) -> (r: bool)
        requires
            self@.aligned_fit(other@),
        ensures
            r == self@.less_than(other@),
    {
        let s = if self.scale >= other.scale {
            self.scale
        } else {
            other.scale
        };
        let a = self.aligned(s).unwrap();
        let b = other.aligned(s).unwrap();
        a < b
    }
}

} // verus!
