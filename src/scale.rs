//! Exact scale factors between units.

use vstd::prelude::*;

verus! {

/// A rational number `num / den`, used to state what a conversion does to a magnitude.
pub struct Fraction {
    pub num: int,
    pub den: int,
}

impl Fraction {
    /// The fraction `num / den`.
    pub open spec fn new(num: int, den: int) -> Fraction {
        Fraction { num, den }
    }

    /// A fraction with a non-zero denominator.
    pub open spec fn valid(self) -> bool {
        self.den != 0
    }

    /// The two fractions stand for the same rational number.
    pub open spec fn eqv(self, other: Fraction) -> bool {
        self.num * other.den == other.num * self.den
    }

    /// `self + other`, over the product of the denominators.
    pub open spec fn add(self, other: Fraction) -> Fraction {
        Fraction { num: self.num * other.den + other.num * self.den, den: self.den * other.den }
    }

    /// `self - other`, over the product of the denominators.
    pub open spec fn sub(self, other: Fraction) -> Fraction {
        Fraction { num: self.num * other.den - other.num * self.den, den: self.den * other.den }
    }

    /// `self * other`.
    pub open spec fn mul(self, other: Fraction) -> Fraction {
        Fraction { num: self.num * other.num, den: self.den * other.den }
    }

    /// `self / other`; meaningful where `other.num != 0`.
    pub open spec fn div(self, other: Fraction) -> Fraction {
        Fraction { num: self.num * other.den, den: self.den * other.num }
    }
}

/// An exact, strictly positive scale factor `num / den` between two units.
///
/// A magnitude `x` in the source unit is `x * num / den` in the target unit.
#[derive(Clone, Copy, Debug, PartialEq, Eq, Structural)]
pub struct Ratio {
    pub num: u64,
    pub den: u64,
}

impl View for Ratio {
    type V = Fraction;

    open spec fn view(&self) -> Fraction {
        Fraction { num: self.num as int, den: self.den as int }
    }
}

impl Ratio {
    /// Both terms are positive.
    pub open spec fn wf(self) -> bool {
        self.num > 0 && self.den > 0
    }

    /// The factor that leaves every magnitude as it is.
    pub open spec fn is_identity(self) -> bool {
        self.num == self.den
    }

    /// Computes `from / to` exactly, where both products fit in 64 bits.
    pub fn between(from: Ratio, to: Ratio) -> (r: Ratio)
        requires
            from.wf(),
            to.wf(),
            from.num * to.den <= u64::MAX,
            from.den * to.num <= u64::MAX,
        ensures
            r.num == from.num * to.den,
            r.den == from.den * to.num,
            r.wf(),
            r@ == from@.div(to@),
    {
        proof {
            lemma_pos_product(from.num as int, to.den as int);
            lemma_pos_product(from.den as int, to.num as int);
        }
        Ratio { num: from.num * to.den, den: from.den * to.num }
    }
}

/// A magnitude `x` of a unit worth `scale` base units, expressed in the base unit.
pub open spec fn to_base_magnitude(x: Fraction, scale: Ratio) -> Fraction {
    x.mul(scale@)
}

/// A magnitude `b` of the base unit, expressed in a unit worth `scale` base units.
pub open spec fn from_base_magnitude(b: Fraction, scale: Ratio) -> Fraction {
    b.div(scale@)
}

/// A magnitude `x` of a unit worth `from` base units, expressed in a unit worth `to` base
/// units by way of the base unit.
pub open spec fn convert_magnitude(x: Fraction, from: Ratio, to: Ratio) -> Fraction {
    from_base_magnitude(to_base_magnitude(x, from), to)
}

/// A valid magnitude stays valid when taken to base.
pub proof fn lemma_to_base_valid(x: Fraction, scale: Ratio)
    requires
        x.valid(),
        scale.wf(),
    ensures
        to_base_magnitude(x, scale).valid(),
{
    lemma_nonzero_product(x.den, scale.den as int);
}

/// The product of two non-zero integers is non-zero.
pub proof fn lemma_nonzero_product(a: int, b: int)
    requires
        a != 0,
        b != 0,
    ensures
        a * b != 0,
{
    assert(a * b != 0) by (nonlinear_arith)
        requires
            a != 0,
            b != 0,
    ;
}

/// Equivalence of fractions with non-zero denominators is transitive.
pub proof fn lemma_eqv_trans(a: Fraction, b: Fraction, c: Fraction)
    requires
        a.valid(),
        b.valid(),
        c.valid(),
        a.eqv(b),
        b.eqv(c),
    ensures
        a.eqv(c),
{
    let (an, ad, bn, bd, cn, cd) = (a.num, a.den, b.num, b.den, c.num, c.den);
    assert(an * cd == cn * ad) by (nonlinear_arith)
        requires
            ad != 0,
            bd != 0,
            cd != 0,
            an * bd == bn * ad,
            bn * cd == cn * bd,
    ;
}

/// Converting through the base unit, whose scale is one, is the same as converting directly:
/// for every pair of scales, going to base, staying in base, and leaving base for the target
/// gives the rational number that the direct conversion gives.
pub proof fn lemma_convert_through_base(x: Fraction, from: Ratio, base: Ratio, to: Ratio)
    requires
        x.valid(),
        from.wf(),
        base.wf(),
        to.wf(),
        base.is_identity(),
    ensures
        convert_magnitude(to_base_magnitude(x, from), base, to).valid(),
        convert_magnitude(to_base_magnitude(x, from), base, to).eqv(convert_magnitude(x, from, to)),
{
    let (xn, xd) = (x.num, x.den);
    let (fnum, fden, b, tn, td) = (from.num as int, from.den as int, base.num as int, to.num as int, to.den as int);
    assert(xd * fden * b * tn != 0) by (nonlinear_arith)
        requires
            xd != 0,
            fden > 0,
            b > 0,
            tn > 0,
    ;
    assert((xn * fnum * b * td) * (xd * fden * tn) == (xn * fnum * td) * (xd * fden * b * tn))
        by (nonlinear_arith);
}

/// Converting a magnitude from a unit to that same unit gives the same rational number.
pub proof fn lemma_convert_same(x: Fraction, scale: Ratio)
    requires
        x.valid(),
        scale.wf(),
    ensures
        convert_magnitude(x, scale, scale).valid(),
        convert_magnitude(x, scale, scale).eqv(x),
{
    let (xn, xd, n, d) = (x.num, x.den, scale.num as int, scale.den as int);
    assert(xd * d * n != 0) by (nonlinear_arith)
        requires
            xd != 0,
            d > 0,
            n > 0,
    ;
    assert((xn * n * d) * xd == xn * (xd * d * n)) by (nonlinear_arith);
}

/// A magnitude of the base unit, whose scale is one, is left as it is by going to base.
pub proof fn lemma_identity_keeps(b: Fraction, scale: Ratio)
    requires
        b.valid(),
        scale.wf(),
        scale.is_identity(),
    ensures
        to_base_magnitude(b, scale).valid(),
        to_base_magnitude(b, scale).eqv(b),
{
    let (bn, bd, n) = (b.num, b.den, scale.num as int);
    assert(bd * n != 0) by (nonlinear_arith)
        requires
            bd != 0,
            n > 0,
    ;
    assert((bn * n) * bd == bn * (bd * n)) by (nonlinear_arith);
}

/// A magnitude taken to a unit's base, converted back to that unit through the base unit,
/// is the magnitude it was.
pub proof fn lemma_back_from_base(x: Fraction, from: Ratio, base: Ratio)
    requires
        x.valid(),
        from.wf(),
        base.wf(),
        base.is_identity(),
    ensures
        convert_magnitude(to_base_magnitude(x, from), base, from).valid(),
        convert_magnitude(to_base_magnitude(x, from), base, from).eqv(x),
{
    lemma_convert_through_base(x, from, base, from);
    lemma_convert_same(x, from);
    lemma_eqv_trans(
        convert_magnitude(to_base_magnitude(x, from), base, from),
        convert_magnitude(x, from, from),
        x,
    );
}

/// Multiplying a magnitude by the quotient `from / to` is the same as converting it from a unit
/// worth `from` base units to one worth `to` base units through the base unit.
pub proof fn lemma_quotient_converts(x: Fraction, from: Ratio, to: Ratio)
    requires
        x.valid(),
        from.wf(),
        to.wf(),
    ensures
        x.mul(from@.div(to@)).eqv(convert_magnitude(x, from, to)),
{
    let (xn, xd) = (x.num, x.den);
    let (fnum, fden, tn, td) = (from.num as int, from.den as int, to.num as int, to.den as int);
    assert((xn * (fnum * td)) * (xd * fden * tn) == (xn * fnum * td) * (xd * (fden * tn)))
        by (nonlinear_arith);
}

/// How two quantities of one dimension are added or subtracted: the result takes `unit`, and
/// the right operand's magnitude is multiplied by `factor` to bring it into that unit.
#[derive(Debug, PartialEq, Eq, Structural)]
pub struct SumPlan<U> {
    pub unit: U,
    pub factor: Ratio,
}

/// Adding `y` of a unit worth `right` base units to `x` of a unit worth `left` base units, in the
/// left unit, gives the sum of their base magnitudes; subtracting gives their difference.
pub proof fn lemma_sum_in_left_unit(x: Fraction, y: Fraction, left: Ratio, right: Ratio)
    requires
        x.valid(),
        y.valid(),
        left.wf(),
        right.wf(),
    ensures
        to_base_magnitude(x.add(y.mul(right@.div(left@))), left).eqv(
            to_base_magnitude(x, left).add(to_base_magnitude(y, right)),
        ),
        to_base_magnitude(x.sub(y.mul(right@.div(left@))), left).eqv(
            to_base_magnitude(x, left).sub(to_base_magnitude(y, right)),
        ),
{
    let (xn, xd, yn, yd) = (x.num, x.den, y.num, y.den);
    let (ln, ld, rn, rd) = (left.num as int, left.den as int, right.num as int, right.den as int);
    // in the left unit, x + y * (rn * ld) / (rd * ln) is (p + q) / sd, and x - ... is (p - q) / sd
    let p = xn * (yd * (rd * ln));
    let q = (yn * (rn * ld)) * xd;
    let sd = xd * (yd * (rd * ln));
    let k = (xd * ld) * (yd * rd);
    assert(p == (xn * ln) * (yd * rd)) by (nonlinear_arith)
        requires
            p == xn * (yd * (rd * ln)),
    ;
    assert(q == (yn * rn) * (xd * ld)) by (nonlinear_arith)
        requires
            q == (yn * (rn * ld)) * xd,
    ;
    assert(ln * k == sd * ld) by (nonlinear_arith)
        requires
            k == (xd * ld) * (yd * rd),
            sd == xd * (yd * (rd * ln)),
    ;
    lemma_mul_assoc3(p + q, ln, k);
    lemma_mul_assoc3(p - q, ln, k);
}

/// Multiplying by equal rational numbers gives equal rational numbers.
pub proof fn lemma_mul_congruent(y: Fraction, f: Fraction, g: Fraction)
    requires
        y.valid(),
        f.valid(),
        g.valid(),
        f.eqv(g),
    ensures
        y.mul(f).valid(),
        y.mul(g).valid(),
        y.mul(f).eqv(y.mul(g)),
        f.mul(y).eqv(g.mul(y)),
{
    lemma_nonzero_product(y.den, f.den);
    lemma_nonzero_product(y.den, g.den);
    lemma_swap4(y.num, f.num, y.den, g.den);
    lemma_swap4(y.num, g.num, y.den, f.den);
    lemma_swap4(f.num, y.num, g.den, y.den);
    lemma_swap4(g.num, y.num, f.den, y.den);
    assert(f.num * g.den == g.num * f.den);
    lemma_swap4(f.num, g.den, y.num, y.den);
    lemma_swap4(g.num, f.den, y.num, y.den);
}

/// Adding equal rational numbers to the same number gives equal rational numbers.
pub proof fn lemma_add_congruent(x: Fraction, p: Fraction, q: Fraction)
    requires
        x.valid(),
        p.valid(),
        q.valid(),
        p.eqv(q),
    ensures
        x.add(p).valid(),
        x.add(q).valid(),
        x.add(p).eqv(x.add(q)),
        x.sub(p).eqv(x.sub(q)),
{
    let (xn, xd, pn, pd, qn, qd) = (x.num, x.den, p.num, p.den, q.num, q.den);
    lemma_nonzero_product(xd, pd);
    lemma_nonzero_product(xd, qd);
    // (xn * pd +- pn * xd) * (xd * qd) == (xn * qd +- qn * xd) * (xd * pd), term by term
    let t1 = (xn * pd) * (xd * qd);
    let t2 = (pn * xd) * (xd * qd);
    let u1 = (xn * qd) * (xd * pd);
    let u2 = (qn * xd) * (xd * pd);
    lemma_swap4(xn, pd, xd, qd);
    lemma_swap4(xn, qd, xd, pd);
    lemma_mul_comm_pair(pd, qd);
    assert(t1 == u1);
    lemma_mul_comm_pair(xd, qd);
    lemma_mul_comm_pair(xd, pd);
    lemma_swap4(pn, xd, qd, xd);
    lemma_swap4(qn, xd, pd, xd);
    assert(pn * qd == qn * pd);
    assert(t2 == u2);
    lemma_mul_distrib3(xn * pd, pn * xd, 1, xd * qd);
    lemma_mul_distrib3(xn * qd, qn * xd, 1, xd * pd);
    lemma_mul_distrib3(xn * pd, -(pn * xd), 1, xd * qd);
    lemma_mul_distrib3(xn * qd, -(qn * xd), 1, xd * pd);
    lemma_neg_mul(pn * xd, xd * qd);
    lemma_neg_mul(qn * xd, xd * pd);
}

/// A number added to an equal number is twice either.
pub proof fn lemma_add_equal_is_double(a: Fraction, b: Fraction)
    requires
        a.valid(),
        b.valid(),
        a.eqv(b),
    ensures
        a.add(b).valid(),
        a.add(b).eqv(a.mul(Fraction::new(2, 1))),
{
    lemma_add_congruent(a, b, a);
    lemma_nonzero_product(a.den, a.den);
    let (n, d) = (a.num, a.den);
    assert((n * d + n * d) * (d * 1) == (n * 2) * (d * d)) by (nonlinear_arith);
    lemma_eqv_trans(a.add(b), a.add(a), a.mul(Fraction::new(2, 1)));
}

/// `(a * b) * (c * d) == (a * c) * (b * d)`
pub proof fn lemma_swap4(a: int, b: int, c: int, d: int)
    ensures
        (a * b) * (c * d) == (a * c) * (b * d),
{
    assert((a * b) * (c * d) == (a * c) * (b * d)) by (nonlinear_arith);
}

/// `a * b == b * a`
pub proof fn lemma_mul_comm_pair(a: int, b: int)
    ensures
        a * b == b * a,
{
}

/// `(-a) * b == -(a * b)`
pub proof fn lemma_neg_mul(a: int, b: int)
    ensures
        (-a) * b == -(a * b),
{
    assert((-a) * b == -(a * b)) by (nonlinear_arith);
}

/// `((a + b) * s) * k == (a * s) * k + (b * s) * k`
pub proof fn lemma_mul_distrib3(a: int, b: int, s: int, k: int)
    ensures
        ((a + b) * s) * k == (a * s) * k + (b * s) * k,
        (a + b) * k == a * k + b * k,
{
    assert(((a + b) * s) * k == (a * s) * k + (b * s) * k) by (nonlinear_arith);
    assert((a + b) * k == a * k + b * k) by (nonlinear_arith);
}

/// `(a * b) * c == a * (b * c)`
pub proof fn lemma_mul_assoc3(a: int, b: int, c: int)
    ensures
        (a * b) * c == a * (b * c),
{
    assert((a * b) * c == a * (b * c)) by (nonlinear_arith);
}

/// The product of two positive integers is positive.
pub proof fn lemma_pos_product(a: int, b: int)
    requires
        a > 0,
        b > 0,
    ensures
        a * b > 0,
{
    assert(a * b > 0) by (nonlinear_arith)
        requires
            a > 0,
            b > 0,
    ;
}

} // verus!
