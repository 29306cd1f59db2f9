//! What holds of component-wise arithmetic on integer points.
use crate::math::point2::Point2;
use vstd::prelude::*;
use vstd::std_specs::ops::{AddSpec, DivSpec, MulSpec, SubSpec};

verus! {

/// Division that rounds toward zero, as the machine's signed division does.
pub open spec fn truncated_quotient(n: int, d: int) -> int {
    if n >= 0 {
        n / d
    } else {
        -((-n) / d)
    }
}

/// The quotient, rounded toward zero, of a product by one of its factors
/// is the other factor.
pub proof fn lemma_truncated_quotient_of_product(a: int, b: int)
    requires
        b != 0,
    ensures
        truncated_quotient(a * b, b) == a,
{
    assert((a * b) / b == a) by (nonlinear_arith)
        requires
            b != 0,
    ;
    assert(-(a * b) == (-a) * b) by (nonlinear_arith);
    assert(((-a) * b) / b == -a) by (nonlinear_arith)
        requires
            b != 0,
    ;
}

/// Where the divisor divides the dividend, the quotient rounded toward zero
/// times the divisor is the dividend.
pub proof fn lemma_product_of_truncated_quotient(n: int, d: int)
    requires
        d != 0,
        n % d == 0,
    ensures
        truncated_quotient(n, d) * d == n,
        vstd::math::abs(truncated_quotient(n, d)) <= vstd::math::abs(n),
        vstd::math::abs(truncated_quotient(n, d)) == vstd::math::abs(n) ==> n == 0 || d == 1 || d
            == -1,
{
    assert((n / d) * d == n) by (nonlinear_arith)
        requires
            d != 0,
            n % d == 0,
    ;
    let k = n / d;
    assert((-k) * d == -n) by (nonlinear_arith)
        requires
            k * d == n,
    ;
    assert(((-k) * d) / d == -k) by (nonlinear_arith)
        requires
            d != 0,
    ;
    let q = truncated_quotient(n, d);
    if d > 0 {
        assert(q >= 0 ==> q * d >= q) by (nonlinear_arith)
            requires
                d >= 1,
        ;
        assert(q <= 0 ==> q * d <= q) by (nonlinear_arith)
            requires
                d >= 1,
        ;
        assert(d >= 2 && q > 0 ==> q * d > q) by (nonlinear_arith);
        assert(d >= 2 && q < 0 ==> q * d < q) by (nonlinear_arith);
    } else {
        assert(d <= -2 && q > 0 ==> q * d < -q) by (nonlinear_arith);
        assert(d <= -2 && q < 0 ==> q * d > -q) by (nonlinear_arith);
        assert(q >= 0 ==> q * d <= -q) by (nonlinear_arith)
            requires
                d <= -1,
        ;
        assert(q <= 0 ==> q * d >= -q) by (nonlinear_arith)
            requires
                d <= -1,
        ;
    }
}

/// Adding a point and then subtracting it again gives back the first
/// operand, whenever the sum can be represented in `i32`.
pub proof fn lemma_add_then_sub_i32(a: Point2<i32>, b: Point2<i32>)
    requires
        a.add_req(b),
    ensures
        a.add_spec(b).sub_req(b),
        a.add_spec(b).sub_spec(b) == a,
{
}

/// Subtracting a point and then adding it again gives back the first
/// operand, whenever the difference can be represented in `i32`.
pub proof fn lemma_sub_then_add_i32(a: Point2<i32>, b: Point2<i32>)
    requires
        a.sub_req(b),
    ensures
        a.sub_spec(b).add_req(b),
        a.sub_spec(b).add_spec(b) == a,
{
}

/// Multiplying by a point with no zero component and then dividing by it
/// gives back the first operand, whenever the product can be represented
/// in `i32`.
pub proof fn lemma_mul_then_div_i32(a: Point2<i32>, b: Point2<i32>)
    requires
        a.mul_req(b),
        b.x != 0,
        b.y != 0,
    ensures
        a.mul_spec(b).div_req(b),
        a.mul_spec(b).div_spec(b) == a,
{
    lemma_truncated_quotient_of_product(a.x as int, b.x as int);
    lemma_truncated_quotient_of_product(a.y as int, b.y as int);
}

/// Dividing by a point and then multiplying by it gives back the first
/// operand, whenever each component of the divisor is not zero and divides
/// the matching component of the dividend.
pub proof fn lemma_div_then_mul_i32(a: Point2<i32>, b: Point2<i32>)
    requires
        a.div_req(b),
        a.x as int % b.x as int == 0,
        a.y as int % b.y as int == 0,
    ensures
        a.div_spec(b).mul_req(b),
        a.div_spec(b).mul_spec(b) == a,
{
    lemma_product_of_truncated_quotient(a.x as int, b.x as int);
    lemma_product_of_truncated_quotient(a.y as int, b.y as int);
}

/// Adding a point and then subtracting it again gives back the first
/// operand, whenever the sum can be represented in `i64`.
pub proof fn lemma_add_then_sub_i64(a: Point2<i64>, b: Point2<i64>)
    requires
        a.add_req(b),
    ensures
        a.add_spec(b).sub_req(b),
        a.add_spec(b).sub_spec(b) == a,
{
}

/// Subtracting a point and then adding it again gives back the first
/// operand, whenever the difference can be represented in `i64`.
pub proof fn lemma_sub_then_add_i64(a: Point2<i64>, b: Point2<i64>)
    requires
        a.sub_req(b),
    ensures
        a.sub_spec(b).add_req(b),
        a.sub_spec(b).add_spec(b) == a,
{
}

/// Multiplying by a point with no zero component and then dividing by it
/// gives back the first operand, whenever the product can be represented
/// in `i64`.
pub proof fn lemma_mul_then_div_i64(a: Point2<i64>, b: Point2<i64>)
    requires
        a.mul_req(b),
        b.x != 0,
        b.y != 0,
    ensures
        a.mul_spec(b).div_req(b),
        a.mul_spec(b).div_spec(b) == a,
{
    lemma_truncated_quotient_of_product(a.x as int, b.x as int);
    lemma_truncated_quotient_of_product(a.y as int, b.y as int);
}

/// Dividing by a point and then multiplying by it gives back the first
/// operand, whenever each component of the divisor is not zero and divides
/// the matching component of the dividend.
pub proof fn lemma_div_then_mul_i64(a: Point2<i64>, b: Point2<i64>)
    requires
        a.div_req(b),
        a.x as int % b.x as int == 0,
        a.y as int % b.y as int == 0,
    ensures
        a.div_spec(b).mul_req(b),
        a.div_spec(b).mul_spec(b) == a,
{
    lemma_product_of_truncated_quotient(a.x as int, b.x as int);
    lemma_product_of_truncated_quotient(a.y as int, b.y as int);
}

/// Adding a point and then subtracting it again gives back the first
/// operand, whenever the sum can be represented in `u32`.
pub proof fn lemma_add_then_sub_u32(a: Point2<u32>, b: Point2<u32>)
    requires
        a.add_req(b),
    ensures
        a.add_spec(b).sub_req(b),
        a.add_spec(b).sub_spec(b) == a,
{
}

/// Multiplying by a point with no zero component and then dividing by it
/// gives back the first operand, whenever the product can be represented
/// in `u32`.
pub proof fn lemma_mul_then_div_u32(a: Point2<u32>, b: Point2<u32>)
    requires
        a.mul_req(b),
        b.x != 0,
        b.y != 0,
    ensures
        a.mul_spec(b).div_req(b),
        a.mul_spec(b).div_spec(b) == a,
{
    lemma_truncated_quotient_of_product(a.x as int, b.x as int);
    lemma_truncated_quotient_of_product(a.y as int, b.y as int);
    assert(a.x * b.x >= 0 && a.y * b.y >= 0) by (nonlinear_arith);
}

} // verus!
