//! A generic two-component value with component-wise arithmetic.
use crate::math::signed::{abs_i32, abs_i64};
use std::ops::{Add, Div, Mul, Sub};
use vstd::prelude::*;
use vstd::std_specs::cmp::PartialEqSpec;
use vstd::std_specs::convert::IntoSpec;
use vstd::std_specs::ops::{AddSpec, DivSpec, MulSpec, SubSpec};

verus! {

/// A pair of components. It has no identity: two points are the same value
/// exactly when their components are.
#[derive(Debug, Clone, Copy)]
pub struct Point2<T> {
    pub x: T,
    pub y: T,
}

impl<T> Point2<T> {
    /// The point with the given components.
    pub fn new(x: T, y: T) -> (r: Self)
        ensures
            r.x == x,
            r.y == y,
    {
        Self { x, y }
    }

    /// Converts each component of `other` into `T`.
    pub fn from_point<E>(other: Point2<E>) -> (r: Self) where E: Into<T>
        ensures
            <E as IntoSpec<T>>::obeys_into_spec() ==> r.x == other.x.into_spec() && r.y
                == other.y.into_spec(),
    {
        Self { x: other.x.into(), y: other.y.into() }
    }

    /// Converts each component of `self` into `E`.
    pub fn into_point<E>(self) -> (r: Point2<E>) where T: Into<E>
        ensures
            <T as IntoSpec<E>>::obeys_into_spec() ==> r.x == self.x.into_spec() && r.y
                == self.y.into_spec(),
    {
        Point2 { x: self.x.into(), y: self.y.into() }
    }
}

/// Two points are equal exactly when both components are.
impl<T: PartialEq> PartialEq for Point2<T> {
    fn eq(&self, other: &Self) -> (r: bool) {
        self.x == other.x && self.y == other.y
    }
}

impl<T: PartialEq> vstd::std_specs::cmp::PartialEqSpecImpl for Point2<T> {
    open spec fn obeys_eq_spec() -> bool {
        T::obeys_eq_spec()
    }

    open spec fn eq_spec(&self, other: &Self) -> bool {
        self.x.eq_spec(&other.x) && self.y.eq_spec(&other.y)
    }
}

/// Component-wise sum. Each component's sum must exist: for integers it
/// must not overflow.
impl<T: Add<Output = T>> Add for Point2<T> {
    type Output = Self;

    fn add(self, other: Self) -> (r: Self) {
        Self { x: self.x + other.x, y: self.y + other.y }
    }
}

impl<T: Add<Output = T>> vstd::std_specs::ops::AddSpecImpl for Point2<T> {
    open spec fn obeys_add_spec() -> bool {
        T::obeys_add_spec()
    }

    open spec fn add_req(self, other: Self) -> bool {
        self.x.add_req(other.x) && self.y.add_req(other.y)
    }

    open spec fn add_spec(self, other: Self) -> Self {
        Point2 { x: self.x.add_spec(other.x), y: self.y.add_spec(other.y) }
    }
}

/// Component-wise difference. Each component's difference must exist: for
/// integers it must not overflow.
impl<T: Sub<Output = T>> Sub for Point2<T> {
    type Output = Self;

    fn sub(self, other: Self) -> (r: Self) {
        Self { x: self.x - other.x, y: self.y - other.y }
    }
}

impl<T: Sub<Output = T>> vstd::std_specs::ops::SubSpecImpl for Point2<T> {
    open spec fn obeys_sub_spec() -> bool {
        T::obeys_sub_spec()
    }

    open spec fn sub_req(self, other: Self) -> bool {
        self.x.sub_req(other.x) && self.y.sub_req(other.y)
    }

    open spec fn sub_spec(self, other: Self) -> Self {
        Point2 { x: self.x.sub_spec(other.x), y: self.y.sub_spec(other.y) }
    }
}

/// Component-wise product, neither a dot nor a cross product. Each
/// component's product must exist: for integers it must not overflow.
impl<T: Mul<Output = T>> Mul for Point2<T> {
    type Output = Self;

    fn mul(self, other: Self) -> (r: Self) {
        Self { x: self.x * other.x, y: self.y * other.y }
    }
}

impl<T: Mul<Output = T>> vstd::std_specs::ops::MulSpecImpl for Point2<T> {
    open spec fn obeys_mul_spec() -> bool {
        T::obeys_mul_spec()
    }

    open spec fn mul_req(self, other: Self) -> bool {
        self.x.mul_req(other.x) && self.y.mul_req(other.y)
    }

    open spec fn mul_spec(self, other: Self) -> Self {
        Point2 { x: self.x.mul_spec(other.x), y: self.y.mul_spec(other.y) }
    }
}

/// Component-wise quotient. Nothing guards a zero component in the divisor:
/// for integers the caller must rule it out, together with the quotient of
/// the least number by minus one, and integer quotients round toward zero;
/// for floating-point components the quotient by zero is infinite or not a
/// number.
impl<T: Div<Output = T>> Div for Point2<T> {
    type Output = Self;

    fn div(self, other: Self) -> (r: Self) {
        Self { x: self.x / other.x, y: self.y / other.y }
    }
}

impl<T: Div<Output = T>> vstd::std_specs::ops::DivSpecImpl for Point2<T> {
    open spec fn obeys_div_spec() -> bool {
        T::obeys_div_spec()
    }

    open spec fn div_req(self, other: Self) -> bool {
        self.x.div_req(other.x) && self.y.div_req(other.y)
    }

    open spec fn div_spec(self, other: Self) -> Self {
        Point2 { x: self.x.div_spec(other.x), y: self.y.div_spec(other.y) }
    }
}

impl<T> Point2<T> {
    /// Adds `other` to `self`, component by component.
    pub fn add_assign(&mut self, other: Self) where T: Add<Output = T> + Copy
        requires
            old(self).add_req(other),
        ensures
            <T as AddSpec>::obeys_add_spec() ==> *final(self) == old(self).add_spec(other),
    {
        *self = Self { x: self.x + other.x, y: self.y + other.y };
    }

    /// Subtracts `other` from `self`, component by component.
    pub fn sub_assign(&mut self, other: Self) where T: Sub<Output = T> + Copy
        requires
            old(self).sub_req(other),
        ensures
            <T as SubSpec>::obeys_sub_spec() ==> *final(self) == old(self).sub_spec(other),
    {
        *self = Self { x: self.x - other.x, y: self.y - other.y };
    }

    /// Multiplies `self` by `other`, component by component.
    pub fn mul_assign(&mut self, other: Self) where T: Mul<Output = T> + Copy
        requires
            old(self).mul_req(other),
        ensures
            <T as MulSpec>::obeys_mul_spec() ==> *final(self) == old(self).mul_spec(other),
    {
        *self = Self { x: self.x * other.x, y: self.y * other.y };
    }

    /// Divides `self` by `other`, component by component. A zero component in
    /// `other` is the caller's to avoid.
    pub fn div_assign(&mut self, other: Self) where T: Div<Output = T> + Copy
        requires
            old(self).div_req(other),
        ensures
            <T as DivSpec>::obeys_div_spec() ==> *final(self) == old(self).div_spec(other),
    {
        *self = Self { x: self.x / other.x, y: self.y / other.y };
    }
}

/// The point whose components are the pair's, in order.
impl<T> From<(T, T)> for Point2<T> {
    fn from(other: (T, T)) -> (r: Self) {
        let (x, y) = other;
        Self { x, y }
    }
}

impl<T> vstd::std_specs::convert::FromSpecImpl<(T, T)> for Point2<T> {
    open spec fn obeys_from_spec() -> bool {
        true
    }

    open spec fn from_spec(other: (T, T)) -> Self {
        Point2 { x: other.0, y: other.1 }
    }
}

/// The point whose components are the array's, in order.
impl<T: Copy> From<&[T; 2]> for Point2<T> {
    fn from(other: &[T; 2]) -> (r: Self) {
        let x = other[0];
        let y = other[1];
        Self { x, y }
    }
}

impl<T: Copy> vstd::std_specs::convert::FromSpecImpl<&[T; 2]> for Point2<T> {
    open spec fn obeys_from_spec() -> bool {
        true
    }

    open spec fn from_spec(other: &[T; 2]) -> Self {
        Point2 { x: other@[0], y: other@[1] }
    }
}

/// The pair of the point's components, in order.
impl<T> Into<(T, T)> for Point2<T> {
    fn into(self) -> (r: (T, T)) {
        (self.x, self.y)
    }
}

impl<T> vstd::std_specs::convert::IntoSpecImpl<(T, T)> for Point2<T> {
    open spec fn obeys_into_spec() -> bool {
        true
    }

    open spec fn into_spec(self) -> (T, T) {
        (self.x, self.y)
    }
}

/// The array of the point's components, in order.
impl<T> Into<[T; 2]> for Point2<T> {
    fn into(self) -> (r: [T; 2]) {
        [self.x, self.y]
    }
}

impl<T> vstd::std_specs::convert::IntoSpecImpl<[T; 2]> for Point2<T> {
    open spec fn obeys_into_spec() -> bool {
        true
    }

    open spec fn into_spec(self) -> [T; 2] {
        [self.x, self.y]
    }
}

impl Point2<i32> {
    /// The absolute value of both components.
    pub fn abs(self) -> (r: Self)
        requires
            self.x != i32::MIN,
            self.y != i32::MIN,
        ensures
            r.x == vstd::math::abs(self.x as int),
            r.y == vstd::math::abs(self.y as int),
    {
        Self { x: abs_i32(self.x), y: abs_i32(self.y) }
    }

    /// The absolute value of the first component; the second is kept.
    pub fn x_abs(self) -> (r: Self)
        requires
            self.x != i32::MIN,
        ensures
            r.x == vstd::math::abs(self.x as int),
            r.y == self.y,
    {
        Self { x: abs_i32(self.x), y: self.y }
    }

    /// The absolute value of the second component; the first is kept.
    pub fn y_abs(self) -> (r: Self)
        requires
            self.y != i32::MIN,
        ensures
            r.x == self.x,
            r.y == vstd::math::abs(self.y as int),
    {
        Self { x: self.x, y: abs_i32(self.y) }
    }
}

impl Point2<i64> {
    /// The absolute value of both components.
    pub fn abs(self) -> (r: Self)
        requires
            self.x != i64::MIN,
            self.y != i64::MIN,
        ensures
            r.x == vstd::math::abs(self.x as int),
            r.y == vstd::math::abs(self.y as int),
    {
        Self { x: abs_i64(self.x), y: abs_i64(self.y) }
    }

    /// The absolute value of the first component; the second is kept.
    pub fn x_abs(self) -> (r: Self)
        requires
            self.x != i64::MIN,
        ensures
            r.x == vstd::math::abs(self.x as int),
            r.y == self.y,
    {
        Self { x: abs_i64(self.x), y: self.y }
    }

    /// The absolute value of the second component; the first is kept.
    pub fn y_abs(self) -> (r: Self)
        requires
            self.y != i64::MIN,
        ensures
            r.x == self.x,
            r.y == vstd::math::abs(self.y as int),
    {
        Self { x: self.x, y: abs_i64(self.y) }
    }
}

} // verus!
