//! A minimal generic 2D vector: the component access, single-axis
//! projections and componentwise arithmetic the rectangle type builds on.

use vstd::prelude::*;

use crate::scalar::{Scalar, ScalarCast};

verus! {

/// One of the two orthogonal directions of the plane. `NoAxis` is an invalid
/// sentinel: it identifies "no axis" results and must never reach an
/// operation that needs a concrete axis.
#[derive(Debug, Clone, Copy, PartialEq, Eq)]
pub enum Axis2 {
    X,
    Y,
    NoAxis,
}

/// A 2D vector of two scalar components, `x` then `y`.
#[derive(Debug, Clone, Copy, PartialEq, Eq)]
pub struct Vec2<T: Scalar>(pub T, pub T);

impl<T: Scalar> Vec2<T> {
    /// The mathematical value of the x component.
    pub open spec fn xv(self) -> int {
        self.0.v()
    }

    /// The mathematical value of the y component.
    pub open spec fn yv(self) -> int {
        self.1.v()
    }

    /// The x component.
    pub fn x(&self) -> (r: T)
        ensures
            r == self.0,
    {
        self.0
    }

    /// The y component.
    pub fn y(&self) -> (r: T)
        ensures
            r == self.1,
    {
        self.1
    }

    /// Replaces the x component.
    pub fn set_x(&mut self, x: T)
        ensures
            final(self).0 == x,
            final(self).1 == old(self).1,
    {
        self.0 = x;
    }

    /// Replaces the y component.
    pub fn set_y(&mut self, y: T)
        ensures
            final(self).0 == old(self).0,
            final(self).1 == y,
    {
        self.1 = y;
    }

    /// The projection of this vector onto the x axis: `(x, 0)`.
    pub fn of_x(&self) -> (r: Vec2<T>)
        ensures
            r.0 == self.0,
            r.yv() == 0,
    {
        Vec2(self.0, T::zero())
    }

    /// The projection of this vector onto the y axis: `(0, y)`.
    pub fn of_y(&self) -> (r: Vec2<T>)
        ensures
            r.xv() == 0,
            r.1 == self.1,
    {
        Vec2(T::zero(), self.1)
    }

    /// A vector of `amount` on the x axis alone: `(amount, 0)`.
    pub fn on_x(amount: T) -> (r: Vec2<T>)
        ensures
            r.0 == amount,
            r.yv() == 0,
    {
        Vec2(amount, T::zero())
    }

    /// A vector of `amount` on the y axis alone: `(0, amount)`.
    pub fn on_y(amount: T) -> (r: Vec2<T>)
        ensures
            r.xv() == 0,
            r.1 == amount,
    {
        Vec2(T::zero(), amount)
    }

    /// Componentwise addition; both sums must be representable.
    pub fn add_v(self, other: Vec2<T>) -> (r: Vec2<T>)
        requires
            crate::scalar::fits::<T>(self.xv() + other.xv()),
            crate::scalar::fits::<T>(self.yv() + other.yv()),
        ensures
            r.xv() == self.xv() + other.xv(),
            r.yv() == self.yv() + other.yv(),
    {
        Vec2(self.0.add_v(other.0), self.1.add_v(other.1))
    }

    /// Componentwise subtraction; both differences must be representable.
    pub fn sub_v(self, other: Vec2<T>) -> (r: Vec2<T>)
        requires
            crate::scalar::fits::<T>(self.xv() - other.xv()),
            crate::scalar::fits::<T>(self.yv() - other.yv()),
        ensures
            r.xv() == self.xv() - other.xv(),
            r.yv() == self.yv() - other.yv(),
    {
        Vec2(self.0.sub_v(other.0), self.1.sub_v(other.1))
    }

    /// Converts both components to another scalar type; each component must
    /// be representable there.
    pub fn cast<U: Scalar>(&self) -> (r: Vec2<U>) where T: ScalarCast<U>
        requires
            U::min_v() <= self.xv() <= U::max_v(),
            U::min_v() <= self.yv() <= U::max_v(),
        ensures
            r.xv() == self.xv(),
            r.yv() == self.yv(),
    {
        Vec2(self.0.cast_scalar(), self.1.cast_scalar())
    }
}

impl<T: Scalar> Default for Vec2<T> {
    /// The zero vector.
    fn default() -> (r: Self)
        ensures
            r.xv() == 0,
            r.yv() == 0,
    {
        Vec2(T::zero(), T::zero())
    }
}

} // verus!
