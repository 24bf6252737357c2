//! Shared operation contracts.
//!
//! Each trait is a capability: a type that implements it says, through the
//! trait's spec members, exactly which inputs it accepts (`*_req`) and
//! exactly which value the operation returns (`spec_*`).  Generic code can
//! then call the operation through the trait and keep the full contract.
//!
//! A deliberate design note on points: the dot product is offered for
//! vector pairs only.  A point is a position, not a direction, so
//! [`crate::Point3`] implements none of these traits; a caller who wants
//! the coordinates of a point as a direction converts it to a vector
//! first.

use vstd::prelude::*;

verus! {

/// Dot product: the sum of elementwise products.
pub trait Dot<Rhs = Self> {
    /// The scalar type of the product.
    type Output;

    /// Which argument pairs the implementation accepts (bounds that keep
    /// every intermediate product and sum inside the element type).
    spec fn dot_req(&self, rhs: &Rhs) -> bool;

    /// The exact value `dot` returns.
    spec fn spec_dot(&self, rhs: &Rhs) -> Self::Output;

    fn dot(&self, rhs: &Rhs) -> (r: Self::Output)
        requires
            self.dot_req(rhs),
        ensures
            r == self.spec_dot(rhs),
    ;
}

/// Cross product, defined for three-component vectors under the
/// right-hand rule.
pub trait Cross<Rhs = Self> {
    /// The vector type of the product.
    type Output;

    /// Which argument pairs the implementation accepts.
    spec fn cross_req(&self, rhs: &Rhs) -> bool;

    /// The exact value `cross` returns.
    spec fn spec_cross(&self, rhs: &Rhs) -> Self::Output;

    fn cross(&self, rhs: &Rhs) -> (r: Self::Output)
        requires
            self.cross_req(rhs),
        ensures
            r == self.spec_cross(rhs),
    ;
}

/// Euclidean norm.  For integer elements the result is the floor of the
/// real square root of the sum of squares: the fractional part is
/// truncated, a documented precision caveat of integer vectors.
pub trait Length {
    /// The scalar type of the norm.
    type Output;

    /// Which values the implementation accepts.
    spec fn length_req(&self) -> bool;

    /// The exact value `length` returns.
    spec fn spec_length(&self) -> Self::Output;

    fn length(&self) -> (r: Self::Output)
        requires
            self.length_req(),
        ensures
            r == self.spec_length(),
    ;
}

/// Division of a value by its own length.  Undefined for a zero-length
/// value: the implementations exclude that input through `normalize_req`,
/// so verified callers can never divide by zero, and unverified callers
/// must test the length first.
pub trait Normalize: Sized {
    /// Which values the implementation accepts (nonzero length, plus the
    /// bounds the length computation itself needs).
    spec fn normalize_req(&self) -> bool;

    /// The exact value `normalize` returns.
    spec fn spec_normalize(&self) -> Self;

    fn normalize(&self) -> (r: Self)
        requires
            self.normalize_req(),
        ensures
            r == self.spec_normalize(),
    ;
}

/// Swap rows and columns.
pub trait Transpose: Sized {
    /// The exact value `transpose` returns.
    spec fn spec_transpose(&self) -> Self;

    fn transpose(&self) -> (r: Self)
        ensures
            r == self.spec_transpose(),
    ;
}

/// Closed-form determinant by cofactor expansion.
pub trait Determinant {
    /// The scalar type of the determinant.
    type Output;

    /// Which values the implementation accepts (bounds that keep the
    /// cofactor terms inside the element type).
    spec fn determinant_req(&self) -> bool;

    /// The exact value `determinant` returns.
    spec fn spec_determinant(&self) -> Self::Output;

    fn determinant(&self) -> (r: Self::Output)
        requires
            self.determinant_req(),
        ensures
            r == self.spec_determinant(),
    ;
}

/// Multiplicative inverse (adjugate over determinant for matrices).
/// Undefined for a singular input: the implementations exclude it through
/// `inverse_req`.  A fallible entry point that reports singularity as a
/// value instead of a precondition stands beside each implementation.
pub trait Inverse: Sized {
    /// Which values the implementation accepts (an inverse exists within
    /// the element type).
    spec fn inverse_req(&self) -> bool;

    /// The exact value `inverse` returns.
    spec fn spec_inverse(&self) -> Self;

    fn inverse(&self) -> (r: Self)
        requires
            self.inverse_req(),
        ensures
            r == self.spec_inverse(),
    ;
}

} // verus!
