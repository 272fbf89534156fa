use vstd::prelude::*;
use crate::math::scalar::Scalar;

verus! {

/// Component-wise sum of two integer pairs.
pub open spec fn vadd(a: (int, int), b: (int, int)) -> (int, int) {
    (a.0 + b.0, a.1 + b.1)
}

/// Component-wise difference of two integer pairs.
pub open spec fn vsub(a: (int, int), b: (int, int)) -> (int, int) {
    (a.0 - b.0, a.1 - b.1)
}

/// Component-wise (Hadamard) product of two integer pairs.
pub open spec fn vmul(a: (int, int), b: (int, int)) -> (int, int) {
    (a.0 * b.0, a.1 * b.1)
}

/// Both components multiplied by one scalar.
pub open spec fn vscale(a: (int, int), k: int) -> (int, int) {
    (a.0 * k, a.1 * k)
}

/// Dot product: the sum of the pairwise axis products. A scalar, not
/// a pair; zero means the two vectors are orthogonal.
pub open spec fn vdot(a: (int, int), b: (int, int)) -> int {
    a.0 * b.0 + a.1 * b.1
}

/// A 2-D vector whose axis types may or may not match: `x: T`, `y: U`.
///
/// Every operation consumes its operands and produces a new value;
/// nothing is mutated in place. Any pair of components is a valid
/// vector, the zero vector included. The arithmetic operations are
/// offered where both axes carry one `Scalar` type.
#[derive(Debug, Clone, Copy, PartialEq, Eq)]
pub struct GVector2d<T, U> {
    pub x: T,
    pub y: U,
}

impl<T, U> GVector2d<T, U> {
    /// Builds the vector `(x, y)`. Total: no validation of any kind.
    pub fn new(x: T, y: U) -> (r: GVector2d<T, U>)
        ensures
            r.x == x,
            r.y == y,
    {
        GVector2d { x, y }
    }
}

impl<T: Scalar> GVector2d<T, T> {
    /// The pair of mathematical values of the two components.
    pub open spec fn model(self) -> (int, int) {
        (self.x.sval(), self.y.sval())
    }

    /// Component-wise sum: `(x1 + x2, y1 + y2)`.
    pub fn add(self, other: GVector2d<T, T>) -> (r: GVector2d<T, T>)
        requires
            T::fits(self.x.sval() + other.x.sval()),
            T::fits(self.y.sval() + other.y.sval()),
        ensures
            r.model() == vadd(self.model(), other.model()),
    {
        GVector2d { x: self.x.sc_add(other.x), y: self.y.sc_add(other.y) }
    }

    /// Component-wise difference: `(x1 - x2, y1 - y2)`.
    pub fn sub(self, other: GVector2d<T, T>) -> (r: GVector2d<T, T>)
        requires
            T::fits(self.x.sval() - other.x.sval()),
            T::fits(self.y.sval() - other.y.sval()),
        ensures
            r.model() == vsub(self.model(), other.model()),
    {
        GVector2d { x: self.x.sc_sub(other.x), y: self.y.sc_sub(other.y) }
    }

    /// Component-wise product: `(x1 * x2, y1 * y2)`.
    ///
    /// This is Hadamard multiplication, deliberately **not** the dot
    /// product: the result is a vector, and each axis is multiplied
    /// with its own counterpart only. For the scalar product see
    /// [`Self::dot_product`].
    pub fn mul(self, other: GVector2d<T, T>) -> (r: GVector2d<T, T>)
        requires
            T::fits(self.x.sval() * other.x.sval()),
            T::fits(self.y.sval() * other.y.sval()),
        ensures
            r.model() == vmul(self.model(), other.model()),
    {
        GVector2d { x: self.x.sc_mul(other.x), y: self.y.sc_mul(other.y) }
    }

    /// Guarded component-wise quotient, the named-method policy: the
    /// result is present as soon as **at least one** divisor component
    /// is nonzero (an OR-guard), and absent only when both are zero.
    ///
    /// For an integer `Scalar` a quotient `x / 0` is not defined, so
    /// when one divisor component is zero the other must be zero too;
    /// the pass-through that the OR-guard leaves open on a single zero
    /// axis belongs to floating components, which carry their own
    /// division-by-zero value. See [`Self::div_op`] for the stricter
    /// AND-guard that the division operator form uses.
    pub fn div(self, other: GVector2d<T, T>) -> (r: Option<GVector2d<T, T>>)
        requires
            (other.x.sval() == 0) <==> (other.y.sval() == 0),
            other.x.sval() != 0 ==> T::fits(T::quot(self.x.sval(), other.x.sval())),
            other.y.sval() != 0 ==> T::fits(T::quot(self.y.sval(), other.y.sval())),
        ensures
            (r is Some) <==> (other.x.sval() != 0 || other.y.sval() != 0),
            r is Some ==> (r->Some_0).model() == (
                T::quot(self.x.sval(), other.x.sval()),
                T::quot(self.y.sval(), other.y.sval()),
            ),
    {
        let x_is_zero = other.x.sc_is_zero();
        let y_is_zero = other.y.sc_is_zero();
        if !x_is_zero || !y_is_zero {
            Some(GVector2d { x: self.x.sc_div(other.x), y: self.y.sc_div(other.y) })
        } else {
            None
        }
    }

    /// Guarded component-wise quotient, the operator-form policy: the
    /// result is present only when **both** divisor components are
    /// nonzero (an AND-guard), and absent as soon as either is zero.
    ///
    /// This guard is deliberately stricter than the one of
    /// [`Self::div`]; the two policies are distinct and kept so.
    pub fn div_op(self, other: GVector2d<T, T>) -> (r: Option<GVector2d<T, T>>)
        requires
            other.x.sval() != 0 && other.y.sval() != 0 ==> T::fits(
                T::quot(self.x.sval(), other.x.sval()),
            ) && T::fits(T::quot(self.y.sval(), other.y.sval())),
        ensures
            (r is Some) <==> (other.x.sval() != 0 && other.y.sval() != 0),
            r is Some ==> (r->Some_0).model() == (
                T::quot(self.x.sval(), other.x.sval()),
                T::quot(self.y.sval(), other.y.sval()),
            ),
    {
        let x_is_zero = other.x.sc_is_zero();
        let y_is_zero = other.y.sc_is_zero();
        if !x_is_zero && !y_is_zero {
            Some(GVector2d { x: self.x.sc_div(other.x), y: self.y.sc_div(other.y) })
        } else {
            None
        }
    }

    /// Uniform scale: both components multiplied by one scalar of the
    /// vector's own type. Scaling by the scalar one returns a vector
    /// equal to the input.
    pub fn scale(self, factor: T) -> (r: GVector2d<T, T>)
        requires
            T::fits(self.x.sval() * factor.sval()),
            T::fits(self.y.sval() * factor.sval()),
        ensures
            r.model() == vscale(self.model(), factor.sval()),
            factor.sval() == 1 ==> r == self,
    {
        let rx = self.x.sc_mul(factor);
        let ry = self.y.sc_mul(factor);
        proof {
            if factor.sval() == 1 {
                T::sval_injective(rx, self.x);
                T::sval_injective(ry, self.y);
            }
        }
        GVector2d { x: rx, y: ry }
    }

    /// Dot product (scalar product): `x1 * x2 + y1 * y2`.
    ///
    /// The result is a single scalar, not a vector; for the
    /// component-wise vector product see [`Self::mul`]. A result of
    /// exactly zero indicates orthogonality; a positive result, a
    /// broadly similar direction; a negative one, broadly opposite
    /// directions.
    pub fn dot_product(&self, other: GVector2d<T, T>) -> (r: T)
        requires
            T::fits(self.x.sval() * other.x.sval()),
            T::fits(self.y.sval() * other.y.sval()),
            T::fits(self.x.sval() * other.x.sval() + self.y.sval() * other.y.sval()),
        ensures
            r.sval() == vdot(self.model(), other.model()),
    {
        let px = self.x.sc_mul(other.x);
        let py = self.y.sc_mul(other.y);
        px.sc_add(py)
    }
}

/// Two vectors with the same model are the same vector: `model` is a
/// faithful view of the value.
pub proof fn lemma_model_injective<T: Scalar>(a: GVector2d<T, T>, b: GVector2d<T, T>)
    requires
        a.model() == b.model(),
    ensures
        a == b,
{
    T::sval_injective(a.x, b.x);
    T::sval_injective(a.y, b.y);
}

/// Addition of vectors is commutative: for all vectors `a, b`, the
/// result `add` promises for `a.add(b)` and the one it promises for
/// `b.add(a)` are the same vector. Subtraction is not commutative; see
/// the concrete counterexamples among the tests.
pub proof fn lemma_add_commutes<T: Scalar>(
    a: GVector2d<T, T>,
    b: GVector2d<T, T>,
    r1: GVector2d<T, T>,
    r2: GVector2d<T, T>,
)
    requires
        r1.model() == vadd(a.model(), b.model()),
        r2.model() == vadd(b.model(), a.model()),
    ensures
        r1 == r2,
{
    lemma_model_injective(r1, r2);
}

} // verus!
