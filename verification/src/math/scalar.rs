use vstd::prelude::*;

verus! {

/// The quotient that the primitive integers' `/` produces: it rounds
/// toward zero, whatever the signs of the operands.
pub open spec fn quot_trunc(a: int, b: int) -> int {
    if a == 0 {
        0
    } else if a > 0 && b > 0 {
        a / b
    } else if a < 0 && b < 0 {
        (a * -1) / (b * -1)
    } else if a < 0 {
        ((a * -1) / b) * -1
    } else {
        (a / (b * -1)) * -1
    }
}

/// The arithmetic capability a vector component type must offer.
///
/// Each operation of `GVector2d` asks only for the capability it
/// actually uses, stated against the mathematical value `sval` of the
/// scalar. A scalar type brings its own range (`fits`) and its own
/// division policy (`quot`); the vector contracts are phrased over
/// these, so they hold at every instantiation.
pub trait Scalar: Sized + Copy {
    /// The mathematical integer this scalar stands for.
    spec fn sval(self) -> int;

    /// Whether the mathematical integer `v` is representable in this type.
    spec fn fits(v: int) -> bool;

    /// The quotient this type's division produces.
    spec fn quot(a: int, b: int) -> int;

    /// Every representable scalar's value fits its own type.
    proof fn sval_fits(a: Self)
        ensures
            Self::fits(a.sval()),
    ;

    /// Two scalars with the same mathematical value are the same scalar.
    proof fn sval_injective(a: Self, b: Self)
        requires
            a.sval() == b.sval(),
        ensures
            a == b,
    ;

    fn sc_add(self, other: Self) -> (r: Self)
        requires
            Self::fits(self.sval() + other.sval()),
        ensures
            r.sval() == self.sval() + other.sval(),
    ;

    fn sc_sub(self, other: Self) -> (r: Self)
        requires
            Self::fits(self.sval() - other.sval()),
        ensures
            r.sval() == self.sval() - other.sval(),
    ;

    fn sc_mul(self, other: Self) -> (r: Self)
        requires
            Self::fits(self.sval() * other.sval()),
        ensures
            r.sval() == self.sval() * other.sval(),
    ;

    fn sc_div(self, other: Self) -> (r: Self)
        requires
            other.sval() != 0,
            Self::fits(Self::quot(self.sval(), other.sval())),
        ensures
            r.sval() == Self::quot(self.sval(), other.sval()),
    ;

    fn sc_is_zero(self) -> (b: bool)
        ensures
            b == (self.sval() == 0),
    ;
}

impl Scalar for i64 {
    open spec fn sval(self) -> int {
        self as int
    }

    open spec fn fits(v: int) -> bool {
        i64::MIN <= v <= i64::MAX
    }

    open spec fn quot(a: int, b: int) -> int {
        quot_trunc(a, b)
    }

    proof fn sval_fits(a: Self) {
    }

    proof fn sval_injective(a: Self, b: Self) {
    }

    fn sc_add(self, other: Self) -> (r: Self) {
        self + other
    }

    fn sc_sub(self, other: Self) -> (r: Self) {
        self - other
    }

    fn sc_mul(self, other: Self) -> (r: Self) {
        self * other
    }

    fn sc_div(self, other: Self) -> (r: Self) {
        let q: Option<i64> = self.checked_div(other);
        q.unwrap()
    }

    fn sc_is_zero(self) -> (b: bool) {
        self == 0
    }
}

impl Scalar for i32 {
    open spec fn sval(self) -> int {
        self as int
    }

    open spec fn fits(v: int) -> bool {
        i32::MIN <= v <= i32::MAX
    }

    open spec fn quot(a: int, b: int) -> int {
        quot_trunc(a, b)
    }

    proof fn sval_fits(a: Self) {
    }

    proof fn sval_injective(a: Self, b: Self) {
    }

    fn sc_add(self, other: Self) -> (r: Self) {
        self + other
    }

    fn sc_sub(self, other: Self) -> (r: Self) {
        self - other
    }

    fn sc_mul(self, other: Self) -> (r: Self) {
        self * other
    }

    fn sc_div(self, other: Self) -> (r: Self) {
        let q: Option<i32> = self.checked_div(other);
        q.unwrap()
    }

    fn sc_is_zero(self) -> (b: bool) {
        self == 0
    }
}

} // verus!
