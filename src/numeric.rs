//! The arithmetic that the Fibonacci computation asks of its number type.
use vstd::prelude::*;

verus! {

/// An integer type usable both as a Fibonacci index and as a Fibonacci value:
/// small constants, the four arithmetic operations with remainder, equality,
/// and value semantics.
///
/// Each operation is exact on the non-negative values it is given, as long as
/// the result does not exceed `max_value()`.
pub trait Numeric: Copy + Sized {
    /// The mathematical integer this value stands for.
    spec fn value(&self) -> int;

    /// The largest value the type can hold.
    spec fn max_value() -> int;

    /// Every type offers at least the values of a signed byte.
    proof fn lemma_max_value()
        ensures
            Self::max_value() >= 127,
    ;

    /// Values that stand for the same integer are the same value.
    proof fn lemma_value_injective(x: Self, y: Self)
        requires
            x.value() == y.value(),
        ensures
            x == y,
    ;

    /// The small constant `v`.
    fn from_small(v: u8) -> (r: Self)
        requires
            v <= 127,
        ensures
            r.value() == v,
    ;

    /// Addition.
    fn plus(self, o: Self) -> (r: Self)
        requires
            0 <= self.value(),
            0 <= o.value(),
            self.value() + o.value() <= Self::max_value(),
        ensures
            r.value() == self.value() + o.value(),
    ;

    /// Subtraction.
    fn minus(self, o: Self) -> (r: Self)
        requires
            0 <= o.value() <= self.value(),
        ensures
            r.value() == self.value() - o.value(),
    ;

    /// Multiplication.
    fn times(self, o: Self) -> (r: Self)
        requires
            0 <= self.value(),
            0 <= o.value(),
            self.value() * o.value() <= Self::max_value(),
        ensures
            r.value() == self.value() * o.value(),
    ;

    /// Division, rounding toward zero.
    fn quotient(self, d: Self) -> (r: Self)
        requires
            0 <= self.value(),
            0 < d.value(),
        ensures
            r.value() == self.value() / d.value(),
    ;

    /// Remainder of that division.
    fn remainder(self, d: Self) -> (r: Self)
        requires
            0 <= self.value(),
            0 < d.value(),
        ensures
            r.value() == self.value() % d.value(),
    ;

    /// Equality.
    fn equals(self, o: Self) -> (r: bool)
        ensures
            r == (self.value() == o.value()),
    ;
}

impl Numeric for u8 {
    open spec fn value(&self) -> int {
        *self as int
    }

    open spec fn max_value() -> int {
        u8::MAX as int
    }

    proof fn lemma_max_value() {
    }

    proof fn lemma_value_injective(x: Self, y: Self) {
    }

    fn from_small(v: u8) -> (r: Self) {
        v
    }

    fn plus(self, o: Self) -> (r: Self) {
        self + o
    }

    fn minus(self, o: Self) -> (r: Self) {
        self - o
    }

    fn times(self, o: Self) -> (r: Self) {
        self * o
    }

    fn quotient(self, d: Self) -> (r: Self) {
        self / d
    }

    fn remainder(self, d: Self) -> (r: Self) {
        self % d
    }

    fn equals(self, o: Self) -> (r: bool) {
        self == o
    }
}

impl Numeric for u16 {
    open spec fn value(&self) -> int {
        *self as int
    }

    open spec fn max_value() -> int {
        u16::MAX as int
    }

    proof fn lemma_max_value() {
    }

    proof fn lemma_value_injective(x: Self, y: Self) {
    }

    fn from_small(v: u8) -> (r: Self) {
        v as u16
    }

    fn plus(self, o: Self) -> (r: Self) {
        self + o
    }

    fn minus(self, o: Self) -> (r: Self) {
        self - o
    }

    fn times(self, o: Self) -> (r: Self) {
        self * o
    }

    fn quotient(self, d: Self) -> (r: Self) {
        self / d
    }

    fn remainder(self, d: Self) -> (r: Self) {
        self % d
    }

    fn equals(self, o: Self) -> (r: bool) {
        self == o
    }
}

impl Numeric for u32 {
    open spec fn value(&self) -> int {
        *self as int
    }

    open spec fn max_value() -> int {
        u32::MAX as int
    }

    proof fn lemma_max_value() {
    }

    proof fn lemma_value_injective(x: Self, y: Self) {
    }

    fn from_small(v: u8) -> (r: Self) {
        v as u32
    }

    fn plus(self, o: Self) -> (r: Self) {
        self + o
    }

    fn minus(self, o: Self) -> (r: Self) {
        self - o
    }

    fn times(self, o: Self) -> (r: Self) {
        self * o
    }

    fn quotient(self, d: Self) -> (r: Self) {
        self / d
    }

    fn remainder(self, d: Self) -> (r: Self) {
        self % d
    }

    fn equals(self, o: Self) -> (r: bool) {
        self == o
    }
}

impl Numeric for u64 {
    open spec fn value(&self) -> int {
        *self as int
    }

    open spec fn max_value() -> int {
        u64::MAX as int
    }

    proof fn lemma_max_value() {
    }

    proof fn lemma_value_injective(x: Self, y: Self) {
    }

    fn from_small(v: u8) -> (r: Self) {
        v as u64
    }

    fn plus(self, o: Self) -> (r: Self) {
        self + o
    }

    fn minus(self, o: Self) -> (r: Self) {
        self - o
    }

    fn times(self, o: Self) -> (r: Self) {
        self * o
    }

    fn quotient(self, d: Self) -> (r: Self) {
        self / d
    }

    fn remainder(self, d: Self) -> (r: Self) {
        self % d
    }

    fn equals(self, o: Self) -> (r: bool) {
        self == o
    }
}

impl Numeric for u128 {
    open spec fn value(&self) -> int {
        *self as int
    }

    open spec fn max_value() -> int {
        u128::MAX as int
    }

    proof fn lemma_max_value() {
    }

    proof fn lemma_value_injective(x: Self, y: Self) {
    }

    fn from_small(v: u8) -> (r: Self) {
        v as u128
    }

    fn plus(self, o: Self) -> (r: Self) {
        self + o
    }

    fn minus(self, o: Self) -> (r: Self) {
        self - o
    }

    fn times(self, o: Self) -> (r: Self) {
        self * o
    }

    fn quotient(self, d: Self) -> (r: Self) {
        self / d
    }

    fn remainder(self, d: Self) -> (r: Self) {
        self % d
    }

    fn equals(self, o: Self) -> (r: bool) {
        self == o
    }
}

impl Numeric for usize {
    open spec fn value(&self) -> int {
        *self as int
    }

    open spec fn max_value() -> int {
        usize::MAX as int
    }

    proof fn lemma_max_value() {
    }

    proof fn lemma_value_injective(x: Self, y: Self) {
    }

    fn from_small(v: u8) -> (r: Self) {
        v as usize
    }

    fn plus(self, o: Self) -> (r: Self) {
        self + o
    }

    fn minus(self, o: Self) -> (r: Self) {
        self - o
    }

    fn times(self, o: Self) -> (r: Self) {
        self * o
    }

    fn quotient(self, d: Self) -> (r: Self) {
        self / d
    }

    fn remainder(self, d: Self) -> (r: Self) {
        self % d
    }

    fn equals(self, o: Self) -> (r: bool) {
        self == o
    }
}

impl Numeric for i8 {
    open spec fn value(&self) -> int {
        *self as int
    }

    open spec fn max_value() -> int {
        i8::MAX as int
    }

    proof fn lemma_max_value() {
    }

    proof fn lemma_value_injective(x: Self, y: Self) {
    }

    fn from_small(v: u8) -> (r: Self) {
        v as i8
    }

    fn plus(self, o: Self) -> (r: Self) {
        self + o
    }

    fn minus(self, o: Self) -> (r: Self) {
        self - o
    }

    fn times(self, o: Self) -> (r: Self) {
        self * o
    }

    fn quotient(self, d: Self) -> (r: Self) {
        self / d
    }

    fn remainder(self, d: Self) -> (r: Self) {
        self % d
    }

    fn equals(self, o: Self) -> (r: bool) {
        self == o
    }
}

impl Numeric for i16 {
    open spec fn value(&self) -> int {
        *self as int
    }

    open spec fn max_value() -> int {
        i16::MAX as int
    }

    proof fn lemma_max_value() {
    }

    proof fn lemma_value_injective(x: Self, y: Self) {
    }

    fn from_small(v: u8) -> (r: Self) {
        v as i16
    }

    fn plus(self, o: Self) -> (r: Self) {
        self + o
    }

    fn minus(self, o: Self) -> (r: Self) {
        self - o
    }

    fn times(self, o: Self) -> (r: Self) {
        self * o
    }

    fn quotient(self, d: Self) -> (r: Self) {
        self / d
    }

    fn remainder(self, d: Self) -> (r: Self) {
        self % d
    }

    fn equals(self, o: Self) -> (r: bool) {
        self == o
    }
}

impl Numeric for i32 {
    open spec fn value(&self) -> int {
        *self as int
    }

    open spec fn max_value() -> int {
        i32::MAX as int
    }

    proof fn lemma_max_value() {
    }

    proof fn lemma_value_injective(x: Self, y: Self) {
    }

    fn from_small(v: u8) -> (r: Self) {
        v as i32
    }

    fn plus(self, o: Self) -> (r: Self) {
        self + o
    }

    fn minus(self, o: Self) -> (r: Self) {
        self - o
    }

    fn times(self, o: Self) -> (r: Self) {
        self * o
    }

    fn quotient(self, d: Self) -> (r: Self) {
        self / d
    }

    fn remainder(self, d: Self) -> (r: Self) {
        self % d
    }

    fn equals(self, o: Self) -> (r: bool) {
        self == o
    }
}

impl Numeric for i64 {
    open spec fn value(&self) -> int {
        *self as int
    }

    open spec fn max_value() -> int {
        i64::MAX as int
    }

    proof fn lemma_max_value() {
    }

    proof fn lemma_value_injective(x: Self, y: Self) {
    }

    fn from_small(v: u8) -> (r: Self) {
        v as i64
    }

    fn plus(self, o: Self) -> (r: Self) {
        self + o
    }

    fn minus(self, o: Self) -> (r: Self) {
        self - o
    }

    fn times(self, o: Self) -> (r: Self) {
        self * o
    }

    fn quotient(self, d: Self) -> (r: Self) {
        self / d
    }

    fn remainder(self, d: Self) -> (r: Self) {
        self % d
    }

    fn equals(self, o: Self) -> (r: bool) {
        self == o
    }
}

impl Numeric for i128 {
    open spec fn value(&self) -> int {
        *self as int
    }

    open spec fn max_value() -> int {
        i128::MAX as int
    }

    proof fn lemma_max_value() {
    }

    proof fn lemma_value_injective(x: Self, y: Self) {
    }

    fn from_small(v: u8) -> (r: Self) {
        v as i128
    }

    fn plus(self, o: Self) -> (r: Self) {
        self + o
    }

    fn minus(self, o: Self) -> (r: Self) {
        self - o
    }

    fn times(self, o: Self) -> (r: Self) {
        self * o
    }

    fn quotient(self, d: Self) -> (r: Self) {
        self / d
    }

    fn remainder(self, d: Self) -> (r: Self) {
        self % d
    }

    fn equals(self, o: Self) -> (r: bool) {
        self == o
    }
}

impl Numeric for isize {
    open spec fn value(&self) -> int {
        *self as int
    }

    open spec fn max_value() -> int {
        isize::MAX as int
    }

    proof fn lemma_max_value() {
    }

    proof fn lemma_value_injective(x: Self, y: Self) {
    }

    fn from_small(v: u8) -> (r: Self) {
        v as isize
    }

    fn plus(self, o: Self) -> (r: Self) {
        self + o
    }

    fn minus(self, o: Self) -> (r: Self) {
        self - o
    }

    fn times(self, o: Self) -> (r: Self) {
        self * o
    }

    fn quotient(self, d: Self) -> (r: Self) {
        self / d
    }

    fn remainder(self, d: Self) -> (r: Self) {
        self % d
    }

    fn equals(self, o: Self) -> (r: bool) {
        self == o
    }
}

} // verus!
