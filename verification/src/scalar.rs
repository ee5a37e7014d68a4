//! The arithmetic that the indicator engines are written against.
use vstd::prelude::*;

verus! {

/// A number type with an undefined value, the four arithmetic operations and
/// a strict order.
///
/// Each operation is a function of its arguments: that is all its contract
/// says. The engines' contracts are stated over the `*_spec` functions, so
/// they hold for an implementation exactly as far as its operations compute
/// these functions. [`crate::fixed::Fixed`] is verified against this trait.
/// For a type defined elsewhere (a hardware floating-point number, say) the
/// verifier sees nothing, and the implementor owes the contract.
///
/// The undefined value stands in every position of a series for which an
/// indicator has no value. How it behaves under the operations is up to the
/// implementation; with IEEE numbers it is a NaN, which poisons every result
/// it enters and compares as neither less nor greater.
pub trait Scalar: Sized + Copy {
    /// The undefined value.
    spec fn undefined_spec() -> Self;

    /// The number that stands for the count `n`.
    spec fn from_count_spec(n: u128) -> Self;

    /// The sum `self + rhs`.
    spec fn plus_spec(self, rhs: Self) -> Self;

    /// The difference `self - rhs`.
    spec fn minus_spec(self, rhs: Self) -> Self;

    /// The product `self * rhs`.
    spec fn times_spec(self, rhs: Self) -> Self;

    /// The quotient `self / rhs`.
    spec fn over_spec(self, rhs: Self) -> Self;

    /// Whether `self` is strictly less than `rhs`.
    spec fn less_spec(self, rhs: Self) -> bool;

    fn undefined() -> (r: Self)
        ensures
            r == Self::undefined_spec(),
    ;

    fn from_count(n: u128) -> (r: Self)
        ensures
            r == Self::from_count_spec(n),
    ;

    fn plus(self, rhs: Self) -> (r: Self)
        ensures
            r == self.plus_spec(rhs),
    ;

    fn minus(self, rhs: Self) -> (r: Self)
        ensures
            r == self.minus_spec(rhs),
    ;

    fn times(self, rhs: Self) -> (r: Self)
        ensures
            r == self.times_spec(rhs),
    ;

    fn over(self, rhs: Self) -> (r: Self)
        ensures
            r == self.over_spec(rhs),
    ;

    fn less(self, rhs: Self) -> (r: bool)
        ensures
            r == self.less_spec(rhs),
    ;
}

/// A series of `len` undefined values.
pub open spec fn undefined_series<S: Scalar>(len: nat) -> Seq<S> {
    Seq::new(len, |i: int| S::undefined_spec())
}

/// Whether every value of the series is the undefined value.
pub open spec fn all_undefined<S: Scalar>(values: Seq<S>) -> bool {
    forall|i: int| 0 <= i < values.len() ==> values[i] == S::undefined_spec()
}

/// A vector of `len` undefined values.
pub fn undefined_values<S: Scalar>(len: usize) -> (out: Vec<S>)
    ensures
        out@ == undefined_series::<S>(len as nat),
{
    let mut out: Vec<S> = Vec::new();
    let mut i: usize = 0;
    while i < len
        invariant
            i <= len,
            out@ == undefined_series::<S>(i as nat),
        decreases len - i,
    {
        out.push(S::undefined());
        i += 1;
    }
    out
}

} // verus!
