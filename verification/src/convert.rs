//! Conversions into the types of this crate, as contracts speak of them.

use vstd::prelude::*;

verus! {

/// The conversion of `value` gave `result`: what the contract of `into` says
/// of the two holds. For a string slice converted into a `String`, the
/// result holds the characters of the slice; for a vector of moves converted
/// into a line, the line holds the moves of the vector; for a value
/// converted into its own type, the result is the value.
pub open spec fn converted<T: Into<U>, U>(value: T, result: U) -> bool {
    call_ensures(<T as Into<U>>::into, (value,), result)
}

} // verus!
