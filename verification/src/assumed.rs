//! What this crate takes on trust from the standard library: the three
//! functions below are called from verified code, and nothing here proves
//! what is claimed of them.

use core::time::Duration;
use vstd::prelude::*;

verus! {

/// The number of whole milliseconds in a duration, as
/// `Duration::as_millis` counts them.
pub uninterp spec fn duration_millis(d: Duration) -> u128;

/// `Duration::as_millis` is a function of the duration alone: it returns the
/// total number of whole milliseconds that the duration contains, which
/// `duration_millis` names.
pub assume_specification[ Duration::as_millis ](d: &Duration) -> (millis: u128)
    ensures
        millis == duration_millis(*d),
;

/// `String::from` on a string slice copies it: the new string holds the
/// same characters as the slice.
pub assume_specification<'a>[ <std::string::String as std::convert::From<&'a str>>::from ](
    s: &str,
) -> (owned: std::string::String)
    ensures
        owned@ == s@,
;

/// `From::from` of a type into itself, which the standard library has for
/// every type, returns the argument unchanged.
pub assume_specification<Kept>[ <Kept as std::convert::From<Kept>>::from ](value: Kept) -> (same:
    Kept)
    ensures
        same == value,
;

} // verus!
