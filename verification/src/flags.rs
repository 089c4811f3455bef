//! Marks in the type of an element builder that tell whether something it
//! needs has been given.

use vstd::prelude::*;
use crate::raw_el::RawEl;

verus! {

/// The mark of something that has been given.
pub trait FlagSet {

}

/// The mark of something that has not been given yet.
pub trait FlagNotSet {

}

/// An element that lacks nothing and can be rendered. `D` is the type of a
/// rendered element.
pub trait Element<D>: Sized {
    /// Gives up the builder for the element that it has built.
    fn into_raw_element(self) -> RawEl<D>;
}

} // verus!
