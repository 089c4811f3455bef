//! The plain element: a box around one child.

use vstd::prelude::*;
use core::marker::PhantomData;
use crate::flags::{Element, FlagNotSet, FlagSet};
use crate::raw_el::{RawEl, RawElView};

verus! {

/// The tag of the element.
pub const TAG: &'static str = "div";

/// The name of the attribute that holds the class.
pub const CLASS: &'static str = "class";

/// The class of the element.
pub const EL: &'static str = "el";

/// The child has been given.
pub struct ChildFlagSet;

/// The child has not been given yet.
pub struct ChildFlagNotSet;

impl FlagSet for ChildFlagSet {

}

impl FlagNotSet for ChildFlagNotSet {

}

/// A box around one child. It can be rendered once the child is given.
pub struct El<ChildFlag, D> {
    raw_el: RawEl<D>,
    flags: PhantomData<ChildFlag>,
}

impl<ChildFlag, D> View for El<ChildFlag, D> {
    type V = RawElView<D>;

    closed spec fn view(&self) -> RawElView<D> {
        self.raw_el@
    }
}

impl<D> El<ChildFlagNotSet, D> {
    /// An empty box.
    pub fn new() -> (el: Self)
        ensures
            el@ == (RawElView { attrs: seq![(CLASS@, EL@)], ..RawElView::<D>::bare(TAG@) }),
    {
        let raw_el = RawEl::with_tag(TAG).attr(CLASS, EL);
        assert(raw_el@.attrs =~= seq![(CLASS@, EL@)]);
        El { raw_el, flags: PhantomData }
    }
}

impl<D> Element<D> for El<ChildFlagSet, D> {
    fn into_raw_element(self) -> (raw_el: RawEl<D>)
        ensures
            raw_el@ == self@,
    {
        self.raw_el
    }
}

impl<ChildFlag, D> El<ChildFlag, D> {
    /// Puts the rendered element `child` into the box. This can be done
    /// once.
    pub fn child(self, child: D) -> (el: El<ChildFlagSet, D>) where ChildFlag: FlagNotSet
        ensures
            el@ == (RawElView { children: self@.children.push(child), ..self@ }),
    {
        El { raw_el: self.raw_el.child(child), flags: PhantomData }
    }
}

} // verus!
