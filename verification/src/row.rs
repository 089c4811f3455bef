//! The row: a box whose items stand side by side.

use vstd::prelude::*;
use core::marker::PhantomData;
use crate::flags::{Element, FlagNotSet, FlagSet};
use crate::raw_el::{RawEl, RawElView};

verus! {

/// The tag of the element.
pub const TAG: &'static str = "div";

/// The class of the element.
pub const ROW: &'static str = "row";

/// The row has no item yet.
pub struct EmptyFlagSet;

/// The row has been given an item.
pub struct EmptyFlagNotSet;

impl FlagSet for EmptyFlagSet {

}

impl FlagNotSet for EmptyFlagNotSet {

}

/// A box whose items stand side by side. It can be rendered once it has
/// been given an item.
pub struct Row<EmptyFlag, D> {
    raw_el: RawEl<D>,
    flags: PhantomData<EmptyFlag>,
}

impl<EmptyFlag, D> View for Row<EmptyFlag, D> {
    type V = RawElView<D>;

    closed spec fn view(&self) -> RawElView<D> {
        self.raw_el@
    }
}

impl<D> Row<EmptyFlagSet, D> {
    /// A row without items.
    pub fn new() -> (row: Self)
        ensures
            row@ == (RawElView { classes: seq![ROW@], ..RawElView::<D>::bare(TAG@) }),
    {
        let raw_el = RawEl::with_tag(TAG).class(ROW);
        assert(raw_el@.classes =~= seq![ROW@]);
        Row { raw_el, flags: PhantomData }
    }
}

impl<D> Element<D> for Row<EmptyFlagNotSet, D> {
    fn into_raw_element(self) -> (raw_el: RawEl<D>)
        ensures
            raw_el@ == self@,
    {
        self.raw_el
    }
}

impl<EmptyFlag, D> Row<EmptyFlag, D> {
    /// Appends the rendered element `item`, if there is one.
    pub fn item(self, item: Option<D>) -> (row: Row<EmptyFlagNotSet, D>)
        ensures
            row@ == (RawElView {
                children: match item {
                    Some(element) => self@.children.push(element),
                    None => self@.children,
                },
                ..self@
            }),
    {
        let raw_el = match item {
            Some(element) => self.raw_el.child(element),
            None => self.raw_el,
        };
        Row { raw_el, flags: PhantomData }
    }

    /// Appends the rendered elements `items`, in their order.
    pub fn items(self, items: Vec<D>) -> (row: Row<EmptyFlagNotSet, D>)
        ensures
            row@ == (RawElView { children: self@.children + items@, ..self@ }),
    {
        Row { raw_el: self.raw_el.children_from(items), flags: PhantomData }
    }
}

} // verus!
