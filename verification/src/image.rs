//! The image: a picture with the address it is loaded from and the text
//! that describes it.

use vstd::prelude::*;
use core::marker::PhantomData;
use crate::flags::{Element, FlagNotSet, FlagSet};
use crate::raw_el::{RawEl, RawElView};

verus! {

/// The tag of the element.
pub const TAG: &'static str = "img";

/// The class of the element.
pub const IMAGE: &'static str = "image";

/// The name of the attribute that holds the address of the picture.
pub const SRC: &'static str = "src";

/// The name of the attribute that holds the description of the picture.
pub const ALT: &'static str = "alt";

/// The address has been given.
pub struct UrlFlagSet;

/// The address has not been given yet.
pub struct UrlFlagNotSet;

/// The description has been given.
pub struct DescriptionFlagSet;

/// The description has not been given yet.
pub struct DescriptionFlagNotSet;

impl FlagSet for UrlFlagSet {

}

impl FlagNotSet for UrlFlagNotSet {

}

impl FlagSet for DescriptionFlagSet {

}

impl FlagNotSet for DescriptionFlagNotSet {

}

/// A picture. It can be rendered once its address and its description are
/// given, each once.
pub struct Image<UrlFlag, DescriptionFlag, D> {
    raw_el: RawEl<D>,
    flags: PhantomData<(UrlFlag, DescriptionFlag)>,
}

impl<UrlFlag, DescriptionFlag, D> View for Image<UrlFlag, DescriptionFlag, D> {
    type V = RawElView<D>;

    closed spec fn view(&self) -> RawElView<D> {
        self.raw_el@
    }
}

impl<D> Image<UrlFlagNotSet, DescriptionFlagNotSet, D> {
    /// A picture without address and description.
    pub fn new() -> (image: Self)
        ensures
            image@ == (RawElView { classes: seq![IMAGE@], ..RawElView::<D>::bare(TAG@) }),
    {
        let raw_el = RawEl::with_tag(TAG).class(IMAGE);
        assert(raw_el@.classes =~= seq![IMAGE@]);
        Image { raw_el, flags: PhantomData }
    }
}

impl<D> Element<D> for Image<UrlFlagSet, DescriptionFlagSet, D> {
    fn into_raw_element(self) -> (raw_el: RawEl<D>)
        ensures
            raw_el@ == self@,
    {
        self.raw_el
    }
}

impl<UrlFlag, DescriptionFlag, D> Image<UrlFlag, DescriptionFlag, D> {
    /// The element under construction.
    pub closed spec fn built(self) -> RawEl<D> {
        self.raw_el
    }

    /// Sets the address that the picture is loaded from.
    pub fn url(self, url: &str) -> (image: Image<UrlFlagSet, DescriptionFlag, D>) where
        UrlFlag: FlagNotSet,

        ensures
            image@ == (RawElView { attrs: self@.attrs.push((SRC@, url@)), ..self@ }),
    {
        Image { raw_el: self.raw_el.attr(SRC, url), flags: PhantomData }
    }

    /// Sets the text that describes the picture.
    pub fn description(self, description: &str) -> (image: Image<UrlFlag, DescriptionFlagSet, D>) where
        DescriptionFlag: FlagNotSet,

        ensures
            image@ == (RawElView { attrs: self@.attrs.push((ALT@, description@)), ..self@ }),
    {
        Image { raw_el: self.raw_el.attr(ALT, description), flags: PhantomData }
    }

    /// Lets `updater` change the element under construction.
    pub fn update_raw_el<F: FnOnce(RawEl<D>) -> RawEl<D>>(self, updater: F) -> (image: Self)
        requires
            call_requires(updater, (self.built(),)),
        ensures
            call_ensures(updater, (self.built(),), image.built()),
    {
        Image { raw_el: updater(self.raw_el), flags: PhantomData }
    }
}

} // verus!
