//! Elements before they are rendered: what a builder has asked for so far.
//!
//! A raw element records the calls that build it, in their order. Its
//! children are rendered already; `D` is the type of a rendered element.

use vstd::prelude::*;
use crate::css::{CssProp, CssPropView};

verus! {

/// What a `RawEl` is, as plain values.
pub struct RawElView<D> {
    /// The tag of the element.
    pub tag: Seq<char>,
    /// The attributes that were set, as pairs of name and value.
    pub attrs: Seq<(Seq<char>, Seq<char>)>,
    /// The classes that were added.
    pub classes: Seq<Seq<char>>,
    /// The style properties that were set.
    pub styles: Seq<CssPropView>,
    /// The children that were appended.
    pub children: Seq<D>,
}

impl<D> RawElView<D> {
    /// An element with the tag `tag` and nothing else.
    pub open spec fn bare(tag: Seq<char>) -> Self {
        RawElView {
            tag,
            attrs: Seq::empty(),
            classes: Seq::empty(),
            styles: Seq::empty(),
            children: Seq::empty(),
        }
    }
}

/// An element under construction.
pub struct RawEl<D> {
    tag: String,
    attrs: Vec<(String, String)>,
    classes: Vec<String>,
    styles: Vec<CssProp>,
    children: Vec<D>,
}

impl<D> View for RawEl<D> {
    type V = RawElView<D>;

    closed spec fn view(&self) -> RawElView<D> {
        RawElView {
            tag: self.tag@,
            attrs: self.attrs@.map_values(|attr: (String, String)| (attr.0@, attr.1@)),
            classes: self.classes@.map_values(|class: String| class@),
            styles: self.styles@.map_values(|style: CssProp| style@),
            children: self.children@,
        }
    }
}

impl<D> RawEl<D> {
    /// An element with the tag `tag` and nothing else.
    pub fn with_tag(tag: &str) -> (element: Self)
        ensures
            element@ == RawElView::<D>::bare(tag@),
    {
        let element = RawEl {
            tag: String::from_str(tag),
            attrs: Vec::new(),
            classes: Vec::new(),
            styles: Vec::new(),
            children: Vec::new(),
        };
        assert(element@.attrs =~= Seq::empty());
        assert(element@.classes =~= Seq::empty());
        assert(element@.styles =~= Seq::empty());
        element
    }

    /// The tag of the element.
    pub fn tag(&self) -> (tag: &str)
        ensures
            tag@ == self@.tag,
    {
        self.tag.as_str()
    }

    /// The attributes that were set, as pairs of name and value.
    pub fn attrs(&self) -> (attrs: &Vec<(String, String)>)
        ensures
            attrs@.map_values(|attr: (String, String)| (attr.0@, attr.1@)) == self@.attrs,
    {
        &self.attrs
    }

    /// The classes that were added.
    pub fn classes(&self) -> (classes: &Vec<String>)
        ensures
            classes@.map_values(|class: String| class@) == self@.classes,
    {
        &self.classes
    }

    /// The style properties that were set.
    pub fn styles(&self) -> (styles: &Vec<CssProp>)
        ensures
            styles@.map_values(|style: CssProp| style@) == self@.styles,
    {
        &self.styles
    }

    /// The children that were appended.
    pub fn children(&self) -> (children: &Vec<D>)
        ensures
            children@ == self@.children,
    {
        &self.children
    }

    /// Gives up the element for its children.
    pub fn into_children(self) -> (children: Vec<D>)
        ensures
            children@ == self@.children,
    {
        self.children
    }

    /// Sets the attribute `name` to `value`.
    pub fn attr(self, name: &str, value: &str) -> (element: Self)
        ensures
            element@ == (RawElView { attrs: self@.attrs.push((name@, value@)), ..self@ }),
    {
        let mut element = self;
        element.attrs.push((String::from_str(name), String::from_str(value)));
        assert(element@.attrs =~= self@.attrs.push((name@, value@)));
        element
    }

    /// Adds the class `class`.
    pub fn class(self, class: &str) -> (element: Self)
        ensures
            element@ == (RawElView { classes: self@.classes.push(class@), ..self@ }),
    {
        let mut element = self;
        element.classes.push(String::from_str(class));
        assert(element@.classes =~= self@.classes.push(class@));
        element
    }

    fn styled(self, name: &str, value: &str, important: bool) -> (element: Self)
        ensures
            element@ == (RawElView {
                styles: self@.styles.push(
                    CssPropView { name: name@, value: value@, important },
                ),
                ..self@
            }),
    {
        let mut element = self;
        element.styles.push(
            CssProp { name: String::from_str(name), value: String::from_str(value), important },
        );
        assert(element@.styles =~= self@.styles.push(
            CssPropView { name: name@, value: value@, important },
        ));
        element
    }

    /// Sets the style property `name` to `value`.
    pub fn style(self, name: &str, value: &str) -> (element: Self)
        ensures
            element@ == (RawElView {
                styles: self@.styles.push(
                    CssPropView { name: name@, value: value@, important: false },
                ),
                ..self@
            }),
    {
        self.styled(name, value, false)
    }

    /// Sets the style property `name` to `value` and gives it precedence.
    pub fn style_important(self, name: &str, value: &str) -> (element: Self)
        ensures
            element@ == (RawElView {
                styles: self@.styles.push(
                    CssPropView { name: name@, value: value@, important: true },
                ),
                ..self@
            }),
    {
        self.styled(name, value, true)
    }

    /// Appends the rendered element `child`.
    pub fn child(self, child: D) -> (element: Self)
        ensures
            element@ == (RawElView { children: self@.children.push(child), ..self@ }),
    {
        let mut element = self;
        element.children.push(child);
        element
    }

    /// Appends the rendered elements `children`, in their order.
    pub fn children_from(self, children: Vec<D>) -> (element: Self)
        ensures
            element@ == (RawElView { children: self@.children + children@, ..self@ }),
    {
        let mut element = self;
        let mut more = children;
        element.children.append(&mut more);
        element
    }
}

/// What a `StyleGroup` is, as plain values.
pub struct StyleGroupView {
    /// The selector of the elements that the group is for.
    pub selector: Seq<char>,
    /// The style properties of the group.
    pub styles: Seq<CssPropView>,
}

/// A group of style properties under one selector.
pub struct StyleGroup {
    selector: String,
    styles: Vec<CssProp>,
}

impl View for StyleGroup {
    type V = StyleGroupView;

    closed spec fn view(&self) -> StyleGroupView {
        StyleGroupView {
            selector: self.selector@,
            styles: self.styles@.map_values(|style: CssProp| style@),
        }
    }
}

impl StyleGroup {
    /// A group for `selector` without style properties.
    pub fn new(selector: &str) -> (group: Self)
        ensures
            group@ == (StyleGroupView { selector: selector@, styles: Seq::empty() }),
    {
        let group = StyleGroup { selector: String::from_str(selector), styles: Vec::new() };
        assert(group@.styles =~= Seq::empty());
        group
    }

    /// The selector of the elements that the group is for.
    pub fn selector(&self) -> (selector: &str)
        ensures
            selector@ == self@.selector,
    {
        self.selector.as_str()
    }

    /// The style properties of the group.
    pub fn styles(&self) -> (styles: &Vec<CssProp>)
        ensures
            styles@.map_values(|style: CssProp| style@) == self@.styles,
    {
        &self.styles
    }

    fn styled(self, name: &str, value: &str, important: bool) -> (group: Self)
        ensures
            group@ == (StyleGroupView {
                styles: self@.styles.push(
                    CssPropView { name: name@, value: value@, important },
                ),
                ..self@
            }),
    {
        let mut group = self;
        group.styles.push(
            CssProp { name: String::from_str(name), value: String::from_str(value), important },
        );
        assert(group@.styles =~= self@.styles.push(
            CssPropView { name: name@, value: value@, important },
        ));
        group
    }

    /// Sets the style property `name` to `value`.
    pub fn style(self, name: &str, value: &str) -> (group: Self)
        ensures
            group@ == (StyleGroupView {
                styles: self@.styles.push(
                    CssPropView { name: name@, value: value@, important: false },
                ),
                ..self@
            }),
    {
        self.styled(name, value, false)
    }

    /// Sets the style property `name` to `value` and gives it precedence.
    pub fn style_important(self, name: &str, value: &str) -> (group: Self)
        ensures
            group@ == (StyleGroupView {
                styles: self@.styles.push(
                    CssPropView { name: name@, value: value@, important: true },
                ),
                ..self@
            }),
    {
        self.styled(name, value, true)
    }
}

} // verus!
