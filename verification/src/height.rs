//! The height of an element.

use vstd::prelude::*;
use crate::css::{
    lemma_first_index, px, px_text, with_class, with_prop, without_class, CssPropView,
    StaticCssClasses, StaticCssProps,
};
use crate::raw_el::{RawEl, RawElView, StyleGroup, StyleGroupView};

verus! {

/// The name of the property that sets the height.
pub const HEIGHT: &'static str = "height";

/// The name of the property that sets the least height.
pub const MIN_HEIGHT: &'static str = "min-height";

/// The name of the property that sets the greatest height.
pub const MAX_HEIGHT: &'static str = "max-height";

/// The height of the element that holds this one.
pub const FILL: &'static str = "100%";

/// The height of the screen.
pub const SCREEN: &'static str = "100vh";

/// The class of an element whose height is given.
pub const EXACT_HEIGHT: &'static str = "exact_height";

/// The class of an element that fills the height of the one that holds it.
pub const FILL_HEIGHT: &'static str = "fill_height";

/// The style property `name: value`, without precedence.
pub open spec fn plain(name: Seq<char>, value: Seq<char>) -> CssPropView {
    CssPropView { name, value, important: false }
}

/// `props` as a style group holds them: a property has precedence there
/// exactly if it has none of its own.
pub open spec fn grouped(props: Seq<CssPropView>) -> Seq<CssPropView> {
    props.map_values(|prop: CssPropView| CssPropView { important: !prop.important, ..prop })
}

/// What a `Height` is, as plain values.
pub struct HeightView {
    /// The style properties that give the height.
    pub props: Seq<CssPropView>,
    /// The classes that go with them.
    pub classes: Seq<Seq<char>>,
}

/// A style that gives an element its height.
pub struct Height {
    static_css_props: StaticCssProps,
    static_css_classes: StaticCssClasses,
}

impl View for Height {
    type V = HeightView;

    closed spec fn view(&self) -> HeightView {
        HeightView { props: self.static_css_props@, classes: self.static_css_classes@ }
    }
}

impl Default for Height {
    fn default() -> (height: Self)
        ensures
            height@ == (HeightView { props: Seq::empty(), classes: Seq::empty() }),
    {
        Height {
            static_css_props: StaticCssProps::new(),
            static_css_classes: StaticCssClasses::new(),
        }
    }
}

/// A style that can be put on an element.
pub trait Style: Sized {
    /// Puts the style on `raw_el`: its properties go to `style_group`
    /// where one is given and to the element itself where none is.
    fn apply_to_raw_el<D>(self, raw_el: RawEl<D>, style_group: Option<StyleGroup>) -> (RawEl<D>, Option<
        StyleGroup,
    >);
}

impl Height {
    fn exact(value: String) -> (height: Self)
        ensures
            height@ == (HeightView {
                props: seq![plain(HEIGHT@, value@)],
                classes: seq![EXACT_HEIGHT@],
            }),
    {
        let mut this = Height {
            static_css_props: StaticCssProps::new(),
            static_css_classes: StaticCssClasses::new(),
        };
        this.static_css_props.insert(HEIGHT, value);
        this.static_css_classes.insert(EXACT_HEIGHT);
        this.static_css_classes.remove(FILL_HEIGHT);
        proof {
            reveal_strlit("exact_height");
            reveal_strlit("fill_height");
            assert(EXACT_HEIGHT@[0] != FILL_HEIGHT@[0]);
            let classes = seq![EXACT_HEIGHT@];
            assert(with_class(Seq::empty(), EXACT_HEIGHT@) =~= classes);
            lemma_first_index(classes, FILL_HEIGHT@, 1);
            assert(without_class(classes, FILL_HEIGHT@) =~= classes);
            assert(this@.props =~= seq![plain(HEIGHT@, value@)]);
        }
        this
    }

    /// A height of `height` pixels.
    pub fn new(height: u32) -> (this: Self)
        ensures
            this@ == (HeightView {
                props: seq![plain(HEIGHT@, px_text(height))],
                classes: seq![EXACT_HEIGHT@],
            }),
    {
        Height::exact(px(height))
    }

    /// The height of the element that holds this one.
    pub fn fill() -> (this: Self)
        ensures
            this@ == (HeightView {
                props: seq![plain(HEIGHT@, FILL@)],
                classes: seq![FILL_HEIGHT@],
            }),
    {
        let mut this = Height {
            static_css_props: StaticCssProps::new(),
            static_css_classes: StaticCssClasses::new(),
        };
        this.static_css_props.insert(HEIGHT, String::from_str(FILL));
        this.static_css_classes.insert(FILL_HEIGHT);
        this.static_css_classes.remove(EXACT_HEIGHT);
        proof {
            reveal_strlit("exact_height");
            reveal_strlit("fill_height");
            assert(EXACT_HEIGHT@[0] != FILL_HEIGHT@[0]);
            let classes = seq![FILL_HEIGHT@];
            assert(with_class(Seq::empty(), FILL_HEIGHT@) =~= classes);
            lemma_first_index(classes, EXACT_HEIGHT@, 1);
            assert(without_class(classes, EXACT_HEIGHT@) =~= classes);
            assert(this@.props =~= seq![plain(HEIGHT@, FILL@)]);
        }
        this
    }

    /// The height of the screen.
    pub fn screen() -> (this: Self)
        ensures
            this@ == (HeightView {
                props: seq![plain(HEIGHT@, SCREEN@)],
                classes: seq![EXACT_HEIGHT@],
            }),
    {
        Height::exact(String::from_str(SCREEN))
    }

    /// No less than the height of the screen.
    pub fn min_screen(self) -> (this: Self)
        ensures
            this@ == (HeightView {
                props: with_prop(self@.props, plain(MIN_HEIGHT@, SCREEN@)),
                ..self@
            }),
    {
        let mut this = self;
        this.static_css_props.insert(MIN_HEIGHT, String::from_str(SCREEN));
        this
    }

    /// No more than `height` pixels.
    pub fn max(self, height: u32) -> (this: Self)
        ensures
            this@ == (HeightView {
                props: with_prop(self@.props, plain(MAX_HEIGHT@, px_text(height))),
                ..self@
            }),
    {
        let mut this = self;
        this.static_css_props.insert(MAX_HEIGHT, px(height));
        this
    }

    fn add_classes<D>(&self, raw_el: RawEl<D>) -> (element: RawEl<D>)
        ensures
            element@ == (RawElView { classes: raw_el@.classes + self@.classes, ..raw_el@ }),
    {
        let mut element = raw_el;
        let n = self.static_css_classes.len();
        let mut i: usize = 0;
        while i < n
            invariant
                0 <= i <= n,
                n == self@.classes.len(),
                element@ == (RawElView {
                    classes: raw_el@.classes + self@.classes.take(i as int),
                    ..raw_el@
                }),
            decreases n - i,
        {
            let ghost before = element@;
            element = element.class(self.static_css_classes.get(i).as_str());
            assert(before.classes.push(self@.classes[i as int]) =~= raw_el@.classes
                + self@.classes.take(i + 1));
            i = i + 1;
        }
        assert(self@.classes.take(n as int) =~= self@.classes);
        element
    }

    fn add_styles<D>(&self, raw_el: RawEl<D>) -> (element: RawEl<D>)
        ensures
            element@ == (RawElView { styles: raw_el@.styles + self@.props, ..raw_el@ }),
    {
        let mut element = raw_el;
        let n = self.static_css_props.len();
        let mut i: usize = 0;
        while i < n
            invariant
                0 <= i <= n,
                n == self@.props.len(),
                element@ == (RawElView {
                    styles: raw_el@.styles + self@.props.take(i as int),
                    ..raw_el@
                }),
            decreases n - i,
        {
            let ghost before = element@;
            let prop = self.static_css_props.get(i);
            element = if prop.important {
                element.style_important(prop.name.as_str(), prop.value.as_str())
            } else {
                element.style(prop.name.as_str(), prop.value.as_str())
            };
            assert(before.styles.push(self@.props[i as int]) =~= raw_el@.styles
                + self@.props.take(i + 1));
            i = i + 1;
        }
        assert(self@.props.take(n as int) =~= self@.props);
        element
    }

    fn add_to_group(&self, style_group: StyleGroup) -> (group: StyleGroup)
        ensures
            group@ == (StyleGroupView {
                styles: style_group@.styles + grouped(self@.props),
                ..style_group@
            }),
    {
        let mut group = style_group;
        let n = self.static_css_props.len();
        let mut i: usize = 0;
        while i < n
            invariant
                0 <= i <= n,
                n == self@.props.len(),
                group@ == (StyleGroupView {
                    styles: style_group@.styles + grouped(self@.props).take(i as int),
                    ..style_group@
                }),
            decreases n - i,
        {
            let ghost before = group@;
            let prop = self.static_css_props.get(i);
            group = if prop.important {
                group.style(prop.name.as_str(), prop.value.as_str())
            } else {
                group.style_important(prop.name.as_str(), prop.value.as_str())
            };
            assert(before.styles.push(grouped(self@.props)[i as int]) =~= style_group@.styles
                + grouped(self@.props).take(i + 1));
            i = i + 1;
        }
        assert(grouped(self@.props).take(n as int) =~= grouped(self@.props));
        group
    }
}

impl Style for Height {
    /// Puts the height on `raw_el`. The classes always go to the element.
    /// The properties go to `style_group` where one is given, each with
    /// precedence exactly if it has none of its own, and else to the
    /// element, as they are.
    fn apply_to_raw_el<D>(self, raw_el: RawEl<D>, style_group: Option<StyleGroup>) -> (styled: (
        RawEl<D>,
        Option<StyleGroup>,
    ))
        ensures
            style_group is Some ==> styled.0@ == (RawElView {
                classes: raw_el@.classes + self@.classes,
                ..raw_el@
            }) && styled.1 is Some && styled.1->0@ == (StyleGroupView {
                styles: style_group->0@.styles + grouped(self@.props),
                ..style_group->0@
            }),
            style_group is None ==> styled.0@ == (RawElView {
                styles: raw_el@.styles + self@.props,
                classes: raw_el@.classes + self@.classes,
                ..raw_el@
            }) && styled.1 is None,
    {
        match style_group {
            Some(group) => {
                let group = self.add_to_group(group);
                let element = self.add_classes(raw_el);
                (element, Some(group))
            },
            None => {
                let element = self.add_styles(raw_el);
                let element = self.add_classes(element);
                (element, None)
            },
        }
    }
}

} // verus!
