//! Style properties and classes that an element is given once and for all.
//!
//! Both collections hold each name at most once and keep the names in the
//! order in which they were first set: they start out empty and every
//! change keeps the names distinct.

use vstd::prelude::*;
use crate::decimal::{decimal, to_decimal};

verus! {

/// The unit of lengths in pixels.
pub const PX: &'static str = "px";

/// The length of `pixels` pixels as CSS writes it.
pub open spec fn px_text(pixels: u32) -> Seq<char> {
    decimal(pixels as nat) + PX@
}

/// Writes the length of `pixels` pixels as CSS does.
pub fn px(pixels: u32) -> (text: String)
    ensures
        text@ == px_text(pixels),
{
    let mut text = to_decimal(pixels as u128);
    text.append(PX);
    text
}

/// The place of the first `name` in `names`, or their number where it is
/// not among them.
pub open spec fn first_index(names: Seq<Seq<char>>, name: Seq<char>) -> int
    decreases names.len(),
{
    if names.len() == 0 {
        0
    } else if names[0] == name {
        0
    } else {
        1 + first_index(names.drop_first(), name)
    }
}

/// No name occurs twice in `names`.
pub open spec fn distinct(names: Seq<Seq<char>>) -> bool {
    forall|i: int, j: int| 0 <= i < j < names.len() ==> names[i] != names[j]
}

/// `first_index` is the place before which `name` does not occur and at
/// which it does, or the end.
pub proof fn lemma_first_index(names: Seq<Seq<char>>, name: Seq<char>, k: int)
    requires
        0 <= k <= names.len(),
        forall|j: int| 0 <= j < k ==> names[j] != name,
        k < names.len() ==> names[k] == name,
    ensures
        first_index(names, name) == k,
    decreases k,
{
    if k > 0 {
        let rest = names.drop_first();
        assert forall|j: int| 0 <= j < k - 1 implies rest[j] != name by {
            assert(rest[j] == names[j + 1]);
        }
        lemma_first_index(rest, name, k - 1);
    }
}

/// A style property as plain values.
pub struct CssPropView {
    /// The name of the property.
    pub name: Seq<char>,
    /// Its value.
    pub value: Seq<char>,
    /// Whether it takes precedence over what other rules say.
    pub important: bool,
}

/// The names of `props`, in their order.
pub open spec fn prop_names(props: Seq<CssPropView>) -> Seq<Seq<char>> {
    props.map_values(|prop: CssPropView| prop.name)
}

/// `props` after `prop` was set: it stands in the place of the property of
/// its name, or at the end where there was none.
pub open spec fn with_prop(props: Seq<CssPropView>, prop: CssPropView) -> Seq<CssPropView> {
    let i = first_index(prop_names(props), prop.name);
    if i < props.len() {
        props.update(i, prop)
    } else {
        props.push(prop)
    }
}

/// `classes` after `name` was added, unless it was among them already.
pub open spec fn with_class(classes: Seq<Seq<char>>, name: Seq<char>) -> Seq<Seq<char>> {
    if first_index(classes, name) < classes.len() {
        classes
    } else {
        classes.push(name)
    }
}

/// `classes` after `name` was taken out, if it was among them.
pub open spec fn without_class(classes: Seq<Seq<char>>, name: Seq<char>) -> Seq<Seq<char>> {
    let i = first_index(classes, name);
    if i < classes.len() {
        classes.remove(i)
    } else {
        classes
    }
}

/// A style property.
pub struct CssProp {
    /// The name of the property.
    pub name: String,
    /// Its value.
    pub value: String,
    /// Whether it takes precedence over what other rules say.
    pub important: bool,
}

impl View for CssProp {
    type V = CssPropView;

    open spec fn view(&self) -> CssPropView {
        CssPropView { name: self.name@, value: self.value@, important: self.important }
    }
}

/// The style properties of an element, each name once.
pub struct StaticCssProps {
    props: Vec<CssProp>,
}

impl View for StaticCssProps {
    type V = Seq<CssPropView>;

    closed spec fn view(&self) -> Seq<CssPropView> {
        self.props@.map_values(|prop: CssProp| prop@)
    }
}

impl StaticCssProps {
    /// No property.
    pub fn new() -> (props: Self)
        ensures
            props@ == Seq::<CssPropView>::empty(),
    {
        let props = StaticCssProps { props: Vec::new() };
        assert(props@ =~= Seq::<CssPropView>::empty());
        props
    }

    /// How many properties are set.
    pub fn len(&self) -> (n: usize)
        ensures
            n == self@.len(),
    {
        self.props.len()
    }

    /// The `i`-th property.
    pub fn get(&self, i: usize) -> (prop: &CssProp)
        requires
            i < self@.len(),
        ensures
            prop@ == self@[i as int],
    {
        &self.props[i]
    }

    fn find(&self, name: &String) -> (i: usize)
        ensures
            i == first_index(prop_names(self@), name@),
            i <= self@.len(),
            forall|j: int| 0 <= j < i ==> prop_names(self@)[j] != name@,
            i < self@.len() ==> prop_names(self@)[i as int] == name@,
    {
        let ghost names = prop_names(self@);
        let n = self.props.len();
        let mut i: usize = 0;
        while i < n
            invariant
                0 <= i <= n,
                n == self.props@.len(),
                names == prop_names(self@),
                forall|j: int| 0 <= j < i ==> names[j] != name@,
            decreases n - i,
        {
            assert(names[i as int] == self.props@[i as int]@.name);
            if self.props[i].name == *name {
                proof {
                    lemma_first_index(names, name@, i as int);
                }
                return i;
            }
            i = i + 1;
        }
        proof {
            lemma_first_index(names, name@, i as int);
        }
        i
    }

    fn set(&mut self, name: &str, value: String, important: bool)
        ensures
            final(self)@ == with_prop(
                old(self)@,
                CssPropView { name: name@, value: value@, important },
            ),
            distinct(prop_names(old(self)@)) ==> distinct(prop_names(final(self)@)),
    {
        let name = String::from_str(name);
        let ghost prop = CssPropView { name: name@, value: value@, important };
        let ghost before = self@;
        let ghost names = prop_names(before);
        let i = self.find(&name);
        let entry = CssProp { name, value, important };
        if i < self.props.len() {
            self.props.set(i, entry);
            proof {
                let after = self.props@.map_values(|prop: CssProp| prop@);
                assert(after =~= before.update(i as int, prop));
                assert(prop_names(after) =~= names);
            }
        } else {
            self.props.push(entry);
            proof {
                let after = self.props@.map_values(|prop: CssProp| prop@);
                assert(after =~= before.push(prop));
                assert(prop_names(after) =~= names.push(prop.name));
            }
        }
    }

    /// Sets the property `name` to `value`, in place of the value it had.
    pub fn insert(&mut self, name: &str, value: String)
        ensures
            final(self)@ == with_prop(
                old(self)@,
                CssPropView { name: name@, value: value@, important: false },
            ),
            distinct(prop_names(old(self)@)) ==> distinct(prop_names(final(self)@)),
    {
        self.set(name, value, false)
    }

    /// Sets the property `name` to `value`, in place of the value it had,
    /// and gives it precedence.
    pub fn insert_important(&mut self, name: &str, value: String)
        ensures
            final(self)@ == with_prop(
                old(self)@,
                CssPropView { name: name@, value: value@, important: true },
            ),
            distinct(prop_names(old(self)@)) ==> distinct(prop_names(final(self)@)),
    {
        self.set(name, value, true)
    }
}

/// The classes of an element, each once.
pub struct StaticCssClasses {
    classes: Vec<String>,
}

impl View for StaticCssClasses {
    type V = Seq<Seq<char>>;

    closed spec fn view(&self) -> Seq<Seq<char>> {
        self.classes@.map_values(|class: String| class@)
    }
}

impl StaticCssClasses {
    /// No class.
    pub fn new() -> (classes: Self)
        ensures
            classes@ == Seq::<Seq<char>>::empty(),
    {
        let classes = StaticCssClasses { classes: Vec::new() };
        assert(classes@ =~= Seq::<Seq<char>>::empty());
        classes
    }

    /// How many classes there are.
    pub fn len(&self) -> (n: usize)
        ensures
            n == self@.len(),
    {
        self.classes.len()
    }

    /// The `i`-th class.
    pub fn get(&self, i: usize) -> (class: &String)
        requires
            i < self@.len(),
        ensures
            class@ == self@[i as int],
    {
        &self.classes[i]
    }

    fn find(&self, name: &String) -> (i: usize)
        ensures
            i == first_index(self@, name@),
            i <= self@.len(),
            forall|j: int| 0 <= j < i ==> self@[j] != name@,
            i < self@.len() ==> self@[i as int] == name@,
    {
        let n = self.classes.len();
        let mut i: usize = 0;
        while i < n
            invariant
                0 <= i <= n,
                n == self.classes@.len(),
                forall|j: int| 0 <= j < i ==> self@[j] != name@,
            decreases n - i,
        {
            if self.classes[i] == *name {
                proof {
                    lemma_first_index(self@, name@, i as int);
                }
                return i;
            }
            i = i + 1;
        }
        proof {
            lemma_first_index(self@, name@, i as int);
        }
        i
    }

    /// Adds the class `name`, unless it is there already.
    pub fn insert(&mut self, name: &str)
        ensures
            final(self)@ == with_class(old(self)@, name@),
            distinct(old(self)@) ==> distinct(final(self)@),
    {
        let name = String::from_str(name);
        let ghost before = self@;
        let i = self.find(&name);
        if i == self.classes.len() {
            self.classes.push(name);
            assert(self.classes@.map_values(|class: String| class@) =~= before.push(name@));
        }
    }

    /// Takes the class `name` out, if it is there.
    pub fn remove(&mut self, name: &str)
        ensures
            final(self)@ == without_class(old(self)@, name@),
            distinct(old(self)@) ==> distinct(final(self)@),
    {
        let name = String::from_str(name);
        let ghost before = self@;
        let i = self.find(&name);
        if i < self.classes.len() {
            self.classes.remove(i);
            proof {
                let after = self.classes@.map_values(|class: String| class@);
                assert(after =~= before.remove(i as int));
                if distinct(before) {
                    assert forall|a: int, b: int| 0 <= a < b < after.len() implies after[a]
                        != after[b] by {
                        let a0 = if a < i { a } else { a + 1 };
                        let b0 = if b < i { b } else { b + 1 };
                        assert(after[a] == before[a0]);
                        assert(after[b] == before[b0]);
                    }
                }
            }
        }
    }
}

} // verus!
