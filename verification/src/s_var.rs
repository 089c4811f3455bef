//! What the attribute for state variables looks at in the type that a
//! function returns.

use vstd::prelude::*;

verus! {

/// The name of the type that wraps a state variable.
pub const S_VAR: &'static str = "SVar";

/// A type as far as its shape matters here.
pub enum TypeShape {
    /// A path; `segments` holds the names of its segments, in their order.
    Path { segments: Vec<String> },
    /// Anything else: a reference, a tuple, a function pointer.
    Other,
}

impl TypeShape {
    /// The name of the first segment, where the type is a path that has
    /// one.
    pub open spec fn first_segment(self) -> Option<Seq<char>> {
        match self {
            TypeShape::Path { segments } => if segments@.len() > 0 {
                Some(segments@[0]@)
            } else {
                None
            },
            TypeShape::Other => None,
        }
    }
}

/// Whether `type_` is a path whose first segment names the type that
/// wraps a state variable, so that it need not be wrapped again.
pub fn is_first_segment_s_var(type_: &TypeShape) -> (wrapped: bool)
    ensures
        wrapped == (type_.first_segment() == Some(S_VAR@)),
{
    match type_ {
        TypeShape::Path { segments } => {
            if segments.len() > 0 {
                segments[0] == String::from_str(S_VAR)
            } else {
                false
            }
        },
        TypeShape::Other => false,
    }
}

} // verus!
