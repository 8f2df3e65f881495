//! The structural type model the rewriter works on: just enough of a
//! type's shape to classify receivers and to wrap declared result types,
//! with every uninspected form carried through verbatim.

use vstd::prelude::*;

verus! {

/// One segment of a type path: a name plus its bracketed type arguments.
#[derive(Debug, PartialEq, Eq)]
pub struct PathSegment {
    pub name: String,
    pub type_args: Vec<TypeExpr>,
}

/// The structural form of a type as the upstream parser hands it over.
#[derive(Debug, PartialEq, Eq)]
pub enum TypeExpr {
    /// The unit type.
    Unit,
    /// A possibly qualified path type, such as the implementing type
    /// itself or a shared-ownership pointer around it.
    Path { segments: Vec<PathSegment> },
    /// A borrowed reference to another type.
    Reference { mutable: bool, target: Box<TypeExpr> },
    /// A form the rewriter never inspects, kept in its textual form.
    Verbatim { text: String },
}

/// Compares a held name against an expected spelling.
pub(crate) fn text_eq(name: &String, expected: &str) -> (r: bool)
    ensures
        r == (name@ == expected@),
{
    let e: String = expected.to_owned();
    *name == e
}

impl TypeExpr {
    /// Whether this is the path of the single bare segment `Self`: the
    /// implementing type itself.
    pub open spec fn spec_is_self_path(self) -> bool {
        &&& self matches TypeExpr::Path { segments }
        &&& segments@.len() == 1
        &&& segments@[0].name@ == "Self"@
        &&& segments@[0].type_args@.len() == 0
    }

    pub fn is_self_path(&self) -> (r: bool)
        ensures
            r == self.spec_is_self_path(),
    {
        match self {
            TypeExpr::Path { segments } => {
                if segments.len() == 1 {
                    let seg = &segments[0];
                    seg.type_args.len() == 0 && text_eq(&seg.name, "Self")
                } else {
                    false
                }
            },
            _ => false,
        }
    }
}

} // verus!
