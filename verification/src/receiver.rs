//! Receiver analysis: classifies a method's receiver into one of the five
//! receiver shapes and derives the capability requirements that shape
//! infers. Classification is total — every receiver form maps to exactly
//! one shape, with unrecognized forms falling into the owned-consuming
//! bucket — and the first matching rule wins.

use vstd::prelude::*;

use crate::types::TypeExpr;
use crate::types::text_eq;

verus! {

/// The closed set of receiver shapes.
#[derive(Clone, Copy, Debug, PartialEq, Eq, Structural)]
pub enum ReceiverShape {
    /// A reference-counted shared pointer to the implementing type.
    SharedOwned,
    /// A borrowed immutable reference.
    BorrowedImmutable,
    /// A borrowed mutable reference.
    BorrowedMutable,
    /// An owned-by-value receiver; also the bucket for unrecognized forms.
    OwnedConsuming,
    /// No receiver at all: a free function.
    NoReceiver,
}

/// The capability requirements a receiver shape infers.
#[derive(Clone, Copy, Debug, PartialEq, Eq, Structural)]
pub struct InferredBounds {
    pub needs_transferable: bool,
    pub needs_shared_access: bool,
}

/// Whether a receiver type is a shared-ownership pointer wrapping exactly
/// the implementing type: its path ends in the reference-counted pointer
/// segment whose single bare argument is `Self`.
pub open spec fn spec_is_shared_owned(t: TypeExpr) -> bool {
    &&& t matches TypeExpr::Path { segments }
    &&& segments@.len() > 0
    &&& segments@.last().name@ == "Arc"@
    &&& segments@.last().type_args@.len() == 1
    &&& segments@.last().type_args@[0].spec_is_self_path()
}

/// Classification of a method's receiver, first match wins:
/// shared-ownership pointer to the implementing type, then borrowed
/// immutable, then borrowed mutable; every other present form is owned
/// consuming, and an absent receiver marks a free function.
pub open spec fn classify_receiver_spec(receiver: Option<TypeExpr>) -> ReceiverShape {
    match receiver {
        Option::None => ReceiverShape::NoReceiver,
        Option::Some(t) => if spec_is_shared_owned(t) {
            ReceiverShape::SharedOwned
        } else {
            match t {
                TypeExpr::Reference { mutable, .. } => if mutable {
                    ReceiverShape::BorrowedMutable
                } else {
                    ReceiverShape::BorrowedImmutable
                },
                _ => ReceiverShape::OwnedConsuming,
            }
        },
    }
}

/// The requirement bucket of each shape: independent owners may drive the
/// computation from unrelated threads, so a shared-owned receiver needs
/// both capabilities; a borrowed immutable reference needs shared access
/// only; every other present receiver conservatively needs transfer; a
/// free function needs neither.
pub open spec fn shape_requirements(s: ReceiverShape) -> InferredBounds {
    match s {
        ReceiverShape::SharedOwned => InferredBounds {
            needs_transferable: true,
            needs_shared_access: true,
        },
        ReceiverShape::BorrowedImmutable => InferredBounds {
            needs_transferable: false,
            needs_shared_access: true,
        },
        ReceiverShape::BorrowedMutable => InferredBounds {
            needs_transferable: true,
            needs_shared_access: false,
        },
        ReceiverShape::OwnedConsuming => InferredBounds {
            needs_transferable: true,
            needs_shared_access: false,
        },
        ReceiverShape::NoReceiver => InferredBounds {
            needs_transferable: false,
            needs_shared_access: false,
        },
    }
}

/// The requirements a receiver infers: classification, then the shape's
/// requirement bucket.
pub open spec fn inferred_requirements(receiver: Option<TypeExpr>) -> InferredBounds {
    shape_requirements(classify_receiver_spec(receiver))
}

fn is_shared_owned(t: &TypeExpr) -> (r: bool)
    ensures
        r == spec_is_shared_owned(*t),
{
    match t {
        TypeExpr::Path { segments } => {
            if segments.len() > 0 {
                let last = &segments[segments.len() - 1];
                if text_eq(&last.name, "Arc") && last.type_args.len() == 1 {
                    last.type_args[0].is_self_path()
                } else {
                    false
                }
            } else {
                false
            }
        },
        _ => false,
    }
}

/// Classifies a method's receiver into its shape.
pub fn classify_receiver(receiver: &Option<TypeExpr>) -> (r: ReceiverShape)
    ensures
        r == classify_receiver_spec(*receiver),
{
    match receiver {
        Option::None => ReceiverShape::NoReceiver,
        Option::Some(t) => {
            if is_shared_owned(t) {
                ReceiverShape::SharedOwned
            } else {
                match t {
                    TypeExpr::Reference { mutable, .. } => if *mutable {
                        ReceiverShape::BorrowedMutable
                    } else {
                        ReceiverShape::BorrowedImmutable
                    },
                    _ => ReceiverShape::OwnedConsuming,
                }
            }
        },
    }
}

/// Derives the capability requirements a method's receiver infers.
pub fn analyze_receiver(receiver: &Option<TypeExpr>) -> (r: InferredBounds)
    ensures
        r == inferred_requirements(*receiver),
{
    match classify_receiver(receiver) {
        ReceiverShape::SharedOwned => InferredBounds {
            needs_transferable: true,
            needs_shared_access: true,
        },
        ReceiverShape::BorrowedImmutable => InferredBounds {
            needs_transferable: false,
            needs_shared_access: true,
        },
        ReceiverShape::BorrowedMutable => InferredBounds {
            needs_transferable: true,
            needs_shared_access: false,
        },
        ReceiverShape::OwnedConsuming => InferredBounds {
            needs_transferable: true,
            needs_shared_access: false,
        },
        ReceiverShape::NoReceiver => InferredBounds {
            needs_transferable: false,
            needs_shared_access: false,
        },
    }
}

} // verus!
