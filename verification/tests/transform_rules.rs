//! The rewriting rules end to end: receiver classification, bound
//! merging, body wrapping, pass-through of untouched methods, and the
//! dispatch failure on unrecognized declarations.

use bitte::config::{Diagnostic, DirectiveToken};
use bitte::declaration::{
    transform, transform_free_function, Body, Declaration, Method, Suppression,
};
use bitte::receiver::{analyze_receiver, classify_receiver, InferredBounds, ReceiverShape};
use bitte::signature::{Constraint, MethodSig, Param, ReturnForm};
use bitte::types::{PathSegment, TypeExpr};
use bitte::CapabilityConfig;

fn simple_path(name: &str) -> TypeExpr {
    TypeExpr::Path {
        segments: vec![PathSegment { name: name.to_string(), type_args: vec![] }],
    }
}

fn arc_of(inner: TypeExpr) -> TypeExpr {
    TypeExpr::Path {
        segments: vec![PathSegment { name: "Arc".to_string(), type_args: vec![inner] }],
    }
}

fn qualified_arc_self() -> TypeExpr {
    TypeExpr::Path {
        segments: vec![
            PathSegment { name: "std".to_string(), type_args: vec![] },
            PathSegment { name: "sync".to_string(), type_args: vec![] },
            PathSegment { name: "Arc".to_string(), type_args: vec![simple_path("Self")] },
        ],
    }
}

fn borrowed_self(mutable: bool) -> TypeExpr {
    TypeExpr::Reference { mutable, target: Box::new(simple_path("Self")) }
}

fn deferred_sig(name: &str, receiver: Option<TypeExpr>, output: ReturnForm) -> MethodSig {
    MethodSig {
        name: name.to_string(),
        receiver,
        params: vec![],
        output,
        deferred: true,
        generics: vec![],
        constraints: vec![],
    }
}

fn entry(sig: MethodSig, body: Option<Body>) -> Method {
    Method { sig, body, must_observe: false, suppression: Suppression::Absent }
}

fn no_directives() -> Vec<DirectiveToken> {
    Vec::new()
}

#[test]
fn receiver_classification_is_total() {
    assert_eq!(
        classify_receiver(&Some(arc_of(simple_path("Self")))),
        ReceiverShape::SharedOwned,
    );
    assert_eq!(classify_receiver(&Some(qualified_arc_self())), ReceiverShape::SharedOwned);
    assert_eq!(classify_receiver(&Some(borrowed_self(false))), ReceiverShape::BorrowedImmutable);
    assert_eq!(classify_receiver(&Some(borrowed_self(true))), ReceiverShape::BorrowedMutable);
    assert_eq!(classify_receiver(&Some(simple_path("Self"))), ReceiverShape::OwnedConsuming);
    assert_eq!(classify_receiver(&None), ReceiverShape::NoReceiver);

    // A shared pointer around anything but the bare implementing type is
    // not a shared-owned receiver.
    assert_eq!(
        classify_receiver(&Some(arc_of(simple_path("Other")))),
        ReceiverShape::OwnedConsuming,
    );
    assert_eq!(
        classify_receiver(&Some(arc_of(borrowed_self(false)))),
        ReceiverShape::OwnedConsuming,
    );
    // An uninspected form falls into the owned-consuming bucket.
    assert_eq!(
        classify_receiver(&Some(TypeExpr::Verbatim { text: "Pin<&mut Self>".to_string() })),
        ReceiverShape::OwnedConsuming,
    );
    // So does a shared pointer with more than one argument.
    assert_eq!(
        classify_receiver(&Some(TypeExpr::Path {
            segments: vec![PathSegment {
                name: "Arc".to_string(),
                type_args: vec![simple_path("Self"), simple_path("u8")],
            }],
        })),
        ReceiverShape::OwnedConsuming,
    );
}

#[test]
fn inferred_requirements_per_shape() {
    assert_eq!(
        analyze_receiver(&Some(arc_of(simple_path("Self")))),
        InferredBounds { needs_transferable: true, needs_shared_access: true },
    );
    assert_eq!(
        analyze_receiver(&Some(borrowed_self(false))),
        InferredBounds { needs_transferable: false, needs_shared_access: true },
    );
    assert_eq!(
        analyze_receiver(&Some(borrowed_self(true))),
        InferredBounds { needs_transferable: true, needs_shared_access: false },
    );
    assert_eq!(
        analyze_receiver(&Some(simple_path("Self"))),
        InferredBounds { needs_transferable: true, needs_shared_access: false },
    );
    assert_eq!(
        analyze_receiver(&None),
        InferredBounds { needs_transferable: false, needs_shared_access: false },
    );
}

#[test]
fn default_enabled_requires_both_bounds() {
    // No directives, build-time default on: both bounds, whatever the receiver.
    let decl = Declaration::InterfaceMethodEntry {
        method: entry(
            deferred_sig("method", Some(simple_path("Self")), ReturnForm::Unspecified),
            None,
        ),
    };
    let out = transform(&no_directives(), decl, true).unwrap();
    let m = match out {
        Declaration::InterfaceMethodEntry { method } => method,
        _ => panic!("expected a method entry back"),
    };
    match &m.sig.output {
        ReturnForm::Handle { transferable, .. } => assert!(*transferable),
        _ => panic!("expected a handle result"),
    }
    assert!(m.sig.constraints.contains(&Constraint::SelfSharedAccess));
}

#[test]
fn shared_owned_bounds_survive_disabling_directives() {
    // Even `?Transferable,?SharedAccess` cannot suppress what the
    // shared-owned receiver infers.
    let decl = Declaration::InterfaceMethodEntry {
        method: entry(
            deferred_sig(
                "method",
                Some(arc_of(simple_path("Self"))),
                ReturnForm::Declared(simple_path("String")),
            ),
            None,
        ),
    };
    let disable = vec![
        DirectiveToken::Negation,
        DirectiveToken::Name("Transferable".to_string()),
        DirectiveToken::Separator,
        DirectiveToken::Negation,
        DirectiveToken::Name("SharedAccess".to_string()),
    ];
    let out = transform(&disable, decl, true).unwrap();
    let m = match out {
        Declaration::InterfaceMethodEntry { method } => method,
        _ => panic!("expected a method entry back"),
    };
    match &m.sig.output {
        ReturnForm::Handle { transferable, .. } => assert!(*transferable),
        _ => panic!("expected a handle result"),
    }
    assert!(m.sig.constraints.contains(&Constraint::SelfSharedAccess));
}

#[test]
fn borrowed_immutable_default_disabled_needs_shared_access_only() {
    let decl = Declaration::InterfaceMethodEntry {
        method: entry(
            deferred_sig(
                "method",
                Some(borrowed_self(false)),
                ReturnForm::Declared(simple_path("u32")),
            ),
            None,
        ),
    };
    let out = transform(&no_directives(), decl, false).unwrap();
    let m = match out {
        Declaration::InterfaceMethodEntry { method } => method,
        _ => panic!("expected a method entry back"),
    };
    match &m.sig.output {
        ReturnForm::Handle { transferable, .. } => assert!(!*transferable),
        _ => panic!("expected a handle result"),
    }
    assert_eq!(m.sig.constraints, vec![Constraint::SelfSharedAccess]);
}

#[test]
fn end_to_end_interface_borrowed_immutable_default_on() {
    // One deferred method on a borrowed immutable receiver, default on:
    // the output returns a handle of the declared result carrying the
    // transferable bound, and the shared-access constraint is appended to
    // what was already there.
    let mut sig = deferred_sig(
        "fetch",
        Some(borrowed_self(false)),
        ReturnForm::Declared(simple_path("u32")),
    );
    sig.params = vec![Param { name: "key".to_string(), ty: simple_path("u64") }];
    sig.generics = vec!["K".to_string()];
    sig.constraints = vec![Constraint::Verbatim("K: Copy".to_string())];
    let decl = Declaration::Interface {
        name: "Fetcher".to_string(),
        methods: vec![entry(sig, None)],
    };
    let out = transform(&no_directives(), decl, true).unwrap();
    let methods = match out {
        Declaration::Interface { name, methods } => {
            assert_eq!(name, "Fetcher");
            methods
        },
        _ => panic!("expected an interface back"),
    };
    let m = &methods[0];
    assert!(!m.sig.deferred);
    assert_eq!(m.sig.name, "fetch");
    assert_eq!(m.sig.receiver, Some(borrowed_self(false)));
    assert_eq!(m.sig.params, vec![Param { name: "key".to_string(), ty: simple_path("u64") }]);
    assert_eq!(m.sig.generics, vec!["K".to_string()]);
    assert_eq!(
        m.sig.output,
        ReturnForm::Handle { yields: simple_path("u32"), transferable: true },
    );
    assert_eq!(
        m.sig.constraints,
        vec![Constraint::Verbatim("K: Copy".to_string()), Constraint::SelfSharedAccess],
    );
    assert!(m.must_observe);
    assert_eq!(m.suppression, Suppression::Narrow);
}

#[test]
fn end_to_end_impl_block_shared_owned_body_wrapped() {
    let decl = Declaration::ImplementationBlock {
        self_type: "Worker".to_string(),
        interface_name: Some("Service".to_string()),
        methods: vec![entry(
            deferred_sig(
                "run",
                Some(arc_of(simple_path("Self"))),
                ReturnForm::Declared(simple_path("String")),
            ),
            Some(Body::Statements("return X".to_string())),
        )],
    };
    let out = transform(&no_directives(), decl, false).unwrap();
    let methods = match out {
        Declaration::ImplementationBlock { methods, .. } => methods,
        _ => panic!("expected an implementation block back"),
    };
    let m = &methods[0];
    assert!(!m.sig.deferred);
    assert_eq!(
        m.body,
        Some(Body::DeferredUnit(Box::new(Body::Statements("return X".to_string())))),
    );
    assert_eq!(
        m.sig.output,
        ReturnForm::Handle { yields: simple_path("String"), transferable: true },
    );
    assert_eq!(m.sig.constraints, vec![Constraint::SelfSharedAccess]);
}

#[test]
fn free_function_body_stays_and_suppression_is_narrow() {
    let m = entry(
        deferred_sig("compute", None, ReturnForm::Declared(simple_path("u32"))),
        Some(Body::Statements("41 + 1".to_string())),
    );
    let config = CapabilityConfig { transferable: false, shared_access: false };
    let r = transform_free_function(m, &config);
    assert!(!r.sig.deferred);
    // A free function infers nothing and the configuration adds nothing.
    assert_eq!(
        r.sig.output,
        ReturnForm::Handle { yields: simple_path("u32"), transferable: false },
    );
    assert_eq!(r.sig.constraints, vec![]);
    // The body is not wrapped, the result is marked, the narrow set is
    // suppressed.
    assert_eq!(r.body, Some(Body::Statements("41 + 1".to_string())));
    assert!(r.must_observe);
    assert_eq!(r.suppression, Suppression::Narrow);
}

#[test]
fn entry_suppression_depends_on_default_body() {
    let without_body = Declaration::InterfaceMethodEntry {
        method: entry(
            deferred_sig("plain", Some(borrowed_self(false)), ReturnForm::Unspecified),
            None,
        ),
    };
    let out = transform(&no_directives(), without_body, false).unwrap();
    match out {
        Declaration::InterfaceMethodEntry { method } => {
            assert_eq!(method.suppression, Suppression::Narrow);
            assert_eq!(method.body, None);
        },
        _ => panic!("expected a method entry back"),
    }

    let with_body = Declaration::InterfaceMethodEntry {
        method: entry(
            deferred_sig("defaulted", Some(borrowed_self(false)), ReturnForm::Unspecified),
            Some(Body::Statements("()".to_string())),
        ),
    };
    let out = transform(&no_directives(), with_body, false).unwrap();
    match out {
        Declaration::InterfaceMethodEntry { method } => {
            assert_eq!(method.suppression, Suppression::Broad);
            assert_eq!(
                method.body,
                Some(Body::DeferredUnit(Box::new(Body::Statements("()".to_string())))),
            );
        },
        _ => panic!("expected a method entry back"),
    }
}

#[test]
fn non_deferred_methods_are_untouched() {
    let plain = Method {
        sig: MethodSig {
            name: "sync_method".to_string(),
            receiver: Some(borrowed_self(true)),
            params: vec![Param { name: "x".to_string(), ty: simple_path("i32") }],
            output: ReturnForm::Declared(simple_path("i32")),
            deferred: false,
            generics: vec!["T".to_string()],
            constraints: vec![Constraint::Verbatim("T: Clone".to_string())],
        },
        body: Some(Body::Statements("x".to_string())),
        must_observe: false,
        suppression: Suppression::Absent,
    };
    let expected = Method {
        sig: MethodSig {
            name: "sync_method".to_string(),
            receiver: Some(borrowed_self(true)),
            params: vec![Param { name: "x".to_string(), ty: simple_path("i32") }],
            output: ReturnForm::Declared(simple_path("i32")),
            deferred: false,
            generics: vec!["T".to_string()],
            constraints: vec![Constraint::Verbatim("T: Clone".to_string())],
        },
        body: Some(Body::Statements("x".to_string())),
        must_observe: false,
        suppression: Suppression::Absent,
    };
    let decl = Declaration::Interface { name: "S".to_string(), methods: vec![plain] };
    let out = transform(&no_directives(), decl, true).unwrap();
    match out {
        Declaration::Interface { methods, .. } => assert_eq!(methods[0], expected),
        _ => panic!("expected an interface back"),
    }
}

#[test]
fn methods_keep_their_source_order() {
    let decl = Declaration::Interface {
        name: "Ordered".to_string(),
        methods: vec![
            entry(
                deferred_sig("first", Some(borrowed_self(false)), ReturnForm::Unspecified),
                None,
            ),
            entry(
                MethodSig {
                    name: "second".to_string(),
                    receiver: Some(borrowed_self(false)),
                    params: vec![],
                    output: ReturnForm::Unspecified,
                    deferred: false,
                    generics: vec![],
                    constraints: vec![],
                },
                None,
            ),
            entry(
                deferred_sig("third", Some(simple_path("Self")), ReturnForm::Unspecified),
                None,
            ),
        ],
    };
    let out = transform(&no_directives(), decl, false).unwrap();
    let methods = match out {
        Declaration::Interface { methods, .. } => methods,
        _ => panic!("expected an interface back"),
    };
    let names: Vec<&str> = methods.iter().map(|m| m.sig.name.as_str()).collect();
    assert_eq!(names, vec!["first", "second", "third"]);
    assert!(!methods[0].sig.deferred);
    assert!(!methods[1].sig.deferred);
    assert!(!methods[2].sig.deferred);
    // The middle one was never deferred, so it alone keeps its plain result.
    assert_eq!(methods[1].sig.output, ReturnForm::Unspecified);
}

#[test]
fn unrecognized_declaration_is_a_parse_error() {
    let decl = Declaration::Unrecognized { text: "struct Point { x: u8 }".to_string() };
    let r = transform(&no_directives(), decl, true);
    assert_eq!(r, Err(Diagnostic::UnrecognizedDeclaration));
    let d = r.unwrap_err();
    assert!(!d.is_config_error());
    assert_eq!(
        d.message(),
        "expected interface, implementation block, function, or interface-method-entry",
    );
}

#[test]
fn config_errors_abort_before_dispatch() {
    // Even an unrecognized declaration reports the directive error first,
    // and nothing is emitted.
    let decl = Declaration::Unrecognized { text: "struct Point;".to_string() };
    let bad = vec![DirectiveToken::Name("Teleport".to_string())];
    assert_eq!(transform(&bad, decl, true), Err(Diagnostic::UnknownCapability));
}

#[test]
fn empty_interface_transforms_to_empty_interface() {
    let decl = Declaration::Interface { name: "Empty".to_string(), methods: vec![] };
    let out = transform(&no_directives(), decl, true).unwrap();
    match out {
        Declaration::Interface { name, methods } => {
            assert_eq!(name, "Empty");
            assert!(methods.is_empty());
        },
        _ => panic!("expected an interface back"),
    }
}
