//! The build-time default switch: with it on, a deferred method picks up
//! both capabilities even without directives; an explicit disabling
//! directive still wins over the default, though never over a
//! receiver-inferred requirement.

use bitte::config::DirectiveToken;
use bitte::declaration::{transform, Declaration, Method, Suppression};
use bitte::signature::{Constraint, MethodSig, ReturnForm};
use bitte::types::{PathSegment, TypeExpr};

fn simple_path(name: &str) -> TypeExpr {
    TypeExpr::Path {
        segments: vec![PathSegment { name: name.to_string(), type_args: vec![] }],
    }
}

fn borrowed_self() -> TypeExpr {
    TypeExpr::Reference { mutable: false, target: Box::new(simple_path("Self")) }
}

fn method_entry(name: &str) -> Method {
    Method {
        sig: MethodSig {
            name: name.to_string(),
            receiver: Some(borrowed_self()),
            params: vec![],
            output: ReturnForm::Declared(simple_path("u32")),
            deferred: true,
            generics: vec![],
            constraints: vec![],
        },
        body: None,
        must_observe: false,
        suppression: Suppression::Absent,
    }
}

#[test]
fn test_threads_bounds() {
    // Default on, no directives: the handle must be transferable.
    let decl = Declaration::Interface {
        name: "AsyncTraitThreadsDefault".to_string(),
        methods: vec![method_entry("method")],
    };
    let no_directives: Vec<DirectiveToken> = Vec::new();
    let out = transform(&no_directives, decl, true).unwrap();
    let methods = match out {
        Declaration::Interface { methods, .. } => methods,
        _ => panic!("expected an interface back"),
    };
    match &methods[0].sig.output {
        ReturnForm::Handle { transferable, .. } => assert!(*transferable),
        _ => panic!("expected a handle result"),
    }
    assert!(methods[0].sig.constraints.contains(&Constraint::SelfSharedAccess));

    // The explicit override still disables what only the default enabled.
    let overridden = Declaration::Interface {
        name: "AsyncTraitThreadsOverride".to_string(),
        methods: vec![method_entry("method")],
    };
    let disable = vec![
        DirectiveToken::Negation,
        DirectiveToken::Name("Transferable".to_string()),
        DirectiveToken::Separator,
        DirectiveToken::Negation,
        DirectiveToken::Name("SharedAccess".to_string()),
    ];
    let out = transform(&disable, overridden, true).unwrap();
    let methods = match out {
        Declaration::Interface { methods, .. } => methods,
        _ => panic!("expected an interface back"),
    };
    match &methods[0].sig.output {
        ReturnForm::Handle { transferable, .. } => assert!(!*transferable),
        _ => panic!("expected a handle result"),
    }
}
