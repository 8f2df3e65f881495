//! Declaration dispatch: the four-way walk that applies receiver analysis
//! and signature rewriting across a declaration's direct method list, one
//! level deep and never recursively. Interpretation is attempted in the
//! fixed priority order interface, implementation block, free function,
//! bare interface-method-entry; the first structural match is the one
//! applied, and an input fitting none of the four yields a parse
//! diagnostic with no partial output.

use vstd::prelude::*;

use crate::CapabilityConfig;
use crate::config::Diagnostic;
use crate::config::DirectiveToken;
use crate::config::resolve_config;
use crate::config::resolve_spec;
use crate::signature::MethodSig;
use crate::signature::rewrite_signature;
use crate::signature::sig_rewritten;

verus! {

/// A method body.
#[derive(Debug, PartialEq, Eq)]
pub enum Body {
    /// The statements in their original textual form; the rewriter never
    /// looks inside them.
    Statements(String),
    /// The wrapped form: the inner body runs as a single deferred unit
    /// producing the handle's result, rather than eagerly.
    DeferredUnit(Box<Body>),
}

/// Which fixed set of diagnostics is suppressed on a rewritten method.
#[derive(Clone, Copy, Debug, PartialEq, Eq, Structural)]
pub enum Suppression {
    /// Nothing suppressed.
    Absent,
    /// The narrow set: the complexity diagnostics the handle result
    /// form trips.
    Narrow,
    /// The richer set: additionally the diagnostics a wrapped body trips.
    Broad,
}

/// A method: a signature, an optional body, and the marks the rewriter
/// leaves on it.
#[derive(Debug, PartialEq, Eq)]
pub struct Method {
    pub sig: MethodSig,
    pub body: Option<Body>,
    /// Whether silently discarding the method's result is discouraged.
    pub must_observe: bool,
    pub suppression: Suppression,
}

/// A declaration tree: one of the four accepted shapes, or anything else.
#[derive(Debug, PartialEq, Eq)]
pub enum Declaration {
    /// An interface: a named list of method entries, bodies optional.
    Interface { name: String, methods: Vec<Method> },
    /// An implementation block: methods implementing an interface for a
    /// concrete type.
    ImplementationBlock {
        self_type: String,
        interface_name: Option<String>,
        methods: Vec<Method>,
    },
    /// A free function.
    FreeFunction { method: Method },
    /// A bare interface-method-entry, dispatched on its own when a method
    /// carries its own directive list.
    InterfaceMethodEntry { method: Method },
    /// A declaration matching none of the four accepted shapes.
    Unrecognized { text: String },
}

/// How a wrapped body relates to its original: present exactly when the
/// original was, with the original's statements as the single deferred
/// unit inside.
pub open spec fn body_wrapped(b: Option<Body>, r: Option<Body>) -> bool {
    match b {
        Option::None => r is None,
        Option::Some(inner) => r matches Option::Some(rb) && rb matches Body::DeferredUnit(w)
            && *w == inner,
    }
}

/// How an interface-method-entry is transformed: a deferred method has
/// its signature rewritten, its body (when present) wrapped as one
/// deferred unit, its result marked must-observe, and the richer
/// suppression set exactly when a default body is present; a
/// non-deferred method passes through identical to its input form.
pub open spec fn entry_method_transformed(m: Method, c: CapabilityConfig, r: Method) -> bool {
    if m.sig.deferred {
        &&& sig_rewritten(m.sig, c, r.sig)
        &&& body_wrapped(m.body, r.body)
        &&& r.must_observe
        &&& r.suppression == (if m.body is Some {
            Suppression::Broad
        } else {
            Suppression::Narrow
        })
    } else {
        r == m
    }
}

/// How an implementation-block method is transformed: as an entry, but
/// always with the richer suppression set.
pub open spec fn impl_method_transformed(m: Method, c: CapabilityConfig, r: Method) -> bool {
    if m.sig.deferred {
        &&& sig_rewritten(m.sig, c, r.sig)
        &&& body_wrapped(m.body, r.body)
        &&& r.must_observe
        &&& r.suppression == Suppression::Broad
    } else {
        r == m
    }
}

/// How a free function is transformed: signature rewritten, result
/// marked must-observe, narrow suppression set, body untouched.
pub open spec fn free_function_transformed(m: Method, c: CapabilityConfig, r: Method) -> bool {
    if m.sig.deferred {
        &&& sig_rewritten(m.sig, c, r.sig)
        &&& r.body == m.body
        &&& r.must_observe
        &&& r.suppression == Suppression::Narrow
    } else {
        r == m
    }
}

/// How a whole declaration is transformed under a resolved configuration:
/// each of the four shapes keeps its own frame and has its direct method
/// list walked one level deep, while any other input yields the parse
/// diagnostic and no output.
pub open spec fn declaration_transformed(
    d: Declaration,
    c: CapabilityConfig,
    r: Result<Declaration, Diagnostic>,
) -> bool {
    match d {
        Declaration::Interface { name, methods } => {
            &&& r matches Result::Ok(Declaration::Interface { name: rn, methods: rm })
            &&& rn == name
            &&& rm@.len() == methods@.len()
            &&& forall|i: int|
                0 <= i < methods@.len() ==> entry_method_transformed(
                    methods@[i],
                    c,
                    #[trigger] rm@[i],
                )
        },
        Declaration::ImplementationBlock { self_type, interface_name, methods } => {
            &&& r matches Result::Ok(Declaration::ImplementationBlock {
                self_type: rt,
                interface_name: ri,
                methods: rm,
            })
            &&& rt == self_type
            &&& ri == interface_name
            &&& rm@.len() == methods@.len()
            &&& forall|i: int|
                0 <= i < methods@.len() ==> impl_method_transformed(
                    methods@[i],
                    c,
                    #[trigger] rm@[i],
                )
        },
        Declaration::FreeFunction { method } => {
            &&& r matches Result::Ok(Declaration::FreeFunction { method: rm })
            &&& free_function_transformed(method, c, rm)
        },
        Declaration::InterfaceMethodEntry { method } => {
            &&& r matches Result::Ok(Declaration::InterfaceMethodEntry { method: rm })
            &&& entry_method_transformed(method, c, rm)
        },
        Declaration::Unrecognized { .. } => r == Result::<Declaration, Diagnostic>::Err(
            Diagnostic::UnrecognizedDeclaration,
        ),
    }
}

fn wrap_body(b: Option<Body>) -> (r: Option<Body>)
    ensures
        body_wrapped(b, r),
{
    match b {
        Option::None => Option::None,
        Option::Some(inner) => Option::Some(Body::DeferredUnit(Box::new(inner))),
    }
}

/// Transforms one interface-method-entry.
pub fn transform_method_entry(m: Method, config: &CapabilityConfig) -> (r: Method)
    ensures
        entry_method_transformed(m, *config, r),
{
    if m.sig.deferred {
        let Method { sig, body, must_observe: _, suppression: _ } = m;
        let suppression = if matches!(&body, Option::Some(_)) {
            Suppression::Broad
        } else {
            Suppression::Narrow
        };
        Method {
            sig: rewrite_signature(sig, config),
            body: wrap_body(body),
            must_observe: true,
            suppression,
        }
    } else {
        m
    }
}

/// Transforms one implementation-block method.
pub fn transform_impl_method(m: Method, config: &CapabilityConfig) -> (r: Method)
    ensures
        impl_method_transformed(m, *config, r),
{
    if m.sig.deferred {
        let Method { sig, body, must_observe: _, suppression: _ } = m;
        Method {
            sig: rewrite_signature(sig, config),
            body: wrap_body(body),
            must_observe: true,
            suppression: Suppression::Broad,
        }
    } else {
        m
    }
}

/// Transforms one free function: its body, even when present, stays
/// unwrapped.
pub fn transform_free_function(m: Method, config: &CapabilityConfig) -> (r: Method)
    ensures
        free_function_transformed(m, *config, r),
{
    if m.sig.deferred {
        let Method { sig, body, must_observe: _, suppression: _ } = m;
        Method {
            sig: rewrite_signature(sig, config),
            body,
            must_observe: true,
            suppression: Suppression::Narrow,
        }
    } else {
        m
    }
}

fn transform_entry_methods(methods: Vec<Method>, config: &CapabilityConfig) -> (r: Vec<Method>)
    ensures
        r@.len() == methods@.len(),
        forall|i: int|
            0 <= i < methods@.len() ==> entry_method_transformed(
                methods@[i],
                *config,
                #[trigger] r@[i],
            ),
    decreases methods@.len(),
{
    let mut ms = methods;
    match ms.pop() {
        Option::None => ms,
        Option::Some(last) => {
            let mut r = transform_entry_methods(ms, config);
            r.push(transform_method_entry(last, config));
            proof {
                assert forall|i: int| 0 <= i < methods@.len() implies entry_method_transformed(
                    methods@[i],
                    *config,
                    r@[i],
                ) by {
                    if i < methods@.len() - 1 {
                        assert(methods@.drop_last()[i] == methods@[i]);
                    }
                }
            }
            r
        },
    }
}

fn transform_impl_methods(methods: Vec<Method>, config: &CapabilityConfig) -> (r: Vec<Method>)
    ensures
        r@.len() == methods@.len(),
        forall|i: int|
            0 <= i < methods@.len() ==> impl_method_transformed(
                methods@[i],
                *config,
                #[trigger] r@[i],
            ),
    decreases methods@.len(),
{
    let mut ms = methods;
    match ms.pop() {
        Option::None => ms,
        Option::Some(last) => {
            let mut r = transform_impl_methods(ms, config);
            r.push(transform_impl_method(last, config));
            proof {
                assert forall|i: int| 0 <= i < methods@.len() implies impl_method_transformed(
                    methods@[i],
                    *config,
                    r@[i],
                ) by {
                    if i < methods@.len() - 1 {
                        assert(methods@.drop_last()[i] == methods@[i]);
                    }
                }
            }
            r
        },
    }
}

/// Applies the rewriting across one declaration under an already resolved
/// configuration, in the fixed interpretation priority order.
pub fn transform_declaration(decl: Declaration, config: &CapabilityConfig) -> (r: Result<
    Declaration,
    Diagnostic,
>)
    ensures
        declaration_transformed(decl, *config, r),
{
    match decl {
        Declaration::Interface { name, methods } => Result::Ok(
            Declaration::Interface { name, methods: transform_entry_methods(methods, config) },
        ),
        Declaration::ImplementationBlock { self_type, interface_name, methods } => Result::Ok(
            Declaration::ImplementationBlock {
                self_type,
                interface_name,
                methods: transform_impl_methods(methods, config),
            },
        ),
        Declaration::FreeFunction { method } => Result::Ok(
            Declaration::FreeFunction { method: transform_free_function(method, config) },
        ),
        Declaration::InterfaceMethodEntry { method } => Result::Ok(
            Declaration::InterfaceMethodEntry { method: transform_method_entry(method, config) },
        ),
        Declaration::Unrecognized { .. } => Result::Err(Diagnostic::UnrecognizedDeclaration),
    }
}

/// The entry point: resolves the directive list under the build-time
/// default, then dispatches the declaration. All or nothing: either every
/// deferred method is rewritten and a complete tree comes back, or the
/// first diagnostic comes back and nothing is emitted.
pub fn transform(
    directives: &Vec<DirectiveToken>,
    declaration: Declaration,
    default_enabled: bool,
) -> (r: Result<Declaration, Diagnostic>)
    ensures
        (match resolve_spec(directives@, default_enabled) {
            Result::Ok(c) => declaration_transformed(declaration, c, r),
            Result::Err(e) => r == Result::<Declaration, Diagnostic>::Err(e),
        }),
{
    match resolve_config(directives, default_enabled) {
        Result::Ok(c) => transform_declaration(declaration, &c),
        Result::Err(e) => Result::Err(e),
    }
}

/// Law: a method whose deferred flag is not set passes through a
/// transformed interface or implementation block identical to its input
/// form.
pub proof fn lemma_non_deferred_pass_through(m: Method, c: CapabilityConfig, r: Method)
    requires
        !m.sig.deferred,
        entry_method_transformed(m, c, r) || impl_method_transformed(m, c, r),
    ensures
        r == m,
{
}

/// Law: a declaration matching none of the four accepted shapes yields
/// the parse diagnostic, and no output is produced.
pub proof fn lemma_unrecognized_declaration_rejected(
    d: Declaration,
    c: CapabilityConfig,
    r: Result<Declaration, Diagnostic>,
)
    requires
        d matches Declaration::Unrecognized { .. },
        declaration_transformed(d, c, r),
    ensures
        r == Result::<Declaration, Diagnostic>::Err(Diagnostic::UnrecognizedDeclaration),
{
}

} // verus!
