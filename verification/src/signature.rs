//! Signature rewriting: turns a method signature that operates under the
//! implicit deferred-execution contract into its explicit form. The
//! deferred flag is cleared, the declared result type is wrapped — never
//! discarded — in an opaque handle that produces it once resolved, the
//! handle carries the transferable bound when the merged configuration
//! requires it, and a self-referential shared-access constraint is
//! appended — never replacing an existing one — when shared access is
//! required. Name, receiver, parameters and generics stay untouched.

use vstd::prelude::*;

use crate::CapabilityConfig;
use crate::config::DirectiveToken;
use crate::config::resolve_spec;
use crate::default_config;
use crate::receiver::InferredBounds;
use crate::receiver::ReceiverShape;
use crate::receiver::analyze_receiver;
use crate::receiver::classify_receiver_spec;
use crate::receiver::inferred_requirements;
use crate::types::TypeExpr;

verus! {

/// One ordinary (non-receiver) parameter of a method.
#[derive(Debug, PartialEq, Eq)]
pub struct Param {
    pub name: String,
    pub ty: TypeExpr,
}

/// One entry of a signature's constraint set.
#[derive(Debug, PartialEq, Eq)]
pub enum Constraint {
    /// The implementing type itself supports concurrent shared access.
    SelfSharedAccess,
    /// A constraint the rewriter never inspects, kept in its textual form.
    Verbatim(String),
}

/// A method's declared result.
#[derive(Debug, PartialEq, Eq)]
pub enum ReturnForm {
    /// No declared result: the unit type is understood.
    Unspecified,
    /// An explicitly declared result type.
    Declared(TypeExpr),
    /// The rewritten form: an opaque handle that produces the wrapped
    /// type once resolved, transferable across threads when marked so.
    Handle { yields: TypeExpr, transferable: bool },
}

/// A method signature.
#[derive(Debug, PartialEq, Eq)]
pub struct MethodSig {
    pub name: String,
    /// The receiver's type, absent on a free function.
    pub receiver: Option<TypeExpr>,
    pub params: Vec<Param>,
    pub output: ReturnForm,
    /// Whether the method still operates under the implicit
    /// deferred-execution contract.
    pub deferred: bool,
    pub generics: Vec<String>,
    pub constraints: Vec<Constraint>,
}

/// The result type a signature declares: the declared type, unit when
/// undeclared, and the produced type when already wrapped in a handle.
pub open spec fn declared_result(output: ReturnForm) -> TypeExpr {
    match output {
        ReturnForm::Unspecified => TypeExpr::Unit,
        ReturnForm::Declared(t) => t,
        ReturnForm::Handle { yields, .. } => yields,
    }
}

/// Configured bounds OR-ed with inferred bounds: an inferred requirement
/// can enable a capability the configuration disabled, never the reverse.
pub open spec fn merge_config(c: CapabilityConfig, i: InferredBounds) -> CapabilityConfig {
    CapabilityConfig {
        transferable: c.transferable || i.needs_transferable,
        shared_access: c.shared_access || i.needs_shared_access,
    }
}

/// The capability set a signature is rewritten under.
pub open spec fn merged_for(sig: MethodSig, c: CapabilityConfig) -> CapabilityConfig {
    merge_config(c, inferred_requirements(sig.receiver))
}

/// How a rewritten signature relates to its original: the deferred flag
/// is cleared, the declared result is wrapped in a handle carrying the
/// transferable bound exactly when the merged configuration requires it,
/// the shared-access constraint is appended exactly when required, and
/// everything else is untouched.
pub open spec fn sig_rewritten(sig: MethodSig, c: CapabilityConfig, r: MethodSig) -> bool {
    let merged = merged_for(sig, c);
    &&& r.name == sig.name
    &&& r.receiver == sig.receiver
    &&& r.params == sig.params
    &&& r.generics == sig.generics
    &&& !r.deferred
    &&& r.output == (ReturnForm::Handle {
        yields: declared_result(sig.output),
        transferable: merged.transferable,
    })
    &&& r.constraints@ == (if merged.shared_access {
        sig.constraints@.push(Constraint::SelfSharedAccess)
    } else {
        sig.constraints@
    })
}

/// Appends — never replaces — the self-referential constraint stating
/// that the implementing type supports concurrent shared access.
pub fn add_shared_access_constraint(constraints: &mut Vec<Constraint>)
    ensures
        final(constraints)@ == old(constraints)@.push(Constraint::SelfSharedAccess),
{
    constraints.push(Constraint::SelfSharedAccess);
}

/// Rewrites one signature under the merged capability configuration.
pub fn rewrite_signature(sig: MethodSig, config: &CapabilityConfig) -> (r: MethodSig)
    ensures
        sig_rewritten(sig, *config, r),
{
    let MethodSig { name, receiver, params, output, deferred: _, generics, constraints } = sig;
    let inferred = analyze_receiver(&receiver);
    let transferable = config.transferable || inferred.needs_transferable;
    let shared_access = config.shared_access || inferred.needs_shared_access;
    let yields = match output {
        ReturnForm::Unspecified => TypeExpr::Unit,
        ReturnForm::Declared(t) => t,
        ReturnForm::Handle { yields, .. } => yields,
    };
    let mut constraints = constraints;
    if shared_access {
        add_shared_access_constraint(&mut constraints);
    }
    MethodSig {
        name,
        receiver,
        params,
        output: ReturnForm::Handle { yields, transferable },
        deferred: false,
        generics,
        constraints,
    }
}

/// Law: merging only ever adds capabilities — whatever the receiver
/// infers and whatever the directives configured both survive into the
/// merged set, so inferred requirements are never subtracted from it.
pub proof fn lemma_inferred_bounds_never_subtracted(sig: MethodSig, c: CapabilityConfig)
    ensures
        inferred_requirements(sig.receiver).needs_transferable ==> merged_for(
            sig,
            c,
        ).transferable,
        inferred_requirements(sig.receiver).needs_shared_access ==> merged_for(
            sig,
            c,
        ).shared_access,
        c.transferable ==> merged_for(sig, c).transferable,
        c.shared_access ==> merged_for(sig, c).shared_access,
{
}

/// Law: the declared result type is wrapped, never discarded — the
/// rewritten signature's handle produces exactly the type the original
/// declared, with unit standing in for an undeclared one.
pub proof fn lemma_result_type_never_discarded(sig: MethodSig, c: CapabilityConfig, r: MethodSig)
    requires
        sig_rewritten(sig, c, r),
    ensures
        (r.output matches ReturnForm::Handle { yields, .. } && yields == declared_result(
            sig.output,
        )),
{
}

/// Law: with no directives and the build-time default on, every
/// rewritten signature requires both capabilities — the handle carries
/// the transferable bound and the shared-access constraint is appended.
pub proof fn lemma_no_directives_default_enabled(
    ts: Seq<DirectiveToken>,
    sig: MethodSig,
    r: MethodSig,
)
    requires
        ts.len() == 0,
        resolve_spec(ts, true) matches Ok(c) && sig_rewritten(sig, c, r),
    ensures
        (r.output matches ReturnForm::Handle { transferable, .. } && transferable),
        r.constraints@.len() == sig.constraints@.len() + 1,
        r.constraints@.last() == Constraint::SelfSharedAccess,
{
    assert(ts =~= Seq::<DirectiveToken>::empty());
    crate::config::lemma_empty_directives_resolve(true);
    assert(sig_rewritten(sig, default_config(true), r));
}

/// Law: a shared-owned receiver always yields both bounds, whatever the
/// configuration the directives resolved to — a receiver-inferred
/// requirement is never suppressible by a disabling directive.
pub proof fn lemma_shared_owned_never_suppressed(
    sig: MethodSig,
    c: CapabilityConfig,
    r: MethodSig,
)
    requires
        classify_receiver_spec(sig.receiver) == ReceiverShape::SharedOwned,
        sig_rewritten(sig, c, r),
    ensures
        (r.output matches ReturnForm::Handle { transferable, .. } && transferable),
        r.constraints@.len() == sig.constraints@.len() + 1,
        r.constraints@.last() == Constraint::SelfSharedAccess,
{
}

/// Law: a borrowed-immutable receiver with no directives and the
/// build-time default off requires shared access only — the constraint
/// is appended but the handle carries no transferable bound.
pub proof fn lemma_borrowed_immutable_default_disabled(
    ts: Seq<DirectiveToken>,
    sig: MethodSig,
    r: MethodSig,
)
    requires
        ts.len() == 0,
        classify_receiver_spec(sig.receiver) == ReceiverShape::BorrowedImmutable,
        resolve_spec(ts, false) matches Ok(c) && sig_rewritten(sig, c, r),
    ensures
        (r.output matches ReturnForm::Handle { transferable, .. } && !transferable),
        r.constraints@.len() == sig.constraints@.len() + 1,
        r.constraints@.last() == Constraint::SelfSharedAccess,
        r.constraints@.drop_last() == sig.constraints@,
{
    assert(ts =~= Seq::<DirectiveToken>::empty());
    crate::config::lemma_empty_directives_resolve(false);
    assert(sig_rewritten(sig, default_config(false), r));
    assert(sig.constraints@.push(Constraint::SelfSharedAccess).drop_last() =~= sig.constraints@);
}

} // verus!
