//! Configuration resolution: folds a lexed list of bound directives into
//! the capability configuration a declaration is rewritten under.
//!
//! A directive list reads `[?]Name(,[?]Name)*`, with an optional trailing
//! separator; the negation marker disables the named capability, its
//! absence enables it. Directives are folded left to right onto the
//! build-time default, so a later directive for the same capability
//! overwrites an earlier one.

use vstd::prelude::*;

use crate::Capability;
use crate::CapabilityConfig;
use crate::default_config;
use crate::types::text_eq;

verus! {

/// One token of a lexed directive list, as the upstream front end hands
/// it over. The front end guarantees lexical validity only; whether the
/// token sequence forms a well-shaped directive list is decided here.
#[derive(Debug, PartialEq, Eq)]
pub enum DirectiveToken {
    /// The negation marker: the directive it opens disables its capability.
    Negation,
    /// The separator between two directives.
    Separator,
    /// A capability name.
    Name(String),
}

/// A parsed bound directive: a signed toggle naming exactly one
/// recognized capability.
#[derive(Clone, Copy, Debug, PartialEq, Eq, Structural)]
pub struct Directive {
    pub enabled: bool,
    pub capability: Capability,
}

/// A diagnostic: the reason a transformation produced no output.
#[derive(Clone, Copy, Debug, PartialEq, Eq, Structural)]
pub enum Diagnostic {
    /// A directive names a capability that is not recognized.
    UnknownCapability,
    /// The directive list does not fit the `[?]Name(,[?]Name)*` shape.
    MalformedDirectiveList,
    /// The declaration matches none of the four accepted shapes.
    UnrecognizedDeclaration,
}

impl Diagnostic {
    /// Whether this diagnostic arose from the directive list rather than
    /// from the declaration's shape.
    pub open spec fn spec_is_config_error(self) -> bool {
        self is UnknownCapability || self is MalformedDirectiveList
    }

    pub fn is_config_error(&self) -> (r: bool)
        ensures
            r == self.spec_is_config_error(),
    {
        matches!(self, Diagnostic::UnknownCapability | Diagnostic::MalformedDirectiveList)
    }

    /// The wording each diagnostic is reported with.
    pub open spec fn spec_message(self) -> Seq<char> {
        match self {
            Diagnostic::UnknownCapability => "unknown capability"@,
            Diagnostic::MalformedDirectiveList => "malformed directive list"@,
            Diagnostic::UnrecognizedDeclaration => "expected interface, implementation block, function, or interface-method-entry"@,
        }
    }

    pub fn message(&self) -> (r: String)
        ensures
            r@ == self.spec_message(),
    {
        match self {
            Diagnostic::UnknownCapability => "unknown capability".to_owned(),
            Diagnostic::MalformedDirectiveList => "malformed directive list".to_owned(),
            Diagnostic::UnrecognizedDeclaration => "expected interface, implementation block, function, or interface-method-entry".to_owned(),
        }
    }
}

/// The capability a directive name denotes, if any.
pub open spec fn capability_of_name(s: Seq<char>) -> Option<Capability> {
    if s == "Transferable"@ {
        Option::Some(Capability::Transferable)
    } else if s == "SharedAccess"@ {
        Option::Some(Capability::SharedAccess)
    } else {
        Option::None
    }
}

fn capability_for(name: &String) -> (r: Option<Capability>)
    ensures
        r == capability_of_name(name@),
{
    if text_eq(name, "Transferable") {
        Option::Some(Capability::Transferable)
    } else if text_eq(name, "SharedAccess") {
        Option::Some(Capability::SharedAccess)
    } else {
        Option::None
    }
}

/// What a lexed directive list denotes: its directives in order, or the
/// first diagnostic a left-to-right read meets. A name outside the
/// recognized capabilities is an unknown-capability error; any other
/// departure from the `[?]Name(,[?]Name)*` shape is a malformed list.
pub open spec fn parse_directives(ts: Seq<DirectiveToken>) -> Result<Seq<Directive>, Diagnostic>
    decreases ts.len(),
{
    if ts.len() == 0 {
        Result::Ok(Seq::empty())
    } else {
        let enabled = !(ts[0] is Negation);
        let rest = if ts[0] is Negation { ts.skip(1) } else { ts };
        if rest.len() == 0 {
            Result::Err(Diagnostic::MalformedDirectiveList)
        } else {
            match rest[0] {
                DirectiveToken::Name(n) => match capability_of_name(n@) {
                    Option::Some(cap) => {
                        let after = rest.skip(1);
                        if after.len() == 0 {
                            Result::Ok(seq![Directive { enabled, capability: cap }])
                        } else if after[0] is Separator {
                            match parse_directives(after.skip(1)) {
                                Result::Ok(ds) => Result::Ok(
                                    seq![Directive { enabled, capability: cap }] + ds,
                                ),
                                Result::Err(e) => Result::Err(e),
                            }
                        } else {
                            Result::Err(Diagnostic::MalformedDirectiveList)
                        }
                    },
                    Option::None => Result::Err(Diagnostic::UnknownCapability),
                },
                _ => Result::Err(Diagnostic::MalformedDirectiveList),
            }
        }
    }
}

fn parse_from(ts: &Vec<DirectiveToken>, start: usize) -> (r: Result<Vec<Directive>, Diagnostic>)
    requires
        start <= ts@.len(),
    ensures
        (match (r, parse_directives(ts@.skip(start as int))) {
            (Result::Ok(v), Result::Ok(ds)) => v@ == ds,
            (Result::Err(e1), Result::Err(e2)) => e1 == e2,
            _ => false,
        }),
    decreases ts@.len() - start,
{
    let ghost s = ts@.skip(start as int);
    if start == ts.len() {
        Result::Ok(Vec::new())
    } else {
        assert(s[0] == ts@[start as int]);
        let negated = matches!(&ts[start], DirectiveToken::Negation);
        let name_idx = if negated { start + 1 } else { start };
        let ghost rest = ts@.skip(name_idx as int);
        assert(rest =~= if s[0] is Negation { s.skip(1) } else { s });
        if name_idx == ts.len() {
            Result::Err(Diagnostic::MalformedDirectiveList)
        } else {
            assert(rest[0] == ts@[name_idx as int]);
            match &ts[name_idx] {
                DirectiveToken::Name(n) => {
                    match capability_for(n) {
                        Option::Some(cap) => {
                            let after = name_idx + 1;
                            let ghost a = ts@.skip(after as int);
                            assert(a =~= rest.skip(1));
                            if after == ts.len() {
                                let mut v: Vec<Directive> = Vec::new();
                                v.push(Directive { enabled: !negated, capability: cap });
                                assert(v@ =~= seq![Directive { enabled: !negated, capability: cap }]);
                                Result::Ok(v)
                            } else {
                                assert(a[0] == ts@[after as int]);
                                if matches!(&ts[after], DirectiveToken::Separator) {
                                    assert(ts@.skip(after as int + 1) =~= a.skip(1));
                                    match parse_from(ts, after + 1) {
                                        Result::Ok(ds) => {
                                            let mut v = ds;
                                            v.insert(0, Directive { enabled: !negated, capability: cap });
                                            assert(v@ =~= seq![Directive { enabled: !negated, capability: cap }] + ds@);
                                            Result::Ok(v)
                                        },
                                        Result::Err(e) => Result::Err(e),
                                    }
                                } else {
                                    Result::Err(Diagnostic::MalformedDirectiveList)
                                }
                            }
                        },
                        Option::None => Result::Err(Diagnostic::UnknownCapability),
                    }
                },
                _ => Result::Err(Diagnostic::MalformedDirectiveList),
            }
        }
    }
}

/// One directive overwrites exactly the field it names and no other.
pub open spec fn apply_directive(c: CapabilityConfig, d: Directive) -> CapabilityConfig {
    match d.capability {
        Capability::Transferable => CapabilityConfig { transferable: d.enabled, ..c },
        Capability::SharedAccess => CapabilityConfig { shared_access: d.enabled, ..c },
    }
}

/// Directives folded left to right onto `c`: a later directive for the
/// same capability overwrites an earlier one.
pub open spec fn fold_directives(c: CapabilityConfig, ds: Seq<Directive>) -> CapabilityConfig
    decreases ds.len(),
{
    if ds.len() == 0 {
        c
    } else {
        fold_directives(apply_directive(c, ds[0]), ds.skip(1))
    }
}

/// The configuration a lexed directive list resolves to under a given
/// build-time default: no directives leave both fields at the default.
pub open spec fn resolve_spec(ts: Seq<DirectiveToken>, default_enabled: bool) -> Result<
    CapabilityConfig,
    Diagnostic,
> {
    match parse_directives(ts) {
        Result::Ok(ds) => Result::Ok(fold_directives(default_config(default_enabled), ds)),
        Result::Err(e) => Result::Err(e),
    }
}

fn apply_directive_exec(c: CapabilityConfig, d: Directive) -> (r: CapabilityConfig)
    ensures
        r == apply_directive(c, d),
{
    match d.capability {
        Capability::Transferable => CapabilityConfig { transferable: d.enabled, ..c },
        Capability::SharedAccess => CapabilityConfig { shared_access: d.enabled, ..c },
    }
}

/// Law: the fold is last-write-wins — a directive appended to a list
/// lands on the folded configuration of the list before it, overwriting
/// the field it names.
pub proof fn lemma_directive_fold_last_write_wins(
    c: CapabilityConfig,
    ds: Seq<Directive>,
    d: Directive,
)
    ensures
        fold_directives(c, ds.push(d)) == apply_directive(fold_directives(c, ds), d),
    decreases ds.len(),
{
    if ds.len() == 0 {
        assert(ds.push(d)[0] == d);
        assert(ds.push(d).skip(1) =~= Seq::<Directive>::empty());
        assert(fold_directives(c, ds.push(d)) == fold_directives(
            apply_directive(c, d),
            Seq::<Directive>::empty(),
        ));
    } else {
        assert(ds.push(d)[0] == ds[0]);
        assert(ds.push(d).skip(1) =~= ds.skip(1).push(d));
        assert(fold_directives(c, ds.push(d)) == fold_directives(
            apply_directive(c, ds[0]),
            ds.skip(1).push(d),
        ));
        lemma_directive_fold_last_write_wins(apply_directive(c, ds[0]), ds.skip(1), d);
        assert(fold_directives(c, ds) == fold_directives(apply_directive(c, ds[0]), ds.skip(1)));
    }
}

/// Law: when two directives name the same capability, only the later one
/// counts; in particular folding a directive twice equals folding it
/// once, so the fold is idempotent per capability.
pub proof fn lemma_directive_fold_overwrites(c: CapabilityConfig, d1: Directive, d2: Directive)
    requires
        d1.capability == d2.capability,
    ensures
        fold_directives(c, seq![d1, d2]) == fold_directives(c, seq![d2]),
{
    assert(seq![d1, d2][0] == d1);
    assert(seq![d1, d2].skip(1) =~= seq![d2]);
    assert(seq![d2][0] == d2);
    assert(seq![d2].skip(1) =~= Seq::<Directive>::empty());
    assert(fold_directives(c, seq![d1, d2]) == fold_directives(apply_directive(c, d1), seq![d2]));
    assert(fold_directives(apply_directive(c, d1), seq![d2]) == fold_directives(
        apply_directive(apply_directive(c, d1), d2),
        Seq::<Directive>::empty(),
    ));
    assert(fold_directives(c, seq![d2]) == fold_directives(
        apply_directive(c, d2),
        Seq::<Directive>::empty(),
    ));
    assert(apply_directive(apply_directive(c, d1), d2) == apply_directive(c, d2));
}

/// The token spelling of one directive: the name alone to enable, the
/// negation marker before it to disable.
pub open spec fn directive_tokens(n: String, enabled: bool) -> Seq<DirectiveToken> {
    if enabled {
        seq![DirectiveToken::Name(n)]
    } else {
        seq![DirectiveToken::Negation, DirectiveToken::Name(n)]
    }
}

proof fn lemma_parse_single_directive(n: String, enabled: bool)
    requires
        capability_of_name(n@) is Some,
    ensures
        parse_directives(directive_tokens(n, enabled)) == Result::<Seq<Directive>, Diagnostic>::Ok(
            seq![Directive { enabled, capability: capability_of_name(n@).unwrap() }],
        ),
{
    let ts = directive_tokens(n, enabled);
    if enabled {
        assert(ts[0] == DirectiveToken::Name(n));
        assert(ts.skip(1).len() == 0);
    } else {
        assert(ts[0] == DirectiveToken::Negation);
        assert(ts.skip(1) =~= seq![DirectiveToken::Name(n)]);
        assert(ts.skip(1)[0] == DirectiveToken::Name(n));
        assert(ts.skip(1).skip(1).len() == 0);
    }
}

/// Law: the same holds of the token lists themselves — for any
/// recognized capability name, a list naming it twice resolves exactly
/// as the list holding only the later spelling, whatever the two signs
/// and whatever the default.
pub proof fn lemma_token_list_last_write_wins(n: String, e1: bool, e2: bool, default_enabled: bool)
    requires
        capability_of_name(n@) is Some,
    ensures
        resolve_spec(
            directive_tokens(n, e1) + seq![DirectiveToken::Separator] + directive_tokens(n, e2),
            default_enabled,
        ) == resolve_spec(directive_tokens(n, e2), default_enabled),
{
    let cap = capability_of_name(n@).unwrap();
    let d1 = Directive { enabled: e1, capability: cap };
    let d2 = Directive { enabled: e2, capability: cap };
    let first = directive_tokens(n, e1);
    let second = directive_tokens(n, e2);
    let ts = first + seq![DirectiveToken::Separator] + second;
    lemma_parse_single_directive(n, e2);
    // Walk the combined list: one directive, the separator, then the
    // second list verbatim.
    if e1 {
        assert(ts[0] == DirectiveToken::Name(n));
        assert(ts.skip(1)[0] == DirectiveToken::Separator);
        assert(ts.skip(1).skip(1) =~= second);
    } else {
        assert(ts[0] == DirectiveToken::Negation);
        assert(ts.skip(1)[0] == DirectiveToken::Name(n));
        assert(ts.skip(1).skip(1)[0] == DirectiveToken::Separator);
        assert(ts.skip(1).skip(1).skip(1) =~= second);
        assert(ts.skip(1)[0] matches DirectiveToken::Name(m) && capability_of_name(m@) is Some);
    }
    assert(parse_directives(ts) == Result::<Seq<Directive>, Diagnostic>::Ok(seq![d1] + seq![d2]));
    assert(seq![d1] + seq![d2] =~= seq![d1, d2]);
    lemma_directive_fold_overwrites(default_config(default_enabled), d1, d2);
}

/// Law: an empty directive list resolves to the build-time default, both
/// capabilities uniformly.
pub proof fn lemma_empty_directives_resolve(default_enabled: bool)
    ensures
        resolve_spec(Seq::empty(), default_enabled) == Result::<CapabilityConfig, Diagnostic>::Ok(
            default_config(default_enabled),
        ),
{
}

/// Law: a directive list opening with a name outside the recognized
/// capabilities resolves to an unknown-capability error, whatever the
/// default and whatever follows.
pub proof fn lemma_unknown_capability_rejected(ts: Seq<DirectiveToken>, default_enabled: bool)
    requires
        ts.len() > 0,
        ({
            let rest = if ts[0] is Negation { ts.skip(1) } else { ts };
            rest.len() > 0 && (rest[0] matches DirectiveToken::Name(n) && capability_of_name(n@)
                is None)
        }),
    ensures
        resolve_spec(ts, default_enabled) == Result::<CapabilityConfig, Diagnostic>::Err(
            Diagnostic::UnknownCapability,
        ),
{
}

/// Resolves a lexed directive list into the capability configuration it
/// selects, under the given build-time default.
pub fn resolve_config(tokens: &Vec<DirectiveToken>, default_enabled: bool) -> (r: Result<
    CapabilityConfig,
    Diagnostic,
>)
    ensures
        r == resolve_spec(tokens@, default_enabled),
{
    assert(tokens@.skip(0) =~= tokens@);
    match parse_from(tokens, 0) {
        Result::Ok(ds) => {
            let mut c = CapabilityConfig::from_default(default_enabled);
            let mut i: usize = 0;
            while i < ds.len()
                invariant
                    i <= ds@.len(),
                    c == fold_directives(default_config(default_enabled), ds@.take(i as int)),
                decreases ds@.len() - i,
            {
                proof {
                    assert(ds@.take(i as int + 1) =~= ds@.take(i as int).push(ds@[i as int]));
                    lemma_directive_fold_last_write_wins(
                        default_config(default_enabled),
                        ds@.take(i as int),
                        ds@[i as int],
                    );
                }
                c = apply_directive_exec(c, ds[i]);
                i = i + 1;
            }
            assert(ds@.take(ds@.len() as int) =~= ds@);
            Result::Ok(c)
        },
        Result::Err(e) => Result::Err(e),
    }
}

} // verus!
