//! The coercion detector: the per-expression decision rule. It composes the
//! classifier and the chain resolver over an expression's declared and
//! adjusted types and decides whether to report, and with which suggested
//! rewrite.

use vstd::prelude::*;

use crate::chain::resolve_deref_chain;
use crate::classifier::is_capability_any_type;
use crate::types::Type;
use crate::types::is_any_capability_type;
use crate::types::resolved_chain;

verus! {

/// A source location: a half-open byte range into the analyzed source text.
#[derive(Clone, Copy, PartialEq, Eq, Structural, Debug)]
pub struct Span {
    pub lo: usize,
    pub hi: usize,
}

/// The syntactic shape of an expression, as far as the analyzer needs it:
/// an explicit address-of node (carrying the span of its referent), or
/// anything else.
#[derive(Clone, Copy, PartialEq, Eq, Structural, Debug)]
pub enum ExprShape {
    AddressOf(Span),
    Other,
}

/// The view of one typed expression node that the host traversal hands the
/// analyzer: its type before any implicit conversion (`declared_type`), its
/// type after all conversions the type checker inserted (`adjusted_type`),
/// enough syntax to tell address-of nodes apart, and its source span.
pub struct TypedExpression {
    pub declared_type: Type,
    pub adjusted_type: Type,
    pub shape: ExprShape,
    pub span: Span,
}

/// A positive decision: where to report, which sub-span of source text the
/// suggested rewrite wraps, and how many dereference operators it prepends.
#[derive(Clone, Copy, PartialEq, Eq, Structural, Debug)]
pub struct Finding {
    /// The whole expression's span: where the diagnostic points.
    pub span: Span,
    /// The sub-span whose verbatim source text the suggestion wraps.
    pub snippet_span: Span,
    /// How many dereference operators the suggestion prepends.
    pub deref_count: usize,
}

/// The referent of the declared type, when that type is a reference.
pub open spec fn declared_referent(e: TypedExpression) -> Type
    recommends
        e.declared_type is Reference,
{
    match e.declared_type {
        Type::Reference(inner) => *inner,
        _ => e.declared_type,
    }
}

/// The decision rule: a diagnostic is emitted for `e` exactly when
/// - the adjusted type is a reference to the any-capability type,
/// - the declared type is a reference to something that is *not* the
///   any-capability type (so the reference only reached that type through an
///   implicit conversion), and
/// - unwrapping the declared referent's indirections lands on a type that
///   *is* the any-capability type.
pub open spec fn detects(e: TypedExpression, any_id: u64) -> bool {
    match (e.adjusted_type, e.declared_type) {
        (Type::Reference(ar), Type::Reference(dr)) => {
            &&& is_any_capability_type(*ar, any_id)
            &&& !is_any_capability_type(*dr, any_id)
            &&& resolved_chain(*dr).len() > 0
            &&& is_any_capability_type(resolved_chain(*dr).last(), any_id)
        },
        _ => false,
    }
}

/// The sub-span the suggested rewrite wraps: the referent of an explicit
/// address-of (whose own `&` already supplies one reference layer), else the
/// whole expression.
pub open spec fn suggested_snippet_span(e: TypedExpression) -> Span {
    match e.shape {
        ExprShape::AddressOf(s) => s,
        ExprShape::Other => e.span,
    }
}

/// How many dereference operators the suggested rewrite prepends: one per
/// unwrap step of the declared referent's chain when the expression is an
/// explicit address-of, and one more otherwise (to reach a genuine reference
/// rather than a value).
pub open spec fn suggested_deref_count(e: TypedExpression) -> int {
    let k = resolved_chain(declared_referent(e)).len() as int;
    match e.shape {
        ExprShape::AddressOf(_) => k,
        ExprShape::Other => k + 1,
    }
}

/// Check one expression. Returns a finding exactly when the decision rule
/// `detects` holds; every guard that fails means "no finding", never an
/// error. The finding points at the whole expression and carries the
/// suggested rewrite's sub-span and dereference count.
pub fn check(e: &TypedExpression, any_id: u64) -> (r: Option<Finding>)
    ensures
        r is Some <==> detects(*e, any_id),
        r matches Some(f) ==> {
            &&& f.span == e.span
            &&& f.snippet_span == suggested_snippet_span(*e)
            &&& f.deref_count == suggested_deref_count(*e)
        },
{
    let adjusted_referent: &Type = match &e.adjusted_type {
        Type::Reference(inner) => &**inner,
        _ => {
            return None;
        },
    };
    if !is_capability_any_type(adjusted_referent, any_id) {
        return None;
    }
    let dr: &Type = match &e.declared_type {
        Type::Reference(inner) => &**inner,
        _ => {
            return None;
        },
    };
    if is_capability_any_type(dr, any_id) {
        return None;
    }
    let chain = resolve_deref_chain(dr);
    if chain.len() == 0 {
        return None;
    }
    let target: &Type = chain[chain.len() - 1];
    if !is_capability_any_type(target, any_id) {
        return None;
    }
    let k = chain.len();
    let (snippet_span, deref_count) = match e.shape {
        ExprShape::AddressOf(s) => (s, k),
        ExprShape::Other => (e.span, k + 1),
    };
    Some(Finding { span: e.span, snippet_span, deref_count })
}

/// If the declared referent unwraps through exactly `k` indirection steps,
/// the suggested prefix count is `k` when the expression is an explicit
/// address-of (its own `&` already supplies one reference layer), and
/// `k + 1` otherwise.
pub proof fn lemma_suggested_deref_count(e: TypedExpression, k: int)
    requires
        resolved_chain(declared_referent(e)).len() == k,
    ensures
        e.shape matches ExprShape::AddressOf(_) ==> suggested_deref_count(e) == k,
        e.shape is Other ==> suggested_deref_count(e) == k + 1,
{
}

/// If no conversion happened at all (the declared and adjusted types are the
/// same), the decision rule never fires, whatever the capability status of
/// either type: the reference already is its effective type, so there is no
/// implicit conversion to report.
pub proof fn lemma_no_conversion_never_detected(e: TypedExpression, any_id: u64)
    requires
        e.declared_type == e.adjusted_type,
    ensures
        !detects(e, any_id),
{
}

} // verus!
