//! The model of the ambient type environment: the shapes of types the
//! analyzer distinguishes, the capability-set classifier's mathematical
//! definition, and the chain of indirection-removal steps.

use vstd::prelude::*;

verus! {

/// One capability predicate attached to a dynamic-object type: the
/// identifier of the capability it names, and whether the predicate
/// quantifies over bound variables (a quantified predicate is conservatively
/// treated as not matching the distinguished capability).
#[derive(Clone, Copy, PartialEq, Eq, Structural, Debug)]
pub struct Capability {
    pub id: u64,
    pub has_bound_vars: bool,
}

/// A type of the analyzed program, reduced to the shapes the analyzer
/// inspects.
pub enum Type {
    /// A reference to the inner type.
    Reference(Box<Type>),
    /// A smart-indirection container that transparently dereferences to the
    /// inner type.
    Indirect(Box<Type>),
    /// A dynamic (runtime-polymorphic) object known only by its capability
    /// set.
    Dynamic(Vec<Capability>),
    /// Any other concrete type, identified opaquely; it has no indirection.
    Concrete(u64),
}

/// Whether `t` is a dynamic-object type whose capability set contains the
/// distinguished capability `any_id` as a predicate with no bound variables.
pub open spec fn is_any_capability_type(t: Type, any_id: u64) -> bool {
    match t {
        Type::Dynamic(caps) => exists|i: int|
            #![trigger caps@[i]]
            0 <= i < caps@.len() && caps@[i].id == any_id && !caps@[i].has_bound_vars,
        _ => false,
    }
}

/// One indirection-removal step: the type `t` behaves as a handle to, if any.
pub open spec fn deref_target(t: Type) -> Option<Type> {
    match t {
        Type::Reference(inner) => Some(*inner),
        Type::Indirect(inner) => Some(*inner),
        _ => None,
    }
}

/// The full chain of indirection-removal steps from `t`: the types reached
/// after one, two, ... unwraps, ending at the first type with no further
/// indirection (the fixed point). The input itself is not an element.
/// Empty exactly when `t` has no indirection at all.
pub open spec fn deref_chain(t: Type) -> Seq<Type>
    decreases t,
{
    match t {
        Type::Reference(inner) => seq![*inner] + deref_chain(*inner),
        Type::Indirect(inner) => seq![*inner] + deref_chain(*inner),
        _ => Seq::empty(),
    }
}

/// The chain resolver bounds its total steps as a guard against cyclic type
/// definitions; past this many unwraps it treats the chain as terminated.
pub const MAX_DEREF_STEPS: usize = 64;

/// What the chain resolver actually produces: the deref chain, cut off at
/// the step bound.
pub open spec fn resolved_chain(t: Type) -> Seq<Type> {
    if deref_chain(t).len() <= MAX_DEREF_STEPS {
        deref_chain(t)
    } else {
        deref_chain(t).take(MAX_DEREF_STEPS as int)
    }
}

/// Unfolding of `deref_chain` through `deref_target`: one step of the chain.
pub proof fn lemma_chain_step(t: Type)
    ensures
        match deref_target(t) {
            Some(u) => deref_chain(t) == seq![u] + deref_chain(u),
            None => deref_chain(t) == Seq::<Type>::empty(),
        },
{
    match t {
        Type::Reference(inner) => {
            assert(deref_chain(t) == seq![*inner] + deref_chain(*inner));
        },
        Type::Indirect(inner) => {
            assert(deref_chain(t) == seq![*inner] + deref_chain(*inner));
        },
        _ => {},
    }
}

/// A type that is not a dynamic-object type never classifies as the
/// universal any-capability type.
pub proof fn lemma_non_dynamic_never_any(t: Type, any_id: u64)
    requires
        !(t is Dynamic),
    ensures
        !is_any_capability_type(t, any_id),
{
}

/// A dynamic-object type whose capability set contains the distinguished
/// capability with no bound variables classifies as the any-capability type.
pub proof fn lemma_unbound_marker_is_any(caps: Vec<Capability>, any_id: u64)
    requires
        exists|i: int|
            #![trigger caps@[i]]
            0 <= i < caps@.len() && caps@[i].id == any_id && !caps@[i].has_bound_vars,
    ensures
        is_any_capability_type(Type::Dynamic(caps), any_id),
{
    let i = choose|i: int|
        #![trigger caps@[i]]
        0 <= i < caps@.len() && caps@[i].id == any_id && !caps@[i].has_bound_vars;
    let t = Type::Dynamic(caps);
    assert(0 <= i < t->Dynamic_0@.len() && t->Dynamic_0@[i].id == any_id
        && !t->Dynamic_0@[i].has_bound_vars);
}

/// If every occurrence of the distinguished capability in the set carries
/// bound variables, the type does not classify as the any-capability type.
pub proof fn lemma_bound_marker_not_any(caps: Vec<Capability>, any_id: u64)
    requires
        forall|i: int|
            #![trigger caps@[i]]
            0 <= i < caps@.len() && caps@[i].id == any_id ==> caps@[i].has_bound_vars,
    ensures
        !is_any_capability_type(Type::Dynamic(caps), any_id),
{
}

/// The deref chain is a finite sequence; it is empty exactly when the input
/// has no indirection; consecutive elements are one indirection-removal
/// apart; and its last element is a fixed point: one more removal step
/// yields nothing.
pub proof fn lemma_deref_chain_fixed_point(t: Type)
    ensures
        deref_chain(t).len() == 0 <==> deref_target(t) is None,
        deref_target(t) matches Some(u) ==> deref_chain(t)[0] == u,
        forall|i: int| 0 <= i < deref_chain(t).len() - 1
            ==> deref_target(#[trigger] deref_chain(t)[i]) == Some(deref_chain(t)[i + 1]),
        deref_chain(t).len() > 0 ==> deref_target(deref_chain(t).last()) is None,
    decreases t,
{
    match t {
        Type::Reference(inner) => {
            lemma_deref_chain_fixed_point(*inner);
            assert(deref_chain(t) == seq![*inner] + deref_chain(*inner));
        },
        Type::Indirect(inner) => {
            lemma_deref_chain_fixed_point(*inner);
            assert(deref_chain(t) == seq![*inner] + deref_chain(*inner));
        },
        _ => {},
    }
}

} // verus!
