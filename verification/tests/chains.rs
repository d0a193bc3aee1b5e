use any_ref_coercion::chain::resolve_deref_chain;
use any_ref_coercion::types::{Capability, Type, MAX_DEREF_STEPS};

fn dyn_any() -> Type {
    Type::Dynamic(vec![Capability { id: 7, has_bound_vars: false }])
}

fn has_deref_target(t: &Type) -> bool {
    matches!(t, Type::Reference(_) | Type::Indirect(_))
}

#[test]
fn chain_of_concrete_is_empty() {
    let t = Type::Concrete(1);
    assert!(resolve_deref_chain(&t).is_empty());
}

#[test]
fn chain_of_dynamic_is_empty() {
    let t = dyn_any();
    assert!(resolve_deref_chain(&t).is_empty());
}

#[test]
fn chain_unwraps_reference_then_indirection() {
    let t = Type::Reference(Box::new(Type::Indirect(Box::new(dyn_any()))));
    let chain = resolve_deref_chain(&t);
    assert_eq!(chain.len(), 2);
    assert!(matches!(chain[0], Type::Indirect(_)));
    assert!(matches!(chain[1], Type::Dynamic(_)));
}

#[test]
fn chain_last_element_is_a_fixed_point() {
    // The last element of every non-empty chain admits no further
    // indirection-removal step.
    let deep = Type::Reference(Box::new(Type::Indirect(Box::new(Type::Reference(
        Box::new(Type::Concrete(9)),
    )))));
    let chain = resolve_deref_chain(&deep);
    assert_eq!(chain.len(), 3);
    for (i, t) in chain.iter().enumerate() {
        if i + 1 < chain.len() {
            assert!(has_deref_target(t));
        } else {
            assert!(!has_deref_target(t));
        }
    }
}

#[test]
fn chain_is_cut_off_at_the_step_bound() {
    let mut t = Type::Concrete(0);
    for _ in 0..(MAX_DEREF_STEPS * 2) {
        t = Type::Indirect(Box::new(t));
    }
    let chain = resolve_deref_chain(&t);
    assert_eq!(chain.len(), MAX_DEREF_STEPS);
    // Every element of the truncated chain still has a further step: the
    // fixed point was never reached within the bound.
    assert!(chain.iter().all(|u| has_deref_target(u)));
}
