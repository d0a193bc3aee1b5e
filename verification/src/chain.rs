//! The deref-chain resolver: produces the sequence of types reached by
//! successively applying one indirection-removal step, terminating at a
//! fixed point, with a step bound as a guard against cyclic type
//! definitions.

use vstd::prelude::*;

use crate::types::MAX_DEREF_STEPS;
use crate::types::Type;
use crate::types::deref_chain;
use crate::types::deref_target;
use crate::types::lemma_chain_step;
use crate::types::resolved_chain;

verus! {

/// Resolve the chain of indirection-removal steps from `t`, iteratively and
/// bounded by `MAX_DEREF_STEPS`. Element `i` is the type reached after
/// `i + 1` unwraps; the input itself is not an element. The result is empty
/// exactly when `t` has no indirection.
pub fn resolve_deref_chain<'a>(t: &'a Type) -> (r: Vec<&'a Type>)
    ensures
        r@.len() == resolved_chain(*t).len(),
        forall|i: int| 0 <= i < r@.len() ==> *(#[trigger] r@[i]) == resolved_chain(*t)[i],
{
    let mut out: Vec<&'a Type> = Vec::new();
    let mut cur: &'a Type = t;
    loop
        invariant
            out@.len() <= MAX_DEREF_STEPS,
            out@.len() <= deref_chain(*t).len(),
            deref_chain(*cur) == deref_chain(*t).skip(out@.len() as int),
            forall|i: int| 0 <= i < out@.len() ==> *(#[trigger] out@[i]) == deref_chain(*t)[i],
        ensures
            out@.len() == MAX_DEREF_STEPS || out@.len() == deref_chain(*t).len(),
        decreases deref_chain(*cur).len(),
    {
        if out.len() >= MAX_DEREF_STEPS {
            break;
        }
        proof {
            lemma_chain_step(*cur);
        }
        match cur {
            Type::Reference(inner) => {
                let next: &'a Type = &**inner;
                proof {
                    assert(deref_target(*cur) == Some(*next));
                    assert(deref_chain(*cur) == seq![*next] + deref_chain(*next));
                    assert((seq![*next] + deref_chain(*next)).skip(1) =~= deref_chain(*next));
                    assert(deref_chain(*t).skip(out@.len() as int).skip(1)
                        =~= deref_chain(*t).skip(out@.len() as int + 1));
                    assert(deref_chain(*cur)[0] == *next);
                    assert(deref_chain(*t).skip(out@.len() as int)[0]
                        == deref_chain(*t)[out@.len() as int]);
                    assert(deref_chain(*t)[out@.len() as int] == *next);
                }
                out.push(next);
                cur = next;
            },
            Type::Indirect(inner) => {
                let next: &'a Type = &**inner;
                proof {
                    assert(deref_target(*cur) == Some(*next));
                    assert(deref_chain(*cur) == seq![*next] + deref_chain(*next));
                    assert((seq![*next] + deref_chain(*next)).skip(1) =~= deref_chain(*next));
                    assert(deref_chain(*t).skip(out@.len() as int).skip(1)
                        =~= deref_chain(*t).skip(out@.len() as int + 1));
                    assert(deref_chain(*cur)[0] == *next);
                    assert(deref_chain(*t).skip(out@.len() as int)[0]
                        == deref_chain(*t)[out@.len() as int]);
                    assert(deref_chain(*t)[out@.len() as int] == *next);
                }
                out.push(next);
                cur = next;
            },
            _ => {
                proof {
                    assert(deref_chain(*cur).len() == 0);
                }
                break;
            },
        }
    }
    proof {
        if out@.len() == deref_chain(*t).len() && deref_chain(*t).len() <= MAX_DEREF_STEPS {
            assert(resolved_chain(*t) == deref_chain(*t));
        } else {
            assert(resolved_chain(*t) == deref_chain(*t).take(MAX_DEREF_STEPS as int));
        }
    }
    out
}

} // verus!
