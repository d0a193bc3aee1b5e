//! The capability-type classifier: decides whether a type denotes the
//! universal any-capability dynamic type.

use vstd::prelude::*;

use crate::types::Capability;
use crate::types::Type;
use crate::types::is_any_capability_type;

verus! {

/// Whether `t` is a dynamic-object type whose capability set contains the
/// distinguished capability `any_id` with no bound variables. `any_id` is
/// the configured identifier of the universal introspection capability,
/// supplied by whoever instantiates the analyzer. Absence of a match is a
/// normal `false`, never a failure.
pub fn is_capability_any_type(t: &Type, any_id: u64) -> (r: bool)
    ensures
        r == is_any_capability_type(*t, any_id),
{
    match t {
        Type::Dynamic(caps) => {
            let n = caps.len();
            let mut j: usize = 0;
            while j < n
                invariant
                    *t == Type::Dynamic(*caps),
                    n == caps@.len(),
                    j <= n,
                    forall|i: int|
                        #![trigger caps@[i]]
                        0 <= i < j ==> !(caps@[i].id == any_id && !caps@[i].has_bound_vars),
                decreases n - j,
            {
                let c: Capability = caps[j];
                if c.id == any_id && !c.has_bound_vars {
                    proof {
                        let d = (*t)->Dynamic_0;
                        assert(d == *caps);
                        assert(0 <= j < d@.len() && d@[j as int].id == any_id
                            && !d@[j as int].has_bound_vars);
                    }
                    return true;
                }
                j += 1;
            }
            proof {
                let d = (*t)->Dynamic_0;
                assert(d == *caps);
                assert(forall|i: int|
                    #![trigger d@[i]]
                    0 <= i < d@.len() ==> !(d@[i].id == any_id && !d@[i].has_bound_vars));
            }
            false
        },
        _ => false,
    }
}

} // verus!
