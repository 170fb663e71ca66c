//! What holds of a thunk across several accesses.
use vstd::prelude::*;

use crate::evaluate::Evaluate;
use crate::thunk::{Slot, Thunk};

verus! {

/// Forcing a thunk any number of times, once or more, runs its producer
/// exactly once if it still held one, and leaves it in one and the same
/// state after every force.
pub proof fn lemma_force_repeatedly<E: Evaluate<V>, V>(states: Seq<Thunk<E, V>>)
    requires
        states.len() >= 2,
        states[0].wf(),
        forall|i: int| 0 <= i < states.len() - 1 ==> #[trigger] states[i].forces_to(&states[i + 1]),
    ensures
        forall|i: int|
            1 <= i < states.len() ==> {
                &&& (#[trigger] states[i])@ == states[1]@
                &&& states[i].evaluations() == states[0].evaluations_when_forced()
            },
        states[0]@ is Unevaluated ==> forall|i: int|
            1 <= i < states.len() ==> (#[trigger] states[i]).evaluations() == 1,
    decreases states.len(),
{
    let n = states.len();
    assert(states[0].forces_to(&states[0int + 1]));
    if n > 2 {
        let prefix = states.take(n - 1);
        assert forall|i: int| 0 <= i < prefix.len() - 1 implies #[trigger] prefix[i].forces_to(
            &prefix[i + 1],
        ) by {
            assert(states[i].forces_to(&states[i + 1]));
        }
        lemma_force_repeatedly(prefix);
        let k = n - 2;
        assert(prefix[k] == states[k]);
        assert(states[k].forces_to(&states[k + 1]));
        assert forall|i: int| 1 <= i < n implies {
            &&& (#[trigger] states[i])@ == states[1]@
            &&& states[i].evaluations() == states[0].evaluations_when_forced()
        } by {
            if i < n - 1 {
                assert(prefix[i] == states[i]);
            }
        }
    }
}

/// Reading a thunk twice gives the same value both times, and the second
/// read runs nothing.
pub proof fn lemma_reads_agree<E: Evaluate<V>, V>(
    t0: Thunk<E, V>,
    t1: Thunk<E, V>,
    t2: Thunk<E, V>,
    r1: V,
    r2: V,
)
    requires
        t0.forces_to(&t1),
        t1@ == Slot::<E, V>::Value(r1),
        t1.forces_to(&t2),
        t2@ == Slot::<E, V>::Value(r2),
    ensures
        r1 == r2,
        t2.evaluations() == t1.evaluations(),
{
}

/// A thunk made from a value keeps that value and never runs a producer,
/// however often it is forced.
pub proof fn lemma_evaluated_never_runs<E: Evaluate<V>, V>(v: V, states: Seq<Thunk<E, V>>)
    requires
        states.len() >= 1,
        states[0]@ == Slot::<E, V>::Value(v),
        states[0].evaluations() == 0,
        forall|i: int| 0 <= i < states.len() - 1 ==> #[trigger] states[i].forces_to(&states[i + 1]),
    ensures
        forall|i: int|
            0 <= i < states.len() ==> {
                &&& (#[trigger] states[i])@ == Slot::<E, V>::Value(v)
                &&& states[i].evaluations() == 0
            },
{
    if states.len() >= 2 {
        assert(states[0].forces_to(&states[0int + 1]));
        lemma_force_repeatedly(states);
    }
}

} // verus!
