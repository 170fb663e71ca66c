use vstd::prelude::*;

use crate::evaluate::Evaluate;

verus! {

/// What a lazily evaluated value holds: exactly one of a producer not yet
/// run, the marker of a run in progress, or the computed value.
pub enum Slot<E, V> {
    Unevaluated(E),
    Evaluating,
    Value(V),
}

/// A lazily evaluated value.
///
/// It starts either with a producer of type `E` or with a value of type `V`.
/// The first access runs the producer and stores what it returned; every
/// later access sees that stored value and runs nothing.
///
/// Every access that may run the producer takes `&mut self`, so a producer
/// can never reach the thunk it is being run for, and a thunk is never used
/// from two places at once.
pub struct Thunk<E, V> {
    slot: Slot<E, V>,
    runs: Ghost<nat>,
}

/// A lazily evaluated value produced by a boxed closure, so that thunks
/// built from different closures share one type.
pub type Lazy<T> = Thunk<Box<dyn FnOnce() -> T>, T>;

impl<E, V> View for Thunk<E, V> {
    type V = Slot<E, V>;

    closed spec fn view(&self) -> Slot<E, V> {
        self.slot
    }
}

impl<E, V> Thunk<E, V> {
    /// How many times the producer of this value has been run.
    pub closed spec fn evaluations(&self) -> nat {
        self.runs@
    }

    /// Well-formed: no run is in progress, a producer not yet run has never
    /// been run, and a stored value came from at most one run.
    pub open spec fn wf(&self) -> bool {
        match self@ {
            Slot::Unevaluated(_) => self.evaluations() == 0,
            Slot::Evaluating => false,
            Slot::Value(_) => self.evaluations() <= 1,
        }
    }
}

impl<E: Evaluate<V>, V> Thunk<E, V> {
    /// The producer, if it is still held, may be run.
    pub open spec fn ready(&self) -> bool {
        match self@ {
            Slot::Unevaluated(e) => e.evaluate_requires(),
            _ => true,
        }
    }

    /// `v` is a value that forcing `self` may store: a result of the held
    /// producer, or the value already stored.
    pub open spec fn yields(&self, v: V) -> bool {
        match self@ {
            Slot::Unevaluated(e) => e.evaluate_ensures(v),
            Slot::Evaluating => false,
            Slot::Value(w) => v == w,
        }
    }

    /// How many runs of the producer there have been once `self` is forced:
    /// one more if the producer is still held, else as many as now.
    pub open spec fn evaluations_when_forced(&self) -> nat {
        if self@ is Unevaluated {
            self.evaluations() + 1
        } else {
            self.evaluations()
        }
    }

    /// `after` is what forcing `self` leaves: a held producer has been run
    /// once and its result stored; a stored value stays as it was.
    pub open spec fn forces_to(&self, after: &Self) -> bool {
        &&& after@ is Value
        &&& self.yields(after@->Value_0)
        &&& after.evaluations() == self.evaluations_when_forced()
    }

    /// Create a lazily evaluated value from a producer. Nothing is run.
    pub fn new(e: E) -> (r: Thunk<E, V>)
        ensures
            r@ == Slot::<E, V>::Unevaluated(e),
            r.evaluations() == 0,
            r.wf(),
    {
        Thunk { slot: Slot::Unevaluated(e), runs: Ghost(0) }
    }

    /// Create an already evaluated value. No producer is ever held.
    pub fn evaluated(v: V) -> (r: Thunk<E, V>)
        ensures
            r@ == Slot::<E, V>::Value(v),
            r.evaluations() == 0,
            r.wf(),
    {
        Thunk { slot: Slot::Value(v), runs: Ghost(0) }
    }

    /// Whether the value has been computed (or was given at creation).
    pub fn is_evaluated(&self) -> (r: bool)
        ensures
            r == (self@ is Value),
    {
        match &self.slot {
            Slot::Value(_) => true,
            _ => false,
        }
    }

    /// Force evaluation: run the producer if it has not run yet, and store
    /// its result. Forcing an evaluated value does nothing.
    ///
    /// The producer is taken out and the in-progress marker put in its place
    /// in one step before it runs. If the producer fails, the marker stays: the
    /// thunk is no longer well-formed, and forcing it again stops the program
    /// rather than running anything a second time.
    pub fn force(&mut self)
        requires
            old(self).wf(),
            old(self).ready(),
        ensures
            old(self).forces_to(final(self)),
            final(self).wf(),
    {
        match &self.slot {
            Slot::Value(_) => return,
            Slot::Evaluating => unreached(),
            Slot::Unevaluated(_) => {},
        }
        let mut taken: Slot<E, V> = Slot::Evaluating;
        std::mem::swap(&mut self.slot, &mut taken);
        match taken {
            Slot::Unevaluated(e) => {
                let v = e.evaluate();
                self.slot = Slot::Value(v);
                self.runs = Ghost(self.runs@ + 1);
            },
            _ => unreached(),
        }
    }

    /// Force evaluation, then borrow the stored value.
    pub fn get(&mut self) -> (r: &V)
        requires
            old(self).wf(),
            old(self).ready(),
        ensures
            old(self).forces_to(final(self)),
            final(self)@ == Slot::<E, V>::Value(*r),
            final(self).wf(),
    {
        self.force();
        match &self.slot {
            Slot::Value(v) => v,
            _ => unreached(),
        }
    }

    /// Force evaluation, then borrow the stored value mutably, so that it can
    /// be changed in place without running anything again.
    pub fn get_mut(&mut self) -> (r: &mut V)
        requires
            old(self).wf(),
            old(self).ready(),
        ensures
            old(self).yields(*r),
            final(self)@ == Slot::<E, V>::Value(*final(r)),
            final(self).evaluations() == old(self).evaluations_when_forced(),
            final(self).wf(),
    {
        self.force();
        match &mut self.slot {
            Slot::Value(v) => v,
            _ => unreached(),
        }
    }

    /// Force evaluation and take the value, consuming the thunk.
    pub fn unwrap(self) -> (r: V)
        requires
            self.wf(),
            self.ready(),
        ensures
            self.yields(r),
    {
        let mut t = self;
        t.force();
        match t.slot {
            Slot::Value(v) => v,
            _ => unreached(),
        }
    }
}

} // verus!
