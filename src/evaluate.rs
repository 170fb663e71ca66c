use vstd::prelude::*;

verus! {

/// Something that yields a `T` by consuming itself: the producer of a
/// lazily evaluated value.
///
/// Closures with no arguments are producers. A small data type can be one
/// too, so that many lazy values computed by the same function store only
/// their input rather than a whole closure each.
pub trait Evaluate<T>: Sized {
    /// When the producer may be run.
    spec fn evaluate_requires(&self) -> bool;

    /// What a run of the producer may return.
    spec fn evaluate_ensures(&self, out: T) -> bool;

    /// Run the producer, consuming it.
    fn evaluate(self) -> (out: T)
        requires
            self.evaluate_requires(),
        ensures
            self.evaluate_ensures(out),
    ;
}

impl<T, F: FnOnce() -> T> Evaluate<T> for F {
    open spec fn evaluate_requires(&self) -> bool {
        call_requires(*self, ())
    }

    open spec fn evaluate_ensures(&self, out: T) -> bool {
        call_ensures(*self, (), out)
    }

    fn evaluate(self) -> (out: T) {
        self()
    }
}

/// A closure's producer conditions are its own precondition and
/// postcondition. Verified code that hands a closure to a thunk calls this
/// first, to learn what forcing the thunk needs and what it stores.
pub proof fn lemma_closure_evaluate<T, F: FnOnce() -> T>(f: F)
    ensures
        f.evaluate_requires() == call_requires(f, ()),
        forall|out: T| #[trigger] f.evaluate_ensures(out) <==> call_ensures(f, (), out),
{
}

} // verus!
