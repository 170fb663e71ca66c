//! Single-threaded lazy evaluation.
//!
//! A [`Thunk`] defers a computation until its result is first needed,
//! runs it at most once, and keeps the result for every later access.
mod evaluate;
mod thunk;
pub mod laws;

pub use evaluate::{lemma_closure_evaluate, Evaluate};
pub use thunk::{Lazy, Slot, Thunk};
