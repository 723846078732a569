use vstd::prelude::*;

verus! {

/// Marks computations without effects.
pub trait IPure {

}

/// A computation whose state is owned outright.
pub struct Deterministic<TState> {
    pub state: TState,
}

} // verus!
