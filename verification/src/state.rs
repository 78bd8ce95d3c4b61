//! Contract state and the environment a message executes in.
use vstd::prelude::*;

verus! {

/// The state of a contract.
///
/// A contract changes its state in memory while a message runs. Flushing the
/// state persists the pending changes.
pub trait ContractState: Sized {
    /// The state once its pending changes are persisted.
    ///
    /// Verified implementations define it; implementations outside the
    /// verifier's view may leave it as it is.
    open spec fn flushed(self) -> Self {
        arbitrary()
    }

    /// Persists the pending changes of the state.
    fn flush(&mut self)
        ensures
            *final(self) == old(self).flushed(),
    ;
}

/// The environment a message handler runs in.
///
/// Read-only handlers receive it by shared reference, mutable handlers by
/// exclusive reference.
pub struct ExecutionEnv<State> {
    /// The state of the contract that is being called.
    pub state: State,
}

impl<State: ContractState> ExecutionEnv<State> {
    /// The environment once the pending changes of its state are persisted.
    pub open spec fn flushed(self) -> Self {
        ExecutionEnv { state: self.state.flushed() }
    }
}

} // verus!
