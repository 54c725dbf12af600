use vstd::prelude::*;

verus! {

/// The handling of a command: it computes the record that answers it, or the
/// text of the reason why there is none.
pub trait CanComputeCommand<CMD, R> {
    /// Whether `outcome` is an answer that the handler may give to `cmd`.
    spec fn handles(&self, cmd: CMD, outcome: Result<R, String>) -> bool;

    fn compute_cmd(&self, cmd: &CMD) -> (r: Result<R, String>)
        ensures
            self.handles(*cmd, r),
    ;
}

} // verus!
