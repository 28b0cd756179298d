use vstd::prelude::*;

verus! {

/// Delayed tasks that can be scheduled.
#[derive(Debug, Copy, Clone, PartialEq, Eq, Structural)]
pub enum TaskId {
    PrepareSuspend,
    Suspend,
}

} // verus!
