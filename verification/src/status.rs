use vstd::prelude::*;

verus! {

/// Tri-state outcome of ticking a node.
///
/// `Running` means "not finished, call again"; `Success` and `Failure` are
/// terminal for the current logical operation of the node that returns them.
#[derive(Clone, Copy, Debug, PartialEq, Eq, Structural)]
pub enum Status {
    Success,
    Failure,
    Running,
}

} // verus!
