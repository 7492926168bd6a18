//! How an operation that needs the virtual machine is driven.

use vstd::prelude::*;

verus! {

/// What an operation decides before the virtual machine is called: either
/// it is done and has its result, or the call is to be made with what it
/// prepared.
#[derive(Debug, PartialEq, Eq)]
pub enum Step<A, R> {
    /// The operation is done, with this result.
    Done(R),
    /// The virtual machine is to be called with these arguments.
    Call(A),
}

} // verus!
