//! What a flow wants next.

use vstd::prelude::*;

verus! {

/// What a flow answers to a reply: the next request to carry out, or how the flow has ended.
///
/// A flow answers nothing, and stays as it is, where the reply is none that it waits for.
#[derive(Debug, PartialEq, Eq)]
pub enum Progress<Q, T, X> {
    Ask(Q),
    Finish(Result<T, X>),
}

} // verus!
