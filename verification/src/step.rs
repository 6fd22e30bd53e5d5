//! How an operation goes on once its arguments were looked at.
use vstd::prelude::*;

verus! {

/// An operation either has its answer at once, or asks the mesh core something first.
pub enum Step<C, T> {
    /// Make this call on the mesh core; the operation's reply function turns what comes back into
    /// the answer.
    Ask(C),
    /// The answer; the mesh core is not involved.
    Answer(T),
}

} // verus!
