use vstd::prelude::*;

verus! {

/// Why talking to a remote host over the session's transport failed.
#[derive(Clone, Debug, PartialEq, Eq)]
pub enum TransportError {
    /// The remote side did not answer in time.
    TimedOut,
    /// Any other failure, with its description.
    Other(String),
}

} // verus!
