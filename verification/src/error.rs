//! The three families of failure that a run can end in.

use vstd::prelude::*;

verus! {

/// The family of a failure.
#[derive(Debug, Clone, Copy, PartialEq, Eq, Structural)]
pub enum ErrorKind {
    /// What was asked for cannot be done: a missing file, a board over the ceiling, an
    /// address that names no board, nothing left to make a set of.
    Validation,
    /// The tagging service, the platform or the board fetcher failed or answered with
    /// something that cannot be read.
    ExternalService,
    /// The local file system failed.
    Io,
}

} // verus!
