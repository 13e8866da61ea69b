//! Error taxonomy of the channel layer.

use vstd::prelude::*;

verus! {

/// Failures surfaced by the channel layer.
#[derive(Clone, Copy, Debug, PartialEq, Eq, Structural)]
pub enum SshError {
    /// The connection handle failed on a write or read; always fatal to the
    /// in-progress operation.
    Transport,
    /// A local filesystem path could not be represented as valid text;
    /// detected before any network activity.
    InvalidPath,
    /// A payload was larger than the peer's remaining flow-control window, and
    /// no window replenishment was available.
    WindowExceeded,
}

pub type SshResult<T> = Result<T, SshError>;

} // verus!
