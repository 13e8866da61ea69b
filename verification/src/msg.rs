//! SSH channel-layer message codes and SCP protocol tokens.

use vstd::prelude::*;

verus! {

/// Message code of a channel-data frame.
pub const SSH_MSG_CHANNEL_DATA: u8 = 94;

/// Message code of a channel-close frame.
pub const SSH_MSG_CHANNEL_CLOSE: u8 = 97;

/// Message code of a channel-request frame (used for `exec`).
pub const SSH_MSG_CHANNEL_REQUEST: u8 = 98;

/// The single-byte SCP acknowledgment / end-of-line token.
pub const SCP_END: u8 = 0;

} // verus!
