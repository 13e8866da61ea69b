//! Channel layer of an SSH client: multiplexed, flow-controlled data streams
//! (exec, shell, file transfer) over one authenticated transport.
//!
//! The transport itself (sockets, crypto, authentication) stays outside: the
//! layer talks to it only through [`connection::Connection`], a value model of
//! the shared handle that records every frame written and hands out scripted
//! batches of inbound frames.

pub mod channel;
pub mod channel_exec;
pub mod channel_scp;
pub mod channel_shell;
pub mod codec;
pub mod connection;
pub mod error;
pub mod msg;
pub mod wire;
