//! Shell channel: an open-ended, interactive byte-stream duplex over one
//! channel, usable repeatedly until explicitly closed. No command is
//! pre-sent; the remote shell is assumed started by the connection-level open
//! handshake, which lives outside this crate.

use vstd::prelude::*;

use crate::channel::Channel;
use crate::error::{SshError, SshResult};
use crate::wire::{batch_collect, batch_others, batch_saw_close, close_frame, data_frame};

verus! {

/// Interactive byte transport over a channel.
pub struct ChannelShell(pub Channel);

impl ChannelShell {
    /// Wraps an open channel as an interactive stream.
    pub fn new(channel: Channel) -> (r: ChannelShell)
        ensures
            r.0 == channel,
    {
        ChannelShell(channel)
    }

    /// One poll: dispatches the next batch of inbound frames and returns the
    /// data that batch carried for this channel, possibly empty if only
    /// control frames arrived. Does not wait for non-empty output; callers
    /// that need output call again.
    pub fn read(&mut self) -> (r: SshResult<Vec<u8>>)
        requires
            old(self).0.wf(),
        ensures
            final(self).0.wf(),
            r is Ok <==> !old(self).0.client.broken && old(self).0.client.inbound@.len() > 0,
            !(r is Ok) ==> *final(self) == *old(self) && r == Err::<Vec<u8>, SshError>(
                SshError::Transport,
            ),
            r matches Ok(v) ==> {
                let b = old(self).0.client.inbound_views()[0];
                let n = old(self).0.client_channel_no;
                &&& v@ == batch_collect(b, n, old(self).0.remote_close)
                &&& final(self).0.remote_close == (old(self).0.remote_close || batch_saw_close(
                    b,
                    n,
                ))
                &&& final(self).0.local_close == (old(self).0.local_close || batch_saw_close(b, n))
                &&& final(self).0.client.inbound@ == old(self).0.client.inbound@.drop_first()
                &&& final(self).0.client.outbound_views() == old(self).0.client.outbound_views()
                    + (if batch_saw_close(b, n) && !old(self).0.local_close {
                    seq![close_frame(old(self).0.server_channel_no)]
                } else {
                    Seq::<Seq<u8>>::empty()
                })
                &&& final(self).0.client.others_views() == old(self).0.client.others_views()
                    + batch_others(b)
                &&& final(self).0.same_identity(&old(self).0)
            },
    {
        self.0.receive()
    }

    /// Wraps `buf` in one channel-data frame and sends it immediately, with
    /// no internal buffering, consuming that much of the outbound window.
    pub fn write(&mut self, buf: &[u8]) -> (r: SshResult<()>)
        ensures
            r is Ok <==> buf@.len() <= old(self).0.window_size && !old(self).0.client.broken,
            !(r is Ok) ==> *final(self) == *old(self),
            buf@.len() > old(self).0.window_size ==> r == Err::<(), SshError>(
                SshError::WindowExceeded,
            ),
            r is Ok ==> {
                &&& final(self).0.window_size == old(self).0.window_size - buf@.len()
                &&& final(self).0.client.outbound_views() == old(
                    self,
                ).0.client.outbound_views().push(
                    data_frame(old(self).0.server_channel_no, buf@),
                )
                &&& final(self).0.client.inbound == old(self).0.client.inbound
                &&& final(self).0.client.others == old(self).0.client.others
                &&& final(self).0.remote_close == old(self).0.remote_close
                &&& final(self).0.local_close == old(self).0.local_close
                &&& final(self).0.client_channel_no == old(self).0.client_channel_no
                &&& final(self).0.server_channel_no == old(self).0.server_channel_no
                &&& final(self).0.client.broken == old(self).0.client.broken
            },
    {
        self.0.send(buf)
    }

    /// Explicit teardown; the instance is consumed. Succeeds exactly when the
    /// local close was already recorded or the transport is healthy.
    pub fn close(self) -> (r: SshResult<()>)
        ensures
            r is Ok <==> self.0.local_close || !self.0.client.broken,
    {
        let mut this = self;
        this.0.close()
    }
}

} // verus!
