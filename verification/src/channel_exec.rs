//! Exec channel: runs exactly one remote command to completion, collecting
//! all of its output until both sides have closed. The instance is consumed
//! by the call; a second command needs a new channel.

use vstd::prelude::*;
use vstd::string::StringSliceAdditionalSpecFns;

use crate::channel::Channel;
use crate::error::SshResult;
use crate::wire::{batch_collect, batch_saw_close};

verus! {

/// The bytes the exec receive loop accumulates for channel `n` from the
/// scripted batches, starting with close flags `rc` and `lc`: every batch is
/// dispatched in full, and the loop stops after the first batch that leaves
/// both sides closed.
pub open spec fn exec_collect(batches: Seq<Seq<Seq<u8>>>, n: u32, rc: bool, lc: bool) -> Seq<u8>
    decreases batches.len(),
{
    if batches.len() == 0 {
        Seq::empty()
    } else {
        let out = batch_collect(batches[0], n, rc);
        let saw = batch_saw_close(batches[0], n);
        if (rc || saw) && (lc || saw) {
            out
        } else {
            out + exec_collect(batches.drop_first(), n, rc || saw, lc || saw)
        }
    }
}

/// Whether the exec receive loop reaches a fully closed channel before the
/// scripted batches run out; past their end a real connection would block
/// forever, which the model reports as a transport failure.
pub open spec fn exec_completes(batches: Seq<Seq<Seq<u8>>>, n: u32, rc: bool, lc: bool) -> bool
    decreases batches.len(),
{
    batches.len() > 0 && {
        let saw = batch_saw_close(batches[0], n);
        ((rc || saw) && (lc || saw)) || exec_completes(
            batches.drop_first(),
            n,
            rc || saw,
            lc || saw,
        )
    }
}

/// One-shot remote command execution over a channel.
pub struct ChannelExec(pub Channel);

impl ChannelExec {
    /// Wraps an open channel for one command.
    pub fn new(channel: Channel) -> (r: ChannelExec)
        ensures
            r.0 == channel,
    {
        ChannelExec(channel)
    }

    /// Sends the exec request for `command` with the want-reply flag set.
    fn exec_command(&mut self, command: &str) -> (r: SshResult<()>)
        requires
            command.spec_bytes().len() <= u32::MAX,
        ensures
            r is Ok <==> !old(self).0.client.broken,
            !(r is Ok) ==> *final(self) == *old(self),
            r is Ok ==> final(self).0.client.inbound == old(self).0.client.inbound
                && final(self).0.remote_close == old(self).0.remote_close
                && final(self).0.local_close == old(self).0.local_close
                && final(self).0.same_identity(&old(self).0),
    {
        self.0.request_exec(command)
    }

    /// Dispatches one batch of inbound frames, appending this channel's data
    /// to `v`.
    fn get_data(&mut self, v: &mut Vec<u8>) -> (r: SshResult<()>)
        requires
            old(self).0.wf(),
        ensures
            final(self).0.wf(),
            r is Ok <==> !old(self).0.client.broken && old(self).0.client.inbound@.len() > 0,
            !(r is Ok) ==> *final(self) == *old(self) && *final(v) == *old(v),
            r is Ok ==> {
                let b = old(self).0.client.inbound_views()[0];
                let n = old(self).0.client_channel_no;
                &&& final(v)@ == old(v)@ + batch_collect(b, n, old(self).0.remote_close)
                &&& final(self).0.remote_close == (old(self).0.remote_close || batch_saw_close(
                    b,
                    n,
                ))
                &&& final(self).0.local_close == (old(self).0.local_close || batch_saw_close(b, n))
                &&& final(self).0.client.inbound@ == old(self).0.client.inbound@.drop_first()
                &&& final(self).0.same_identity(&old(self).0)
            },
    {
        let mut part = match self.0.receive() {
            Ok(p) => p,
            Err(e) => {
                return Err(e);
            },
        };
        v.append(&mut part);
        Ok(())
    }

    /// Runs `command` to completion: sends the exec request, then dispatches
    /// batch after batch until both sides have closed, and returns every byte
    /// the peer sent this channel, in arrival order. Succeeds exactly when
    /// the transport is healthy and the close handshake arrives before the
    /// scripted input runs out; on failure any partial output is discarded.
    pub fn send_command(self, command: &str) -> (res: SshResult<Vec<u8>>)
        requires
            self.0.wf(),
            command.spec_bytes().len() <= u32::MAX,
        ensures
            res is Ok <==> !self.0.client.broken && exec_completes(
                self.0.client.inbound_views(),
                self.0.client_channel_no,
                self.0.remote_close,
                self.0.local_close,
            ),
            res matches Ok(v) ==> v@ == exec_collect(
                self.0.client.inbound_views(),
                self.0.client_channel_no,
                self.0.remote_close,
                self.0.local_close,
            ),
    {
        let mut this = self;
        let ghost batches0 = this.0.client.inbound_views();
        let ghost n = this.0.client_channel_no;
        let ghost rc0 = this.0.remote_close;
        let ghost lc0 = this.0.local_close;
        match this.exec_command(command) {
            Ok(()) => {},
            Err(e) => {
                return Err(e);
            },
        }
        let mut r: Vec<u8> = Vec::new();
        proof {
            assert(r@ + exec_collect(batches0, n, rc0, lc0) =~= exec_collect(
                batches0,
                n,
                rc0,
                lc0,
            ));
        }
        loop
            invariant_except_break
                this.0.wf(),
                batches0 == self.0.client.inbound_views(),
                n == self.0.client_channel_no,
                rc0 == self.0.remote_close,
                lc0 == self.0.local_close,
                this.0.client.broken == self.0.client.broken,
                this.0.client_channel_no == n,
                exec_collect(batches0, n, rc0, lc0) == r@ + exec_collect(
                    this.0.client.inbound_views(),
                    n,
                    this.0.remote_close,
                    this.0.local_close,
                ),
                exec_completes(batches0, n, rc0, lc0) == exec_completes(
                    this.0.client.inbound_views(),
                    n,
                    this.0.remote_close,
                    this.0.local_close,
                ),
            ensures
                r@ == exec_collect(batches0, n, rc0, lc0),
                exec_completes(batches0, n, rc0, lc0),
                !this.0.client.broken,
            decreases this.0.client.inbound@.len(),
        {
            let ghost prev = this.0.client.inbound_views();
            let ghost rc_at = this.0.remote_close;
            let ghost lc_at = this.0.local_close;
            let mut part = match this.0.receive() {
                Ok(p) => p,
                Err(e) => {
                    proof {
                        if !this.0.client.broken {
                            assert(this.0.client.inbound@.len() == 0);
                            assert(prev.len() == 0);
                            assert(!exec_completes(prev, n, rc_at, lc_at));
                            assert(!exec_completes(batches0, n, rc0, lc0));
                        }
                    }
                    return Err(e);
                },
            };
            r.append(&mut part);
            proof {
                assert(this.0.client.inbound_views() =~= prev.drop_first());
            }
            if this.0.remote_close && this.0.local_close {
                break ;
            }
        }
        Ok(r)
    }
}

} // verus!
