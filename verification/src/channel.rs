//! Channel core: one multiplexed stream's identity, its outbound flow-control
//! window, its two-sided close state, and the dispatch of inbound frames that
//! every channel flavor shares.

use vstd::prelude::*;
use vstd::string::StringSliceAdditionalSpecFns;
use vstd::utf8::{is_ascii_chars, is_ascii_chars_encode_utf8};

use crate::codec::Data;
use crate::connection::{batch_views, Connection};
use crate::error::{SshError, SshResult};
use crate::msg::{SSH_MSG_CHANNEL_CLOSE, SSH_MSG_CHANNEL_DATA, SSH_MSG_CHANNEL_REQUEST};
use crate::wire::{
    batch_collect, batch_others, batch_saw_close, close_frame, data_frame, exec_request_frame,
    frame_wf, is_close_for, is_data_for, is_other, payload_of,
};

verus! {

/// The sum of a run of payload lengths.
pub open spec fn sum(lens: Seq<nat>) -> nat
    decreases lens.len(),
{
    if lens.len() == 0 {
        0
    } else {
        sum(lens.drop_last()) + lens.last()
    }
}

/// Window accounting law: `Channel::send` accepts a payload only when it fits
/// the remaining window and then shrinks the window by exactly that length, so
/// in any run of successful sends with no intervening window adjustment each
/// payload fits what the last known window left over from the ones before it
/// — and then the run's total payload never exceeds that window.
pub proof fn lemma_window_accounting(window: nat, lens: Seq<nat>)
    requires
        forall|i: int| 0 <= i < lens.len() ==> sum(#[trigger] lens.take(i)) + lens[i] <= window,
    ensures
        sum(lens) <= window,
{
    if lens.len() > 0 {
        let m = lens.len() - 1;
        assert(lens.take(m as int) =~= lens.drop_last());
        assert(sum(lens.take(m as int)) + lens[m as int] <= window);
    }
}

/// The byte length of the `exec` request type token.
pub proof fn lemma_exec_token_bytes()
    ensures
        "exec".spec_bytes().len() == 4,
{
    reveal_strlit("exec");
    assert(is_ascii_chars("exec"@));
    is_ascii_chars_encode_utf8("exec"@);
}

/// One multiplexed stream over the shared connection.
pub struct Channel {
    /// Locally assigned identifier; inbound frames carry it.
    pub client_channel_no: u32,
    /// Identifier assigned by the peer; every outbound frame carries it.
    pub server_channel_no: u32,
    /// Bytes the local side may still send before the peer must replenish.
    pub window_size: u32,
    /// Whether a close notification was received from the peer.
    pub remote_close: bool,
    /// Whether a close notification was sent to the peer.
    pub local_close: bool,
    /// The shared transport, as a value model.
    pub client: Connection,
}

impl Channel {
    /// The scripted inbound frames are well formed.
    pub open spec fn wf(&self) -> bool {
        self.client.wf()
    }

    /// The identity, window and transport health of the channel are as in
    /// `other`: everything but the close flags and the frame logs.
    pub open spec fn same_identity(&self, other: &Channel) -> bool {
        &&& self.client_channel_no == other.client_channel_no
        &&& self.server_channel_no == other.server_channel_no
        &&& self.window_size == other.window_size
        &&& self.client.broken == other.client.broken
    }

    /// The channel numbers and transport health are as in `other`: everything
    /// the identity keeps when a send consumes window.
    pub open spec fn same_route(&self, other: &Channel) -> bool {
        &&& self.client_channel_no == other.client_channel_no
        &&& self.server_channel_no == other.server_channel_no
        &&& self.client.broken == other.client.broken
    }

    /// A channel as the connection-level open handshake (outside this crate) leaves it: both sides
    /// open, with the peer's initial window.
    pub fn new(client_channel_no: u32, server_channel_no: u32, window_size: u32, client: Connection) -> (r:
        Channel)
        ensures
            r.client_channel_no == client_channel_no,
            r.server_channel_no == server_channel_no,
            r.window_size == window_size,
            !r.remote_close,
            !r.local_close,
            r.client == client,
    {
        Channel {
            client_channel_no,
            server_channel_no,
            window_size,
            remote_close: false,
            local_close: false,
            client,
        }
    }

    /// A channel is fully closed exactly when both sides have closed; one
    /// flag alone is a half-closed channel, not a torn-down one.
    pub fn is_closed(&self) -> (r: bool)
        ensures
            r == (self.remote_close && self.local_close),
    {
        self.remote_close && self.local_close
    }

    /// Sends one channel-data frame carrying `bytes`, consuming that much of
    /// the outbound window. Succeeds exactly when the payload fits the
    /// remaining window and the transport is healthy; on failure nothing is
    /// written and nothing changes.
    pub fn send(&mut self, bytes: &[u8]) -> (r: SshResult<()>)
        ensures
            r is Ok <==> bytes@.len() <= old(self).window_size && !old(self).client.broken,
            !(r is Ok) ==> *final(self) == *old(self),
            bytes@.len() > old(self).window_size ==> r == Err::<(), SshError>(
                SshError::WindowExceeded,
            ),
            bytes@.len() <= old(self).window_size && old(self).client.broken ==> r == Err::<
                (),
                SshError,
            >(SshError::Transport),
            r is Ok ==> {
                &&& final(self).window_size == old(self).window_size - bytes@.len()
                &&& final(self).client.outbound_views() == old(self).client.outbound_views().push(
                    data_frame(old(self).server_channel_no, bytes@),
                )
                &&& final(self).client.inbound == old(self).client.inbound
                &&& final(self).client.others == old(self).client.others
                &&& final(self).client.broken == old(self).client.broken
                &&& final(self).client_channel_no == old(self).client_channel_no
                &&& final(self).server_channel_no == old(self).server_channel_no
                &&& final(self).remote_close == old(self).remote_close
                &&& final(self).local_close == old(self).local_close
            },
    {
        if bytes.len() > self.window_size as usize {
            return Err(SshError::WindowExceeded);
        }
        let mut data = Data::new();
        data.put_u8(SSH_MSG_CHANNEL_DATA);
        data.put_u32(self.server_channel_no);
        data.put_u8s(bytes);
        proof {
            assert(data@ =~= data_frame(self.server_channel_no, bytes@));
        }
        match self.client.write(data) {
            Ok(()) => {
                self.window_size = self.window_size - bytes.len() as u32;
                proof {
                    assert(self.client.outbound_views() =~= old(self).client.outbound_views().push(
                        data_frame(old(self).server_channel_no, bytes@),
                    ));
                }
                Ok(())
            },
            Err(e) => Err(e),
        }
    }

    /// Explicit local-initiated teardown: sends one close frame for this
    /// channel's server number and records the local close. Idempotent — once
    /// the local close is recorded the call changes nothing and succeeds,
    /// whatever the remote side has done.
    pub fn close(&mut self) -> (r: SshResult<()>)
        ensures
            r is Ok <==> old(self).local_close || !old(self).client.broken,
            old(self).local_close ==> *final(self) == *old(self),
            !(r is Ok) ==> *final(self) == *old(self) && r == Err::<(), SshError>(
                SshError::Transport,
            ),
            r is Ok ==> {
                &&& final(self).local_close
                &&& final(self).remote_close == old(self).remote_close
                &&& final(self).same_identity(old(self))
                &&& final(self).client.inbound == old(self).client.inbound
                &&& final(self).client.others == old(self).client.others
                &&& final(self).client.outbound_views() == old(self).client.outbound_views() + (
                if old(self).local_close {
                    Seq::<Seq<u8>>::empty()
                } else {
                    seq![close_frame(old(self).server_channel_no)]
                })
            },
    {
        if self.local_close {
            proof {
                assert(self.client.outbound_views() =~= self.client.outbound_views()
                    + Seq::<Seq<u8>>::empty());
            }
            return Ok(());
        }
        let mut data = Data::new();
        data.put_u8(SSH_MSG_CHANNEL_CLOSE);
        data.put_u32(self.server_channel_no);
        proof {
            assert(data@ =~= close_frame(self.server_channel_no));
        }
        match self.client.write(data) {
            Ok(()) => {
                self.local_close = true;
                proof {
                    assert(self.client.outbound_views() =~= old(self).client.outbound_views()
                        + seq![close_frame(old(self).server_channel_no)]);
                }
                Ok(())
            },
            Err(e) => Err(e),
        }
    }

    /// Sends a channel-request frame asking the peer to execute `command`,
    /// with the want-reply flag set. Does not wait for an acknowledgment:
    /// that arrives through the generic dispatch path.
    pub fn request_exec(&mut self, command: &str) -> (r: SshResult<()>)
        requires
            command.spec_bytes().len() <= u32::MAX,
        ensures
            r is Ok <==> !old(self).client.broken,
            !(r is Ok) ==> *final(self) == *old(self) && r == Err::<(), SshError>(
                SshError::Transport,
            ),
            r is Ok ==> {
                &&& final(self).client.outbound_views() == old(self).client.outbound_views().push(
                    exec_request_frame(old(self).server_channel_no, command.spec_bytes()),
                )
                &&& final(self).client.inbound == old(self).client.inbound
                &&& final(self).client.others == old(self).client.others
                &&& final(self).client.broken == old(self).client.broken
                &&& final(self).remote_close == old(self).remote_close
                &&& final(self).local_close == old(self).local_close
                &&& final(self).same_identity(old(self))
            },
    {
        let mut data = Data::new();
        data.put_u8(SSH_MSG_CHANNEL_REQUEST);
        data.put_u32(self.server_channel_no);
        proof {
            lemma_exec_token_bytes();
        }
        data.put_str("exec");
        data.put_u8(1);
        data.put_str(command);
        proof {
            assert(data@ =~= exec_request_frame(self.server_channel_no, command.spec_bytes()));
        }
        match self.client.write(data) {
            Ok(()) => {
                proof {
                    assert(self.client.outbound_views() =~= old(self).client.outbound_views().push(
                        exec_request_frame(old(self).server_channel_no, command.spec_bytes()),
                    ));
                }
                Ok(())
            },
            Err(e) => Err(e),
        }
    }

    /// Waits for the next batch of inbound frames and dispatches every frame
    /// of it: payloads of data frames addressed to this channel are
    /// accumulated (none past a close), a close addressed to this channel
    /// records the remote close and drives the local close sequence, and
    /// every other message code is forwarded to the connection's housekeeping
    /// hook. Frames addressed to other channels are ignored. Returns the
    /// accumulated bytes, possibly empty.
    pub fn receive(&mut self) -> (r: SshResult<Vec<u8>>)
        requires
            old(self).wf(),
        ensures
            final(self).wf(),
            r is Ok <==> !old(self).client.broken && old(self).client.inbound@.len() > 0,
            !(r is Ok) ==> *final(self) == *old(self) && r == Err::<Vec<u8>, SshError>(
                SshError::Transport,
            ),
            r matches Ok(v) ==> {
                let b = old(self).client.inbound_views()[0];
                let n = old(self).client_channel_no;
                &&& v@ == batch_collect(b, n, old(self).remote_close)
                &&& final(self).remote_close == (old(self).remote_close || batch_saw_close(b, n))
                &&& final(self).local_close == (old(self).local_close || batch_saw_close(b, n))
                &&& final(self).client.inbound@ == old(self).client.inbound@.drop_first()
                &&& final(self).client.outbound_views() == old(self).client.outbound_views() + (
                if batch_saw_close(b, n) && !old(self).local_close {
                    seq![close_frame(old(self).server_channel_no)]
                } else {
                    Seq::<Seq<u8>>::empty()
                })
                &&& final(self).client.others_views() == old(self).client.others_views()
                    + batch_others(b)
                &&& final(self).same_identity(old(self))
            },
    {
        let mut batch: Vec<Data> = match self.client.read() {
            Ok(b) => b,
            Err(e) => {
                return Err(e);
            },
        };
        let ghost b0: Seq<Seq<u8>> = batch_views(batch@);
        let ghost n = self.client_channel_no;
        let ghost rc0 = self.remote_close;
        let ghost lc0 = self.local_close;
        let ghost out0 = self.client.outbound_views();
        let ghost oth0 = self.client.others_views();
        let mut buf: Vec<u8> = Vec::new();
        proof {
            assert(b0 =~= old(self).client.inbound_views()[0]);
            assert forall|j: int| 0 <= j < batch@.len() implies frame_wf((#[trigger] batch@[j])@)
                && batch@[j].pos == 0 by {
                assert(old(self).client.inbound@[0]@[j] == batch@[j]);
            }
            assert(self.client.inbound@ =~= old(self).client.inbound@.drop_first());
        }
        while batch.len() > 0
            invariant
                self.wf(),
                self.same_identity(old(self)),
                !self.client.broken,
                self.client.inbound@ == old(self).client.inbound@.drop_first(),
                forall|j: int|
                    0 <= j < batch@.len() ==> frame_wf((#[trigger] batch@[j])@) && batch@[j].pos
                        == 0,
                batch_collect(b0, n, rc0) == buf@ + batch_collect(
                    batch_views(batch@),
                    n,
                    self.remote_close,
                ),
                (rc0 || batch_saw_close(b0, n)) == (self.remote_close || batch_saw_close(
                    batch_views(batch@),
                    n,
                )),
                (lc0 || batch_saw_close(b0, n)) == (self.local_close || batch_saw_close(
                    batch_views(batch@),
                    n,
                )),
                rc0 ==> self.remote_close,
                lc0 ==> self.local_close,
                self.client.outbound_views() == out0 + (if self.local_close != lc0 {
                    seq![close_frame(old(self).server_channel_no)]
                } else {
                    Seq::<Seq<u8>>::empty()
                }),
                oth0 + batch_others(b0) == self.client.others_views() + batch_others(
                    batch_views(batch@),
                ),
                n == old(self).client_channel_no,
                rc0 == old(self).remote_close,
                lc0 == old(self).local_close,
                out0 == old(self).client.outbound_views(),
                oth0 == old(self).client.others_views(),
            decreases batch.len(),
        {
            let ghost prev: Seq<Data> = batch@;
            let ghost rc_at = self.remote_close;
            let mut frame = batch.remove(0);
            let ghost fv: Seq<u8> = frame@;
            proof {
                assert(batch@ =~= prev.drop_first());
                assert(batch_views(batch@) =~= batch_views(prev).drop_first());
                assert(batch_views(prev)[0] == fv);
            }
            if !frame.is_empty() {
                let message_code = frame.get_u8();
                if message_code == SSH_MSG_CHANNEL_DATA {
                    let cc = frame.get_u32();
                    if cc == self.client_channel_no && !self.remote_close {
                        assert(is_data_for(fv, n));
                        let mut payload = frame.get_u8s();
                        proof {
                            assert(payload@ == payload_of(fv));
                        }
                        buf.append(&mut payload);
                    }
                } else if message_code == SSH_MSG_CHANNEL_CLOSE {
                    let cc = frame.get_u32();
                    if cc == self.client_channel_no {
                        assert(is_close_for(fv, n));
                        self.remote_close = true;
                        match self.close() {
                            Ok(()) => {},
                            Err(e) => {
                                return Err(e);
                            },
                        }
                    }
                } else {
                    assert(is_other(fv));
                    match self.client.other(message_code, frame) {
                        Ok(()) => {},
                        Err(e) => {
                            return Err(e);
                        },
                    }
                }
            }
        }
        proof {
            assert(batch_views(batch@) =~= Seq::<Seq<u8>>::empty());
            assert(buf@ + Seq::<u8>::empty() =~= buf@);
            assert(self.client.others_views() =~= oth0 + batch_others(b0));
            if self.local_close != lc0 {
                assert(self.client.outbound_views() =~= out0 + seq![
                    close_frame(old(self).server_channel_no),
                ]);
            } else {
                assert(self.client.outbound_views() =~= out0 + Seq::<Seq<u8>>::empty());
            }
        }
        Ok(buf)
    }
}

} // verus!
