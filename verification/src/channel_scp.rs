//! SCP channel: drives the SCP wire sub-protocol (line-based control tokens
//! interleaved with raw file bytes, all carried as channel-data payloads) for
//! uploads and downloads of files and directory trees.

use vstd::prelude::*;
use vstd::string::{StringExecFns, StringSliceAdditionalSpecFns};

use crate::channel::Channel;
use crate::error::{SshError, SshResult};
use crate::msg::SCP_END;
use crate::wire::{
    batch_collect, batch_saw_close, close_frame, data_frame, exec_request_frame,
};

verus! {

/// The bytes the SCP receive loop returns for channel `n` from the scripted
/// batches, starting with remote-close flag `rc`: batches are dispatched one
/// at a time, empty ones are discarded, and the loop stops at the first batch
/// that yields data or shows the remote side closing — even with nothing
/// accumulated.
pub open spec fn scp_read_output(batches: Seq<Seq<Seq<u8>>>, n: u32, rc: bool) -> Seq<u8>
    decreases batches.len(),
{
    if batches.len() == 0 {
        Seq::empty()
    } else {
        let out = batch_collect(batches[0], n, rc);
        let saw = batch_saw_close(batches[0], n);
        if out.len() > 0 || rc || saw {
            out
        } else {
            scp_read_output(batches.drop_first(), n, rc)
        }
    }
}

/// Whether the SCP receive loop obtains data or a remote close before the
/// scripted batches run out.
pub open spec fn scp_read_completes(batches: Seq<Seq<Seq<u8>>>, n: u32, rc: bool) -> bool
    decreases batches.len(),
{
    batches.len() > 0 && {
        let out = batch_collect(batches[0], n, rc);
        let saw = batch_saw_close(batches[0], n);
        (out.len() > 0 || rc || saw) || scp_read_completes(batches.drop_first(), n, rc)
    }
}

/// Whether the SCP receive loop sees a close for channel `n` among the
/// batches it consumes.
pub open spec fn scp_read_saw_close(batches: Seq<Seq<Seq<u8>>>, n: u32, rc: bool) -> bool
    decreases batches.len(),
{
    if batches.len() == 0 {
        false
    } else {
        let out = batch_collect(batches[0], n, rc);
        let saw = batch_saw_close(batches[0], n);
        if out.len() > 0 || rc || saw {
            saw
        } else {
            scp_read_saw_close(batches.drop_first(), n, rc)
        }
    }
}

/// The batches the SCP receive loop leaves unconsumed.
pub open spec fn scp_read_rest(batches: Seq<Seq<Seq<u8>>>, n: u32, rc: bool) -> Seq<Seq<Seq<u8>>>
    decreases batches.len(),
{
    if batches.len() == 0 {
        batches
    } else {
        let out = batch_collect(batches[0], n, rc);
        let saw = batch_saw_close(batches[0], n);
        if out.len() > 0 || rc || saw {
            batches.drop_first()
        } else {
            scp_read_rest(batches.drop_first(), n, rc)
        }
    }
}

/// A local filesystem target, as plain values: its textual path and whether
/// it is an existing directory. The caller that touches the
/// filesystem supplies both; the channel layer never looks at a disk.
pub struct LocalPath {
    pub text: String,
    pub is_dir: bool,
}

/// Rejects a local path that could not be represented as valid text (handed
/// in as `None`). A pure local precondition check: it fails before any
/// network activity, with an error distinct from transport failures.
pub fn check_path(path: &Option<String>) -> (r: SshResult<()>)
    ensures
        r is Ok <==> path is Some,
        path is None ==> r == Err::<(), SshError>(SshError::InvalidPath),
{
    match path {
        Some(_) => Ok(()),
        None => Err(SshError::InvalidPath),
    }
}

/// Metadata and payload identity of one file or directory in a transfer.
pub struct ScpFile {
    pub modify_time: i64,
    pub access_time: i64,
    pub size: u64,
    pub name: String,
    pub is_dir: bool,
    pub local_path: LocalPath,
}

impl ScpFile {
    /// An empty entry, filled incrementally as control lines are parsed.
    pub fn new() -> (r: ScpFile)
        ensures
            r.modify_time == 0,
            r.access_time == 0,
            r.size == 0,
            r.name@ == Seq::<char>::empty(),
            !r.is_dir,
            r.local_path.text@ == Seq::<char>::empty(),
            !r.local_path.is_dir,
    {
        ScpFile {
            modify_time: 0,
            access_time: 0,
            size: 0,
            name: String::new(),
            is_dir: false,
            local_path: LocalPath { text: String::new(), is_dir: false },
        }
    }

    /// The effective local destination of one remote entry: a remote entry is
    /// placed inside a local target that is an existing directory, and a
    /// local target that is a concrete file path is used verbatim, whatever
    /// the entry is called.
    pub fn join(&self, filename: &str) -> (r: String)
        ensures
            self.local_path.is_dir ==> r@ == self.local_path.text@ + "/"@ + filename@,
            !self.local_path.is_dir ==> r@ == self.local_path.text@,
    {
        if self.local_path.is_dir {
            let mut s = self.local_path.text.clone();
            s.append("/");
            s.append(filename);
            proof {
                assert(s@ =~= self.local_path.text@ + "/"@ + filename@);
            }
            s
        } else {
            self.local_path.text.clone()
        }
    }
}

/// File transfer over a channel, via the SCP sub-protocol.
pub struct ChannelScp {
    pub channel: Channel,
    pub local_path: LocalPath,
}

impl ChannelScp {
    /// Wraps an open channel for a transfer; the local target starts empty.
    pub fn open(channel: Channel) -> (r: ChannelScp)
        ensures
            r.channel == channel,
            r.local_path.text@ == Seq::<char>::empty(),
            !r.local_path.is_dir,
    {
        ChannelScp { channel, local_path: LocalPath { text: String::new(), is_dir: false } }
    }

    /// Sends the bytes of an SCP control line as one channel-data frame.
    pub fn send_str(&mut self, cmd: &str) -> (r: SshResult<()>)
        ensures
            r is Ok <==> cmd.spec_bytes().len() <= old(self).channel.window_size && !old(
                self,
            ).channel.client.broken,
            !(r is Ok) ==> *final(self) == *old(self),
            r is Ok ==> {
                &&& final(self).channel.window_size == old(self).channel.window_size
                    - cmd.spec_bytes().len()
                &&& final(self).channel.client.outbound_views() == old(
                    self,
                ).channel.client.outbound_views().push(
                    data_frame(old(self).channel.server_channel_no, cmd.spec_bytes()),
                )
                &&& final(self).channel.client.inbound == old(self).channel.client.inbound
                &&& final(self).channel.remote_close == old(self).channel.remote_close
                &&& final(self).channel.local_close == old(self).channel.local_close
                &&& final(self).channel.same_route(&old(self).channel)
                &&& final(self).local_path == old(self).local_path
            },
    {
        self.send_bytes(cmd.as_bytes())
    }

    /// Sends the single-byte SCP acknowledgment token as one channel-data
    /// frame.
    pub fn send_end(&mut self) -> (r: SshResult<()>)
        ensures
            r is Ok <==> 1 <= old(self).channel.window_size && !old(self).channel.client.broken,
            !(r is Ok) ==> *final(self) == *old(self),
            r is Ok ==> {
                &&& final(self).channel.window_size == old(self).channel.window_size - 1
                &&& final(self).channel.client.outbound_views() == old(
                    self,
                ).channel.client.outbound_views().push(
                    data_frame(old(self).channel.server_channel_no, seq![SCP_END]),
                )
                &&& final(self).channel.client.inbound == old(self).channel.client.inbound
                &&& final(self).channel.remote_close == old(self).channel.remote_close
                &&& final(self).channel.local_close == old(self).channel.local_close
                &&& final(self).channel.same_route(&old(self).channel)
                &&& final(self).local_path == old(self).local_path
            },
    {
        let token: [u8; 1] = [SCP_END];
        proof {
            assert(token@ =~= seq![SCP_END]);
        }
        self.send_bytes(&token)
    }

    /// Sends a raw payload as one channel-data frame, consuming that much of
    /// the outbound window.
    pub fn send_bytes(&mut self, bytes: &[u8]) -> (r: SshResult<()>)
        ensures
            r is Ok <==> bytes@.len() <= old(self).channel.window_size && !old(
                self,
            ).channel.client.broken,
            !(r is Ok) ==> *final(self) == *old(self),
            bytes@.len() > old(self).channel.window_size ==> r == Err::<(), SshError>(
                SshError::WindowExceeded,
            ),
            r is Ok ==> {
                &&& final(self).channel.window_size == old(self).channel.window_size - bytes@.len()
                &&& final(self).channel.client.outbound_views() == old(
                    self,
                ).channel.client.outbound_views().push(
                    data_frame(old(self).channel.server_channel_no, bytes@),
                )
                &&& final(self).channel.client.inbound == old(self).channel.client.inbound
                &&& final(self).channel.client.others == old(self).channel.client.others
                &&& final(self).channel.remote_close == old(self).channel.remote_close
                &&& final(self).channel.local_close == old(self).channel.local_close
                &&& final(self).channel.same_route(&old(self).channel)
                &&& final(self).local_path == old(self).local_path
            },
    {
        self.channel.send(bytes)
    }

    /// Polls the dispatcher batch after batch, discarding empty ones, until
    /// either real data for this channel arrives or the remote side closes —
    /// and then returns whatever was accumulated, even if empty. An
    /// interleaved close is handled the channel-core way: the remote close is
    /// recorded and the local close sequence is driven.
    pub fn read_data(&mut self) -> (res: SshResult<Vec<u8>>)
        requires
            old(self).channel.wf(),
        ensures
            final(self).channel.wf(),
            final(self).local_path == old(self).local_path,
            res is Ok <==> !old(self).channel.client.broken && scp_read_completes(
                old(self).channel.client.inbound_views(),
                old(self).channel.client_channel_no,
                old(self).channel.remote_close,
            ),
            old(self).channel.client.broken ==> *final(self) == *old(self),
            res matches Ok(v) ==> {
                let inb = old(self).channel.client.inbound_views();
                let n = old(self).channel.client_channel_no;
                let rc = old(self).channel.remote_close;
                let saw = scp_read_saw_close(inb, n, rc);
                &&& v@ == scp_read_output(inb, n, rc)
                &&& final(self).channel.remote_close == (rc || saw)
                &&& final(self).channel.local_close == (old(self).channel.local_close || saw)
                &&& final(self).channel.client.inbound_views() == scp_read_rest(inb, n, rc)
                &&& final(self).channel.client.outbound_views() == old(
                    self,
                ).channel.client.outbound_views() + (if saw && !old(self).channel.local_close {
                    seq![close_frame(old(self).channel.server_channel_no)]
                } else {
                    Seq::<Seq<u8>>::empty()
                })
                &&& final(self).channel.same_identity(&old(self).channel)
            },
            !old(self).channel.client.broken && res is Err ==> {
                &&& final(self).channel.client.inbound@.len() == 0
                &&& final(self).channel.remote_close == old(self).channel.remote_close
                &&& final(self).channel.local_close == old(self).channel.local_close
                &&& final(self).channel.client.outbound_views() == old(
                    self,
                ).channel.client.outbound_views()
                &&& final(self).channel.same_identity(&old(self).channel)
            },
    {
        let ghost inb0 = self.channel.client.inbound_views();
        let ghost n = self.channel.client_channel_no;
        let ghost rc0 = self.channel.remote_close;
        let ghost lc0 = self.channel.local_close;
        let ghost out0 = self.channel.client.outbound_views();
        let mut vec: Vec<u8> = Vec::new();
        loop
            invariant_except_break
                self.channel.wf(),
                inb0 == old(self).channel.client.inbound_views(),
                n == old(self).channel.client_channel_no,
                rc0 == old(self).channel.remote_close,
                lc0 == old(self).channel.local_close,
                out0 == old(self).channel.client.outbound_views(),
                self.local_path == old(self).local_path,
                self.channel.same_identity(&old(self).channel),
                old(self).channel.client.broken ==> *self == *old(self),
                vec@.len() == 0,
                self.channel.remote_close == rc0,
                self.channel.local_close == lc0,
                self.channel.client.outbound_views() == out0,
                scp_read_output(inb0, n, rc0) == scp_read_output(
                    self.channel.client.inbound_views(),
                    n,
                    rc0,
                ),
                scp_read_completes(inb0, n, rc0) == scp_read_completes(
                    self.channel.client.inbound_views(),
                    n,
                    rc0,
                ),
                scp_read_saw_close(inb0, n, rc0) == scp_read_saw_close(
                    self.channel.client.inbound_views(),
                    n,
                    rc0,
                ),
                scp_read_rest(inb0, n, rc0) == scp_read_rest(
                    self.channel.client.inbound_views(),
                    n,
                    rc0,
                ),
            ensures
                self.channel.wf(),
                self.local_path == old(self).local_path,
                !self.channel.client.broken,
                vec@ == scp_read_output(inb0, n, rc0),
                scp_read_completes(inb0, n, rc0),
                self.channel.remote_close == (rc0 || scp_read_saw_close(inb0, n, rc0)),
                self.channel.local_close == (lc0 || scp_read_saw_close(inb0, n, rc0)),
                self.channel.client.inbound_views() == scp_read_rest(inb0, n, rc0),
                self.channel.client.outbound_views() == out0 + (if scp_read_saw_close(
                    inb0,
                    n,
                    rc0,
                ) && !lc0 {
                    seq![close_frame(old(self).channel.server_channel_no)]
                } else {
                    Seq::<Seq<u8>>::empty()
                }),
                self.channel.same_identity(&old(self).channel),
            decreases self.channel.client.inbound@.len(),
        {
            let ghost prev = self.channel.client.inbound_views();
            let mut part = match self.channel.receive() {
                Ok(p) => p,
                Err(e) => {
                    proof {
                        if !self.channel.client.broken {
                            assert(prev.len() == 0);
                            assert(!scp_read_completes(inb0, n, rc0));
                        }
                    }
                    return Err(e);
                },
            };
            vec.append(&mut part);
            proof {
                assert(self.channel.client.inbound_views() =~= prev.drop_first());
            }
            if vec.len() > 0 || self.channel.remote_close {
                break ;
            }
        }
        Ok(vec)
    }

    /// Sends the channel-request frame that starts the remote SCP program,
    /// with the want-reply flag set.
    pub fn exec_scp(&mut self, command: &str) -> (r: SshResult<()>)
        requires
            command.spec_bytes().len() <= u32::MAX,
        ensures
            r is Ok <==> !old(self).channel.client.broken,
            !(r is Ok) ==> *final(self) == *old(self) && r == Err::<(), SshError>(
                SshError::Transport,
            ),
            r is Ok ==> {
                &&& final(self).channel.client.outbound_views() == old(
                    self,
                ).channel.client.outbound_views().push(
                    exec_request_frame(old(self).channel.server_channel_no, command.spec_bytes()),
                )
                &&& final(self).channel.client.inbound == old(self).channel.client.inbound
                &&& final(self).channel.remote_close == old(self).channel.remote_close
                &&& final(self).channel.local_close == old(self).channel.local_close
                &&& final(self).channel.same_identity(&old(self).channel)
                &&& final(self).local_path == old(self).local_path
            },
    {
        self.channel.request_exec(command)
    }

    /// The exact remote SCP invocation: the program token, the direction
    /// flag, then quiet mode, recursive mode and preserve-times mode — always
    /// all three, one code path for files and directory trees — and the
    /// remote path, in that fixed field order.
    pub fn command_init(&self, remote_path: &str, arg: &str) -> (r: String)
        ensures
            r@ == "scp "@ + arg@ + " -q -r -p "@ + remote_path@,
    {
        let mut s = String::new();
        s.append("scp ");
        s.append(arg);
        s.append(" -q -r -p ");
        s.append(remote_path);
        proof {
            assert(s@ =~= "scp "@ + arg@ + " -q -r -p "@ + remote_path@);
        }
        s
    }
}

} // verus!

