//! Value model of the shared connection handle. The real transport (socket,
//! crypto, authentication) lives outside this crate; the channel layer only asks
//! it to write one frame or to yield the next batch of inbound frames. This
//! model records every frame written, hands out scripted batches in order,
//! and fails every operation once the transport is broken.

use vstd::prelude::*;

use crate::codec::Data;
use crate::error::{SshError, SshResult};
use crate::wire::frame_wf;

verus! {

/// The byte sequences of a batch of frames.
pub open spec fn batch_views(batch: Seq<Data>) -> Seq<Seq<u8>> {
    batch.map_values(|d: Data| d@)
}

/// The authenticated transport as data: the batches of frames still to
/// arrive, the frames written so far, the frames handed to the generic
/// housekeeping hook, and whether the transport has failed.
pub struct Connection {
    pub inbound: Vec<Vec<Data>>,
    pub outbound: Vec<Data>,
    pub others: Vec<Data>,
    pub broken: bool,
}

impl Connection {
    /// The byte sequences of the batches still to arrive.
    pub open spec fn inbound_views(&self) -> Seq<Seq<Seq<u8>>> {
        self.inbound@.map_values(|b: Vec<Data>| batch_views(b@))
    }

    /// The byte sequences of the frames written so far.
    pub open spec fn outbound_views(&self) -> Seq<Seq<u8>> {
        self.outbound@.map_values(|d: Data| d@)
    }

    /// The byte sequences of the frames handed to the housekeeping hook.
    pub open spec fn others_views(&self) -> Seq<Seq<u8>> {
        self.others@.map_values(|d: Data| d@)
    }

    /// Every scripted inbound frame is well formed and has its read cursor at
    /// the start. Handing the dispatcher anything else is a contract
    /// violation in the producer of the frames.
    pub open spec fn wf(&self) -> bool {
        forall|i: int, j: int|
            0 <= i < self.inbound@.len() && 0 <= j < self.inbound@[i]@.len() ==> frame_wf(
                (#[trigger] self.inbound@[i]@[j])@,
            ) && self.inbound@[i]@[j].pos == 0
    }

    /// A healthy connection with nothing scripted and nothing written.
    pub fn new() -> (r: Connection)
        ensures
            r.inbound@.len() == 0,
            r.outbound@.len() == 0,
            r.others@.len() == 0,
            !r.broken,
            r.wf(),
    {
        Connection { inbound: Vec::new(), outbound: Vec::new(), others: Vec::new(), broken: false }
    }

    /// Writes one fully built frame. Fails exactly when the transport is
    /// broken, and then changes nothing.
    pub fn write(&mut self, data: Data) -> (r: SshResult<()>)
        ensures
            r is Ok <==> !old(self).broken,
            old(self).broken ==> *final(self) == *old(self) && r == Err::<(), SshError>(
                SshError::Transport,
            ),
            !old(self).broken ==> final(self).outbound@ == old(self).outbound@.push(data)
                && final(self).inbound == old(self).inbound && final(self).others == old(self).others && final(self).broken == old(self).broken,
    {
        if self.broken {
            Err(SshError::Transport)
        } else {
            self.outbound.push(data);
            Ok(())
        }
    }

    /// Yields the next batch of inbound frames, in arrival order. Fails
    /// exactly when the transport is broken or nothing more will arrive (a
    /// real handle would block forever), and then changes nothing.
    pub fn read(&mut self) -> (r: SshResult<Vec<Data>>)
        ensures
            r is Ok <==> !old(self).broken && old(self).inbound@.len() > 0,
            !(r is Ok) ==> *final(self) == *old(self) && r == Err::<Vec<Data>, SshError>(
                SshError::Transport,
            ),
            r matches Ok(batch) ==> batch@ == old(self).inbound@[0]@ && final(self).inbound@
                == old(self).inbound@.drop_first() && final(self).outbound == old(self).outbound
                && final(self).others == old(self).others && final(self).broken == old(self).broken,
    {
        if self.broken || self.inbound.len() == 0 {
            Err(SshError::Transport)
        } else {
            let batch = self.inbound.remove(0);
            Ok(batch)
        }
    }

    /// Generic hook for message codes this channel does not own: the
    /// connection records the frame for connection-level housekeeping. Fails
    /// exactly when the transport is broken, and then changes nothing.
    pub fn other(&mut self, message_code: u8, frame: Data) -> (r: SshResult<()>)
        ensures
            r is Ok <==> !old(self).broken,
            old(self).broken ==> *final(self) == *old(self) && r == Err::<(), SshError>(
                SshError::Transport,
            ),
            !old(self).broken ==> final(self).others@ == old(self).others@.push(frame)
                && final(self).inbound == old(self).inbound && final(self).outbound == old(self).outbound && final(self).broken == old(self).broken,
    {
        if self.broken {
            Err(SshError::Transport)
        } else {
            self.others.push(frame);
            Ok(())
        }
    }
}

} // verus!
