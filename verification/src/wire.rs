//! Mathematical model of the channel-layer wire format: what the bytes of a
//! frame mean, and how a channel demultiplexes a batch of inbound frames.

use vstd::prelude::*;
use vstd::string::StringSliceAdditionalSpecFns;

use crate::msg::{SSH_MSG_CHANNEL_CLOSE, SSH_MSG_CHANNEL_DATA, SSH_MSG_CHANNEL_REQUEST};

verus! {

/// The four big-endian bytes of a 32-bit integer.
pub open spec fn u32_be(v: u32) -> Seq<u8> {
    seq![(v >> 24) as u8, (v >> 16) as u8, (v >> 8) as u8, v as u8]
}

/// The 32-bit integer read from four big-endian bytes.
pub open spec fn u32_of_be(b0: u8, b1: u8, b2: u8, b3: u8) -> u32 {
    ((b0 as u32) << 24) | ((b1 as u32) << 16) | ((b2 as u32) << 8) | (b3 as u32)
}

/// A length-prefixed byte string: a 32-bit big-endian length, then the bytes.
pub open spec fn str_block(bytes: Seq<u8>) -> Seq<u8> {
    u32_be(bytes.len() as u32) + bytes
}

/// A channel-data frame: message code, recipient channel number, raw payload.
pub open spec fn data_frame(channel_no: u32, payload: Seq<u8>) -> Seq<u8> {
    seq![SSH_MSG_CHANNEL_DATA] + u32_be(channel_no) + payload
}

/// A channel-close frame: message code and recipient channel number.
pub open spec fn close_frame(channel_no: u32) -> Seq<u8> {
    seq![SSH_MSG_CHANNEL_CLOSE] + u32_be(channel_no)
}

/// A channel-request frame asking the peer to execute a command, with the
/// want-reply flag set.
pub open spec fn exec_request_frame(channel_no: u32, command: Seq<u8>) -> Seq<u8> {
    seq![SSH_MSG_CHANNEL_REQUEST] + u32_be(channel_no) + str_block("exec".spec_bytes()) + seq![1u8]
        + str_block(command)
}

/// A frame the dispatcher may be handed: either empty (skipped), or long
/// enough for the fields its leading message code obliges it to carry.
/// Handing the dispatcher anything shorter is a contract violation in the
/// producer of the frame.
pub open spec fn frame_wf(f: Seq<u8>) -> bool {
    f.len() >= 1 && (f[0] == SSH_MSG_CHANNEL_DATA || f[0] == SSH_MSG_CHANNEL_CLOSE) ==> f.len()
        >= 5
}

/// The channel number embedded in a data or close frame.
pub open spec fn chan_no_of(f: Seq<u8>) -> u32 {
    u32_of_be(f[1], f[2], f[3], f[4])
}

/// Whether `f` is a channel-data frame addressed to channel `n`.
pub open spec fn is_data_for(f: Seq<u8>, n: u32) -> bool {
    f.len() >= 5 && f[0] == SSH_MSG_CHANNEL_DATA && chan_no_of(f) == n
}

/// Whether `f` is a channel-close frame addressed to channel `n`.
pub open spec fn is_close_for(f: Seq<u8>, n: u32) -> bool {
    f.len() >= 5 && f[0] == SSH_MSG_CHANNEL_CLOSE && chan_no_of(f) == n
}

/// The payload of a channel-data frame: everything after the code and the
/// channel number.
pub open spec fn payload_of(f: Seq<u8>) -> Seq<u8> {
    f.skip(5)
}

/// Whether `f` carries a message code that this channel does not own and
/// forwards to the connection's generic housekeeping hook.
pub open spec fn is_other(f: Seq<u8>) -> bool {
    f.len() >= 1 && f[0] != SSH_MSG_CHANNEL_DATA && f[0] != SSH_MSG_CHANNEL_CLOSE
}

/// What one dispatch pass over a batch of frames appends to the caller's
/// buffer for channel `n`, starting with remote-close flag `rc`: the payloads
/// of the data frames addressed to `n`, in arrival order, none of them past a
/// close for `n`.
pub open spec fn batch_collect(frames: Seq<Seq<u8>>, n: u32, rc: bool) -> Seq<u8>
    decreases frames.len(),
{
    if frames.len() == 0 {
        Seq::empty()
    } else {
        let f = frames[0];
        let rest = frames.drop_first();
        if is_data_for(f, n) && !rc {
            payload_of(f) + batch_collect(rest, n, rc)
        } else if is_close_for(f, n) {
            batch_collect(rest, n, true)
        } else {
            batch_collect(rest, n, rc)
        }
    }
}

/// Whether a batch contains a close frame addressed to channel `n`.
pub open spec fn batch_saw_close(frames: Seq<Seq<u8>>, n: u32) -> bool
    decreases frames.len(),
{
    if frames.len() == 0 {
        false
    } else {
        is_close_for(frames[0], n) || batch_saw_close(frames.drop_first(), n)
    }
}

/// The frames of a batch that a channel forwards to the connection's generic
/// housekeeping hook: those whose message code is neither data nor close.
pub open spec fn batch_others(frames: Seq<Seq<u8>>) -> Seq<Seq<u8>>
    decreases frames.len(),
{
    if frames.len() == 0 {
        Seq::empty()
    } else {
        (if is_other(frames[0]) {
            seq![frames[0]]
        } else {
            Seq::empty()
        }) + batch_others(frames.drop_first())
    }
}

/// The concatenation, in arrival order, of exactly the payloads of the data
/// frames addressed to channel `n`.
pub open spec fn data_payloads(frames: Seq<Seq<u8>>, n: u32) -> Seq<u8>
    decreases frames.len(),
{
    if frames.len() == 0 {
        Seq::empty()
    } else {
        (if is_data_for(frames[0], n) {
            payload_of(frames[0])
        } else {
            Seq::empty()
        }) + data_payloads(frames.drop_first(), n)
    }
}

/// Encoding a 32-bit integer big-endian and reading the four bytes back is
/// the identity.
pub proof fn lemma_u32_be_roundtrip(v: u32)
    ensures
        u32_of_be(u32_be(v)[0], u32_be(v)[1], u32_be(v)[2], u32_be(v)[3]) == v,
{
    assert((((v >> 24) as u8 as u32) << 24) | (((v >> 16) as u8 as u32) << 16) | (((v >> 8) as u8
        as u32) << 8) | ((v as u8) as u32) == v) by (bit_vector);
}

/// What the channel layer builds is what a peer with that number would read:
/// a data frame for channel `n` carrying `payload` is a data frame addressed
/// to `n` with exactly that payload, and a close frame for `n` is a close
/// addressed to `n`.
pub proof fn lemma_built_frames_addressed(n: u32, payload: Seq<u8>)
    ensures
        is_data_for(data_frame(n, payload), n),
        payload_of(data_frame(n, payload)) == payload,
        is_close_for(close_frame(n), n),
{
    lemma_u32_be_roundtrip(n);
    assert(payload_of(data_frame(n, payload)) =~= payload);
}

/// Demultiplexing law: over any sequence of frames holding no close addressed
/// to channel `n`, the bytes a dispatch pass accumulates for `n` are exactly
/// the concatenation, in arrival order, of the payloads of the data frames
/// addressed to `n`; frames addressed to other channels contribute nothing.
pub proof fn lemma_collect_demultiplexes(frames: Seq<Seq<u8>>, n: u32)
    requires
        forall|i: int| 0 <= i < frames.len() ==> !is_close_for(#[trigger] frames[i], n),
    ensures
        batch_collect(frames, n, false) == data_payloads(frames, n),
    decreases frames.len(),
{
    if frames.len() > 0 {
        assert(forall|i: int|
            0 <= i < frames.drop_first().len() ==> !is_close_for(
                #[trigger] frames.drop_first()[i],
                n,
            ));
        lemma_collect_demultiplexes(frames.drop_first(), n);
        if !is_data_for(frames[0], n) {
            assert(batch_collect(frames, n, false) == data_payloads(frames.drop_first(), n));
            assert(data_payloads(frames, n) == Seq::<u8>::empty() + data_payloads(
                frames.drop_first(),
                n,
            ));
            assert(Seq::<u8>::empty() + data_payloads(frames.drop_first(), n) =~= data_payloads(
                frames.drop_first(),
                n,
            ));
        }
    }
}

} // verus!
