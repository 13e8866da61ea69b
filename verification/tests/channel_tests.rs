//! Channel-core and codec behavior over a scripted connection.

use ssh_channel::channel::Channel;
use ssh_channel::codec::Data;
use ssh_channel::connection::Connection;
use ssh_channel::error::SshError;

fn frame(bytes: &[u8]) -> Data {
    Data {
        buf: bytes.to_vec(),
        pos: 0,
    }
}

fn data_frame(channel_no: u32, payload: &[u8]) -> Data {
    let mut d = Data::new();
    d.put_u8(94);
    d.put_u32(channel_no);
    d.put_u8s(payload);
    d
}

fn close_frame(channel_no: u32) -> Data {
    let mut d = Data::new();
    d.put_u8(97);
    d.put_u32(channel_no);
    d
}

fn connection_with(batches: Vec<Vec<Data>>) -> Connection {
    Connection {
        inbound: batches,
        outbound: Vec::new(),
        others: Vec::new(),
        broken: false,
    }
}

fn channel_with(batches: Vec<Vec<Data>>) -> Channel {
    Channel::new(1, 7, 1000, connection_with(batches))
}

#[test]
fn codec_roundtrip() {
    let mut d = Data::new();
    d.put_u8(94);
    d.put_u32(258);
    d.put_u8s(&[10, 20, 30]);
    assert_eq!(d.buf, vec![94, 0, 0, 1, 2, 10, 20, 30]);
    assert_eq!(d.get_u8(), 94);
    assert_eq!(d.get_u32(), 258);
    assert_eq!(d.get_u8s(), vec![10, 20, 30]);
}

#[test]
fn codec_put_str_is_length_prefixed() {
    let mut d = Data::new();
    d.put_str("hi");
    assert_eq!(d.buf, vec![0, 0, 0, 2, b'h', b'i']);
}

#[test]
fn codec_empty_frame() {
    let d = Data::new();
    assert!(d.is_empty());
    assert_eq!(d.len(), 0);
}

#[test]
fn close_is_idempotent() {
    let mut ch = channel_with(vec![]);
    assert!(ch.close().is_ok());
    assert!(ch.local_close);
    assert!(ch.close().is_ok());
    assert!(ch.local_close);
    // only the first call wrote a close frame
    assert_eq!(ch.client.outbound.len(), 1);
    assert_eq!(ch.client.outbound[0].buf, vec![97, 0, 0, 0, 7]);
}

#[test]
fn full_close_needs_both_sides() {
    let mut ch = channel_with(vec![]);
    assert!(!ch.is_closed());
    ch.remote_close = true;
    assert!(!ch.is_closed());
    ch.remote_close = false;
    ch.local_close = true;
    assert!(!ch.is_closed());
    ch.remote_close = true;
    assert!(ch.is_closed());
}

#[test]
fn send_consumes_window() {
    let mut ch = Channel::new(1, 7, 10, connection_with(vec![]));
    assert!(ch.send(&[1, 2, 3, 4]).is_ok());
    assert_eq!(ch.window_size, 6);
    assert_eq!(ch.client.outbound[0].buf, vec![94, 0, 0, 0, 7, 1, 2, 3, 4]);
}

#[test]
fn send_beyond_window_is_refused() {
    let mut ch = Channel::new(1, 7, 10, connection_with(vec![]));
    assert!(ch.send(&[0; 4]).is_ok());
    assert_eq!(ch.send(&[0; 7]), Err(SshError::WindowExceeded));
    // the refused send wrote nothing and consumed nothing
    assert_eq!(ch.window_size, 6);
    assert_eq!(ch.client.outbound.len(), 1);
    assert!(ch.send(&[0; 6]).is_ok());
    assert_eq!(ch.window_size, 0);
    assert_eq!(ch.send(&[0]), Err(SshError::WindowExceeded));
}

#[test]
fn receive_demultiplexes_by_channel_number() {
    let batch = vec![
        data_frame(1, b"ab"),
        data_frame(2, b"zz"),
        data_frame(1, b"cd"),
    ];
    let mut ch = channel_with(vec![batch]);
    let got = ch.receive().unwrap();
    assert_eq!(got, b"abcd".to_vec());
    assert!(!ch.remote_close);
    assert!(ch.client.outbound.is_empty());
}

#[test]
fn receive_close_sets_both_flags_and_acknowledges() {
    let batch = vec![data_frame(1, b"x"), close_frame(1), data_frame(1, b"y")];
    let mut ch = channel_with(vec![batch]);
    let got = ch.receive().unwrap();
    // data arriving after the close for this channel is dropped
    assert_eq!(got, b"x".to_vec());
    assert!(ch.remote_close);
    assert!(ch.local_close);
    assert!(ch.is_closed());
    assert_eq!(ch.client.outbound.len(), 1);
    assert_eq!(ch.client.outbound[0].buf, vec![97, 0, 0, 0, 7]);
}

#[test]
fn receive_ignores_close_for_other_channel() {
    let batch = vec![close_frame(2), data_frame(1, b"ok")];
    let mut ch = channel_with(vec![batch]);
    let got = ch.receive().unwrap();
    assert_eq!(got, b"ok".to_vec());
    assert!(!ch.remote_close);
    assert!(!ch.local_close);
    assert!(ch.client.outbound.is_empty());
}

#[test]
fn receive_forwards_other_codes_to_housekeeping() {
    let batch = vec![frame(&[80, 1, 2, 3]), data_frame(1, b"k")];
    let mut ch = channel_with(vec![batch]);
    let got = ch.receive().unwrap();
    assert_eq!(got, b"k".to_vec());
    assert_eq!(ch.client.others.len(), 1);
    assert_eq!(ch.client.others[0].buf, vec![80, 1, 2, 3]);
}

#[test]
fn receive_skips_empty_frames() {
    let batch = vec![frame(&[]), data_frame(1, b"q")];
    let mut ch = channel_with(vec![batch]);
    assert_eq!(ch.receive().unwrap(), b"q".to_vec());
    assert!(ch.client.others.is_empty());
}

#[test]
fn receive_on_broken_transport_fails() {
    let mut conn = connection_with(vec![vec![data_frame(1, b"x")]]);
    conn.broken = true;
    let mut ch = Channel::new(1, 7, 1000, conn);
    assert_eq!(ch.receive(), Err(SshError::Transport));
}

#[test]
fn send_on_broken_transport_fails() {
    let mut conn = Connection::new();
    conn.broken = true;
    let mut ch = Channel::new(1, 7, 1000, conn);
    assert_eq!(ch.send(&[1]), Err(SshError::Transport));
    assert_eq!(ch.window_size, 1000);
}

#[test]
fn receive_with_nothing_scripted_fails() {
    let mut ch = channel_with(vec![]);
    assert_eq!(ch.receive(), Err(SshError::Transport));
}
