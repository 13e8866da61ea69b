//! Exec, shell and SCP flavors over a scripted connection.

use ssh_channel::channel::Channel;
use ssh_channel::channel_exec::ChannelExec;
use ssh_channel::channel_scp::{check_path, ChannelScp, LocalPath, ScpFile};
use ssh_channel::channel_shell::ChannelShell;
use ssh_channel::codec::Data;
use ssh_channel::connection::Connection;
use ssh_channel::error::SshError;

fn data_frame_for(channel_no: u32, payload: &[u8]) -> Data {
    let mut d = Data::new();
    d.put_u8(94);
    d.put_u32(channel_no);
    d.put_u8s(payload);
    d
}

fn close_frame_for(channel_no: u32) -> Data {
    let mut d = Data::new();
    d.put_u8(97);
    d.put_u32(channel_no);
    d
}

fn scripted(batches: Vec<Vec<Data>>) -> Channel {
    Channel::new(
        0,
        5,
        2048,
        Connection {
            inbound: batches,
            outbound: Vec::new(),
            others: Vec::new(),
            broken: false,
        },
    )
}

#[test]
fn exec_collects_until_both_closed() {
    // one data frame "hi\n", then a close for the matching channel
    let ch = scripted(vec![
        vec![data_frame_for(0, b"hi\n")],
        vec![close_frame_for(0)],
    ]);
    let exec = ChannelExec::new(ch);
    let out = exec.send_command("echo hi").unwrap();
    assert_eq!(out, b"hi\n".to_vec());
}

#[test]
fn exec_sends_the_request_frame() {
    let ch = scripted(vec![vec![data_frame_for(0, b"hi\n"), close_frame_for(0)]]);
    let mut expected = Data::new();
    expected.put_u8(98);
    expected.put_u32(5);
    expected.put_str("exec");
    expected.put_u8(1);
    expected.put_str("echo hi");
    let exec = ChannelExec::new(ch);
    let out = exec.send_command("echo hi").unwrap();
    assert_eq!(out, b"hi\n".to_vec());
    assert_eq!(
        expected.buf,
        vec![
            98, 0, 0, 0, 5, 0, 0, 0, 4, b'e', b'x', b'e', b'c', 1, 0, 0, 0, 7, b'e', b'c', b'h',
            b'o', b' ', b'h', b'i'
        ]
    );
}

#[test]
fn exec_ignores_frames_for_other_channels() {
    let ch = scripted(vec![vec![
        data_frame_for(3, b"not ours"),
        data_frame_for(0, b"ours"),
        close_frame_for(3),
        close_frame_for(0),
    ]]);
    let exec = ChannelExec::new(ch);
    assert_eq!(exec.send_command("cat").unwrap(), b"ours".to_vec());
}

#[test]
fn exec_without_a_close_fails() {
    let ch = scripted(vec![vec![data_frame_for(0, b"partial")]]);
    let exec = ChannelExec::new(ch);
    assert_eq!(exec.send_command("cat"), Err(SshError::Transport));
}

#[test]
fn shell_echo_roundtrip() {
    // the peer echoes one data frame [0x61, 0x62]
    let ch = scripted(vec![vec![data_frame_for(0, &[0x61, 0x62])]]);
    let mut shell = ChannelShell::new(ch);
    shell.write(&[0x61, 0x62]).unwrap();
    assert_eq!(shell.0.client.outbound.len(), 1);
    assert_eq!(
        shell.0.client.outbound[0].buf,
        vec![94, 0, 0, 0, 5, 0x61, 0x62]
    );
    let echoed = shell.read().unwrap();
    assert_eq!(echoed, vec![0x61, 0x62]);
}

#[test]
fn shell_read_may_be_empty() {
    let ch = scripted(vec![vec![close_frame_for(9)]]);
    let mut shell = ChannelShell::new(ch);
    assert_eq!(shell.read().unwrap(), Vec::<u8>::new());
}

#[test]
fn shell_close_consumes_the_stream() {
    let ch = scripted(vec![]);
    let shell = ChannelShell::new(ch);
    assert!(shell.close().is_ok());
}

#[test]
fn scp_read_data_skips_empty_batches() {
    let ch = scripted(vec![
        vec![data_frame_for(8, b"other stream")],
        vec![data_frame_for(0, b"C0644 2 f\n")],
    ]);
    let mut scp = ChannelScp::open(ch);
    assert_eq!(scp.read_data().unwrap(), b"C0644 2 f\n".to_vec());
    // both batches were consumed
    assert!(scp.channel.client.inbound.is_empty());
}

#[test]
fn scp_read_data_returns_empty_on_remote_close() {
    let ch = scripted(vec![vec![close_frame_for(0)]]);
    let mut scp = ChannelScp::open(ch);
    assert_eq!(scp.read_data().unwrap(), Vec::<u8>::new());
    assert!(scp.channel.remote_close);
    assert!(scp.channel.local_close);
}

#[test]
fn scp_send_end_is_the_ack_token() {
    let ch = scripted(vec![]);
    let mut scp = ChannelScp::open(ch);
    scp.send_end().unwrap();
    assert_eq!(scp.channel.client.outbound[0].buf, vec![94, 0, 0, 0, 5, 0]);
}

#[test]
fn scp_send_str_sends_the_line() {
    let ch = scripted(vec![]);
    let mut scp = ChannelScp::open(ch);
    scp.send_str("E\n").unwrap();
    assert_eq!(
        scp.channel.client.outbound[0].buf,
        vec![94, 0, 0, 0, 5, b'E', b'\n']
    );
}

#[test]
fn scp_command_init_field_order() {
    let ch = scripted(vec![]);
    let scp = ChannelScp::open(ch);
    let cmd = scp.command_init("/tmp/data", "-f");
    assert_eq!(cmd, "scp -f -q -r -p /tmp/data");
}

#[test]
fn scp_exec_scp_sends_request() {
    let ch = scripted(vec![]);
    let mut scp = ChannelScp::open(ch);
    let cmd = scp.command_init("/tmp/data", "-f");
    scp.exec_scp(cmd.as_str()).unwrap();
    assert_eq!(scp.channel.client.outbound.len(), 1);
    let sent = &scp.channel.client.outbound[0].buf;
    assert_eq!(sent[0], 98);
    assert_eq!(&sent[1..5], &[0, 0, 0, 5]);
    assert_eq!(&sent[5..9], &[0, 0, 0, 4]);
    assert_eq!(&sent[9..13], b"exec");
    assert_eq!(sent[13], 1);
    assert_eq!(&sent[18..], cmd.as_bytes());
}

#[test]
fn scp_join_into_directory() {
    let mut f = ScpFile::new();
    f.local_path = LocalPath {
        text: String::from("/home/user/downloads"),
        is_dir: true,
    };
    assert_eq!(f.join("report.csv"), "/home/user/downloads/report.csv");
}

#[test]
fn scp_join_concrete_file_is_verbatim() {
    let mut f = ScpFile::new();
    f.local_path = LocalPath {
        text: String::from("/home/user/exact.bin"),
        is_dir: false,
    };
    assert_eq!(f.join("report.csv"), "/home/user/exact.bin");
    assert_eq!(f.join("whatever"), "/home/user/exact.bin");
}

#[test]
fn scp_file_starts_empty() {
    let f = ScpFile::new();
    assert_eq!(f.modify_time, 0);
    assert_eq!(f.access_time, 0);
    assert_eq!(f.size, 0);
    assert_eq!(f.name, "");
    assert!(!f.is_dir);
    assert_eq!(f.local_path.text, "");
}

#[test]
fn malformed_path_fails_before_any_write() {
    let ch = scripted(vec![]);
    let mut scp = ChannelScp::open(ch);
    let raw: Option<String> = None;
    let mut started = false;
    match check_path(&raw) {
        Ok(()) => {
            started = true;
            scp.send_str("T0 0 0 0\n").unwrap();
        }
        Err(e) => assert_eq!(e, SshError::InvalidPath),
    }
    assert!(!started);
    assert!(scp.channel.client.outbound.is_empty());
}

#[test]
fn valid_path_passes_check() {
    let raw = Some(String::from("/tmp/x"));
    assert!(check_path(&raw).is_ok());
}
