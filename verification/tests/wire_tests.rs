use iodine::wire::{decode_msg, decode_status, encode_msg, encode_status};
use iodine::{ExitStatus, ServiceCommands, ServiceStatus, SockMessage};

fn msg(service: &str, command: ServiceCommands) -> SockMessage {
    SockMessage { service: String::from(service), command }
}

#[test]
fn request_exact_bytes() {
    let bytes = encode_msg(&msg("echo", ServiceCommands::Up));
    assert_eq!(bytes, vec![4, 0, 0, 0, 0, 0, 0, 0, b'e', b'c', b'h', b'o', 2]);
}

#[test]
fn request_round_trip_every_command() {
    let commands = [
        ServiceCommands::Down,
        ServiceCommands::Kill,
        ServiceCommands::Up,
        ServiceCommands::Restart,
        ServiceCommands::Status,
    ];
    for command in commands {
        let bytes = encode_msg(&msg("some-service", command));
        let back = decode_msg(&bytes).expect("decodes");
        assert_eq!(back.service, "some-service");
        assert_eq!(back.command, command);
    }
}

#[test]
fn request_round_trip_empty_name() {
    let bytes = encode_msg(&msg("", ServiceCommands::Status));
    let back = decode_msg(&bytes).expect("decodes");
    assert_eq!(back.service, "");
    assert_eq!(back.command, ServiceCommands::Status);
}

#[test]
fn request_round_trip_non_ascii_name() {
    let bytes = encode_msg(&msg("caf\u{e9}-\u{1F980}", ServiceCommands::Down));
    let back = decode_msg(&bytes).expect("decodes");
    assert_eq!(back.service, "caf\u{e9}-\u{1F980}");
    assert_eq!(back.command, ServiceCommands::Down);
}

#[test]
fn request_rejects_bad_tag() {
    let mut bytes = encode_msg(&msg("echo", ServiceCommands::Up));
    let last = bytes.len() - 1;
    bytes[last] = 9;
    assert!(decode_msg(&bytes).is_none());
}

#[test]
fn request_rejects_truncation_and_padding() {
    let bytes = encode_msg(&msg("echo", ServiceCommands::Up));
    assert!(decode_msg(&bytes[..bytes.len() - 1]).is_none());
    assert!(decode_msg(&[]).is_none());
    assert!(decode_msg(&bytes[..5]).is_none());
    let mut longer = bytes.clone();
    longer.push(0);
    assert!(decode_msg(&longer).is_none());
}

#[test]
fn request_rejects_wrong_length_field() {
    let mut bytes = encode_msg(&msg("echo", ServiceCommands::Up));
    bytes[0] = 3;
    assert!(decode_msg(&bytes).is_none());
}

#[test]
fn request_rejects_invalid_utf8() {
    let bytes = vec![2, 0, 0, 0, 0, 0, 0, 0, 0xff, 0xfe, 2];
    assert!(decode_msg(&bytes).is_none());
}

#[test]
fn status_exact_bytes() {
    assert_eq!(encode_status(&ServiceStatus::Down), vec![0]);
    assert_eq!(
        encode_status(&ServiceStatus::Running(0x01020304)),
        vec![1, 4, 3, 2, 1]
    );
    assert_eq!(
        encode_status(&ServiceStatus::Crashed(ExitStatus::Code(7))),
        vec![2, 0, 7]
    );
}

#[test]
fn status_round_trip() {
    let statuses = [
        ServiceStatus::Down,
        ServiceStatus::Running(0),
        ServiceStatus::Running(43210),
        ServiceStatus::Crashed(ExitStatus::Code(0)),
        ServiceStatus::Crashed(ExitStatus::Code(255)),
        ServiceStatus::Crashed(ExitStatus::Signal(15)),
        ServiceStatus::Crashed(ExitStatus::Signal(-1)),
        ServiceStatus::Crashed(ExitStatus::Signal(i32::MIN)),
        ServiceStatus::Crashed(ExitStatus::Signal(i32::MAX)),
    ];
    for status in statuses {
        let bytes = encode_status(&status);
        assert_eq!(decode_status(&bytes), Some(status));
    }
}

#[test]
fn status_rejects_malformed() {
    assert!(decode_status(&[]).is_none());
    assert!(decode_status(&[3]).is_none());
    assert!(decode_status(&[0, 0]).is_none());
    assert!(decode_status(&[1, 1, 2, 3]).is_none());
    assert!(decode_status(&[2]).is_none());
    assert!(decode_status(&[2, 2, 0]).is_none());
    assert!(decode_status(&[2, 1, 0, 0, 0]).is_none());
}
