//! The binary framing used on the control socket. A request is the service
//! name's UTF-8 bytes behind a little-endian 8-byte length, followed by one
//! command tag byte. A response is a status tag byte followed by its payload.
//! Encoding and decoding are exact inverses (see the round-trip lemmas).

use vstd::prelude::*;
use vstd::bytes::*;
use vstd::utf8::*;
use vstd::slice::{slice_subrange, slice_to_vec};
use vstd::string::StrSliceExecFns;
use crate::protocol::{ServiceCommands, ExitStatus, ServiceStatus, SockMessage, SockMessageView};

verus! {

// --- command tags -------------------------------------------------------

/// The stable tag byte of each command.
pub open spec fn spec_command_tag(c: ServiceCommands) -> u8 {
    match c {
        ServiceCommands::Down => 0,
        ServiceCommands::Kill => 1,
        ServiceCommands::Up => 2,
        ServiceCommands::Restart => 3,
        ServiceCommands::Status => 4,
    }
}

/// The command a tag byte stands for, if any.
pub open spec fn spec_command_from_tag(t: u8) -> Option<ServiceCommands> {
    if t == 0 {
        Some(ServiceCommands::Down)
    } else if t == 1 {
        Some(ServiceCommands::Kill)
    } else if t == 2 {
        Some(ServiceCommands::Up)
    } else if t == 3 {
        Some(ServiceCommands::Restart)
    } else if t == 4 {
        Some(ServiceCommands::Status)
    } else {
        None
    }
}

pub fn command_tag(c: &ServiceCommands) -> (t: u8)
    ensures
        t == spec_command_tag(*c),
{
    match c {
        ServiceCommands::Down => 0,
        ServiceCommands::Kill => 1,
        ServiceCommands::Up => 2,
        ServiceCommands::Restart => 3,
        ServiceCommands::Status => 4,
    }
}

pub fn command_from_tag(t: u8) -> (c: Option<ServiceCommands>)
    ensures
        c == spec_command_from_tag(t),
{
    if t == 0 {
        Some(ServiceCommands::Down)
    } else if t == 1 {
        Some(ServiceCommands::Kill)
    } else if t == 2 {
        Some(ServiceCommands::Up)
    } else if t == 3 {
        Some(ServiceCommands::Restart)
    } else if t == 4 {
        Some(ServiceCommands::Status)
    } else {
        None
    }
}

/// Every command comes back from its own tag.
pub proof fn lemma_command_tag_round_trip(c: ServiceCommands)
    ensures
        spec_command_from_tag(spec_command_tag(c)) == Some(c),
{
}

// --- signal values on the wire ------------------------------------------

/// A signal number shifted into unsigned range (excess-2^31), so that it
/// travels as a plain little-endian `u32`.
pub open spec fn spec_signal_word(s: i32) -> u32 {
    (s + 0x8000_0000) as u32
}

/// The signal number a wire word stands for.
pub open spec fn spec_word_signal(w: u32) -> i32 {
    (w - 0x8000_0000) as i32
}

/// Every signal number comes back from its wire word.
pub proof fn lemma_signal_word_round_trip(s: i32)
    ensures
        spec_word_signal(spec_signal_word(s)) == s,
{
}

pub fn signal_word(s: i32) -> (w: u32)
    ensures
        w == spec_signal_word(s),
{
    ((s as i64) + 0x8000_0000i64) as u32
}

pub fn word_signal(w: u32) -> (s: i32)
    ensures
        s == spec_word_signal(w),
{
    ((w as i64) - 0x8000_0000i64) as i32
}

// --- status responses ----------------------------------------------------

/// The bytes of an encoded status response.
pub open spec fn spec_encode_status(s: ServiceStatus) -> Seq<u8> {
    match s {
        ServiceStatus::Down => seq![0u8],
        ServiceStatus::Running(pid) => seq![1u8] + spec_u32_to_le_bytes(pid),
        ServiceStatus::Crashed(ExitStatus::Code(c)) => seq![2u8, 0u8, c],
        ServiceStatus::Crashed(ExitStatus::Signal(sig)) => seq![2u8, 1u8] + spec_u32_to_le_bytes(
            spec_signal_word(sig),
        ),
    }
}

/// The status a byte sequence stands for: `None` unless the buffer is exactly
/// one well-formed status record.
pub open spec fn spec_decode_status(b: Seq<u8>) -> Option<ServiceStatus> {
    if b.len() == 0 {
        None
    } else if b[0] == 0 {
        if b.len() == 1 {
            Some(ServiceStatus::Down)
        } else {
            None
        }
    } else if b[0] == 1 {
        if b.len() == 5 {
            Some(ServiceStatus::Running(spec_u32_from_le_bytes(b.subrange(1, 5))))
        } else {
            None
        }
    } else if b[0] == 2 {
        if b.len() < 2 {
            None
        } else if b[1] == 0 {
            if b.len() == 3 {
                Some(ServiceStatus::Crashed(ExitStatus::Code(b[2])))
            } else {
                None
            }
        } else if b[1] == 1 {
            if b.len() == 6 {
                Some(
                    ServiceStatus::Crashed(
                        ExitStatus::Signal(spec_word_signal(spec_u32_from_le_bytes(b.subrange(2, 6)))),
                    ),
                )
            } else {
                None
            }
        } else {
            None
        }
    } else {
        None
    }
}

pub fn encode_status(s: &ServiceStatus) -> (r: Vec<u8>)
    ensures
        r@ == spec_encode_status(*s),
{
    match s {
        ServiceStatus::Down => {
            let mut v: Vec<u8> = Vec::new();
            v.push(0u8);
            proof {
                assert(v@ =~= seq![0u8]);
            }
            v
        },
        ServiceStatus::Running(pid) => {
            let mut v: Vec<u8> = Vec::new();
            v.push(1u8);
            let mut tail = u32_to_le_bytes(*pid);
            v.append(&mut tail);
            proof {
                assert(v@ =~= seq![1u8] + spec_u32_to_le_bytes(*pid));
            }
            v
        },
        ServiceStatus::Crashed(ExitStatus::Code(c)) => {
            let mut v: Vec<u8> = Vec::new();
            v.push(2u8);
            v.push(0u8);
            v.push(*c);
            proof {
                assert(v@ =~= seq![2u8, 0u8, *c]);
            }
            v
        },
        ServiceStatus::Crashed(ExitStatus::Signal(sig)) => {
            let mut v: Vec<u8> = Vec::new();
            v.push(2u8);
            v.push(1u8);
            let mut tail = u32_to_le_bytes(signal_word(*sig));
            v.append(&mut tail);
            proof {
                assert(v@ =~= seq![2u8, 1u8] + spec_u32_to_le_bytes(spec_signal_word(*sig)));
            }
            v
        },
    }
}

pub fn decode_status(b: &[u8]) -> (r: Option<ServiceStatus>)
    ensures
        r == spec_decode_status(b@),
{
    if b.len() == 0 {
        return None;
    }
    let tag = b[0];
    if tag == 0 {
        if b.len() == 1 {
            Some(ServiceStatus::Down)
        } else {
            None
        }
    } else if tag == 1 {
        if b.len() == 5 {
            let pid = u32_from_le_bytes(slice_subrange(b, 1, 5));
            Some(ServiceStatus::Running(pid))
        } else {
            None
        }
    } else if tag == 2 {
        if b.len() < 2 {
            None
        } else if b[1] == 0 {
            if b.len() == 3 {
                Some(ServiceStatus::Crashed(ExitStatus::Code(b[2])))
            } else {
                None
            }
        } else if b[1] == 1 {
            if b.len() == 6 {
                let w = u32_from_le_bytes(slice_subrange(b, 2, 6));
                Some(ServiceStatus::Crashed(ExitStatus::Signal(word_signal(w))))
            } else {
                None
            }
        } else {
            None
        }
    } else {
        None
    }
}

/// Round trip: decoding an encoded status yields the same status.
pub proof fn lemma_status_round_trip(s: ServiceStatus)
    ensures
        spec_decode_status(spec_encode_status(s)) == Some(s),
{
    lemma_auto_spec_u32_to_from_le_bytes();
    match s {
        ServiceStatus::Down => {
        },
        ServiceStatus::Running(pid) => {
            let b = spec_encode_status(s);
            assert(b.subrange(1, 5) =~= spec_u32_to_le_bytes(pid));
        },
        ServiceStatus::Crashed(ExitStatus::Code(c)) => {
        },
        ServiceStatus::Crashed(ExitStatus::Signal(sig)) => {
            let b = spec_encode_status(s);
            assert(b.subrange(2, 6) =~= spec_u32_to_le_bytes(spec_signal_word(sig)));
            lemma_signal_word_round_trip(sig);
        },
    }
}

// --- request messages -----------------------------------------------------

/// The bytes of an encoded request: length, name, command tag.
pub open spec fn spec_encode_msg(m: SockMessageView) -> Seq<u8> {
    spec_u64_to_le_bytes(encode_utf8(m.service).len() as u64) + encode_utf8(m.service) + seq![
        spec_command_tag(m.command),
    ]
}

/// The request a byte sequence stands for: `None` unless the buffer is
/// exactly one well-formed request record.
pub open spec fn spec_decode_msg(b: Seq<u8>) -> Option<SockMessageView> {
    if b.len() < 9 {
        None
    } else {
        let n = spec_u64_from_le_bytes(b.subrange(0, 8));
        if b.len() != n + 9 {
            None
        } else {
            let payload = b.subrange(8, 8 + n as int);
            if !valid_utf8(payload) {
                None
            } else {
                match spec_command_from_tag(b[b.len() - 1]) {
                    Some(c) => Some(SockMessageView { service: decode_utf8(payload), command: c }),
                    None => None,
                }
            }
        }
    }
}

/// Relies on `String::from_utf8`: it returns `Ok` exactly when the bytes are
/// valid UTF-8, and the returned string's UTF-8 encoding is the input vector.
#[verifier::external_body]
fn bytes_to_string(v: Vec<u8>) -> (r: Option<String>)
    ensures
        r is Some <==> valid_utf8(v@),
        r matches Some(s) ==> encode_utf8(s@) == v@,
{
    match String::from_utf8(v) {
        Ok(s) => Some(s),
        Err(_) => None,
    }
}

pub fn encode_msg(m: &SockMessage) -> (r: Vec<u8>)
    ensures
        r@ == spec_encode_msg(m@),
{
    let mut payload: Vec<u8> = m.service.as_str().as_bytes_vec();
    let mut out: Vec<u8> = u64_to_le_bytes(payload.len() as u64);
    out.append(&mut payload);
    out.push(command_tag(&m.command));
    proof {
        assert(out@ =~= spec_encode_msg(m@));
    }
    out
}

pub fn decode_msg(b: &[u8]) -> (r: Option<SockMessage>)
    ensures
        match r {
            Some(m) => spec_decode_msg(b@) == Some(m@),
            None => spec_decode_msg(b@) is None,
        },
{
    if b.len() < 9 {
        return None;
    }
    let n64 = u64_from_le_bytes(slice_subrange(b, 0, 8));
    let body_len: usize = b.len() - 9;
    if n64 != body_len as u64 {
        return None;
    }
    let payload = slice_subrange(b, 8, 8 + body_len);
    let service = bytes_to_string(slice_to_vec(payload));
    match service {
        None => None,
        Some(service) => {
            match command_from_tag(b[b.len() - 1]) {
                None => None,
                Some(command) => {
                    proof {
                        encode_utf8_decode_utf8(service@);
                    }
                    Some(SockMessage { service, command })
                },
            }
        },
    }
}

/// Round trip: decoding an encoded request yields the same request. The one
/// bound asked of the name is that its UTF-8 form fits the length field.
pub proof fn lemma_msg_round_trip(m: SockMessageView)
    requires
        encode_utf8(m.service).len() <= u64::MAX,
    ensures
        spec_decode_msg(spec_encode_msg(m)) == Some(m),
{
    lemma_auto_spec_u64_to_from_le_bytes();
    let payload = encode_utf8(m.service);
    let n = payload.len();
    let e = spec_encode_msg(m);
    assert(e.len() == 9 + n);
    assert(e.subrange(0, 8) =~= spec_u64_to_le_bytes(n as u64));
    assert(spec_u64_from_le_bytes(e.subrange(0, 8)) == n as u64);
    assert(e.subrange(8, 8 + n as int) =~= payload);
    encode_utf8_valid_utf8(m.service);
    assert(e[e.len() - 1] == spec_command_tag(m.command));
    lemma_command_tag_round_trip(m.command);
    encode_utf8_decode_utf8(m.service);
    assert(spec_decode_msg(e) == Some(m));
}

} // verus!
