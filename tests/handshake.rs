use nbd::client::Client;
use nbd::consts::{NbdOpt, NBD_OPTS_MAGIC, NBD_REP_MAGIC};
use nbd::handshake::{handle_list, handshake_greeting, parse_info_request, OptionHeader};
use nbd::protocol::{handshake_reply, info_reply, OptionMessage};
use nbd::consts::{NbdInfoOpt, NbdReply};
use nbd::{export_flags, set_flags, Export, InteractionResult, NbdError, Server};

const GIB: u64 = 1 << 30;

fn test_server() -> Server {
    Server::new(Export::new("/tmp/test.img".to_string(), "test".to_string(), "test".to_string(), GIB).unwrap())
}

fn header(option: u32, length: usize) -> OptionHeader {
    OptionHeader { magic: NBD_OPTS_MAGIC, option, length: length as u32 }
}

fn be32(v: u32) -> Vec<u8> {
    v.to_be_bytes().to_vec()
}

/// Payload of INFO/GO: name length, name, count, codes.
fn info_payload(name: &[u8], codes: &[u16]) -> Vec<u8> {
    let mut d = be32(name.len() as u32);
    d.extend_from_slice(name);
    d.extend_from_slice(&(codes.len() as u16).to_be_bytes());
    for c in codes {
        d.extend_from_slice(&c.to_be_bytes());
    }
    d
}

fn reply_bytes(option: u32, reply_type: u32, payload: &[u8]) -> Vec<u8> {
    let mut v = NBD_REP_MAGIC.to_be_bytes().to_vec();
    v.extend_from_slice(&option.to_be_bytes());
    v.extend_from_slice(&reply_type.to_be_bytes());
    v.extend_from_slice(&(payload.len() as u32).to_be_bytes());
    v.extend_from_slice(payload);
    v
}

fn all_bytes(replies: &[OptionMessage]) -> Vec<Vec<u8>> {
    replies.iter().map(|m| m.to_bytes()).collect()
}

#[test]
fn greeting_is_magics_and_flags() {
    let g = handshake_greeting();
    let mut expected = b"NBDMAGIC".to_vec();
    expected.extend_from_slice(b"IHAVEOPT");
    expected.extend_from_slice(&[0x00, 0x03]);
    assert_eq!(g, expected);
}

#[test]
fn option_header_decodes_big_endian() {
    let mut buf = NBD_OPTS_MAGIC.to_be_bytes().to_vec();
    buf.extend_from_slice(&[0, 0, 0, 7, 0, 0, 1, 2]);
    let h = OptionHeader::decode(&buf).unwrap();
    assert_eq!(h, OptionHeader { magic: NBD_OPTS_MAGIC, option: 7, length: 258 });
    assert_eq!(h.to_bytes(), buf);
    assert_eq!(OptionHeader::decode(&buf[..15]), None);
}

#[test]
fn client_flags_are_recorded() {
    let mut c = Client::new((), "peer".to_string());
    assert!(c.accept_client_flags(1));
    assert!(!c.no_zeroes());
    assert!(c.accept_client_flags(3));
    assert!(c.no_zeroes());
    assert!(!c.accept_client_flags(7));
    assert!(c.no_zeroes());
    assert!(!c.accept_client_flags(0));
    assert!(!c.no_zeroes());
}

#[test]
fn info_query_go_sends_name_description_block_size_export_ack() {
    let server = test_server();
    let mut c = Client::new((), "peer".to_string());
    let data = info_payload(b"", &[1, 2, 3]);
    let out = server.handshake_step(&mut c, &header(7, data.len()), &data);
    assert_eq!(out.result, Some(InteractionResult::Continue));
    assert!(out.export_data.is_empty());
    let flags = export_flags(&server.export);
    let mut export_info = vec![0, 0];
    export_info.extend_from_slice(&GIB.to_be_bytes());
    export_info.extend_from_slice(&flags.to_be_bytes());
    let expected = vec![
        reply_bytes(7, 3, &[0, 1, b't', b'e', b's', b't']),
        reply_bytes(7, 3, &[0, 2, b't', b'e', b's', b't']),
        reply_bytes(7, 3, &[0, 3, 0, 0, 0, 1, 0, 0, 0x10, 0, 0x02, 0, 0, 0]),
        reply_bytes(7, 3, &export_info),
        reply_bytes(7, 1, &[]),
    ];
    assert_eq!(all_bytes(&out.replies), expected);
}

#[test]
fn info_without_requests_sends_block_size_export_ack_and_stays() {
    let server = test_server();
    let mut c = Client::new((), "peer".to_string());
    let data = info_payload(b"test", &[]);
    let out = server.handshake_step(&mut c, &header(6, data.len()), &data);
    assert_eq!(out.result, None);
    assert_eq!(out.replies.len(), 3);
    assert_eq!(out.replies[0].payload, vec![0, 3, 0, 0, 0, 1, 0, 0, 0x10, 0, 0x02, 0, 0, 0]);
    assert_eq!(out.replies[2].header.reply_type, 1);
}

#[test]
fn block_size_maximum_is_export_size_when_smaller() {
    let export = Export::new("f".to_string(), "".to_string(), "".to_string(), 1000).unwrap();
    let server = Server::new(export);
    let mut c = Client::new((), "peer".to_string());
    let data = info_payload(b"", &[3]);
    let out = server.handshake_step(&mut c, &header(6, data.len()), &data);
    assert_eq!(out.replies[0].payload, vec![0, 3, 0, 0, 0, 1, 0, 0, 0x10, 0, 0, 0, 0x03, 0xe8]);
}

#[test]
fn malformed_info_payload_gets_err_invalid() {
    let server = test_server();
    let mut c = Client::new((), "peer".to_string());
    let data = vec![0, 0, 0, 9, 1];
    let out = server.handshake_step(&mut c, &header(7, data.len()), &data);
    assert_eq!(out.result, None);
    assert_eq!(all_bytes(&out.replies), vec![reply_bytes(7, 0x8000_0003, &[])]);
    assert_eq!(parse_info_request(&data), None);
    // a count that does not match the codes given
    let mut bad = info_payload(b"", &[1]);
    bad.push(0);
    assert_eq!(parse_info_request(&bad), None);
}

#[test]
fn list_sends_server_reply_then_ack() {
    let server = test_server();
    let mut c = Client::new((), "peer".to_string());
    let out = server.handshake_step(&mut c, &header(3, 0), &[]);
    assert_eq!(out.result, None);
    let mut payload = be32(4);
    payload.extend_from_slice(b"testtest");
    assert_eq!(all_bytes(&out.replies), vec![reply_bytes(3, 2, &payload), reply_bytes(3, 1, &[])]);
}

#[test]
fn list_twice_gives_identical_replies() {
    let server = test_server();
    let mut c = Client::new((), "peer".to_string());
    let first = server.handshake_step(&mut c, &header(3, 0), &[]);
    let second = server.handshake_step(&mut c, &header(3, 0), &[]);
    assert_eq!(all_bytes(&first.replies), all_bytes(&second.replies));
    assert!(!c.structured_reply());
}

#[test]
fn handle_list_frames_name_and_description() {
    let r = handle_list("ab", "xyz");
    let mut payload = be32(2);
    payload.extend_from_slice(b"abxyz");
    assert_eq!(all_bytes(&r), vec![reply_bytes(3, 2, &payload), reply_bytes(3, 1, &[])]);
}

#[test]
fn starttls_is_unsupported() {
    let server = test_server();
    let mut c = Client::new((), "peer".to_string());
    let out = server.handshake_step(&mut c, &header(5, 0), &[]);
    assert_eq!(out.result, None);
    assert_eq!(out.replies.len(), 1);
    assert_eq!(out.replies[0].header.reply_type, 0x8000_0001);
    assert_eq!(out.replies[0].header.length, 0);
    assert_eq!(
        out.replies[0].to_bytes(),
        vec![0, 3, 0xe8, 0x89, 0x04, 0x55, 0x65, 0xa9, 0, 0, 0, 5, 0x80, 0, 0, 1, 0, 0, 0, 0]
    );
}

#[test]
fn meta_context_and_unknown_options_are_unsupported() {
    let server = test_server();
    let mut c = Client::new((), "peer".to_string());
    for code in [0u32, 4, 9, 10, 11, 0xffff_ffff] {
        let out = server.handshake_step(&mut c, &header(code, 0), &[]);
        assert_eq!(out.result, None);
        assert_eq!(all_bytes(&out.replies), vec![reply_bytes(code, 0x8000_0001, &[])]);
    }
}

#[test]
fn every_option_reply_echoes_the_option() {
    let server = test_server();
    let data = info_payload(b"x", &[0, 1, 2, 3, 9]);
    for code in 0u32..12 {
        let mut c = Client::new((), "peer".to_string());
        let out = server.handshake_step(&mut c, &header(code, data.len()), &data);
        for m in &out.replies {
            assert_eq!(m.header.option, code);
            assert_eq!(m.header.magic, NBD_REP_MAGIC);
            assert_eq!(m.header.length as usize, m.payload.len());
        }
    }
}

#[test]
fn structured_reply_option_enables_structured_replies() {
    let server = test_server();
    let mut c = Client::new((), "peer".to_string());
    assert!(!c.structured_reply());
    let out = server.handshake_step(&mut c, &header(8, 0), &[]);
    assert!(c.structured_reply());
    assert_eq!(out.result, None);
    assert_eq!(all_bytes(&out.replies), vec![reply_bytes(8, 1, &[])]);
}

#[test]
fn abort_acks_and_ends() {
    let server = test_server();
    let mut c = Client::new((), "peer".to_string());
    let out = server.handshake_step(&mut c, &header(2, 0), &[]);
    assert_eq!(out.result, Some(InteractionResult::Abort));
    assert_eq!(all_bytes(&out.replies), vec![reply_bytes(2, 1, &[])]);
}

#[test]
fn export_name_sends_size_flags_and_padding() {
    let server = test_server();
    let flags = export_flags(&server.export);
    let mut c = Client::new((), "peer".to_string());
    let out = server.handshake_step(&mut c, &header(1, 4), b"test");
    assert_eq!(out.result, Some(InteractionResult::Continue));
    assert!(out.replies.is_empty());
    let mut expected = GIB.to_be_bytes().to_vec();
    expected.extend_from_slice(&flags.to_be_bytes());
    expected.extend_from_slice(&[0u8; 124]);
    assert_eq!(out.export_data, expected);

    let mut c = Client::new((), "peer".to_string());
    c.accept_client_flags(3);
    let out = server.handshake_step(&mut c, &header(1, 4), b"test");
    assert_eq!(out.export_data, expected[..10].to_vec());
}

#[test]
fn bad_option_magic_is_dropped() {
    let server = test_server();
    let mut c = Client::new((), "peer".to_string());
    let h = OptionHeader { magic: 0x1234, option: 8, length: 0 };
    let out = server.handshake_step(&mut c, &h, &[]);
    assert!(out.replies.is_empty());
    assert!(out.export_data.is_empty());
    assert_eq!(out.result, None);
    assert!(!c.structured_reply());
}

#[test]
fn transmission_flags_follow_capabilities() {
    let export = Export::new("f".to_string(), "n".to_string(), "d".to_string(), 5).unwrap();
    // has flags, send df, can multi conn
    assert_eq!(export_flags(&export), 1 | 128 | 256);
    let mut all = Export::new("f".to_string(), "n".to_string(), "d".to_string(), 5).unwrap();
    all.read_only = true;
    all.can_resize = true;
    all.fast_zero = true;
    all.trim = true;
    all.flush = true;
    all.rotational = true;
    assert_eq!(export_flags(&all), 1 | 2 | 4 | 16 | 32 | 128 | 256 | 512 | 2048);
    let mut f: u16 = 0x4000;
    set_flags(&export, &mut f);
    assert_eq!(f, 0x4000 | 1 | 128 | 256);
}

#[test]
fn export_new_keeps_fields() {
    let e = Export::new("/p".to_string(), "name".to_string(), "desc".to_string(), 42).unwrap();
    assert_eq!(e.path, "/p");
    assert_eq!(e.name, "name");
    assert_eq!(e.description, "desc");
    assert_eq!(e.size, 42);
    assert!(!e.read_only && e.df && e.multiconn);
    assert_eq!(NbdError::NameTooLong.message(), "export name and description too long");
}

#[test]
fn reply_builders_frame_payloads() {
    let m = handshake_reply(9, NbdReply::NbdRepErrUnsup, &[1, 2]);
    assert_eq!(m.to_bytes(), reply_bytes(9, 0x8000_0001, &[1, 2]));
    let m = info_reply(6, NbdInfoOpt::Description, b"hi");
    assert_eq!(m.to_bytes(), reply_bytes(6, 3, &[0, 2, b'h', b'i']));
    assert_eq!(NbdOpt::from_code(7), NbdOpt::Go);
    assert_eq!(NbdOpt::from_code(0), NbdOpt::Unknown(0));
    assert_eq!(NbdOpt::Go.code(), 7);
}
