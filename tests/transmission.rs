use nbd::client::Client;
use nbd::consts::NBD_REQUEST_MAGIC;
use nbd::protocol::{structured_reply, transmission_simple_reply_header, Request};
use nbd::transmission::{do_flush, do_read, do_write, TransmissionAction, TransmissionReply};
use nbd::{Export, Server};

fn server(size: u64) -> Server {
    Server::new(Export::new("/tmp/test.img".to_string(), "test".to_string(), "test".to_string(), size).unwrap())
}

fn request(command_type: u16, handle: u64, offset: u64, len: u32) -> Request {
    Request { magic: NBD_REQUEST_MAGIC, flags: 0, command_type, handle, offset, len }
}

/// Carries out one request against an in-memory backing file, as a
/// connection would: returns the bytes sent back, or `None` on disconnect.
fn serve(server: &Server, c: &Client<()>, file: &mut Vec<u8>, req: &Request, payload: &[u8]) -> Option<Vec<u8>> {
    let wire = req.to_bytes();
    let decoded = Request::decode(&wire).unwrap();
    match server.transmission_step(&decoded) {
        TransmissionAction::Ignore => Some(Vec::new()),
        TransmissionAction::Reply { handle, error } => Some(transmission_simple_reply_header(handle, error)),
        TransmissionAction::Read { offset, len, .. } => {
            let data = file[offset as usize..offset as usize + len as usize].to_vec();
            Some(do_read(c, &decoded, Some(&data)).to_bytes())
        }
        TransmissionAction::Write { handle, offset, len } => {
            assert_eq!(payload.len(), len as usize);
            file[offset as usize..offset as usize + len as usize].copy_from_slice(payload);
            Some(do_write(handle, true).to_bytes())
        }
        TransmissionAction::Discard { handle, error, .. } => Some(transmission_simple_reply_header(handle, error)),
        TransmissionAction::Flush { handle } => Some(do_flush(handle, true).to_bytes()),
        TransmissionAction::Disconnect => None,
    }
}

fn simple(handle: u64, error: u32, data: &[u8]) -> Vec<u8> {
    let mut v = vec![0x67, 0x44, 0x66, 0x98];
    v.extend_from_slice(&error.to_be_bytes());
    v.extend_from_slice(&handle.to_be_bytes());
    v.extend_from_slice(data);
    v
}

#[test]
fn write_then_read_returns_the_bytes() {
    let s = server(1 << 20);
    let c = Client::new((), "peer".to_string());
    let mut file = vec![0u8; 1 << 20];
    let w = serve(&s, &c, &mut file, &request(1, 11, 0x1000, 8), b"ABCDEFGH").unwrap();
    assert_eq!(w, simple(11, 0, &[]));
    let r = serve(&s, &c, &mut file, &request(0, 12, 0x1000, 8), &[]).unwrap();
    assert_eq!(r, simple(12, 0, b"ABCDEFGH"));
}

#[test]
fn disconnect_sends_nothing() {
    let s = server(4096);
    assert_eq!(s.transmission_step(&request(2, 5, 0, 0)), TransmissionAction::Disconnect);
    let c = Client::new((), "peer".to_string());
    let mut file = vec![0u8; 4096];
    assert_eq!(serve(&s, &c, &mut file, &request(2, 5, 0, 0), &[]), None);
}

#[test]
fn structured_read_of_9000_bytes_is_three_chunks_and_done() {
    let s = server(1 << 20);
    let mut c = Client::new((), "peer".to_string());
    c.set_structured_reply(true);
    let file: Vec<u8> = (0..20000u32).map(|i| (i % 251) as u8).collect();
    let req = request(0, 0xabcd, 0, 9000);
    assert_eq!(s.transmission_step(&req), TransmissionAction::Read { handle: 0xabcd, offset: 0, len: 9000 });
    let reply = do_read(&c, &req, Some(&file[..9000]));
    let chunks = match reply {
        TransmissionReply::Structured(chunks) => chunks,
        TransmissionReply::Simple(_) => panic!("expected a structured reply"),
    };
    assert_eq!(chunks.len(), 4);
    let lengths: Vec<u32> = chunks.iter().map(|ch| ch.header.length).collect();
    assert_eq!(lengths, vec![8 + 4096, 8 + 4096, 8 + 808, 0]);
    let mut data = Vec::new();
    for (i, ch) in chunks.iter().take(3).enumerate() {
        assert_eq!(ch.header.magic, 0x668e33ef);
        assert_eq!(ch.header.flags, 0);
        assert_eq!(ch.header.reply_type, 1);
        assert_eq!(ch.header.handle, 0xabcd);
        assert_eq!(ch.payload[..8].to_vec(), ((i as u64) * 4096).to_be_bytes().to_vec());
        data.extend_from_slice(&ch.payload[8..]);
    }
    assert_eq!(data, file[..9000].to_vec());
    let done = &chunks[3];
    assert_eq!((done.header.flags, done.header.reply_type, done.header.handle), (1, 0, 0xabcd));
    assert!(done.payload.is_empty());
    assert_eq!(
        done.to_bytes(),
        vec![0x66, 0x8e, 0x33, 0xef, 0, 1, 0, 0, 0, 0, 0, 0, 0, 0, 0xab, 0xcd, 0, 0, 0, 0]
    );
}

#[test]
fn structured_read_at_offset_prefixes_chunk_offsets() {
    let data: Vec<u8> = (0..4096u32).map(|i| i as u8).collect();
    let chunks = structured_reply(7, 0x10000, &data);
    assert_eq!(chunks.len(), 2);
    assert_eq!(chunks[0].header.length, 4104);
    assert_eq!(chunks[0].payload[..8].to_vec(), 0x10000u64.to_be_bytes().to_vec());
    let empty = structured_reply(7, 5, &[]);
    assert_eq!(empty.len(), 1);
    assert_eq!(empty[0].header.flags, 1);
    let reply = TransmissionReply::Structured(structured_reply(1, 0, &[9, 8]));
    let bytes = reply.to_bytes();
    assert_eq!(bytes.len(), 20 + 10 + 20);
    assert_eq!(bytes[20..30].to_vec(), vec![0, 0, 0, 0, 0, 0, 0, 0, 9, 8]);
}

#[test]
fn out_of_range_read_and_write_get_einval_and_session_continues() {
    let s = server(4096);
    let c = Client::new((), "peer".to_string());
    let mut file = vec![0u8; 4096];
    assert_eq!(s.transmission_step(&request(0, 1, 4090, 8)), TransmissionAction::Reply { handle: 1, error: 22 });
    assert_eq!(
        s.transmission_step(&request(1, 2, 4096, 1)),
        TransmissionAction::Discard { handle: 2, len: 1, error: 22 }
    );
    assert_eq!(
        s.transmission_step(&request(0, 3, u64::MAX, 1)),
        TransmissionAction::Reply { handle: 3, error: 22 }
    );
    assert_eq!(serve(&s, &c, &mut file, &request(0, 1, 4090, 8), &[]).unwrap(), simple(1, 22, &[]));
    // the session is still usable
    let r = serve(&s, &c, &mut file, &request(0, 4, 4088, 8), &[]).unwrap();
    assert_eq!(r, simple(4, 0, &[0; 8]));
}

#[test]
fn flush_twice_has_the_same_effect() {
    let s = server(4096);
    let c = Client::new((), "peer".to_string());
    let mut file = vec![7u8; 4096];
    let first = serve(&s, &c, &mut file, &request(3, 9, 0, 0), &[]).unwrap();
    let after_one = file.clone();
    let second = serve(&s, &c, &mut file, &request(3, 9, 0, 0), &[]).unwrap();
    assert_eq!(first, second);
    assert_eq!(first, simple(9, 0, &[]));
    assert_eq!(file, after_one);
}

#[test]
fn unsupported_commands_get_eopnotsupp() {
    let s = server(4096);
    for cmd in [4u16, 5, 6, 7, 8, 200] {
        assert_eq!(s.transmission_step(&request(cmd, 3, 0, 1)), TransmissionAction::Reply { handle: 3, error: 95 });
    }
}

#[test]
fn bad_request_magic_is_ignored() {
    let s = server(4096);
    let mut r = request(0, 1, 0, 1);
    r.magic = 0x25609514;
    assert_eq!(s.transmission_step(&r), TransmissionAction::Ignore);
}

#[test]
fn request_decodes_big_endian_fields() {
    let bytes = vec![
        0x25, 0x60, 0x95, 0x13, 0x00, 0x01, 0x00, 0x01, 1, 2, 3, 4, 5, 6, 7, 8, 0, 0, 0, 0, 0, 0, 0x10, 0x00, 0, 0,
        0, 8,
    ];
    let r = Request::decode(&bytes).unwrap();
    assert_eq!(
        r,
        Request { magic: NBD_REQUEST_MAGIC, flags: 1, command_type: 1, handle: 0x0102030405060708, offset: 0x1000, len: 8 }
    );
    assert_eq!(r.to_bytes(), bytes);
    assert_eq!(Request::decode(&bytes[..27]), None);
}

#[test]
fn failed_backing_io_gets_eio() {
    let c = Client::new((), "peer".to_string());
    let req = request(0, 77, 0, 8);
    assert_eq!(do_read(&c, &req, None).to_bytes(), simple(77, 5, &[]));
    assert_eq!(do_write(78, false).to_bytes(), simple(78, 5, &[]));
    assert_eq!(do_flush(79, false).to_bytes(), simple(79, 5, &[]));
}

#[test]
fn every_reply_echoes_the_handle() {
    let s = server(1 << 16);
    let mut c = Client::new((), "peer".to_string());
    for cmd in 0u16..9 {
        let handle = 0x1122334455667788u64 ^ cmd as u64;
        match s.transmission_step(&request(cmd, handle, 0, 5000)) {
            TransmissionAction::Reply { handle: h, .. }
            | TransmissionAction::Read { handle: h, .. }
            | TransmissionAction::Write { handle: h, .. }
            | TransmissionAction::Discard { handle: h, .. }
            | TransmissionAction::Flush { handle: h } => assert_eq!(h, handle),
            _ => {}
        }
    }
    c.set_structured_reply(true);
    let data = vec![1u8; 5000];
    if let TransmissionReply::Structured(chunks) = do_read(&c, &request(0, 42, 0, 5000), Some(&data)) {
        assert!(chunks.iter().all(|ch| ch.header.handle == 42));
    } else {
        panic!("expected a structured reply");
    }
}

#[test]
fn client_keeps_address_and_stream() {
    let mut c = Client::new(vec![1u8, 2], "10.0.0.1:5000".to_string());
    assert_eq!(c.addr(), "10.0.0.1:5000");
    c.stream().push(3);
    assert_eq!(c.stream().clone(), vec![1, 2, 3]);
}
