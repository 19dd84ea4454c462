//! Fixed-layout messages of the handshake and transmission phases, and
//! the builders that frame each reply.
use crate::consts::{
    NbdInfoOpt, NbdReply, DEFAULT_CHUNK_SIZE, NBD_REPLY_FLAG_DONE, NBD_REPLY_TYPE_NONE,
    NBD_REPLY_TYPE_OFFSET_DATA, NBD_REP_MAGIC, NBD_REQUEST_SIZE, NBD_SIMPLE_REPLY_MAGIC,
    NBD_STRUCTURED_REPLY_MAGIC,
};
use crate::wire::{
    be_bytes, be_value, push_be_u16, push_be_u32, push_be_u64, push_bytes,
    lemma_be_field, push_range, read_be_u16, read_be_u32, read_be_u64,
};
use vstd::prelude::*;

verus! {

broadcast use crate::wire::lemma_be_bytes_len;

/// Header of an option reply sent during the handshake.
#[derive(PartialEq, Eq, Structural, Clone, Copy, Debug)]
pub struct OptionReply {
    pub magic: u64,
    pub option: u32,
    pub reply_type: u32,
    pub length: u32,
}

/// Header of one chunk of a structured reply.
#[derive(PartialEq, Eq, Structural, Clone, Copy, Debug)]
pub struct StructuredReplyHeader {
    pub magic: u32,
    pub flags: u16,
    pub reply_type: u16,
    pub handle: u64,
    pub length: u32,
}

/// A transmission request header, as read from the client.
#[derive(PartialEq, Eq, Structural, Clone, Copy, Debug)]
pub struct Request {
    pub magic: u32,
    pub flags: u16,
    pub command_type: u16,
    pub handle: u64,
    pub offset: u64,
    pub len: u32,
}

/// An option reply: its header and the payload that follows it.
#[derive(Debug)]
pub struct OptionMessage {
    pub header: OptionReply,
    pub payload: Vec<u8>,
}

/// A simple transmission reply: header fields and, for a read, the data.
#[derive(Debug)]
pub struct SimpleReply {
    pub error: u32,
    pub handle: u64,
    pub data: Vec<u8>,
}

/// One chunk of a structured transmission reply.
#[derive(Debug)]
pub struct StructuredChunk {
    pub header: StructuredReplyHeader,
    pub payload: Vec<u8>,
}

impl View for OptionMessage {
    type V = (OptionReply, Seq<u8>);

    open spec fn view(&self) -> (OptionReply, Seq<u8>) {
        (self.header, self.payload@)
    }
}

impl View for SimpleReply {
    type V = (u32, u64, Seq<u8>);

    open spec fn view(&self) -> (u32, u64, Seq<u8>) {
        (self.error, self.handle, self.data@)
    }
}

impl View for StructuredChunk {
    type V = (StructuredReplyHeader, Seq<u8>);

    open spec fn view(&self) -> (StructuredReplyHeader, Seq<u8>) {
        (self.header, self.payload@)
    }
}

/// The option reply that echoes `option`, of type `reply_type`, carrying `payload`.
pub open spec fn option_msg(option: u32, reply_type: u32, payload: Seq<u8>) -> (OptionReply, Seq<u8>) {
    (OptionReply { magic: NBD_REP_MAGIC, option, reply_type, length: payload.len() as u32 }, payload)
}

impl OptionReply {
    pub open spec fn spec_bytes(self) -> Seq<u8> {
        be_bytes(self.magic as nat, 8) + be_bytes(self.option as nat, 4) + be_bytes(
            self.reply_type as nat,
            4,
        ) + be_bytes(self.length as nat, 4)
    }

    pub fn to_bytes(&self) -> (r: Vec<u8>)
        ensures
            r@ == self.spec_bytes(),
    {
        let mut out: Vec<u8> = Vec::new();
        push_be_u64(&mut out, self.magic);
        push_be_u32(&mut out, self.option);
        push_be_u32(&mut out, self.reply_type);
        push_be_u32(&mut out, self.length);
        out
    }
}

impl StructuredReplyHeader {
    pub open spec fn spec_bytes(self) -> Seq<u8> {
        be_bytes(self.magic as nat, 4) + be_bytes(self.flags as nat, 2) + be_bytes(
            self.reply_type as nat,
            2,
        ) + be_bytes(self.handle as nat, 8) + be_bytes(self.length as nat, 4)
    }

    pub fn to_bytes(&self) -> (r: Vec<u8>)
        ensures
            r@ == self.spec_bytes(),
    {
        let mut out: Vec<u8> = Vec::new();
        push_be_u32(&mut out, self.magic);
        push_be_u16(&mut out, self.flags);
        push_be_u16(&mut out, self.reply_type);
        push_be_u64(&mut out, self.handle);
        push_be_u32(&mut out, self.length);
        out
    }
}

impl Request {
    pub open spec fn spec_bytes(self) -> Seq<u8> {
        be_bytes(self.magic as nat, 4) + be_bytes(self.flags as nat, 2) + be_bytes(
            self.command_type as nat,
            2,
        ) + be_bytes(self.handle as nat, 8) + be_bytes(self.offset as nat, 8) + be_bytes(
            self.len as nat,
            4,
        )
    }

    /// The request whose header is the first 28 bytes of `s`.
    pub open spec fn spec_decode(s: Seq<u8>) -> Request {
        Request {
            magic: be_value(s.subrange(0, 4)) as u32,
            flags: be_value(s.subrange(4, 6)) as u16,
            command_type: be_value(s.subrange(6, 8)) as u16,
            handle: be_value(s.subrange(8, 16)) as u64,
            offset: be_value(s.subrange(16, 24)) as u64,
            len: be_value(s.subrange(24, 28)) as u32,
        }
    }

    /// Decodes a request header; `None` when fewer than 28 bytes are given.
    pub fn decode(buf: &[u8]) -> (r: Option<Request>)
        ensures
            r is None <==> buf@.len() < NBD_REQUEST_SIZE,
            r is Some ==> r->0 == Request::spec_decode(buf@),
    {
        if buf.len() < NBD_REQUEST_SIZE {
            return None;
        }
        Some(
            Request {
                magic: read_be_u32(buf, 0),
                flags: read_be_u16(buf, 4),
                command_type: read_be_u16(buf, 6),
                handle: read_be_u64(buf, 8),
                offset: read_be_u64(buf, 16),
                len: read_be_u32(buf, 24),
            },
        )
    }

    /// The 28 bytes of this request as a client sends them.
    pub fn to_bytes(&self) -> (r: Vec<u8>)
        ensures
            r@ == self.spec_bytes(),
    {
        let mut out: Vec<u8> = Vec::new();
        push_be_u32(&mut out, self.magic);
        push_be_u16(&mut out, self.flags);
        push_be_u16(&mut out, self.command_type);
        push_be_u64(&mut out, self.handle);
        push_be_u64(&mut out, self.offset);
        push_be_u32(&mut out, self.len);
        out
    }
}

/// Decoding the bytes that a request header is sent as gives back that request.
pub proof fn lemma_request_round_trip(r: Request)
    ensures
        Request::spec_decode(r.spec_bytes()) == r,
        r.spec_bytes().len() == NBD_REQUEST_SIZE,
{
    let a = be_bytes(r.magic as nat, 4);
    let b = be_bytes(r.flags as nat, 2);
    let c = be_bytes(r.command_type as nat, 2);
    let d = be_bytes(r.handle as nat, 8);
    let e = be_bytes(r.offset as nat, 8);
    let f = be_bytes(r.len as nat, 4);
    lemma_be_field(r.magic as nat, 4);
    lemma_be_field(r.flags as nat, 2);
    lemma_be_field(r.command_type as nat, 2);
    lemma_be_field(r.handle as nat, 8);
    lemma_be_field(r.offset as nat, 8);
    lemma_be_field(r.len as nat, 4);
    let s = r.spec_bytes();
    assert(s.subrange(0, 4) =~= a);
    assert(s.subrange(4, 6) =~= b);
    assert(s.subrange(6, 8) =~= c);
    assert(s.subrange(8, 16) =~= d);
    assert(s.subrange(16, 24) =~= e);
    assert(s.subrange(24, 28) =~= f);
}

impl OptionMessage {
    pub open spec fn spec_bytes(self) -> Seq<u8> {
        self.header.spec_bytes() + self.payload@
    }

    pub fn to_bytes(&self) -> (r: Vec<u8>)
        ensures
            r@ == self.spec_bytes(),
    {
        let mut out = self.header.to_bytes();
        push_bytes(&mut out, self.payload.as_slice());
        out
    }
}

/// The 16-byte header of a simple reply.
pub open spec fn simple_header_bytes(handle: u64, error: u32) -> Seq<u8> {
    be_bytes(NBD_SIMPLE_REPLY_MAGIC as nat, 4) + be_bytes(error as nat, 4) + be_bytes(
        handle as nat,
        8,
    )
}

/// Frames the header of a simple reply to the request `handle`.
pub fn transmission_simple_reply_header(handle: u64, error: u32) -> (r: Vec<u8>)
    ensures
        r@ == simple_header_bytes(handle, error),
{
    let mut out: Vec<u8> = Vec::new();
    push_be_u32(&mut out, NBD_SIMPLE_REPLY_MAGIC);
    push_be_u32(&mut out, error);
    push_be_u64(&mut out, handle);
    out
}

impl SimpleReply {
    pub open spec fn spec_bytes(self) -> Seq<u8> {
        simple_header_bytes(self.handle, self.error) + self.data@
    }

    pub fn to_bytes(&self) -> (r: Vec<u8>)
        ensures
            r@ == self.spec_bytes(),
    {
        let mut out = transmission_simple_reply_header(self.handle, self.error);
        push_bytes(&mut out, self.data.as_slice());
        out
    }
}

impl StructuredChunk {
    pub open spec fn spec_bytes(self) -> Seq<u8> {
        self.header.spec_bytes() + self.payload@
    }

    pub fn to_bytes(&self) -> (r: Vec<u8>)
        ensures
            r@ == self.spec_bytes(),
    {
        let mut out = self.header.to_bytes();
        push_bytes(&mut out, self.payload.as_slice());
        out
    }
}

/// Serialises an option reply header.
pub fn header_reply(header: &OptionReply) -> (r: Vec<u8>)
    ensures
        r@ == header.spec_bytes(),
{
    header.to_bytes()
}

/// An option reply of type `reply_type` echoing `client_option`, carrying `data`.
pub fn handshake_reply(client_option: u32, reply_type: NbdReply, data: &[u8]) -> (r: OptionMessage)
    requires
        data@.len() <= u32::MAX,
    ensures
        r@ == option_msg(client_option, reply_type.spec_code(), data@),
{
    let mut payload: Vec<u8> = Vec::new();
    push_bytes(&mut payload, data);
    OptionMessage {
        header: OptionReply {
            magic: NBD_REP_MAGIC,
            option: client_option,
            reply_type: reply_type.code(),
            length: data.len() as u32,
        },
        payload,
    }
}

/// The payload of an INFO reply: the information code, then its data.
pub open spec fn info_payload(info_type: NbdInfoOpt, data: Seq<u8>) -> Seq<u8> {
    be_bytes(info_type.spec_code() as nat, 2) + data
}

/// An INFO reply to option `opt`, for item `info_type`, carrying `data`.
pub fn info_reply(opt: u32, info_type: NbdInfoOpt, data: &[u8]) -> (r: OptionMessage)
    requires
        data@.len() + 2 <= u32::MAX,
    ensures
        r@ == option_msg(opt, NbdReply::Info.spec_code(), info_payload(info_type, data@)),
{
    let mut payload: Vec<u8> = Vec::new();
    push_be_u16(&mut payload, info_type.code());
    push_bytes(&mut payload, data);
    OptionMessage {
        header: OptionReply {
            magic: NBD_REP_MAGIC,
            option: opt,
            reply_type: NbdReply::Info.code(),
            length: payload.len() as u32,
        },
        payload,
    }
}

} // verus!

verus! {

/// Number of offset-data chunks that carry `len` bytes.
pub open spec fn n_chunks(len: nat) -> nat {
    ((len + DEFAULT_CHUNK_SIZE - 1) / DEFAULT_CHUNK_SIZE as int) as nat
}

/// End of the `i`-th chunk's slice of a `len`-byte read.
pub open spec fn chunk_end(i: nat, len: nat) -> nat {
    if (i + 1) * DEFAULT_CHUNK_SIZE <= len {
        ((i + 1) * DEFAULT_CHUNK_SIZE) as nat
    } else {
        len
    }
}

/// The `i`-th offset-data chunk of a structured read of `data` at `offset`.
pub open spec fn data_chunk(handle: u64, offset: u64, data: Seq<u8>, i: nat) -> (
    StructuredReplyHeader,
    Seq<u8>,
) {
    let start = i * DEFAULT_CHUNK_SIZE;
    let end = chunk_end(i, data.len());
    (
        StructuredReplyHeader {
            magic: NBD_STRUCTURED_REPLY_MAGIC,
            flags: 0,
            reply_type: NBD_REPLY_TYPE_OFFSET_DATA,
            handle,
            length: (8 + end - start) as u32,
        },
        be_bytes((offset + start) as nat, 8) + data.subrange(start as int, end as int),
    )
}

/// The chunk that ends every structured reply.
pub open spec fn done_chunk(handle: u64) -> (StructuredReplyHeader, Seq<u8>) {
    (
        StructuredReplyHeader {
            magic: NBD_STRUCTURED_REPLY_MAGIC,
            flags: NBD_REPLY_FLAG_DONE,
            reply_type: NBD_REPLY_TYPE_NONE,
            handle,
            length: 0,
        },
        Seq::empty(),
    )
}

/// All chunks of the structured reply to a read that returned `data` at `offset`.
pub open spec fn spec_structured_read(handle: u64, offset: u64, data: Seq<u8>) -> Seq<
    (StructuredReplyHeader, Seq<u8>),
> {
    Seq::new(n_chunks(data.len()), |i: int| data_chunk(handle, offset, data, i as nat)).push(
        done_chunk(handle),
    )
}

pub open spec fn chunk_is_done(h: StructuredReplyHeader) -> bool {
    h.flags & NBD_REPLY_FLAG_DONE != 0
}

/// The data carried by the offset-data chunks of `chunks`, in order, without
/// their offset prefixes.
pub open spec fn chunks_data(chunks: Seq<(StructuredReplyHeader, Seq<u8>)>) -> Seq<u8>
    decreases chunks.len(),
{
    if chunks.len() == 0 {
        Seq::empty()
    } else {
        let last = chunks.last();
        let rest = chunks_data(chunks.drop_last());
        if last.0.reply_type == NBD_REPLY_TYPE_OFFSET_DATA {
            rest + last.1.subrange(8, last.1.len() as int)
        } else {
            rest
        }
    }
}

/// Frames the structured reply to a read of `data` at `offset`: offset-data
/// chunks of at most 4096 bytes each, then the DONE chunk.
pub fn structured_reply(handle: u64, offset: u64, data: &[u8]) -> (r: Vec<StructuredChunk>)
    requires
        offset + data@.len() <= u64::MAX,
        data@.len() <= u32::MAX,
    ensures
        r@.map_values(|c: StructuredChunk| c@) == spec_structured_read(handle, offset, data@),
{
    let mut out: Vec<StructuredChunk> = Vec::new();
    let len = data.len();
    let mut pos: usize = 0;
    let mut k: usize = 0;
    while pos < len
        invariant
            len == data@.len(),
            len <= u32::MAX,
            offset + len <= u64::MAX,
            pos <= len,
            k <= pos,
            out@.len() == k,
            k * 4096 <= len ==> pos == k * 4096,
            k * 4096 > len ==> pos == len,
            k > 0 ==> (k - 1) * 4096 < len,
            forall|j: int| #![auto] 0 <= j < k ==> out@[j]@ == data_chunk(handle, offset, data@, j as nat),
        decreases len - pos,
    {
        assert(k * 4096 <= len);
        let end: usize = if len - pos >= DEFAULT_CHUNK_SIZE as usize {
            pos + DEFAULT_CHUNK_SIZE as usize
        } else {
            len
        };
        assert(end == chunk_end(k as nat, len as nat)) by (nonlinear_arith)
            requires
                pos == k * 4096,
                end == (if len - pos >= 4096 { pos + 4096 } else { len as int }),
        ;
        let mut payload: Vec<u8> = Vec::new();
        push_be_u64(&mut payload, offset + pos as u64);
        push_range(&mut payload, data, pos, end);
        let chunk = StructuredChunk {
            header: StructuredReplyHeader {
                magic: NBD_STRUCTURED_REPLY_MAGIC,
                flags: 0,
                reply_type: NBD_REPLY_TYPE_OFFSET_DATA,
                handle,
                length: (end - pos + 8) as u32,
            },
            payload,
        };
        assert(chunk@ == data_chunk(handle, offset, data@, k as nat));
        out.push(chunk);
        assert((k + 1) * 4096 == k * 4096 + 4096) by (nonlinear_arith);
        pos = end;
        k = k + 1;
    }
    assert(k == n_chunks(len as nat)) by (nonlinear_arith)
        requires
            k * 4096 <= len ==> pos == k * 4096,
            k * 4096 > len ==> pos == len,
            k > 0 ==> (k - 1) * 4096 < len,
            pos == len,
            n_chunks(len as nat) == (len + 4095) / 4096,
    ;
    let done = StructuredChunk {
        header: StructuredReplyHeader {
            magic: NBD_STRUCTURED_REPLY_MAGIC,
            flags: NBD_REPLY_FLAG_DONE,
            reply_type: NBD_REPLY_TYPE_NONE,
            handle,
            length: 0,
        },
        payload: Vec::new(),
    };
    out.push(done);
    assert(out@.map_values(|c: StructuredChunk| c@) =~= spec_structured_read(handle, offset, data@));
    out
}

/// The first `k` offset-data chunks carry the first bytes of `data`, in order.
proof fn lemma_chunks_prefix(handle: u64, offset: u64, data: Seq<u8>, k: nat)
    requires
        k <= n_chunks(data.len()),
    ensures
        chunks_data(Seq::new(k, |i: int| data_chunk(handle, offset, data, i as nat))) == data.subrange(
            0,
            if k * 4096 <= data.len() { (k * 4096) as int } else { data.len() as int },
        ),
    decreases k,
{
    let s = Seq::new(k, |i: int| data_chunk(handle, offset, data, i as nat));
    if k == 0 {
        assert(data.subrange(0, 0) =~= Seq::<u8>::empty());
    } else {
        let m = (k - 1) as nat;
        lemma_chunks_prefix(handle, offset, data, m);
        assert(s.drop_last() =~= Seq::new(m, |i: int| data_chunk(handle, offset, data, i as nat)));
        assert(m * 4096 < data.len()) by (nonlinear_arith)
            requires
                m + 1 <= (data.len() + 4095) / 4096,
        ;
        assert(k * 4096 == m * 4096 + 4096) by (nonlinear_arith)
            requires
                k == m + 1,
        ;
        let c = data_chunk(handle, offset, data, m);
        assert(c.1.subrange(8, c.1.len() as int) =~= data.subrange(
            (m * 4096) as int,
            chunk_end(m, data.len()) as int,
        ));
        assert(chunks_data(s) =~= data.subrange(
            0,
            if k * 4096 <= data.len() { (k * 4096) as int } else { data.len() as int },
        ));
    }
}

/// A structured read of `len` bytes at `offset` of a backing file: the data
/// of its offset-data chunks, concatenated in order, is the file's contents
/// at `[offset, offset + len)`; every chunk echoes the request's handle; and
/// exactly one chunk, the last, carries the DONE flag.
pub proof fn lemma_structured_read_data(handle: u64, file: Seq<u8>, offset: u64, len: u32)
    requires
        offset + len <= file.len(),
        file.len() <= u64::MAX,
    ensures
        ({
            let chunks = spec_structured_read(handle, offset, file.subrange(offset as int, offset + len));
            &&& chunks_data(chunks) == file.subrange(offset as int, offset + len)
            &&& chunks.len() >= 1
            &&& chunk_is_done(chunks.last().0)
            &&& forall|i: int| 0 <= i < chunks.len() - 1 ==> !chunk_is_done(#[trigger] chunks[i].0)
            &&& forall|i: int| 0 <= i < chunks.len() ==> (#[trigger] chunks[i]).0.handle == handle
        }),
{
    let data = file.subrange(offset as int, offset + len);
    let n = n_chunks(data.len());
    let chunks = spec_structured_read(handle, offset, data);
    let body = Seq::new(n, |i: int| data_chunk(handle, offset, data, i as nat));
    lemma_chunks_prefix(handle, offset, data, n);
    assert(n * 4096 >= data.len()) by (nonlinear_arith)
        requires
            n == (data.len() + 4095) / 4096,
    ;
    assert(chunks.drop_last() =~= body);
    assert(data.subrange(0, data.len() as int) =~= data);
    assert((0u16 & 1u16) == 0u16 && (1u16 & 1u16) != 0u16) by (bit_vector);
}

} // verus!
