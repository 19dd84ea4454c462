//! The transmission phase: one decision per request header, and the
//! replies that complete reads, writes and flushes.
use crate::client::Client;
use crate::consts::{NbdCmd, NBD_EINVAL, NBD_EIO, NBD_EOPNOTSUPP, NBD_REQUEST_MAGIC};
use crate::protocol::{
    chunks_data, spec_structured_read, structured_reply, Request, SimpleReply, StructuredChunk,
    StructuredReplyHeader,
};
use crate::wire::push_bytes;
use crate::{Export, Server};
use vstd::prelude::*;

verus! {

/// What the connection does next about one request.
#[derive(PartialEq, Eq, Structural, Clone, Copy, Debug)]
pub enum TransmissionAction {
    /// The header's magic is wrong: drop it and read the next header.
    Ignore,
    /// Send a simple reply without data.
    Reply { handle: u64, error: u32 },
    /// Read `len` bytes of the backing file at `offset`, then send `do_read`'s reply.
    Read { handle: u64, offset: u64, len: u32 },
    /// Take `len` bytes from the stream, write them at `offset`, then send `do_write`'s reply.
    Write { handle: u64, offset: u64, len: u32 },
    /// Take `len` bytes from the stream and drop them, then send a simple reply.
    Discard { handle: u64, len: u32, error: u32 },
    /// Flush the backing file, then send `do_flush`'s reply.
    Flush { handle: u64 },
    /// Flush the stream and close the connection.
    Disconnect,
}

/// Whether `[offset, offset + len)` lies within the export.
pub open spec fn in_bounds(e: Export, r: Request) -> bool {
    r.offset + r.len <= e.size
}

/// The action that answers request `r` on export `e`.
pub open spec fn spec_action(e: Export, r: Request) -> TransmissionAction {
    if r.magic != NBD_REQUEST_MAGIC {
        TransmissionAction::Ignore
    } else {
        match NbdCmd::spec_from_code(r.command_type) {
            NbdCmd::Read => if in_bounds(e, r) {
                TransmissionAction::Read { handle: r.handle, offset: r.offset, len: r.len }
            } else {
                TransmissionAction::Reply { handle: r.handle, error: NBD_EINVAL }
            },
            NbdCmd::Write => if in_bounds(e, r) {
                TransmissionAction::Write { handle: r.handle, offset: r.offset, len: r.len }
            } else {
                TransmissionAction::Discard { handle: r.handle, len: r.len, error: NBD_EINVAL }
            },
            NbdCmd::Disc => TransmissionAction::Disconnect,
            NbdCmd::Flush => TransmissionAction::Flush { handle: r.handle },
            _ => TransmissionAction::Reply { handle: r.handle, error: NBD_EOPNOTSUPP },
        }
    }
}

impl Server {
    /// Decides what to do about the request header `request`.
    pub fn transmission_step(&self, request: &Request) -> (r: TransmissionAction)
        ensures
            r == spec_action(self.export, *request),
    {
        if request.magic != NBD_REQUEST_MAGIC {
            return TransmissionAction::Ignore;
        }
        let in_range = request.len as u64 <= self.export.size && request.offset
            <= self.export.size - request.len as u64;
        match NbdCmd::from_code(request.command_type) {
            NbdCmd::Read => if in_range {
                TransmissionAction::Read {
                    handle: request.handle,
                    offset: request.offset,
                    len: request.len,
                }
            } else {
                TransmissionAction::Reply { handle: request.handle, error: NBD_EINVAL }
            },
            NbdCmd::Write => if in_range {
                TransmissionAction::Write {
                    handle: request.handle,
                    offset: request.offset,
                    len: request.len,
                }
            } else {
                TransmissionAction::Discard {
                    handle: request.handle,
                    len: request.len,
                    error: NBD_EINVAL,
                }
            },
            NbdCmd::Disc => TransmissionAction::Disconnect,
            NbdCmd::Flush => TransmissionAction::Flush { handle: request.handle },
            _ => TransmissionAction::Reply { handle: request.handle, error: NBD_EOPNOTSUPP },
        }
    }
}

/// A reply to one request: simple, or a sequence of structured chunks.
#[derive(Debug)]
pub enum TransmissionReply {
    Simple(SimpleReply),
    Structured(Vec<StructuredChunk>),
}

/// The bytes of `chunks`, one after another.
pub open spec fn chunks_bytes(chunks: Seq<StructuredChunk>) -> Seq<u8>
    decreases chunks.len(),
{
    if chunks.len() == 0 {
        Seq::empty()
    } else {
        chunks_bytes(chunks.drop_last()) + chunks.last().spec_bytes()
    }
}

impl TransmissionReply {
    pub open spec fn spec_bytes(&self) -> Seq<u8> {
        match self {
            TransmissionReply::Simple(s) => s.spec_bytes(),
            TransmissionReply::Structured(cs) => chunks_bytes(cs@),
        }
    }

    /// The bytes to send for this reply.
    pub fn to_bytes(&self) -> (r: Vec<u8>)
        ensures
            r@ == self.spec_bytes(),
    {
        match self {
            TransmissionReply::Simple(s) => s.to_bytes(),
            TransmissionReply::Structured(cs) => {
                let mut out: Vec<u8> = Vec::new();
                let mut i: usize = 0;
                while i < cs.len()
                    invariant
                        i <= cs@.len(),
                        out@ == chunks_bytes(cs@.subrange(0, i as int)),
                    decreases cs@.len() - i,
                {
                    let b = cs[i].to_bytes();
                    push_bytes(&mut out, b.as_slice());
                    assert(cs@.subrange(0, i + 1).drop_last() =~= cs@.subrange(0, i as int));
                    i = i + 1;
                }
                assert(cs@.subrange(0, i as int) =~= cs@);
                out
            },
        }
    }
}

/// Completes a read of `request`: `data` is what the backing file held at
/// the requested range, or `None` when reading it failed.
pub fn do_read<T>(c: &Client<T>, request: &Request, data: Option<&[u8]>) -> (r: TransmissionReply)
    requires
        data is Some ==> data->0@.len() == request.len,
        request.offset + request.len <= u64::MAX,
    ensures
        data is None ==> r is Simple && r->Simple_0@ == (NBD_EIO, request.handle, Seq::<u8>::empty()),
        data is Some && !c.spec_structured_reply() ==> r is Simple && r->Simple_0@ == (
            0u32,
            request.handle,
            data->0@,
        ),
        data is Some && c.spec_structured_reply() ==> r is Structured
            && r->Structured_0@.map_values(|ch: StructuredChunk| ch@) == spec_structured_read(
            request.handle,
            request.offset,
            data->0@,
        ),
{
    match data {
        None => TransmissionReply::Simple(
            SimpleReply { error: NBD_EIO, handle: request.handle, data: Vec::new() },
        ),
        Some(d) => {
            if c.structured_reply() {
                TransmissionReply::Structured(structured_reply(request.handle, request.offset, d))
            } else {
                let mut v: Vec<u8> = Vec::new();
                push_bytes(&mut v, d);
                TransmissionReply::Simple(SimpleReply { error: 0, handle: request.handle, data: v })
            }
        },
    }
}

/// The simple reply that completes a write: no error if it was written.
pub fn do_write(handle: u64, written: bool) -> (r: SimpleReply)
    ensures
        r@ == (if written { 0u32 } else { NBD_EIO }, handle, Seq::<u8>::empty()),
{
    SimpleReply { error: if written { 0 } else { NBD_EIO }, handle, data: Vec::new() }
}

/// The simple reply that completes a flush: no error if it succeeded.
pub fn do_flush(handle: u64, flushed: bool) -> (r: SimpleReply)
    ensures
        r@ == (if flushed { 0u32 } else { NBD_EIO }, handle, Seq::<u8>::empty()),
{
    SimpleReply { error: if flushed { 0 } else { NBD_EIO }, handle, data: Vec::new() }
}

/// The handle that the reply to action `a` carries, if it carries one.
pub open spec fn action_handle(a: TransmissionAction) -> Option<u64> {
    match a {
        TransmissionAction::Reply { handle, .. } => Some(handle),
        TransmissionAction::Read { handle, .. } => Some(handle),
        TransmissionAction::Write { handle, .. } => Some(handle),
        TransmissionAction::Discard { handle, .. } => Some(handle),
        TransmissionAction::Flush { handle } => Some(handle),
        _ => None,
    }
}

/// Every reply in the transmission phase echoes the handle of the request
/// that caused it: the action's own reply, the simple replies that complete
/// it, and every chunk of a structured read.
pub proof fn lemma_replies_echo_handle(e: Export, r: Request, data: Seq<u8>)
    ensures
        action_handle(spec_action(e, r)) is Some ==> action_handle(spec_action(e, r))->0 == r.handle,
        forall|i: int|
            0 <= i < spec_structured_read(r.handle, r.offset, data).len() ==> (
            #[trigger] spec_structured_read(r.handle, r.offset, data)[i]).0.handle == r.handle,
{
    assert forall|i: int|
        0 <= i < spec_structured_read(r.handle, r.offset, data).len() implies (
        #[trigger] spec_structured_read(r.handle, r.offset, data)[i]).0.handle == r.handle by {
        if i < crate::protocol::n_chunks(data.len()) {
        }
    }
}

/// The backing file's contents after `bytes` are written at `offset`.
pub open spec fn apply_write(file: Seq<u8>, offset: int, bytes: Seq<u8>) -> Seq<u8> {
    file.subrange(0, offset) + bytes + file.subrange(offset + bytes.len(), file.len() as int)
}

/// A WRITE of `bytes` at `offset` followed by a READ of the same range: the
/// first is carried out as a write of that range, the second as a read of
/// it, and what the read returns — as a simple reply's data, or as the
/// concatenated data of its structured chunks — is exactly `bytes`.
pub proof fn lemma_write_read_round_trip(
    e: Export,
    file: Seq<u8>,
    w: Request,
    rd: Request,
    bytes: Seq<u8>,
)
    requires
        file.len() == e.size,
        w.magic == NBD_REQUEST_MAGIC,
        rd.magic == NBD_REQUEST_MAGIC,
        w.command_type == 1,
        rd.command_type == 0,
        w.offset == rd.offset,
        w.len == bytes.len(),
        rd.len == bytes.len(),
        w.offset + bytes.len() <= e.size,
    ensures
        spec_action(e, w) == (TransmissionAction::Write { handle: w.handle, offset: w.offset, len: w.len }),
        spec_action(e, rd) == (TransmissionAction::Read {
            handle: rd.handle,
            offset: rd.offset,
            len: rd.len,
        }),
        ({
            let after = apply_write(file, w.offset as int, bytes);
            let read = after.subrange(rd.offset as int, rd.offset + rd.len);
            &&& after.len() == file.len()
            &&& read == bytes
            &&& chunks_data(spec_structured_read(rd.handle, rd.offset, read)) == bytes
        }),
{
    let after = apply_write(file, w.offset as int, bytes);
    assert(after.subrange(rd.offset as int, rd.offset + rd.len) =~= bytes);
    crate::protocol::lemma_structured_read_data(rd.handle, after, rd.offset, rd.len);
}

/// FLUSH keeps no state: a second FLUSH is decided exactly as the first,
/// and neither changes the backing file's contents.
pub proof fn lemma_flush_idempotent(e: Export, r1: Request, r2: Request)
    requires
        r1.magic == NBD_REQUEST_MAGIC,
        r2.magic == NBD_REQUEST_MAGIC,
        r1.command_type == 3,
        r2.command_type == 3,
        r1.handle == r2.handle,
    ensures
        spec_action(e, r1) == (TransmissionAction::Flush { handle: r1.handle }),
        spec_action(e, r2) == spec_action(e, r1),
{
}

/// A READ or WRITE that reaches past the end of the export gets an error
/// reply with its handle; a WRITE's payload is consumed so the next request
/// header is read from the right place; the connection stays open.
pub proof fn lemma_out_of_range(e: Export, r: Request)
    requires
        r.magic == NBD_REQUEST_MAGIC,
        r.command_type == 0 || r.command_type == 1,
        r.offset + r.len > e.size,
    ensures
        r.command_type == 0 ==> spec_action(e, r) == (TransmissionAction::Reply {
            handle: r.handle,
            error: NBD_EINVAL,
        }),
        r.command_type == 1 ==> spec_action(e, r) == (TransmissionAction::Discard {
            handle: r.handle,
            len: r.len,
            error: NBD_EINVAL,
        }),
        spec_action(e, r) != TransmissionAction::Disconnect,
        NBD_EINVAL != 0,
{
}

} // verus!
