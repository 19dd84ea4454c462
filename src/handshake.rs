//! The newstyle-fixed handshake: greeting, client flags, and one decision
//! per option request.
use crate::client::Client;
use crate::consts::{
    NbdInfoOpt, NbdOpt, NbdReply, MAX_BLOCK_SIZE, MIN_BLOCK_SIZE, NBD_EXPORT_NAME_PADDING,
    NBD_FLAG_C_FIXED_NEWSTYLE, NBD_FLAG_C_NO_ZEROES, NBD_FLAG_FIXED_NEWSTYLE, NBD_FLAG_NO_ZEROES,
    NBD_INIT_MAGIC, NBD_OPTION_HEADER_SIZE, NBD_OPTS_MAGIC, PREFERRED_BLOCK_SIZE,
};
use crate::protocol::{
    handshake_reply, info_payload, info_reply, option_msg, OptionMessage, OptionReply,
};
use crate::wire::{
    be_bytes, be_value, lemma_be_field, push_be_u16, push_be_u32, push_be_u64, push_bytes,
    read_be_u16, read_be_u32, read_be_u64,
};
use crate::{export_flags, transmission_flags, utf8, Export, InteractionResult, Server};
use vstd::prelude::*;

verus! {

broadcast use crate::wire::lemma_be_bytes_len;

/// The fixed part of an option request: magic, option code, payload length.
#[derive(PartialEq, Eq, Structural, Clone, Copy, Debug)]
pub struct OptionHeader {
    pub magic: u64,
    pub option: u32,
    pub length: u32,
}

impl OptionHeader {
    pub open spec fn spec_decode(s: Seq<u8>) -> OptionHeader {
        OptionHeader {
            magic: be_value(s.subrange(0, 8)) as u64,
            option: be_value(s.subrange(8, 12)) as u32,
            length: be_value(s.subrange(12, 16)) as u32,
        }
    }

    pub open spec fn spec_bytes(self) -> Seq<u8> {
        be_bytes(self.magic as nat, 8) + be_bytes(self.option as nat, 4) + be_bytes(
            self.length as nat,
            4,
        )
    }

    /// Decodes an option request header; `None` when fewer than 16 bytes are given.
    pub fn decode(buf: &[u8]) -> (r: Option<OptionHeader>)
        ensures
            r is None <==> buf@.len() < NBD_OPTION_HEADER_SIZE,
            r is Some ==> r->0 == OptionHeader::spec_decode(buf@),
    {
        if buf.len() < NBD_OPTION_HEADER_SIZE {
            return None;
        }
        Some(
            OptionHeader {
                magic: read_be_u64(buf, 0),
                option: read_be_u32(buf, 8),
                length: read_be_u32(buf, 12),
            },
        )
    }

    /// The 16 bytes of this header as a client sends them.
    pub fn to_bytes(&self) -> (r: Vec<u8>)
        ensures
            r@ == self.spec_bytes(),
    {
        let mut out: Vec<u8> = Vec::new();
        push_be_u64(&mut out, self.magic);
        push_be_u32(&mut out, self.option);
        push_be_u32(&mut out, self.length);
        out
    }
}

/// Decoding the bytes that an option header is sent as gives back that header.
pub proof fn lemma_option_header_round_trip(h: OptionHeader)
    ensures
        OptionHeader::spec_decode(h.spec_bytes()) == h,
        h.spec_bytes().len() == NBD_OPTION_HEADER_SIZE,
{
    lemma_be_field(h.magic as nat, 8);
    lemma_be_field(h.option as nat, 4);
    lemma_be_field(h.length as nat, 4);
    let s = h.spec_bytes();
    assert(s.subrange(0, 8) =~= be_bytes(h.magic as nat, 8));
    assert(s.subrange(8, 12) =~= be_bytes(h.option as nat, 4));
    assert(s.subrange(12, 16) =~= be_bytes(h.length as nat, 4));
}

/// What the server sends first: init magic, opts magic, handshake flags.
pub open spec fn greeting_bytes() -> Seq<u8> {
    be_bytes(NBD_INIT_MAGIC as nat, 8) + be_bytes(NBD_OPTS_MAGIC as nat, 8) + be_bytes(
        (NBD_FLAG_FIXED_NEWSTYLE | NBD_FLAG_NO_ZEROES) as nat,
        2,
    )
}

/// The server's opening bytes.
pub fn handshake_greeting() -> (r: Vec<u8>)
    ensures
        r@ == greeting_bytes(),
{
    let mut out: Vec<u8> = Vec::new();
    push_be_u64(&mut out, NBD_INIT_MAGIC);
    push_be_u64(&mut out, NBD_OPTS_MAGIC);
    push_be_u16(&mut out, NBD_FLAG_FIXED_NEWSTYLE | NBD_FLAG_NO_ZEROES);
    out
}

/// Whether the client asked to leave out the zero padding of EXPORT_NAME.
pub open spec fn asks_no_zeroes(client_flags: u32) -> bool {
    client_flags & NBD_FLAG_C_NO_ZEROES != 0
}

impl<T> Client<T> {
    /// Records the client's flags word. Returns whether the value is one
    /// of the two that a fixed-newstyle client may send; any other value
    /// is accepted all the same.
    pub fn accept_client_flags(&mut self, client_flags: u32) -> (known: bool)
        ensures
            known == (client_flags == NBD_FLAG_C_FIXED_NEWSTYLE || client_flags == (
            NBD_FLAG_C_FIXED_NEWSTYLE | NBD_FLAG_C_NO_ZEROES)),
            final(self).spec_no_zeroes() == asks_no_zeroes(client_flags),
            final(self).spec_structured_reply() == old(self).spec_structured_reply(),
            final(self).spec_stream() == old(self).spec_stream(),
            final(self).spec_addr() == old(self).spec_addr(),
    {
        self.set_no_zeroes(client_flags & NBD_FLAG_C_NO_ZEROES != 0);
        client_flags == NBD_FLAG_C_FIXED_NEWSTYLE || client_flags == (NBD_FLAG_C_FIXED_NEWSTYLE
            | NBD_FLAG_C_NO_ZEROES)
    }
}

/// Length of the export name given in an INFO or GO payload.
pub open spec fn info_name_len(d: Seq<u8>) -> nat {
    be_value(d.subrange(0, 4))
}

/// Number of information requests in an INFO or GO payload.
pub open spec fn info_count(d: Seq<u8>) -> nat {
    let nl = info_name_len(d) as int;
    be_value(d.subrange(4 + nl, 6 + nl))
}

/// The `i`-th information code requested by an INFO or GO payload.
pub open spec fn info_code(d: Seq<u8>, i: int) -> nat {
    let nl = info_name_len(d) as int;
    be_value(d.subrange(6 + nl + 2 * i, 8 + nl + 2 * i))
}

/// An INFO or GO payload is a name length, the name, a request count and
/// exactly that many two-byte codes.
pub open spec fn info_request_wf(d: Seq<u8>) -> bool {
    &&& d.len() >= 6
    &&& info_name_len(d) <= d.len() - 6
    &&& d.len() - 6 - info_name_len(d) == 2 * info_count(d)
}

pub open spec fn info_requested(d: Seq<u8>, code: nat) -> bool {
    exists|i: int| 0 <= i < info_count(d) && #[trigger] info_code(d, i) == code
}

/// What an INFO or GO request asks for beyond what is always sent.
#[derive(PartialEq, Eq, Structural, Clone, Copy, Debug)]
pub struct InfoRequest {
    pub name: bool,
    pub description: bool,
}

/// Reads an INFO or GO payload: whether it asks for the name and for the description.
pub fn parse_info_request(data: &[u8]) -> (r: Option<InfoRequest>)
    ensures
        r is None <==> !info_request_wf(data@),
        r is Some ==> r->0.name == info_requested(data@, 1) && r->0.description == info_requested(
            data@,
            2,
        ),
{
    let len = data.len();
    if len < 6 {
        return None;
    }
    let nl = read_be_u32(data, 0) as usize;
    if nl > len - 6 {
        return None;
    }
    let count = read_be_u16(data, 4 + nl) as usize;
    if len - 6 - nl != 2 * count {
        return None;
    }
    let mut send_name = false;
    let mut send_description = false;
    let mut i: usize = 0;
    while i < count
        invariant
            data@.len() == len,
            info_request_wf(data@),
            nl == info_name_len(data@),
            count == info_count(data@),
            i <= count,
            len == 6 + nl + 2 * count,
            send_name == exists|j: int| 0 <= j < i && #[trigger] info_code(data@, j) == 1,
            send_description == exists|j: int| 0 <= j < i && #[trigger] info_code(data@, j) == 2,
        decreases count - i,
    {
        let code = read_be_u16(data, 6 + nl + 2 * i);
        assert(code as nat == info_code(data@, i as int));
        if code == NbdInfoOpt::Name.code() {
            send_name = true;
        }
        if code == NbdInfoOpt::Description.code() {
            send_description = true;
        }
        i = i + 1;
    }
    Some(InfoRequest { name: send_name, description: send_description })
}

/// The block-size information: minimum, preferred and maximum.
pub open spec fn block_size_payload(size: u64) -> Seq<u8> {
    be_bytes(MIN_BLOCK_SIZE as nat, 4) + be_bytes(PREFERRED_BLOCK_SIZE as nat, 4) + be_bytes(
        (if size < MAX_BLOCK_SIZE { size } else { MAX_BLOCK_SIZE }) as nat,
        4,
    )
}

/// The export information: size and transmission flags.
pub open spec fn export_info_payload(e: Export) -> Seq<u8> {
    be_bytes(e.size as nat, 8) + be_bytes(transmission_flags(e) as nat, 2)
}

/// The replies to an INFO or GO option carrying payload `d`.
pub open spec fn info_replies(e: Export, option: u32, d: Seq<u8>) -> Seq<(OptionReply, Seq<u8>)> {
    if !info_request_wf(d) {
        seq![option_msg(option, NbdReply::NbdRepErrInvalid.spec_code(), Seq::empty())]
    } else {
        let info = NbdReply::Info.spec_code();
        (if info_requested(d, 1) {
            seq![option_msg(option, info, info_payload(NbdInfoOpt::Name, utf8(e.name@)))]
        } else {
            Seq::empty()
        }) + (if info_requested(d, 2) {
            seq![
                option_msg(option, info, info_payload(NbdInfoOpt::Description, utf8(e.description@))),
            ]
        } else {
            Seq::empty()
        }) + seq![
            option_msg(option, info, info_payload(NbdInfoOpt::BlockSize, block_size_payload(e.size))),
            option_msg(option, info, info_payload(NbdInfoOpt::Export, export_info_payload(e))),
            option_msg(option, NbdReply::Ack.spec_code(), Seq::empty()),
        ]
    }
}

/// The replies to LIST: the one export, then an acknowledgement.
pub open spec fn list_replies(e: Export, option: u32) -> Seq<(OptionReply, Seq<u8>)> {
    let name = utf8(e.name@);
    seq![
        option_msg(
            option,
            NbdReply::Server.spec_code(),
            be_bytes(name.len(), 4) + name + utf8(e.description@),
        ),
        option_msg(option, NbdReply::Ack.spec_code(), Seq::empty()),
    ]
}

/// The replies to LIST for the export called `name`.
pub fn handle_list(name: &str, description: &str) -> (r: Vec<OptionMessage>)
    requires
        utf8(name@).len() + utf8(description@).len() + 4 <= u32::MAX,
    ensures
        r@.map_values(|m: OptionMessage| m@) == seq![
            option_msg(
                NbdOpt::List.spec_code(),
                NbdReply::Server.spec_code(),
                be_bytes(utf8(name@).len(), 4) + utf8(name@) + utf8(description@),
            ),
            option_msg(NbdOpt::List.spec_code(), NbdReply::Ack.spec_code(), Seq::empty()),
        ],
{
    let name_bytes = name.as_bytes();
    let description_bytes = description.as_bytes();
    let mut payload: Vec<u8> = Vec::new();
    push_be_u32(&mut payload, name_bytes.len() as u32);
    push_bytes(&mut payload, name_bytes);
    push_bytes(&mut payload, description_bytes);
    let list = NbdOpt::List.code();
    let empty: Vec<u8> = Vec::new();
    let mut r: Vec<OptionMessage> = Vec::new();
    r.push(handshake_reply(list, NbdReply::Server, payload.as_slice()));
    r.push(handshake_reply(list, NbdReply::Ack, empty.as_slice()));
    assert(r@.map_values(|m: OptionMessage| m@) =~= seq![
        option_msg(
            NbdOpt::List.spec_code(),
            NbdReply::Server.spec_code(),
            be_bytes(utf8(name@).len(), 4) + utf8(name@) + utf8(description@),
        ),
        option_msg(NbdOpt::List.spec_code(), NbdReply::Ack.spec_code(), Seq::empty()),
    ]);
    r
}

/// Answers INFO or GO (`option`) with payload `data`: the requested name and
/// description, the block sizes, the export's size and flags, then an
/// acknowledgement; a malformed payload gets a single error reply.
pub fn handle_export_info(export: &Export, option: u32, data: &[u8]) -> (r: Vec<OptionMessage>)
    requires
        export.wf(),
    ensures
        r@.map_values(|m: OptionMessage| m@) == info_replies(*export, option, data@),
{
    let mut r: Vec<OptionMessage> = Vec::new();
    let empty: Vec<u8> = Vec::new();
    let req = match parse_info_request(data) {
        None => {
            r.push(handshake_reply(option, NbdReply::NbdRepErrInvalid, empty.as_slice()));
            assert(r@.map_values(|m: OptionMessage| m@) =~= info_replies(*export, option, data@));
            return r;
        },
        Some(req) => req,
    };
    let ghost mut expected: Seq<(OptionReply, Seq<u8>)> = Seq::empty();
    if req.name {
        r.push(info_reply(option, NbdInfoOpt::Name, export.name.as_str().as_bytes()));
        proof {
            expected = expected.push(
                option_msg(
                    option,
                    NbdReply::Info.spec_code(),
                    info_payload(NbdInfoOpt::Name, utf8(export.name@)),
                ),
            );
        }
    }
    if req.description {
        r.push(info_reply(option, NbdInfoOpt::Description, export.description.as_str().as_bytes()));
        proof {
            expected = expected.push(
                option_msg(
                    option,
                    NbdReply::Info.spec_code(),
                    info_payload(NbdInfoOpt::Description, utf8(export.description@)),
                ),
            );
        }
    }
    assert(r@.map_values(|m: OptionMessage| m@) =~= expected);
    let mut sizes: Vec<u8> = Vec::new();
    push_be_u32(&mut sizes, MIN_BLOCK_SIZE);
    push_be_u32(&mut sizes, PREFERRED_BLOCK_SIZE);
    let max = if export.size < MAX_BLOCK_SIZE {
        export.size
    } else {
        MAX_BLOCK_SIZE
    };
    push_be_u32(&mut sizes, max as u32);
    r.push(info_reply(option, NbdInfoOpt::BlockSize, sizes.as_slice()));
    let mut info: Vec<u8> = Vec::new();
    push_be_u64(&mut info, export.size);
    push_be_u16(&mut info, export_flags(export));
    r.push(info_reply(option, NbdInfoOpt::Export, info.as_slice()));
    r.push(handshake_reply(option, NbdReply::Ack, empty.as_slice()));
    assert(r@.map_values(|m: OptionMessage| m@) =~= info_replies(*export, option, data@));
    r
}

/// What the server does about one option request.
#[derive(Debug)]
pub struct OptionOutcome {
    /// Option replies to send, in order.
    pub replies: Vec<OptionMessage>,
    /// Bytes to send after the replies (the answer to EXPORT_NAME).
    pub export_data: Vec<u8>,
    /// `None`: read the next option; otherwise the handshake ends so.
    pub result: Option<InteractionResult>,
}

/// The zero padding that ends the answer to EXPORT_NAME.
pub open spec fn zero_padding(n: nat) -> Seq<u8> {
    Seq::new(n, |i: int| 0u8)
}

/// The answer to EXPORT_NAME: size, transmission flags, then the padding
/// unless the client asked to leave it out.
pub open spec fn export_name_data(e: Export, no_zeroes: bool) -> Seq<u8> {
    be_bytes(e.size as nat, 8) + be_bytes(transmission_flags(e) as nat, 2) + (if no_zeroes {
        Seq::empty()
    } else {
        zero_padding(NBD_EXPORT_NAME_PADDING as nat)
    })
}

/// The option replies that answer the request `h` with payload `d`.
pub open spec fn option_replies(e: Export, h: OptionHeader, d: Seq<u8>) -> Seq<(OptionReply, Seq<u8>)> {
    if h.magic != NBD_OPTS_MAGIC {
        Seq::empty()
    } else {
        match NbdOpt::spec_from_code(h.option) {
            NbdOpt::ExportName => Seq::empty(),
            NbdOpt::Abort => seq![option_msg(h.option, NbdReply::Ack.spec_code(), Seq::empty())],
            NbdOpt::List => list_replies(e, h.option),
            NbdOpt::StructuredReply => seq![
                option_msg(h.option, NbdReply::Ack.spec_code(), Seq::empty()),
            ],
            NbdOpt::Info => info_replies(e, h.option, d),
            NbdOpt::Go => info_replies(e, h.option, d),
            _ => seq![option_msg(h.option, NbdReply::NbdRepErrUnsup.spec_code(), Seq::empty())],
        }
    }
}

/// The raw bytes that follow the replies to `h`.
pub open spec fn option_export_data(e: Export, no_zeroes: bool, h: OptionHeader) -> Seq<u8> {
    if h.magic == NBD_OPTS_MAGIC && NbdOpt::spec_from_code(h.option) == NbdOpt::ExportName {
        export_name_data(e, no_zeroes)
    } else {
        Seq::empty()
    }
}

/// How the request `h` with payload `d` ends the handshake, if it does.
pub open spec fn option_result(h: OptionHeader, d: Seq<u8>) -> Option<InteractionResult> {
    if h.magic != NBD_OPTS_MAGIC {
        None
    } else {
        match NbdOpt::spec_from_code(h.option) {
            NbdOpt::ExportName => Some(InteractionResult::Continue),
            NbdOpt::Abort => Some(InteractionResult::Abort),
            NbdOpt::Go => if info_request_wf(d) {
                Some(InteractionResult::Continue)
            } else {
                None
            },
            _ => None,
        }
    }
}

/// Whether the request `h` turns structured replies on.
pub open spec fn option_enables_structured(h: OptionHeader) -> bool {
    h.magic == NBD_OPTS_MAGIC && NbdOpt::spec_from_code(h.option) == NbdOpt::StructuredReply
}

impl Server {
    /// Decides the answer to one option request `header` whose payload is
    /// `data`; records in `c` what it negotiates. A request with the wrong
    /// magic is dropped: no reply, and the loop goes on.
    pub fn handshake_step<T>(&self, c: &mut Client<T>, header: &OptionHeader, data: &[u8]) -> (r:
        OptionOutcome)
        requires
            self.export.wf(),
        ensures
            r.replies@.map_values(|m: OptionMessage| m@) == option_replies(
                self.export,
                *header,
                data@,
            ),
            r.export_data@ == option_export_data(self.export, old(c).spec_no_zeroes(), *header),
            r.result == option_result(*header, data@),
            final(c).spec_structured_reply() == (old(c).spec_structured_reply()
                || option_enables_structured(*header)),
            final(c).spec_no_zeroes() == old(c).spec_no_zeroes(),
            final(c).spec_stream() == old(c).spec_stream(),
            final(c).spec_addr() == old(c).spec_addr(),
    {
        let empty: Vec<u8> = Vec::new();
        let mut replies: Vec<OptionMessage> = Vec::new();
        let mut export_data: Vec<u8> = Vec::new();
        if header.magic != NBD_OPTS_MAGIC {
            assert(replies@.map_values(|m: OptionMessage| m@) =~= Seq::empty());
            return OptionOutcome { replies, export_data, result: None };
        }
        let opt = NbdOpt::from_code(header.option);
        let result = match opt {
            NbdOpt::ExportName => {
                push_be_u64(&mut export_data, self.export.size);
                push_be_u16(&mut export_data, export_flags(&self.export));
                if !c.no_zeroes() {
                    let ghost start = export_data@;
                    let mut i: usize = 0;
                    while i < NBD_EXPORT_NAME_PADDING
                        invariant
                            i <= NBD_EXPORT_NAME_PADDING,
                            export_data@ == start + zero_padding(i as nat),
                        decreases NBD_EXPORT_NAME_PADDING - i,
                    {
                        export_data.push(0u8);
                        i = i + 1;
                        assert(export_data@ =~= start + zero_padding(i as nat));
                    }
                }
                assert(export_data@ =~= export_name_data(self.export, c.spec_no_zeroes()));
                Some(InteractionResult::Continue)
            },
            NbdOpt::Abort => {
                replies.push(handshake_reply(header.option, NbdReply::Ack, empty.as_slice()));
                Some(InteractionResult::Abort)
            },
            NbdOpt::List => {
                replies = handle_list(self.export.name.as_str(), self.export.description.as_str());
                None
            },
            NbdOpt::StructuredReply => {
                c.set_structured_reply(true);
                replies.push(handshake_reply(header.option, NbdReply::Ack, empty.as_slice()));
                None
            },
            NbdOpt::Info => {
                replies = handle_export_info(&self.export, header.option, data);
                None
            },
            NbdOpt::Go => {
                replies = handle_export_info(&self.export, header.option, data);
                if parse_info_request(data).is_some() {
                    Some(InteractionResult::Continue)
                } else {
                    None
                }
            },
            _ => {
                replies.push(handshake_reply(header.option, NbdReply::NbdRepErrUnsup, empty.as_slice()));
                None
            },
        };
        assert(replies@.map_values(|m: OptionMessage| m@) =~= option_replies(
            self.export,
            *header,
            data@,
        ));
        OptionOutcome { replies, export_data, result }
    }
}

/// Every option reply sent in answer to a request echoes that request's
/// option code.
pub proof fn lemma_option_replies_echo(e: Export, h: OptionHeader, d: Seq<u8>)
    ensures
        forall|i: int|
            0 <= i < option_replies(e, h, d).len() ==> (#[trigger] option_replies(e, h, d)[i]).0.option
                == h.option,
{
    let r = option_replies(e, h, d);
    if h.magic == NBD_OPTS_MAGIC {
        match NbdOpt::spec_from_code(h.option) {
            NbdOpt::Info | NbdOpt::Go => {
                if info_request_wf(d) {
                    let info = NbdReply::Info.spec_code();
                    let a: Seq<(OptionReply, Seq<u8>)> = if info_requested(d, 1) {
                        seq![option_msg(h.option, info, info_payload(NbdInfoOpt::Name, utf8(e.name@)))]
                    } else {
                        Seq::empty()
                    };
                    let b: Seq<(OptionReply, Seq<u8>)> = if info_requested(d, 2) {
                        seq![
                            option_msg(
                                h.option,
                                info,
                                info_payload(NbdInfoOpt::Description, utf8(e.description@)),
                            ),
                        ]
                    } else {
                        Seq::empty()
                    };
                    let c = seq![
                        option_msg(
                            h.option,
                            info,
                            info_payload(NbdInfoOpt::BlockSize, block_size_payload(e.size)),
                        ),
                        option_msg(h.option, info, info_payload(NbdInfoOpt::Export, export_info_payload(e))),
                        option_msg(h.option, NbdReply::Ack.spec_code(), Seq::empty()),
                    ];
                    assert(r == a + b + c);
                    assert forall|i: int| 0 <= i < r.len() implies (#[trigger] r[i]).0.option == h.option by {
                        if i < a.len() {
                        } else if i < a.len() + b.len() {
                            assert(r[i] == b[i - a.len()]);
                        } else {
                            assert(r[i] == c[i - a.len() - b.len()]);
                        }
                    }
                }
            },
            _ => {},
        }
    }
}

/// LIST changes nothing in the session and its replies depend on the export
/// alone: asking again gives the same replies.
pub proof fn lemma_list_repeatable(e: Export, h: OptionHeader, d1: Seq<u8>, d2: Seq<u8>)
    requires
        h.magic == NBD_OPTS_MAGIC,
        h.option == NbdOpt::List.spec_code(),
    ensures
        option_replies(e, h, d1) == option_replies(e, h, d2),
        option_replies(e, h, d1) == list_replies(e, h.option),
        !option_enables_structured(h),
        option_result(h, d1) is None,
        option_export_data(e, true, h) == Seq::<u8>::empty(),
        option_export_data(e, false, h) == Seq::<u8>::empty(),
{
}

} // verus!
