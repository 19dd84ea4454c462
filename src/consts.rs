//! Protocol constants and the wire codes of options, replies and commands.
use vstd::prelude::*;

verus! {

pub const NBD_DEFAULT_PORT: u16 = 10809;

pub const NBD_FLAG_FIXED_NEWSTYLE: u16 = 1;
pub const NBD_FLAG_NO_ZEROES: u16 = 2;

pub const NBD_FLAG_C_FIXED_NEWSTYLE: u32 = 1;
pub const NBD_FLAG_C_NO_ZEROES: u32 = 2;

pub const NBD_INIT_MAGIC: u64 = 0x4e42444d41474943;
pub const NBD_OPTS_MAGIC: u64 = 0x49484156454f5054;
pub const NBD_REP_MAGIC: u64 = 0x0003e889045565a9;
pub const NBD_SIMPLE_REPLY_MAGIC: u32 = 0x67446698;
pub const NBD_REQUEST_MAGIC: u32 = 0x25609513;
pub const NBD_STRUCTURED_REPLY_MAGIC: u32 = 0x668e33ef;

/// Size in bytes of a transmission request header.
pub const NBD_REQUEST_SIZE: usize = 28;
/// Size in bytes of an option request header (magic, option, length).
pub const NBD_OPTION_HEADER_SIZE: usize = 16;

/// High bit of an option reply type: the reply reports an error.
pub const NBD_REP_FLAG_ERROR: u32 = 0x8000_0000;

pub const MIN_BLOCK_SIZE: u32 = 1;
pub const PREFERRED_BLOCK_SIZE: u32 = 4096;
pub const MAX_BLOCK_SIZE: u64 = 33554432;

/// Payload bytes per offset-data chunk of a structured read.
pub const DEFAULT_CHUNK_SIZE: u32 = 4096;

/// Zero bytes that end the reply to EXPORT_NAME unless NO_ZEROES was negotiated.
pub const NBD_EXPORT_NAME_PADDING: usize = 124;

// Transmission flags
pub const NBD_FLAG_HAS_FLAGS: u16 = 1;
pub const NBD_FLAG_READ_ONLY: u16 = 2;
pub const NBD_FLAG_SEND_FLUSH: u16 = 4;
pub const NBD_FLAG_SEND_FUA: u16 = 8;
pub const NBD_FLAG_ROTATIONAL: u16 = 16;
pub const NBD_FLAG_SEND_TRIM: u16 = 32;
pub const NBD_FLAG_SEND_WRITE_ZEROES: u16 = 64;
pub const NBD_FLAG_SEND_DF: u16 = 128;
pub const NBD_FLAG_CAN_MULTI_CONN: u16 = 256;
pub const NBD_FLAG_SEND_RESIZE: u16 = 512;
pub const NBD_FLAG_SEND_CACHE: u16 = 1024;
pub const NBD_FLAG_SEND_FAST_ZERO: u16 = 2048;

// Structured reply chunks
pub const NBD_REPLY_FLAG_DONE: u16 = 1;
pub const NBD_REPLY_TYPE_NONE: u16 = 0;
pub const NBD_REPLY_TYPE_OFFSET_DATA: u16 = 1;

// Error values of a simple reply
pub const NBD_EIO: u32 = 5;
pub const NBD_EINVAL: u32 = 22;
pub const NBD_EOPNOTSUPP: u32 = 95;

/// A transmission command, decoded from its wire code.
#[derive(PartialEq, Eq, Structural, Clone, Copy, Debug)]
pub enum NbdCmd {
    Read,
    Write,
    Disc,
    Flush,
    Trim,
    Cache,
    WriteZeroes,
    BlockStatus,
    Unknown(u16),
}

impl NbdCmd {
    pub open spec fn spec_from_code(code: u16) -> NbdCmd {
        if code == 0 {
            NbdCmd::Read
        } else if code == 1 {
            NbdCmd::Write
        } else if code == 2 {
            NbdCmd::Disc
        } else if code == 3 {
            NbdCmd::Flush
        } else if code == 4 {
            NbdCmd::Trim
        } else if code == 5 {
            NbdCmd::Cache
        } else if code == 6 {
            NbdCmd::WriteZeroes
        } else if code == 7 {
            NbdCmd::BlockStatus
        } else {
            NbdCmd::Unknown(code)
        }
    }

    pub fn from_code(code: u16) -> (r: NbdCmd)
        ensures
            r == NbdCmd::spec_from_code(code),
    {
        match code {
            0 => NbdCmd::Read,
            1 => NbdCmd::Write,
            2 => NbdCmd::Disc,
            3 => NbdCmd::Flush,
            4 => NbdCmd::Trim,
            5 => NbdCmd::Cache,
            6 => NbdCmd::WriteZeroes,
            7 => NbdCmd::BlockStatus,
            _ => NbdCmd::Unknown(code),
        }
    }
}

/// A handshake option, decoded from its wire code.
#[derive(PartialEq, Eq, Structural, Clone, Copy, Debug)]
pub enum NbdOpt {
    ExportName,
    Abort,
    List,
    StartTls,
    Info,
    Go,
    StructuredReply,
    ListMetaContext,
    SetMetaContext,
    Unknown(u32),
}

impl NbdOpt {
    pub open spec fn spec_from_code(code: u32) -> NbdOpt {
        if code == 1 {
            NbdOpt::ExportName
        } else if code == 2 {
            NbdOpt::Abort
        } else if code == 3 {
            NbdOpt::List
        } else if code == 5 {
            NbdOpt::StartTls
        } else if code == 6 {
            NbdOpt::Info
        } else if code == 7 {
            NbdOpt::Go
        } else if code == 8 {
            NbdOpt::StructuredReply
        } else if code == 9 {
            NbdOpt::ListMetaContext
        } else if code == 10 {
            NbdOpt::SetMetaContext
        } else {
            NbdOpt::Unknown(code)
        }
    }

    pub open spec fn spec_code(self) -> u32 {
        match self {
            NbdOpt::ExportName => 1,
            NbdOpt::Abort => 2,
            NbdOpt::List => 3,
            NbdOpt::StartTls => 5,
            NbdOpt::Info => 6,
            NbdOpt::Go => 7,
            NbdOpt::StructuredReply => 8,
            NbdOpt::ListMetaContext => 9,
            NbdOpt::SetMetaContext => 10,
            NbdOpt::Unknown(c) => c,
        }
    }

    pub fn from_code(code: u32) -> (r: NbdOpt)
        ensures
            r == NbdOpt::spec_from_code(code),
            r.spec_code() == code,
    {
        match code {
            1 => NbdOpt::ExportName,
            2 => NbdOpt::Abort,
            3 => NbdOpt::List,
            5 => NbdOpt::StartTls,
            6 => NbdOpt::Info,
            7 => NbdOpt::Go,
            8 => NbdOpt::StructuredReply,
            9 => NbdOpt::ListMetaContext,
            10 => NbdOpt::SetMetaContext,
            _ => NbdOpt::Unknown(code),
        }
    }

    pub fn code(&self) -> (r: u32)
        ensures
            r == self.spec_code(),
    {
        match self {
            NbdOpt::ExportName => 1,
            NbdOpt::Abort => 2,
            NbdOpt::List => 3,
            NbdOpt::StartTls => 5,
            NbdOpt::Info => 6,
            NbdOpt::Go => 7,
            NbdOpt::StructuredReply => 8,
            NbdOpt::ListMetaContext => 9,
            NbdOpt::SetMetaContext => 10,
            NbdOpt::Unknown(c) => *c,
        }
    }
}

/// The type of an option reply.
#[derive(PartialEq, Eq, Structural, Clone, Copy, Debug)]
pub enum NbdReply {
    Ack,
    Server,
    Info,
    MetaContext,
    NbdRepErrUnsup,
    NbdRepErrInvalid,
}

impl NbdReply {
    pub open spec fn spec_code(self) -> u32 {
        match self {
            NbdReply::Ack => 1,
            NbdReply::Server => 2,
            NbdReply::Info => 3,
            NbdReply::MetaContext => 4,
            NbdReply::NbdRepErrUnsup => 0x8000_0001,
            NbdReply::NbdRepErrInvalid => 0x8000_0003,
        }
    }

    pub fn code(&self) -> (r: u32)
        ensures
            r == self.spec_code(),
    {
        match self {
            NbdReply::Ack => 1,
            NbdReply::Server => 2,
            NbdReply::Info => 3,
            NbdReply::MetaContext => 4,
            NbdReply::NbdRepErrUnsup => 0x8000_0001,
            NbdReply::NbdRepErrInvalid => 0x8000_0003,
        }
    }
}

/// An information item that INFO and GO may request.
#[derive(PartialEq, Eq, Structural, Clone, Copy, Debug)]
pub enum NbdInfoOpt {
    Export,
    Name,
    Description,
    BlockSize,
    Unknown(u16),
}

impl NbdInfoOpt {
    pub open spec fn spec_from_code(code: u16) -> NbdInfoOpt {
        if code == 0 {
            NbdInfoOpt::Export
        } else if code == 1 {
            NbdInfoOpt::Name
        } else if code == 2 {
            NbdInfoOpt::Description
        } else if code == 3 {
            NbdInfoOpt::BlockSize
        } else {
            NbdInfoOpt::Unknown(code)
        }
    }

    pub open spec fn spec_code(self) -> u16 {
        match self {
            NbdInfoOpt::Export => 0,
            NbdInfoOpt::Name => 1,
            NbdInfoOpt::Description => 2,
            NbdInfoOpt::BlockSize => 3,
            NbdInfoOpt::Unknown(c) => c,
        }
    }

    pub fn from_code(code: u16) -> (r: NbdInfoOpt)
        ensures
            r == NbdInfoOpt::spec_from_code(code),
    {
        match code {
            0 => NbdInfoOpt::Export,
            1 => NbdInfoOpt::Name,
            2 => NbdInfoOpt::Description,
            3 => NbdInfoOpt::BlockSize,
            _ => NbdInfoOpt::Unknown(code),
        }
    }

    pub fn code(&self) -> (r: u16)
        ensures
            r == self.spec_code(),
    {
        match self {
            NbdInfoOpt::Export => 0,
            NbdInfoOpt::Name => 1,
            NbdInfoOpt::Description => 2,
            NbdInfoOpt::BlockSize => 3,
            NbdInfoOpt::Unknown(c) => *c,
        }
    }
}

} // verus!
