//! A server for the Network Block Device protocol: handshake and
//! transmission engines that decide every byte sent on the wire.
use vstd::prelude::*;

pub mod client;
pub mod consts;
pub mod handshake;
pub mod protocol;
pub mod transmission;
pub mod wire;

use crate::consts::{
    NBD_FLAG_CAN_MULTI_CONN, NBD_FLAG_HAS_FLAGS, NBD_FLAG_READ_ONLY, NBD_FLAG_ROTATIONAL,
    NBD_FLAG_SEND_DF, NBD_FLAG_SEND_FAST_ZERO, NBD_FLAG_SEND_FLUSH, NBD_FLAG_SEND_RESIZE,
    NBD_FLAG_SEND_TRIM,
};

verus! {

/// Errors of the protocol engine.
#[derive(PartialEq, Eq, Structural, Clone, Copy, Debug)]
pub enum NbdError {
    /// A header began with this value instead of the expected magic.
    BadMagic(u64),
    /// Fewer bytes were given than the header needs.
    Truncated,
    /// The export's name and description do not fit the reply length fields.
    NameTooLong,
}

impl NbdError {
    /// A human-readable description of the error.
    pub fn message(&self) -> String {
        match self {
            NbdError::BadMagic(_) => "bad magic number".to_string(),
            NbdError::Truncated => "truncated header".to_string(),
            NbdError::NameTooLong => "export name and description too long".to_string(),
        }
    }
}

/// How a phase of the connection ended.
#[derive(PartialEq, Eq, Structural, Clone, Copy, Debug)]
pub enum InteractionResult {
    Abort,
    Continue,
}

/// The bytes of a string as sent on the wire.
pub open spec fn utf8(s: Seq<char>) -> Seq<u8> {
    vstd::utf8::encode_utf8(s)
}

/// An exported block device and the capabilities it advertises.
#[derive(Debug)]
pub struct Export {
    pub path: String,
    pub name: String,
    pub description: String,
    pub size: u64,
    pub read_only: bool,
    pub can_resize: bool,
    pub fast_zero: bool,
    pub trim: bool,
    pub flush: bool,
    pub rotational: bool,
    pub df: bool,
    pub multiconn: bool,
}

impl Export {
    /// The name and description fit every reply that carries them: the
    /// LIST reply holds both plus a four-byte length in a 32-bit length field.
    pub open spec fn wf(&self) -> bool {
        utf8(self.name@).len() + utf8(self.description@).len() + 4 <= u32::MAX
    }

    /// An export of `size` bytes at `path`, writable, advertising
    /// do-not-fragment and multi-connection support.
    pub fn new(path: String, name: String, description: String, size: u64) -> (r: Result<
        Export,
        NbdError,
    >)
        ensures
            r is Err <==> utf8(name@).len() + utf8(description@).len() + 4 > u32::MAX,
            r is Err ==> r->Err_0 == NbdError::NameTooLong,
            r is Ok ==> ({
                let e = r->Ok_0;
                &&& e.wf()
                &&& e.path@ == path@ && e.name@ == name@ && e.description@ == description@
                &&& e.size == size
                &&& !e.read_only && !e.can_resize && !e.fast_zero && !e.trim && !e.flush
                &&& !e.rotational && e.df && e.multiconn
            }),
    {
        let nl = name.as_str().as_bytes().len();
        let dl = description.as_str().as_bytes().len();
        if nl > u32::MAX as usize - 4 || dl > u32::MAX as usize - 4 - nl {
            return Err(NbdError::NameTooLong);
        }
        Ok(
            Export {
                path,
                name,
                description,
                size,
                read_only: false,
                can_resize: false,
                fast_zero: false,
                trim: false,
                flush: false,
                rotational: false,
                df: true,
                multiconn: true,
            },
        )
    }
}

/// The transmission flags that `e` advertises.
pub open spec fn transmission_flags(e: Export) -> u16 {
    NBD_FLAG_HAS_FLAGS
        | (if e.read_only { NBD_FLAG_READ_ONLY } else { 0 })
        | (if e.flush { NBD_FLAG_SEND_FLUSH } else { 0 })
        | (if e.rotational { NBD_FLAG_ROTATIONAL } else { 0 })
        | (if e.trim { NBD_FLAG_SEND_TRIM } else { 0 })
        | (if e.df { NBD_FLAG_SEND_DF } else { 0 })
        | (if e.multiconn { NBD_FLAG_CAN_MULTI_CONN } else { 0 })
        | (if e.can_resize { NBD_FLAG_SEND_RESIZE } else { 0 })
        | (if e.fast_zero { NBD_FLAG_SEND_FAST_ZERO } else { 0 })
}

/// Sets in `flags` the transmission flags that `export` advertises.
pub fn set_flags(export: &Export, flags: &mut u16)
    ensures
        *final(flags) == *old(flags) | transmission_flags(*export),
{
    let read_only = if export.read_only { NBD_FLAG_READ_ONLY } else { 0 };
    let flush = if export.flush { NBD_FLAG_SEND_FLUSH } else { 0 };
    let rotational = if export.rotational { NBD_FLAG_ROTATIONAL } else { 0 };
    let trim = if export.trim { NBD_FLAG_SEND_TRIM } else { 0 };
    let df = if export.df { NBD_FLAG_SEND_DF } else { 0 };
    let multiconn = if export.multiconn { NBD_FLAG_CAN_MULTI_CONN } else { 0 };
    let resize = if export.can_resize { NBD_FLAG_SEND_RESIZE } else { 0 };
    let fast_zero = if export.fast_zero { NBD_FLAG_SEND_FAST_ZERO } else { 0 };
    *flags = *flags | (NBD_FLAG_HAS_FLAGS | read_only | flush | rotational | trim | df | multiconn
        | resize | fast_zero);
}

/// The transmission flags that `export` advertises.
pub fn export_flags(export: &Export) -> (r: u16)
    ensures
        r == transmission_flags(*export),
{
    let mut f: u16 = 0;
    set_flags(export, &mut f);
    let ghost t = transmission_flags(*export);
    assert((0u16 | t) == t) by (bit_vector);
    f
}

/// A server for one export; shared by every connection.
#[derive(Debug)]
pub struct Server {
    pub export: Export,
}

impl Server {
    pub fn new(export: Export) -> (r: Self)
        ensures
            r.export == export,
    {
        Server { export }
    }
}

} // verus!
