//! Big-endian field codec used by every NBD message.
use byteorder::{BigEndian, ByteOrder};
use vstd::prelude::*;

verus! {

/// The `n` low-order bytes of `v`, most significant first.
pub open spec fn be_bytes(v: nat, n: nat) -> Seq<u8>
    decreases n,
{
    if n == 0 {
        Seq::empty()
    } else {
        be_bytes(v / 256, (n - 1) as nat).push((v % 256) as u8)
    }
}

/// The unsigned integer that `s` spells, most significant byte first.
pub open spec fn be_value(s: Seq<u8>) -> nat
    decreases s.len(),
{
    if s.len() == 0 {
        0
    } else {
        be_value(s.drop_last()) * 256 + s.last() as nat
    }
}

pub open spec fn pow256(n: nat) -> nat
    decreases n,
{
    if n == 0 {
        1
    } else {
        256 * pow256((n - 1) as nat)
    }
}

pub broadcast proof fn lemma_be_bytes_len(v: nat, n: nat)
    ensures
        #[trigger] be_bytes(v, n).len() == n,
    decreases n,
{
    if n > 0 {
        lemma_be_bytes_len(v / 256, (n - 1) as nat);
    }
}

/// Decoding the encoding of `v` gives back `v` modulo the field width.
pub proof fn lemma_be_round_trip(v: nat, n: nat)
    ensures
        be_value(be_bytes(v, n)) == v % pow256(n),
    decreases n,
{
    if n == 0 {
        assert(v % 1 == 0) by (nonlinear_arith);
    } else {
        let m = (n - 1) as nat;
        lemma_be_round_trip(v / 256, m);
        let s = be_bytes(v / 256, m).push((v % 256) as u8);
        assert(s.drop_last() =~= be_bytes(v / 256, m));
        assert(pow256(m) > 0) by {
            lemma_pow256_positive(m);
        }
        vstd::arithmetic::div_mod::lemma_mod_breakdown(v as int, 256, pow256(m) as int);
        assert(pow256(n) == 256 * pow256(m));
    }
}

pub proof fn lemma_pow256_positive(n: nat)
    ensures
        pow256(n) > 0,
    decreases n,
{
    if n > 0 {
        lemma_pow256_positive((n - 1) as nat);
    }
}

/// A field of `n` bytes holding a value that fits decodes to that value.
pub proof fn lemma_be_field(v: nat, n: nat)
    requires
        n == 2 ==> v <= u16::MAX,
        n == 4 ==> v <= u32::MAX,
        n == 8 ==> v <= u64::MAX,
        n == 2 || n == 4 || n == 8,
    ensures
        be_value(be_bytes(v, n)) == v,
        be_bytes(v, n).len() == n,
{
    lemma_be_round_trip(v, n);
    lemma_be_bytes_len(v, n);
    reveal_with_fuel(pow256, 9);
    assert(v % pow256(n) == v) by {
        vstd::arithmetic::div_mod::lemma_small_mod(v, pow256(n));
    }
}

/// Relies on byteorder's `BigEndian::read_u16`: the first two bytes, most significant first.
#[verifier::external_body]
pub(crate) fn read_be_u16(buf: &[u8], off: usize) -> (r: u16)
    requires
        off + 2 <= buf@.len(),
    ensures
        r as nat == be_value(buf@.subrange(off as int, off + 2)),
{
    BigEndian::read_u16(&buf[off..])
}

/// Relies on byteorder's `BigEndian::read_u32`: the first four bytes, most significant first.
#[verifier::external_body]
pub(crate) fn read_be_u32(buf: &[u8], off: usize) -> (r: u32)
    requires
        off + 4 <= buf@.len(),
    ensures
        r as nat == be_value(buf@.subrange(off as int, off + 4)),
{
    BigEndian::read_u32(&buf[off..])
}

/// Relies on byteorder's `BigEndian::read_u64`: the first eight bytes, most significant first.
#[verifier::external_body]
pub(crate) fn read_be_u64(buf: &[u8], off: usize) -> (r: u64)
    requires
        off + 8 <= buf@.len(),
    ensures
        r as nat == be_value(buf@.subrange(off as int, off + 8)),
{
    BigEndian::read_u64(&buf[off..])
}

/// Relies on byteorder's `BigEndian::write_u16`: two bytes, most significant first.
#[verifier::external_body]
pub(crate) fn push_be_u16(out: &mut Vec<u8>, n: u16)
    ensures
        final(out)@ == old(out)@ + be_bytes(n as nat, 2),
{
    let mut b = [0u8; 2];
    BigEndian::write_u16(&mut b, n);
    out.extend_from_slice(&b);
}

/// Relies on byteorder's `BigEndian::write_u32`: four bytes, most significant first.
#[verifier::external_body]
pub(crate) fn push_be_u32(out: &mut Vec<u8>, n: u32)
    ensures
        final(out)@ == old(out)@ + be_bytes(n as nat, 4),
{
    let mut b = [0u8; 4];
    BigEndian::write_u32(&mut b, n);
    out.extend_from_slice(&b);
}

/// Relies on byteorder's `BigEndian::write_u64`: eight bytes, most significant first.
#[verifier::external_body]
pub(crate) fn push_be_u64(out: &mut Vec<u8>, n: u64)
    ensures
        final(out)@ == old(out)@ + be_bytes(n as nat, 8),
{
    let mut b = [0u8; 8];
    BigEndian::write_u64(&mut b, n);
    out.extend_from_slice(&b);
}

/// Appends `data` to `out`.
pub fn push_bytes(out: &mut Vec<u8>, data: &[u8])
    ensures
        final(out)@ == old(out)@ + data@,
{
    push_range(out, data, 0, data.len());
    assert(data@.subrange(0, data@.len() as int) =~= data@);
}

/// Appends `data[lo..hi]` to `out`.
pub fn push_range(out: &mut Vec<u8>, data: &[u8], lo: usize, hi: usize)
    requires
        lo <= hi <= data@.len(),
    ensures
        final(out)@ == old(out)@ + data@.subrange(lo as int, hi as int),
{
    let ghost start = out@;
    let mut i: usize = lo;
    while i < hi
        invariant
            lo <= i <= hi,
            hi <= data@.len(),
            out@ == start + data@.subrange(lo as int, i as int),
        decreases hi - i,
    {
        out.push(data[i]);
        i = i + 1;
        assert(out@ =~= start + data@.subrange(lo as int, i as int));
    }
}

} // verus!
