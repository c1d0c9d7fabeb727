//! The wire layout of the record a guest hands to the host when it asks
//! for a connection: `{addr, port, name}` serialized as a byte string.
//!
//! The layout is little-endian with fixed-width integers: an 8-byte
//! length followed by the address bytes, the 4-byte port, and an 8-byte
//! length followed by the name bytes.  The host reads such a record out
//! of guest memory and must bounds-check and parse it; the module-side
//! helpers produce it.

use vstd::bytes::{
    lemma_auto_spec_u32_to_from_le_bytes, lemma_auto_spec_u64_to_from_le_bytes,
    spec_u32_from_le_bytes, spec_u32_to_le_bytes, spec_u64_from_le_bytes, spec_u64_to_le_bytes,
    u32_from_le_bytes, u32_to_le_bytes, u64_from_le_bytes, u64_to_le_bytes,
};
use vstd::prelude::*;
use vstd::string::StrSliceExecFns;
use vstd::utf8::encode_utf8;

use crate::error::WaterError;

verus! {

/// The bytes of one serialized record.
pub open spec fn spec_record(addr: Seq<u8>, port: u32, name: Seq<u8>) -> Seq<u8> {
    spec_u64_to_le_bytes(addr.len() as u64) + addr + spec_u32_to_le_bytes(port)
        + spec_u64_to_le_bytes(name.len() as u64) + name
}

/// What a byte string parses to: the record it lays out, or nothing.  A
/// record claims its exact length; trailing bytes make it invalid.
pub open spec fn parse_record_spec(b: Seq<u8>) -> Option<(Seq<u8>, u32, Seq<u8>)> {
    if b.len() < 8 {
        None
    } else {
        let alen = spec_u64_from_le_bytes(b.subrange(0, 8)) as int;
        if b.len() < 20 + alen {
            None
        } else {
            let addr = b.subrange(8, 8 + alen);
            let port = spec_u32_from_le_bytes(b.subrange(8 + alen, 12 + alen));
            let nlen = spec_u64_from_le_bytes(b.subrange(12 + alen, 20 + alen)) as int;
            if b.len() != 20 + alen + nlen {
                None
            } else {
                Some((addr, port, b.subrange(20 + alen, 20 + alen + nlen)))
            }
        }
    }
}

/// Copy the bytes of `v` between `start` and `end`.
fn copy_range(v: &Vec<u8>, start: usize, end: usize) -> (r: Vec<u8>)
    requires
        start <= end <= v@.len(),
    ensures
        r@ == v@.subrange(start as int, end as int),
{
    let mut out: Vec<u8> = Vec::new();
    let mut i: usize = start;
    while i < end
        invariant
            start <= i <= end <= v@.len(),
            out@ == v@.subrange(start as int, i as int),
        decreases end - i,
    {
        out.push(v[i]);
        proof {
            assert(out@ =~= v@.subrange(start as int, i + 1));
        }
        i = i + 1;
    }
    out
}

/// Lay out one record.
pub fn encode_record(addr: &Vec<u8>, port: u32, name: &Vec<u8>) -> (r: Vec<u8>)
    requires
        addr@.len() + name@.len() + 20 <= usize::MAX,
    ensures
        r@ == spec_record(addr@, port, name@),
{
    let mut out = u64_to_le_bytes(addr.len() as u64);
    let mut addr_bytes = copy_range(addr, 0, addr.len());
    out.append(&mut addr_bytes);
    let mut port_bytes = u32_to_le_bytes(port);
    out.append(&mut port_bytes);
    let mut nlen_bytes = u64_to_le_bytes(name.len() as u64);
    out.append(&mut nlen_bytes);
    let mut name_bytes = copy_range(name, 0, name.len());
    out.append(&mut name_bytes);
    proof {
        assert(addr@.subrange(0, addr@.len() as int) =~= addr@);
        assert(name@.subrange(0, name@.len() as int) =~= name@);
        assert(out@ =~= spec_record(addr@, port, name@));
    }
    out
}

/// Read one record back, refusing every byte string that is not the
/// exact layout of some record.
pub fn parse_record(bytes: &Vec<u8>) -> (r: Result<(Vec<u8>, u32, Vec<u8>), WaterError>)
    ensures
        r matches Ok(t) ==> parse_record_spec(bytes@) == Some((t.0@, t.1, t.2@)),
        r is Err <==> parse_record_spec(bytes@) is None,
        r is Err ==> r == Err::<(Vec<u8>, u32, Vec<u8>), WaterError>(WaterError::MalformedRecord),
{
    if bytes.len() < 20 {
        return Err(WaterError::MalformedRecord);
    }
    let alen64 = u64_from_le_bytes(&bytes.as_slice()[0..8]);
    let payload = bytes.len() - 20;
    if alen64 > payload as u64 {
        return Err(WaterError::MalformedRecord);
    }
    let alen = alen64 as usize;
    let addr = copy_range(bytes, 8, 8 + alen);
    let port = u32_from_le_bytes(&bytes.as_slice()[8 + alen..12 + alen]);
    let nlen64 = u64_from_le_bytes(&bytes.as_slice()[12 + alen..20 + alen]);
    if nlen64 != (payload - alen) as u64 {
        return Err(WaterError::MalformedRecord);
    }
    let name = copy_range(bytes, 20 + alen, bytes.len());
    Ok((addr, port, name))
}

/// Parsing inverts laying out: every record comes back from its own
/// bytes exactly, so two different records never share a byte string.
pub proof fn lemma_record_round_trip(addr: Seq<u8>, port: u32, name: Seq<u8>)
    requires
        addr.len() + name.len() + 20 <= usize::MAX,
    ensures
        parse_record_spec(spec_record(addr, port, name)) == Some((addr, port, name)),
{
    lemma_auto_spec_u64_to_from_le_bytes();
    lemma_auto_spec_u32_to_from_le_bytes();
    let b = spec_record(addr, port, name);
    let alen = addr.len() as int;
    let nlen = name.len() as int;
    assert(b.subrange(0, 8) =~= spec_u64_to_le_bytes(addr.len() as u64));
    assert(spec_u64_from_le_bytes(b.subrange(0, 8)) == addr.len() as u64);
    assert(b.subrange(8, 8 + alen) =~= addr);
    assert(b.subrange(8 + alen, 12 + alen) =~= spec_u32_to_le_bytes(port));
    assert(b.subrange(12 + alen, 20 + alen) =~= spec_u64_to_le_bytes(name.len() as u64));
    assert(b.subrange(20 + alen, 20 + alen + nlen) =~= name);
}

/// The record a module shares with the host to have a connection made:
/// only the address, port and name are read by the host.
#[derive(Debug)]
pub struct StreamConfig {
    /// ip address
    pub addr: String,
    /// port
    pub port: u32,
    /// a name for the stream
    pub name: String,
}

impl StreamConfig {
    /// Lay the record out as the byte string the host-side parser reads,
    /// with both strings in their UTF-8 form.  Only a record too large
    /// for one allocation is refused.
    pub fn to_bytes(&self) -> (r: Result<Vec<u8>, WaterError>)
        ensures
            encode_utf8(self.addr@).len() + encode_utf8(self.name@).len() + 20 <= usize::MAX
                ==> (r matches Ok(v) && v@ == spec_record(
                encode_utf8(self.addr@),
                self.port,
                encode_utf8(self.name@),
            )),
            encode_utf8(self.addr@).len() + encode_utf8(self.name@).len() + 20 > usize::MAX ==> r
                == Err::<Vec<u8>, WaterError>(WaterError::MalformedRecord),
    {
        let addr_bytes = self.addr.as_str().as_bytes_vec();
        let name_bytes = self.name.as_str().as_bytes_vec();
        if addr_bytes.len() as u128 + name_bytes.len() as u128 + 20 > usize::MAX as u128 {
            return Err(WaterError::MalformedRecord);
        }
        Ok(encode_record(&addr_bytes, self.port, &name_bytes))
    }
}

/// Whether a `(ptr, size)` pair from the guest lies inside its linear
/// memory of `mem_len` bytes: the host checks this before reading a
/// record out of guest memory.
pub fn slice_bounds_ok(ptr: u32, size: u32, mem_len: u64) -> (r: bool)
    ensures
        r == (ptr + size <= mem_len),
{
    (ptr as u64) + (size as u64) <= mem_len
}

} // verus!
