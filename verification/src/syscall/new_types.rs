//! Structure-aware decoding of socket-call arguments: the raw socket
//! address structure read out of the tracee, the split of a socket type
//! word into its type and flag bits, and little-endian integer reads.

use vstd::prelude::*;

verus! {

/// The two flag bits a socket type word may carry beside its type:
/// 0x800 (non-blocking) and 0x80000 (close-on-exec).
pub const SOCK_FLAGS_MASK: i32 = 0x80800;

/// A raw socket address as the kernel lays it out: a 2-byte address
/// family followed by 14 payload bytes, carried uninterpreted.
#[derive(Debug, Clone, PartialEq, Eq)]
pub struct SockAddr {
    pub family: u16,
    pub data: Vec<u8>,
}

/// Size of the raw socket address structure.
pub const SOCKADDR_SIZE: usize = 16;

/// Decode the raw socket address structure from the bytes read out of
/// the tracee: the family word is little-endian, the payload is kept as
/// it stands.  Exactly 16 bytes are accepted.
pub fn decode_sockaddr(bytes: &[u8]) -> (r: Option<SockAddr>)
    ensures
        r matches Some(sa) ==> bytes@.len() == SOCKADDR_SIZE && sa.family == bytes@[0] + bytes@[1]
            * 256 && sa.data@ == bytes@.subrange(2, SOCKADDR_SIZE as int),
        r is None ==> bytes@.len() != SOCKADDR_SIZE,
{
    if bytes.len() != SOCKADDR_SIZE {
        return None;
    }
    let lo = bytes[0];
    let hi = bytes[1];
    let family: u16 = lo as u16 + (hi as u16) * 256;
    let payload = vstd::slice::slice_subrange(bytes, 2, SOCKADDR_SIZE);
    let data = vstd::slice::slice_to_vec(payload);
    Some(SockAddr { family, data })
}

/// Read a little-endian 32-bit length word, as the kernel writes a
/// socket address length.  Exactly 4 bytes are accepted.
pub fn u32_from_le(bytes: &[u8]) -> (r: Option<u32>)
    ensures
        r matches Some(v) ==> bytes@.len() == 4 && v == bytes@[0] + bytes@[1] * 256 + bytes@[2]
            * 65536 + bytes@[3] * 16777216,
        r is None ==> bytes@.len() != 4,
{
    if bytes.len() != 4 {
        return None;
    }
    let b0 = bytes[0] as u32;
    let b1 = bytes[1] as u32;
    let b2 = bytes[2] as u32;
    let b3 = bytes[3] as u32;
    Some(b0 + b1 * 256 + b2 * 65536 + b3 * 16777216)
}

/// Split a socket type word into its type and its flag bits.  The two
/// parts recombine to the word exactly: nothing is narrowed.
pub fn split_socket_type(bits: i32) -> (r: (i32, i32))
    ensures
        r.0 == bits & !SOCK_FLAGS_MASK,
        r.1 == bits & SOCK_FLAGS_MASK,
        r.0 | r.1 == bits,
        r.0 & r.1 == 0,
{
    let ty = bits & !SOCK_FLAGS_MASK;
    let fl = bits & SOCK_FLAGS_MASK;
    assert((bits & !0x80800i32) | (bits & 0x80800i32) == bits) by (bit_vector);
    assert((bits & !0x80800i32) & (bits & 0x80800i32) == 0) by (bit_vector);
    assert(ty == bits & !0x80800i32);
    assert(fl == bits & 0x80800i32);
    (ty, fl)
}

} // verus!
