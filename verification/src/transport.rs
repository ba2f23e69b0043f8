//! What the two kinds of transport agree on, apart from the sockets.
//!
//! A datagram transport carries one message in one datagram.  A stream
//! transport writes the length of a message in four bytes, most significant
//! first, and the message after it.

use vstd::prelude::*;
use crate::octets::digits;

verus! {

/// The kind of a transport.
#[derive(Clone, Copy, Debug, PartialEq, Eq, Structural)]
pub enum Transport {
    /// Messages travel over a stream, each behind its length.
    Tcp,
    /// Messages travel as datagrams.
    Udp,
}

/// The size of the buffer into which a datagram is received.  What a
/// datagram holds beyond it is cut off.
pub const DATAGRAM_BUFFER_SIZE: usize = 1024;

/// The number of bytes of a length prefix.
pub const LENGTH_PREFIX_SIZE: usize = 4;

/// The number whose four bytes, most significant first, are those of
/// `prefix`.
pub open spec fn be32(prefix: [u8; 4]) -> int {
    digits(0x100, prefix[0] as int, prefix[1] as int, prefix[2] as int, prefix[3] as int)
}

/// The length that the prefix on a message of `len` bytes announces: `len`,
/// as far as four bytes can say it.
pub open spec fn announced(len: usize) -> int {
    len as int % 0x1_0000_0000
}

/// The length prefix of a message of `len` bytes: the low 32 bits of `len`,
/// most significant byte first.
pub fn length_prefix(len: usize) -> (prefix: [u8; 4])
    ensures
        be32(prefix) == announced(len),
{
    let low: u64 = len as u64 % 0x1_0000_0000;
    [
        (low / 0x100_0000) as u8,
        (low / 0x1_0000 % 0x100) as u8,
        (low / 0x100 % 0x100) as u8,
        (low % 0x100) as u8,
    ]
}

/// The length that a length prefix announces.
pub fn frame_length(prefix: &[u8; 4]) -> (len: usize)
    ensures
        len == be32(*prefix),
{
    let high: u32 = prefix[0] as u32 * 0x100_0000 + prefix[1] as u32 * 0x1_0000;
    let low: u32 = prefix[2] as u32 * 0x100 + prefix[3] as u32;
    (high + low) as usize
}

/// A length prefix announces the length it was made for, where that length
/// fits in 32 bits.
pub proof fn lemma_prefix_round_trip(len: usize, prefix: [u8; 4])
    requires
        len <= u32::MAX,
        be32(prefix) == announced(len),
    ensures
        be32(prefix) == len,
{
}

} // verus!
