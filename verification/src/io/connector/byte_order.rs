//! Host and network byte order of the integers that travel in a message.
//!
//! The kernel lays out message fields in the byte order of the host, while a
//! socket filter reads them in network byte order. Every function here takes
//! the host's byte order as a value, so what is proved holds on either kind of
//! machine.

use vstd::prelude::*;

verus! {

/// The order in which a machine stores the bytes of an integer.
#[derive(Clone, Copy, Debug, PartialEq, Eq, Structural)]
pub enum ByteOrder {
    /// Least significant byte first.
    LittleEndian,
    /// Most significant byte first, which is also the network byte order.
    BigEndian,
}

/// The 16-bit value with the two bytes of `v` exchanged.
pub open spec fn swap16(v: u16) -> u16 {
    ((v & 0xff) << 8) | (v >> 8)
}

/// The 32-bit value with the four bytes of `v` reversed.
pub open spec fn swap32(v: u32) -> u32 {
    ((v & 0xff) << 24) | ((v & 0xff00) << 8) | ((v >> 8) & 0xff00) | (v >> 24)
}

/// The 16-bit value whose big-endian bytes are `b0`, `b1`.
pub open spec fn be16(b0: u8, b1: u8) -> u16 {
    ((b0 as u16) << 8) | (b1 as u16)
}

/// The 32-bit value whose big-endian bytes are `b0` to `b3`.
pub open spec fn be32(b0: u8, b1: u8, b2: u8, b3: u8) -> u32 {
    ((b0 as u32) << 24) | ((b1 as u32) << 16) | ((b2 as u32) << 8) | (b3 as u32)
}

/// The big-endian bytes of `v`.
pub open spec fn be_bytes16(v: u16) -> Seq<u8> {
    seq![(v >> 8) as u8, (v & 0xff) as u8]
}

/// The big-endian bytes of `v`.
pub open spec fn be_bytes32(v: u32) -> Seq<u8> {
    seq![(v >> 24) as u8, ((v >> 16) & 0xff) as u8, ((v >> 8) & 0xff) as u8, (v & 0xff) as u8]
}

/// A host-order value as the number a big-endian reader sees in its place,
/// and the other way round: on a big-endian host the value itself, on a
/// little-endian host the value with its bytes exchanged.
pub open spec fn network16(order: ByteOrder, v: u16) -> u16 {
    match order {
        ByteOrder::BigEndian => v,
        ByteOrder::LittleEndian => swap16(v),
    }
}

/// The 32-bit counterpart of [`network16`].
pub open spec fn network32(order: ByteOrder, v: u32) -> u32 {
    match order {
        ByteOrder::BigEndian => v,
        ByteOrder::LittleEndian => swap32(v),
    }
}

/// The bytes that a host of the given byte order stores for `v`.
pub open spec fn host_bytes16(order: ByteOrder, v: u16) -> Seq<u8> {
    be_bytes16(network16(order, v))
}

/// The bytes that a host of the given byte order stores for `v`.
pub open spec fn host_bytes32(order: ByteOrder, v: u32) -> Seq<u8> {
    be_bytes32(network32(order, v))
}

/// The big-endian 16-bit value at offset `at` of `bytes`.
pub open spec fn be16_at(bytes: Seq<u8>, at: int) -> u16
    recommends
        0 <= at,
        at + 2 <= bytes.len(),
{
    be16(bytes[at], bytes[at + 1])
}

/// The big-endian 32-bit value at offset `at` of `bytes`.
pub open spec fn be32_at(bytes: Seq<u8>, at: int) -> u32
    recommends
        0 <= at,
        at + 4 <= bytes.len(),
{
    be32(bytes[at], bytes[at + 1], bytes[at + 2], bytes[at + 3])
}

/// The 16-bit value that a host of the given byte order reads at offset `at`.
pub open spec fn host16_at(order: ByteOrder, bytes: Seq<u8>, at: int) -> u16
    recommends
        0 <= at,
        at + 2 <= bytes.len(),
{
    network16(order, be16_at(bytes, at))
}

/// The 32-bit value that a host of the given byte order reads at offset `at`.
pub open spec fn host32_at(order: ByteOrder, bytes: Seq<u8>, at: int) -> u32
    recommends
        0 <= at,
        at + 4 <= bytes.len(),
{
    network32(order, be32_at(bytes, at))
}

/// Exchanging the bytes twice gives the value back.
pub proof fn lemma_swap16_involution(v: u16)
    ensures
        swap16(swap16(v)) == v,
{
    assert(swap16(swap16(v)) == v) by (bit_vector);
}

/// Reversing the bytes twice gives the value back.
pub proof fn lemma_swap32_involution(v: u32)
    ensures
        swap32(swap32(v)) == v,
{
    assert(swap32(swap32(v)) == v) by (bit_vector);
}

/// Converting between host and network order twice gives the value back, so
/// two values agree in one order exactly when they agree in the other.
pub proof fn lemma_network_involution(order: ByteOrder, v: u32, w: u16)
    ensures
        network32(order, network32(order, v)) == v,
        network16(order, network16(order, w)) == w,
{
    lemma_swap32_involution(v);
    lemma_swap16_involution(w);
}

/// A value is read back from the bytes that were stored for it.
pub proof fn lemma_host_bytes_read_back(order: ByteOrder, v: u32, w: u16)
    ensures
        host_bytes32(order, v).len() == 4,
        host_bytes16(order, w).len() == 2,
        host32_at(order, host_bytes32(order, v), 0) == v,
        host16_at(order, host_bytes16(order, w), 0) == w,
{
    let n: u32 = network32(order, v);
    let m: u16 = network16(order, w);
    assert(be32(
        (n >> 24) as u8,
        ((n >> 16) & 0xff) as u8,
        ((n >> 8) & 0xff) as u8,
        (n & 0xff) as u8,
    ) == n) by (bit_vector);
    assert(be16((m >> 8) as u8, (m & 0xff) as u8) == m) by (bit_vector);
    lemma_network_involution(order, v, w);
}

/// `u16::to_ne_bytes` of std: the bytes of `v` as this machine stores them.
/// The contract claims only that they are the little-endian or the big-endian
/// bytes of `v`; which of the two depends on the machine.
#[verifier::external_body]
fn native_bytes16(v: u16) -> (bytes: [u8; 2])
    ensures
        bytes@ == host_bytes16(ByteOrder::LittleEndian, v) || bytes@ == host_bytes16(
            ByteOrder::BigEndian,
            v,
        ),
{
    v.to_ne_bytes()
}

impl ByteOrder {
    /// The byte order of the machine that runs this code: the one in which
    /// it stores the number 1.
    pub fn host() -> (order: ByteOrder) {
        ByteOrder::storing_one(native_bytes16(1))
    }

    /// The byte order of a machine that stores the 16-bit number 1 as
    /// `bytes`: little-endian where these are the little-endian bytes of 1,
    /// big-endian otherwise.
    pub fn storing_one(bytes: [u8; 2]) -> (order: ByteOrder)
        ensures
            order == order_storing_one(bytes@),
            bytes@ == host_bytes16(ByteOrder::LittleEndian, 1) || bytes@ == host_bytes16(
                ByteOrder::BigEndian,
                1,
            ) ==> host_bytes16(order, 1) == bytes@,
    {
        proof {
            lemma_bytes_of_one();
        }
        if bytes[0] == 1 && bytes[1] == 0 {
            assert(bytes@ =~= seq![1u8, 0u8]);
            ByteOrder::LittleEndian
        } else {
            assert(bytes@ != seq![1u8, 0u8]) by {
                if bytes@ == seq![1u8, 0u8] {
                    assert(bytes@[0] == 1u8);
                    assert(bytes@[1] == 0u8);
                }
            }
            ByteOrder::BigEndian
        }
    }
}

/// The byte order of a machine that stores the 16-bit number 1 as `bytes`.
pub open spec fn order_storing_one(bytes: Seq<u8>) -> ByteOrder {
    if bytes == host_bytes16(ByteOrder::LittleEndian, 1) {
        ByteOrder::LittleEndian
    } else {
        ByteOrder::BigEndian
    }
}

/// The number 1 is stored as the bytes 1, 0 in little-endian order and as
/// the bytes 0, 1 in big-endian order, so its bytes tell the two apart.
pub proof fn lemma_bytes_of_one()
    ensures
        host_bytes16(ByteOrder::LittleEndian, 1) == seq![1u8, 0u8],
        host_bytes16(ByteOrder::BigEndian, 1) == seq![0u8, 1u8],
        order_storing_one(host_bytes16(ByteOrder::LittleEndian, 1)) == ByteOrder::LittleEndian,
        order_storing_one(host_bytes16(ByteOrder::BigEndian, 1)) == ByteOrder::BigEndian,
{
    assert(swap16(1) == 0x0100) by (bit_vector);
    assert((0x0100u16 >> 8) as u8 == 1 && (0x0100u16 & 0xff) as u8 == 0) by (bit_vector);
    assert((1u16 >> 8) as u8 == 0 && (1u16 & 0xff) as u8 == 1) by (bit_vector);
    assert(host_bytes16(ByteOrder::LittleEndian, 1) =~= seq![1u8, 0u8]);
    assert(host_bytes16(ByteOrder::BigEndian, 1) =~= seq![0u8, 1u8]);
    assert(seq![0u8, 1u8][0] != seq![1u8, 0u8][0]);
}

/// Exchanges the two bytes of `v`.
pub fn swap_bytes16(v: u16) -> (swapped: u16)
    ensures
        swapped == swap16(v),
{
    ((v & 0xff) << 8) | (v >> 8)
}

/// Reverses the four bytes of `v`.
pub fn swap_bytes32(v: u32) -> (swapped: u32)
    ensures
        swapped == swap32(v),
{
    ((v & 0xff) << 24) | ((v & 0xff00) << 8) | ((v >> 8) & 0xff00) | (v >> 24)
}

/// Converts a 16-bit value from host to network byte order.
pub fn host_to_network16(order: ByteOrder, v: u16) -> (converted: u16)
    ensures
        converted == network16(order, v),
{
    match order {
        ByteOrder::BigEndian => v,
        ByteOrder::LittleEndian => swap_bytes16(v),
    }
}

/// Converts a 32-bit value from host to network byte order.
pub fn host_to_network32(order: ByteOrder, v: u32) -> (converted: u32)
    ensures
        converted == network32(order, v),
{
    match order {
        ByteOrder::BigEndian => v,
        ByteOrder::LittleEndian => swap_bytes32(v),
    }
}

/// Appends to `buffer` the bytes that the host stores for `v`.
pub fn push_host16(buffer: &mut Vec<u8>, order: ByteOrder, v: u16)
    ensures
        final(buffer)@ == old(buffer)@ + host_bytes16(order, v),
{
    let n: u16 = host_to_network16(order, v);
    let b0: u8 = (n >> 8) as u8;
    let b1: u8 = (n & 0xff) as u8;
    buffer.push(b0);
    buffer.push(b1);
    assert(final(buffer)@ =~= old(buffer)@ + host_bytes16(order, v));
}

/// Appends to `buffer` the bytes that the host stores for `v`.
pub fn push_host32(buffer: &mut Vec<u8>, order: ByteOrder, v: u32)
    ensures
        final(buffer)@ == old(buffer)@ + host_bytes32(order, v),
{
    let n: u32 = host_to_network32(order, v);
    let b0: u8 = (n >> 24) as u8;
    let b1: u8 = ((n >> 16) & 0xff) as u8;
    let b2: u8 = ((n >> 8) & 0xff) as u8;
    let b3: u8 = (n & 0xff) as u8;
    buffer.push(b0);
    buffer.push(b1);
    buffer.push(b2);
    buffer.push(b3);
    assert(final(buffer)@ =~= old(buffer)@ + host_bytes32(order, v));
}

/// Reads the 16-bit host-order value at offset `at` of `bytes`.
pub fn read_host16(bytes: &[u8], at: usize, order: ByteOrder) -> (v: u16)
    requires
        at + 2 <= bytes.len(),
    ensures
        v == host16_at(order, bytes@, at as int),
{
    let b0: u16 = bytes[at] as u16;
    let b1: u16 = bytes[at + 1] as u16;
    host_to_network16(order, (b0 << 8) | b1)
}

/// Reads the 32-bit host-order value at offset `at` of `bytes`.
pub fn read_host32(bytes: &[u8], at: usize, order: ByteOrder) -> (v: u32)
    requires
        at + 4 <= bytes.len(),
    ensures
        v == host32_at(order, bytes@, at as int),
{
    let b0: u32 = bytes[at] as u32;
    let b1: u32 = bytes[at + 1] as u32;
    let b2: u32 = bytes[at + 2] as u32;
    let b3: u32 = bytes[at + 3] as u32;
    host_to_network32(order, (b0 << 24) | (b1 << 16) | (b2 << 8) | b3)
}

} // verus!
