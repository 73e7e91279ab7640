//! Process events connector kernel structures, constants and codec.
//!
//! Messages are byte sequences with fields at fixed offsets. The functions
//! here lay them out and read them back field by field, in the byte order of
//! the host.

use vstd::prelude::*;
use crate::io::connector::byte_order::{
    host16_at, host32_at, host_bytes16, host_bytes32, lemma_host_bytes_read_back, push_host16,
    push_host32, read_host16, read_host32, ByteOrder,
};
use crate::solver::domain::{PEvent, PID};

verus! {

/// Alignment boundary of netlink messages, in bytes.
pub const NLMSG_ALIGNTO: usize = 4;

/// Size of the netlink message header, in bytes.
pub const NLMSGHDR_SIZE: usize = 16;

/// Offset of the message type in the netlink message header.
pub const NLMSG_TYPE_OFFSET: usize = 4;

/// Offset of the sender's port in the netlink message header.
pub const NLMSG_PID_OFFSET: usize = 12;

/// Type of a message that is the single, or the last, segment.
pub const NLMSG_DONE: u16 = 3;

/// Size of the connector message header, in bytes; its payload follows.
pub const CN_MSG_SIZE: usize = 20;

/// Offset of the connector index in the connector message header.
pub const CN_MSG_IDX_OFFSET: usize = 0;

/// Offset of the connector value in the connector message header.
pub const CN_MSG_VAL_OFFSET: usize = 4;

/// Connector index of the process events connector.
pub const CN_IDX_PROC: u32 = 1;

/// Connector value of the process events connector.
pub const CN_VAL_PROC: u32 = 1;

/// Size of the operation code that a subscription datagram carries, in
/// bytes.
pub const PROC_CN_MCAST_OP_SIZE: usize = 1;

/// Operation code: start listening to process events.
pub const PROC_CN_MCAST_LISTEN: u8 = 1;

/// Operation code: stop listening to process events.
pub const PROC_CN_MCAST_IGNORE: u8 = 0;

/// Size of a process event record, in bytes.
pub const PROC_EVENT_SIZE: usize = 40;

/// Offset of the event kind in a process event record.
pub const PROC_EVENT_WHAT_OFFSET: usize = 0;

/// Offset of the process id in a process event record.
pub const PROC_EVENT_PID_OFFSET: usize = 16;

/// Offset of the thread group id in a process event record.
pub const PROC_EVENT_TGID_OFFSET: usize = 20;

/// Event kind: a process started to run a program.
pub const PROCESS_EVENT_EXEC: u32 = 0x0000_0002;

/// Event kind: a process ended.
pub const PROCESS_EVENT_EXIT: u32 = 0x8000_0000;

/// Offset of the connector message header in a datagram.
pub const CN_MSG_OFFSET: usize = 16;

/// Offset of the connector message payload in a datagram.
pub const PAYLOAD_OFFSET: usize = 36;

/// Length of a subscription datagram.
pub const SUBSCRIPTION_SIZE: usize = 40;

/// Length of the longest event datagram.
pub const EVENT_DATAGRAM_SIZE: usize = 76;

/// Netlink message header.
#[allow(non_camel_case_types)]
#[derive(Debug, Clone, Copy, PartialEq, Eq, Structural)]
pub struct nlmsghdr {
    /// Length of the message, header included.
    pub nlmsg_len: u32,
    /// Type of the message content.
    pub nlmsg_type: u16,
    /// Additional flags.
    pub nlmsg_flags: u16,
    /// Sequence number.
    pub nlmsg_seq: u32,
    /// Port of the sending process, 0 for the kernel.
    pub nlmsg_pid: u32,
}

/// A netlink message header padded to the alignment boundary. The header's
/// size is a multiple of the boundary, so no padding byte follows it.
#[allow(non_camel_case_types)]
#[derive(Debug, Clone, Copy, PartialEq, Eq)]
pub struct nlmsghdr_aligned<T>(pub T);

/// Connector identifier.
#[allow(non_camel_case_types)]
#[derive(Debug, Clone, Copy, PartialEq, Eq, Structural)]
pub struct cb_id {
    /// Connector index.
    pub idx: u32,
    /// Connector value.
    pub val: u32,
}

/// Connector message header.
#[allow(non_camel_case_types)]
#[derive(Debug, Clone, Copy, PartialEq, Eq, Structural)]
pub struct cn_msg {
    /// Connector that the message belongs to.
    pub id: cb_id,
    /// Sequence number.
    pub seq: u32,
    /// Acknowledgement number.
    pub ack: u32,
    /// Length of the payload that follows.
    pub len: u16,
    /// Additional flags.
    pub flags: u16,
}

/// A netlink message that carries a connector message.
#[allow(non_camel_case_types)]
#[derive(Debug, Clone, Copy, PartialEq, Eq)]
pub struct nlcn_msg<T> {
    /// Netlink header.
    pub nl_hdr: nlmsghdr_aligned<nlmsghdr>,
    /// Connector message.
    pub cn_msg: T,
}

/// `len` rounded up to the next multiple of the alignment boundary.
pub open spec fn aligned_length(len: int) -> int {
    len + 3 - (len + 3) % 4
}

/// Aligned total length of a netlink message with a payload of `len` bytes.
pub open spec fn message_length(len: int) -> int {
    aligned_length(len + NLMSGHDR_SIZE as int)
}

/// Rounds `len` up to the next multiple of the alignment boundary.
pub fn nlmsg_align(len: usize) -> (aligned: usize)
    requires
        len + 3 <= usize::MAX,
    ensures
        aligned == aligned_length(len as int),
        aligned % 4 == 0,
        len <= aligned < len + 4,
        len % 4 == 0 ==> aligned == len,
        len % 4 != 0 ==> aligned > len,
{
    let padded: usize = len + (NLMSG_ALIGNTO - 1);
    padded - padded % NLMSG_ALIGNTO
}

/// Aligned length of the netlink message header.
pub fn nlmsg_hdrlen() -> (len: usize)
    ensures
        len == 16,
        len == message_length(0),
{
    nlmsg_align(NLMSGHDR_SIZE)
}

/// Computes the length of a netlink message from the length of its payload:
/// the header's size plus `len`, rounded up to the alignment boundary.
pub fn nlmsg_length(len: usize) -> (total: usize)
    requires
        len + 19 <= usize::MAX,
    ensures
        total == message_length(len as int),
        total % 4 == 0,
        len + 16 <= total < len + 20,
        len == 0 ==> total == 16,
        (len + 16) % 4 == 0 ==> total == len + 16,
        (len + 16) % 4 != 0 ==> total > len + 16,
{
    nlmsg_align(len + nlmsg_hdrlen())
}

/// One instruction of a socket filter program.
#[allow(non_camel_case_types)]
#[derive(Debug, Clone, Copy, PartialEq, Eq, Structural)]
pub struct sock_filter {
    /// Operation code.
    pub code: u16,
    /// Instructions to skip when a comparison holds.
    pub jt: u8,
    /// Instructions to skip when a comparison fails.
    pub jf: u8,
    /// Operand: an offset, a constant or a return value.
    pub k: u32,
}

/// Instruction class: load into the accumulator.
pub const BPF_LD: u16 = 0x00;

/// Instruction class: load into the index register.
pub const BPF_LDX: u16 = 0x01;

/// Instruction class: store the accumulator into a scratch slot.
pub const BPF_ST: u16 = 0x02;

/// Instruction class: jump.
pub const BPF_JMP: u16 = 0x05;

/// Instruction class: return.
pub const BPF_RET: u16 = 0x06;

/// Operand size: a 32-bit word.
pub const BPF_W: u16 = 0x00;

/// Operand size: a 16-bit half word.
pub const BPF_H: u16 = 0x08;

/// Addressing mode: a fixed offset into the packet.
pub const BPF_ABS: u16 = 0x20;

/// Addressing mode: a scratch slot.
pub const BPF_MEM: u16 = 0x60;

/// Jump condition: equality.
pub const BPF_JEQ: u16 = 0x10;

/// Operand source: the constant of the instruction.
pub const BPF_K: u16 = 0x00;

/// Operand source: the index register.
pub const BPF_X: u16 = 0x08;

/// The statement `code` with operand `k`.
pub open spec fn stmt(code: u16, k: u32) -> sock_filter {
    sock_filter { code, jt: 0, jf: 0, k }
}

/// The jump `code` with operand `k` that skips `jt` instructions when its
/// comparison holds and `jf` when it fails.
pub open spec fn jump(code: u16, k: u32, jt: u8, jf: u8) -> sock_filter {
    sock_filter { code, jt, jf, k }
}

/// Creates a socket filter statement rule.
pub fn bpf_stmt(code: u16, k: u32) -> (rule: sock_filter)
    ensures
        rule == stmt(code, k),
{
    sock_filter { code, jt: 0, jf: 0, k }
}

/// Creates a socket filter jump rule.
pub fn bpf_jump(code: u16, k: u32, jt: u8, jf: u8) -> (rule: sock_filter)
    ensures
        rule == jump(code, k, jt, jf),
{
    sock_filter { code, jt, jf, k }
}

/// The operation that a subscription datagram asks of the kernel.
#[derive(Debug, Clone, Copy, PartialEq, Eq, Structural)]
pub enum McastOp {
    /// Start to deliver process events to this channel.
    Listen,
    /// Stop delivering process events to this channel.
    Ignore,
}

impl McastOp {
    /// The operation code on the wire.
    pub open spec fn spec_code(self) -> u8 {
        match self {
            McastOp::Listen => PROC_CN_MCAST_LISTEN,
            McastOp::Ignore => PROC_CN_MCAST_IGNORE,
        }
    }

    /// The operation code on the wire.
    #[verifier::when_used_as_spec(spec_code)]
    pub fn code(self) -> (code: u8)
        ensures
            code == self.spec_code(),
    {
        match self {
            McastOp::Listen => PROC_CN_MCAST_LISTEN,
            McastOp::Ignore => PROC_CN_MCAST_IGNORE,
        }
    }

    /// The operation with the given code, if there is one.
    pub fn from_code(code: u8) -> (op: Option<McastOp>)
        ensures
            op == operation_of(code),
    {
        if code == PROC_CN_MCAST_LISTEN {
            Some(McastOp::Listen)
        } else if code == PROC_CN_MCAST_IGNORE {
            Some(McastOp::Ignore)
        } else {
            None
        }
    }
}

/// The operation with the given code, if there is one.
pub open spec fn operation_of(code: u8) -> Option<McastOp> {
    if code == PROC_CN_MCAST_LISTEN {
        Some(McastOp::Listen)
    } else if code == PROC_CN_MCAST_IGNORE {
        Some(McastOp::Ignore)
    } else {
        None
    }
}

/// The bytes of the netlink header `h` on a host of the given byte order.
#[verifier::opaque]
pub open spec fn header_bytes(order: ByteOrder, h: nlmsghdr) -> Seq<u8> {
    host_bytes32(order, h.nlmsg_len) + host_bytes16(order, h.nlmsg_type) + host_bytes16(
        order,
        h.nlmsg_flags,
    ) + host_bytes32(order, h.nlmsg_seq) + host_bytes32(order, h.nlmsg_pid)
}

/// The bytes of the connector header `c` on a host of the given byte order.
#[verifier::opaque]
pub open spec fn connector_bytes(order: ByteOrder, c: cn_msg) -> Seq<u8> {
    host_bytes32(order, c.id.idx) + host_bytes32(order, c.id.val) + host_bytes32(order, c.seq)
        + host_bytes32(order, c.ack) + host_bytes16(order, c.len) + host_bytes16(order, c.flags)
}

/// The bytes of the two headers of `msg`; the payload follows them.
pub open spec fn message_bytes(order: ByteOrder, msg: nlcn_msg<cn_msg>) -> Seq<u8> {
    header_bytes(order, msg.nl_hdr.0) + connector_bytes(order, msg.cn_msg)
}

/// The two headers that a host of the given byte order reads at the start of
/// `bytes`.
pub open spec fn message_at(order: ByteOrder, bytes: Seq<u8>) -> nlcn_msg<cn_msg>
    recommends
        bytes.len() >= PAYLOAD_OFFSET,
{
    nlcn_msg {
        nl_hdr: nlmsghdr_aligned(
            nlmsghdr {
                nlmsg_len: host32_at(order, bytes, 0),
                nlmsg_type: host16_at(order, bytes, 4),
                nlmsg_flags: host16_at(order, bytes, 6),
                nlmsg_seq: host32_at(order, bytes, 8),
                nlmsg_pid: host32_at(order, bytes, 12),
            },
        ),
        cn_msg: cn_msg {
            id: cb_id { idx: host32_at(order, bytes, 16), val: host32_at(order, bytes, 20) },
            seq: host32_at(order, bytes, 24),
            ack: host32_at(order, bytes, 28),
            len: host16_at(order, bytes, 32),
            flags: host16_at(order, bytes, 34),
        },
    }
}

/// Lays out the two headers of `msg` in the byte order of the host.
pub fn encode_message(msg: &nlcn_msg<cn_msg>, order: ByteOrder) -> (bytes: Vec<u8>)
    ensures
        bytes@ == message_bytes(order, *msg),
        bytes@.len() == PAYLOAD_OFFSET,
{
    proof {
        reveal(header_bytes);
        reveal(connector_bytes);
    }
    let mut bytes: Vec<u8> = Vec::new();
    push_host32(&mut bytes, order, msg.nl_hdr.0.nlmsg_len);
    push_host16(&mut bytes, order, msg.nl_hdr.0.nlmsg_type);
    push_host16(&mut bytes, order, msg.nl_hdr.0.nlmsg_flags);
    push_host32(&mut bytes, order, msg.nl_hdr.0.nlmsg_seq);
    push_host32(&mut bytes, order, msg.nl_hdr.0.nlmsg_pid);
    assert(bytes@ =~= header_bytes(order, msg.nl_hdr.0));
    let ghost header = bytes@;
    push_host32(&mut bytes, order, msg.cn_msg.id.idx);
    push_host32(&mut bytes, order, msg.cn_msg.id.val);
    push_host32(&mut bytes, order, msg.cn_msg.seq);
    push_host32(&mut bytes, order, msg.cn_msg.ack);
    push_host16(&mut bytes, order, msg.cn_msg.len);
    push_host16(&mut bytes, order, msg.cn_msg.flags);
    assert(bytes@ =~= header + connector_bytes(order, msg.cn_msg));
    bytes
}

/// Reads the two headers at the start of `bytes`, or nothing where `bytes`
/// is too short to hold them.
pub fn decode_message(bytes: &[u8], order: ByteOrder) -> (msg: Option<nlcn_msg<cn_msg>>)
    ensures
        bytes@.len() < PAYLOAD_OFFSET ==> msg.is_none(),
        bytes@.len() >= PAYLOAD_OFFSET ==> msg == Some(message_at(order, bytes@)),
{
    if bytes.len() < PAYLOAD_OFFSET {
        return None;
    }
    Some(
        nlcn_msg {
            nl_hdr: nlmsghdr_aligned(
                nlmsghdr {
                    nlmsg_len: read_host32(bytes, 0, order),
                    nlmsg_type: read_host16(bytes, 4, order),
                    nlmsg_flags: read_host16(bytes, 6, order),
                    nlmsg_seq: read_host32(bytes, 8, order),
                    nlmsg_pid: read_host32(bytes, 12, order),
                },
            ),
            cn_msg: cn_msg {
                id: cb_id { idx: read_host32(bytes, 16, order), val: read_host32(bytes, 20, order) },
                seq: read_host32(bytes, 24, order),
                ack: read_host32(bytes, 28, order),
                len: read_host16(bytes, 32, order),
                flags: read_host16(bytes, 34, order),
            },
        },
    )
}

/// A 32-bit value is read back at the place where its bytes stand.
pub proof fn lemma_read_back32(order: ByteOrder, bytes: Seq<u8>, at: int, v: u32)
    requires
        0 <= at,
        at + 4 <= bytes.len(),
        bytes.subrange(at, at + 4) == host_bytes32(order, v),
    ensures
        host32_at(order, bytes, at) == v,
{
    lemma_host_bytes_read_back(order, v, 0);
    let stored = bytes.subrange(at, at + 4);
    assert(bytes[at] == stored[0]);
    assert(bytes[at + 1] == stored[1]);
    assert(bytes[at + 2] == stored[2]);
    assert(bytes[at + 3] == stored[3]);
}

/// A 16-bit value is read back at the place where its bytes stand.
pub proof fn lemma_read_back16(order: ByteOrder, bytes: Seq<u8>, at: int, v: u16)
    requires
        0 <= at,
        at + 2 <= bytes.len(),
        bytes.subrange(at, at + 2) == host_bytes16(order, v),
    ensures
        host16_at(order, bytes, at) == v,
{
    lemma_host_bytes_read_back(order, 0, v);
    let stored = bytes.subrange(at, at + 2);
    assert(bytes[at] == stored[0]);
    assert(bytes[at + 1] == stored[1]);
}

/// The headers that were laid out are the headers that are read back,
/// whatever payload follows them.
pub proof fn lemma_message_round_trip(order: ByteOrder, msg: nlcn_msg<cn_msg>, payload: Seq<u8>)
    ensures
        message_bytes(order, msg).len() == PAYLOAD_OFFSET,
        message_at(order, message_bytes(order, msg) + payload) == msg,
{
    reveal(header_bytes);
    reveal(connector_bytes);
    let h = msg.nl_hdr.0;
    let c = msg.cn_msg;
    let bytes = message_bytes(order, msg) + payload;
    lemma_host_bytes_read_back(order, h.nlmsg_len, h.nlmsg_type);
    lemma_host_bytes_read_back(order, h.nlmsg_seq, h.nlmsg_flags);
    lemma_host_bytes_read_back(order, h.nlmsg_pid, c.len);
    lemma_host_bytes_read_back(order, c.id.idx, c.flags);
    lemma_host_bytes_read_back(order, c.id.val, 0);
    lemma_host_bytes_read_back(order, c.seq, 0);
    lemma_host_bytes_read_back(order, c.ack, 0);
    assert(bytes.subrange(0, 4) =~= host_bytes32(order, h.nlmsg_len));
    assert(bytes.subrange(4, 6) =~= host_bytes16(order, h.nlmsg_type));
    assert(bytes.subrange(6, 8) =~= host_bytes16(order, h.nlmsg_flags));
    assert(bytes.subrange(8, 12) =~= host_bytes32(order, h.nlmsg_seq));
    assert(bytes.subrange(12, 16) =~= host_bytes32(order, h.nlmsg_pid));
    assert(bytes.subrange(16, 20) =~= host_bytes32(order, c.id.idx));
    assert(bytes.subrange(20, 24) =~= host_bytes32(order, c.id.val));
    assert(bytes.subrange(24, 28) =~= host_bytes32(order, c.seq));
    assert(bytes.subrange(28, 32) =~= host_bytes32(order, c.ack));
    assert(bytes.subrange(32, 34) =~= host_bytes16(order, c.len));
    assert(bytes.subrange(34, 36) =~= host_bytes16(order, c.flags));
    lemma_read_back32(order, bytes, 0, h.nlmsg_len);
    lemma_read_back16(order, bytes, 4, h.nlmsg_type);
    lemma_read_back16(order, bytes, 6, h.nlmsg_flags);
    lemma_read_back32(order, bytes, 8, h.nlmsg_seq);
    lemma_read_back32(order, bytes, 12, h.nlmsg_pid);
    lemma_read_back32(order, bytes, 16, c.id.idx);
    lemma_read_back32(order, bytes, 20, c.id.val);
    lemma_read_back32(order, bytes, 24, c.seq);
    lemma_read_back32(order, bytes, 28, c.ack);
    lemma_read_back16(order, bytes, 32, c.len);
    lemma_read_back16(order, bytes, 34, c.flags);
}

/// The two headers of a subscription datagram.
pub open spec fn subscription_message() -> nlcn_msg<cn_msg> {
    nlcn_msg {
        nl_hdr: nlmsghdr_aligned(
            nlmsghdr {
                nlmsg_len: SUBSCRIPTION_SIZE as u32,
                nlmsg_type: NLMSG_DONE,
                nlmsg_flags: 0,
                nlmsg_seq: 0,
                nlmsg_pid: 0,
            },
        ),
        cn_msg: cn_msg {
            id: cb_id { idx: CN_IDX_PROC, val: CN_VAL_PROC },
            seq: 0,
            ack: 0,
            len: PROC_CN_MCAST_OP_SIZE as u16,
            flags: 0,
        },
    }
}

/// `count` zero bytes.
pub open spec fn padding(count: nat) -> Seq<u8> {
    Seq::new(count, |i: int| 0u8)
}

/// The subscription datagram that asks the kernel for the operation `op`:
/// the two headers, the operation code in one byte, and zero bytes up to
/// the aligned total length.
pub open spec fn subscription_bytes(order: ByteOrder, op: McastOp) -> Seq<u8> {
    message_bytes(order, subscription_message()) + seq![op.spec_code()] + padding(
        (SUBSCRIPTION_SIZE - PAYLOAD_OFFSET - PROC_CN_MCAST_OP_SIZE) as nat,
    )
}

/// What a subscription datagram asks for: the connector it addresses and the
/// operation that the byte at the start of its payload stands for, or
/// nothing where the datagram is too short to hold that byte or the code is
/// unknown. The byte order of the host plays no part in the operation.
pub open spec fn subscription_of(order: ByteOrder, bytes: Seq<u8>) -> Option<(cb_id, McastOp)> {
    if bytes.len() < PAYLOAD_OFFSET + PROC_CN_MCAST_OP_SIZE {
        None
    } else {
        match operation_of(bytes[PAYLOAD_OFFSET as int]) {
            Some(op) => Some((message_at(order, bytes).cn_msg.id, op)),
            None => None,
        }
    }
}

/// Builds the datagram that subscribes the channel to process events, or
/// unsubscribes it.
///
/// The datagram is addressed to the kernel as a single segment of the
/// process events connector. Its payload is the operation code, in one
/// byte, and the payload length of the connector header says so. Zero bytes
/// follow up to the aligned total length, which the length field of the
/// netlink header holds.
pub fn subscription_datagram(order: ByteOrder, op: McastOp) -> (datagram: Vec<u8>)
    ensures
        datagram@ == subscription_bytes(order, op),
        datagram@.len() == SUBSCRIPTION_SIZE,
        datagram@.len() == message_length(CN_MSG_SIZE + PROC_CN_MCAST_OP_SIZE),
        message_at(order, datagram@) == subscription_message(),
        message_at(order, datagram@).cn_msg.len == PROC_CN_MCAST_OP_SIZE,
        message_at(order, datagram@).nl_hdr.0.nlmsg_len == datagram@.len(),
        datagram@[PAYLOAD_OFFSET as int] == op.spec_code(),
        forall|i: int|
            PAYLOAD_OFFSET + PROC_CN_MCAST_OP_SIZE <= i < datagram@.len() ==> datagram@[i] == 0,
        subscription_of(order, datagram@) == Some(
            (cb_id { idx: CN_IDX_PROC, val: CN_VAL_PROC }, op),
        ),
{
    let total: usize = nlmsg_length(CN_MSG_SIZE + PROC_CN_MCAST_OP_SIZE);
    let msg = nlcn_msg {
        nl_hdr: nlmsghdr_aligned(
            nlmsghdr {
                nlmsg_len: total as u32,
                nlmsg_type: NLMSG_DONE,
                nlmsg_flags: 0,
                nlmsg_seq: 0,
                nlmsg_pid: 0,
            },
        ),
        cn_msg: cn_msg {
            id: cb_id { idx: CN_IDX_PROC, val: CN_VAL_PROC },
            seq: 0,
            ack: 0,
            len: PROC_CN_MCAST_OP_SIZE as u16,
            flags: 0,
        },
    };
    let mut datagram: Vec<u8> = encode_message(&msg, order);
    let ghost headers = datagram@;
    datagram.push(op.code());
    while datagram.len() < total
        invariant
            total == SUBSCRIPTION_SIZE,
            headers.len() == PAYLOAD_OFFSET,
            PAYLOAD_OFFSET + PROC_CN_MCAST_OP_SIZE <= datagram@.len() <= total,
            datagram@ =~= headers + seq![op.spec_code()] + padding(
                (datagram@.len() - PAYLOAD_OFFSET - PROC_CN_MCAST_OP_SIZE) as nat,
            ),
        decreases total - datagram@.len(),
    {
        datagram.push(0);
    }
    proof {
        lemma_subscription_round_trip(order, op);
    }
    datagram
}

/// Reads what a subscription datagram asks for.
pub fn decode_subscription(bytes: &[u8], order: ByteOrder) -> (request: Option<(cb_id, McastOp)>)
    ensures
        request == subscription_of(order, bytes@),
{
    if bytes.len() < PAYLOAD_OFFSET + PROC_CN_MCAST_OP_SIZE {
        return None;
    }
    match (decode_message(bytes, order), McastOp::from_code(bytes[PAYLOAD_OFFSET])) {
        (Some(msg), Some(op)) => Some((msg.cn_msg.id, op)),
        _ => None,
    }
}

/// A subscription datagram that was built for an operation is read back as
/// a request to the process events connector for that operation, on a host
/// of either byte order. Its payload is one byte long, as the connector
/// header says, and its length field holds its length, which is the aligned
/// total length of the headers and the operation code.
pub proof fn lemma_subscription_round_trip(order: ByteOrder, op: McastOp)
    ensures
        subscription_of(order, subscription_bytes(order, op)) == Some(
            (cb_id { idx: CN_IDX_PROC, val: CN_VAL_PROC }, op),
        ),
        message_at(order, subscription_bytes(order, op)) == subscription_message(),
        message_at(order, subscription_bytes(order, op)).cn_msg.len == PROC_CN_MCAST_OP_SIZE,
        message_at(order, subscription_bytes(order, op)).nl_hdr.0.nlmsg_len == subscription_bytes(
            order,
            op,
        ).len(),
        subscription_bytes(order, op).len() == message_length(
            CN_MSG_SIZE + PROC_CN_MCAST_OP_SIZE,
        ),
        subscription_bytes(order, op)[PAYLOAD_OFFSET as int] == op.spec_code(),
        forall|i: int|
            PAYLOAD_OFFSET + PROC_CN_MCAST_OP_SIZE <= i < subscription_bytes(order, op).len()
                ==> subscription_bytes(order, op)[i] == 0,
{
    let headers = message_bytes(order, subscription_message());
    let payload = seq![op.spec_code()] + padding(
        (SUBSCRIPTION_SIZE - PAYLOAD_OFFSET - PROC_CN_MCAST_OP_SIZE) as nat,
    );
    lemma_message_round_trip(order, subscription_message(), payload);
    assert(subscription_bytes(order, op) =~= headers + payload);
}

/// The process id that a 32-bit field holds.
pub open spec fn pid_of(field: u32) -> PID {
    PID(field as i32)
}

/// The event that a datagram reports: the start or the end of the process
/// whose id it holds, or nothing where the datagram is too short to hold a
/// process id or is of another kind. The thread group id plays no part.
pub open spec fn event_of(order: ByteOrder, bytes: Seq<u8>) -> Option<PEvent> {
    let what = host32_at(order, bytes, PAYLOAD_OFFSET + PROC_EVENT_WHAT_OFFSET);
    let pid = pid_of(host32_at(order, bytes, PAYLOAD_OFFSET + PROC_EVENT_PID_OFFSET));
    if bytes.len() < PAYLOAD_OFFSET + PROC_EVENT_PID_OFFSET + 4 {
        None
    } else if what == PROCESS_EVENT_EXEC {
        Some(PEvent::Exec(pid))
    } else if what == PROCESS_EVENT_EXIT {
        Some(PEvent::Exit(pid))
    } else {
        None
    }
}

/// Decodes the event that a received datagram reports.
pub fn decode_event(bytes: &[u8], order: ByteOrder) -> (event: Option<PEvent>)
    ensures
        event == event_of(order, bytes@),
{
    if bytes.len() < PAYLOAD_OFFSET + PROC_EVENT_PID_OFFSET + 4 {
        return None;
    }
    let what: u32 = read_host32(bytes, PAYLOAD_OFFSET + PROC_EVENT_WHAT_OFFSET, order);
    let pid: u32 = read_host32(bytes, PAYLOAD_OFFSET + PROC_EVENT_PID_OFFSET, order);
    if what == PROCESS_EVENT_EXEC {
        Some(PEvent::Exec(PID(pid as i32)))
    } else if what == PROCESS_EVENT_EXIT {
        Some(PEvent::Exit(PID(pid as i32)))
    } else {
        None
    }
}

/// The event that a record of kind `what` about the process `pid` reports:
/// its start, its end, or nothing where the kind is another.
pub open spec fn reported(what: u32, pid: i32) -> Option<PEvent> {
    if what == PROCESS_EVENT_EXEC {
        Some(PEvent::Exec(PID(pid)))
    } else if what == PROCESS_EVENT_EXIT {
        Some(PEvent::Exit(PID(pid)))
    } else {
        None
    }
}

/// The two headers of an event datagram.
pub open spec fn event_message() -> nlcn_msg<cn_msg> {
    nlcn_msg {
        nl_hdr: nlmsghdr_aligned(
            nlmsghdr {
                nlmsg_len: EVENT_DATAGRAM_SIZE as u32,
                nlmsg_type: NLMSG_DONE,
                nlmsg_flags: 0,
                nlmsg_seq: 0,
                nlmsg_pid: 0,
            },
        ),
        cn_msg: cn_msg {
            id: cb_id { idx: CN_IDX_PROC, val: CN_VAL_PROC },
            seq: 0,
            ack: 0,
            len: PROC_EVENT_SIZE as u16,
            flags: 0,
        },
    }
}

/// The record of an event of kind `what` about the process `pid` of the
/// thread group `tgid`: the kind, the processor and the time stamp, both 0,
/// the two ids, and 0 in the rest of the record.
#[verifier::opaque]
pub open spec fn event_record(order: ByteOrder, what: u32, pid: i32, tgid: i32) -> Seq<u8> {
    host_bytes32(order, what) + host_bytes32(order, 0) + host_bytes32(order, 0) + host_bytes32(
        order,
        0,
    ) + host_bytes32(order, pid as u32) + host_bytes32(order, tgid as u32) + host_bytes32(
        order,
        0,
    ) + host_bytes32(order, 0) + host_bytes32(order, 0) + host_bytes32(order, 0)
}

/// The datagram in which the kernel reports an event of kind `what` about
/// the process `pid` of the thread group `tgid`.
pub open spec fn event_bytes(order: ByteOrder, what: u32, pid: i32, tgid: i32) -> Seq<u8> {
    message_bytes(order, event_message()) + event_record(order, what, pid, tgid)
}

/// Builds the datagram in which the kernel reports an event of kind `what`
/// about the process `pid` of the thread group `tgid`.
pub fn event_datagram(order: ByteOrder, what: u32, pid: i32, tgid: i32) -> (datagram: Vec<u8>)
    ensures
        datagram@ == event_bytes(order, what, pid, tgid),
        datagram@.len() == EVENT_DATAGRAM_SIZE,
        datagram@.len() == message_length(CN_MSG_SIZE + PROC_EVENT_SIZE),
        event_of(order, datagram@) == reported(what, pid),
        is_leader_event(order, datagram@) == ((what == PROCESS_EVENT_EXEC || what
            == PROCESS_EVENT_EXIT) && pid == tgid),
{
    let total: usize = nlmsg_length(CN_MSG_SIZE + PROC_EVENT_SIZE);
    let msg = nlcn_msg {
        nl_hdr: nlmsghdr_aligned(
            nlmsghdr {
                nlmsg_len: total as u32,
                nlmsg_type: NLMSG_DONE,
                nlmsg_flags: 0,
                nlmsg_seq: 0,
                nlmsg_pid: 0,
            },
        ),
        cn_msg: cn_msg {
            id: cb_id { idx: CN_IDX_PROC, val: CN_VAL_PROC },
            seq: 0,
            ack: 0,
            len: PROC_EVENT_SIZE as u16,
            flags: 0,
        },
    };
    let mut datagram: Vec<u8> = encode_message(&msg, order);
    let ghost headers = datagram@;
    push_host32(&mut datagram, order, what);
    push_host32(&mut datagram, order, 0);
    push_host32(&mut datagram, order, 0);
    push_host32(&mut datagram, order, 0);
    push_host32(&mut datagram, order, pid as u32);
    push_host32(&mut datagram, order, tgid as u32);
    push_host32(&mut datagram, order, 0);
    push_host32(&mut datagram, order, 0);
    push_host32(&mut datagram, order, 0);
    push_host32(&mut datagram, order, 0);
    proof {
        lemma_host_bytes_read_back(order, what, 0);
        lemma_host_bytes_read_back(order, 0, 0);
        lemma_host_bytes_read_back(order, pid as u32, 0);
        lemma_host_bytes_read_back(order, tgid as u32, 0);
        reveal(event_record);
        assert(datagram@ =~= headers + event_record(order, what, pid, tgid));
        lemma_event_round_trip(order, what, pid, tgid);
        lemma_event_leader(order, what, pid, tgid);
    }
    datagram
}

/// The fields of an event datagram are read back as they were laid out.
pub proof fn lemma_event_fields(order: ByteOrder, what: u32, pid: i32, tgid: i32)
    ensures
        event_bytes(order, what, pid, tgid).len() == EVENT_DATAGRAM_SIZE,
        message_at(order, event_bytes(order, what, pid, tgid)) == event_message(),
        host32_at(order, event_bytes(order, what, pid, tgid), 36) == what,
        host32_at(order, event_bytes(order, what, pid, tgid), 52) == pid as u32,
        host32_at(order, event_bytes(order, what, pid, tgid), 56) == tgid as u32,
{
    reveal(event_record);
    let bytes = event_bytes(order, what, pid, tgid);
    lemma_message_round_trip(order, event_message(), event_record(order, what, pid, tgid));
    lemma_host_bytes_read_back(order, what, 0);
    lemma_host_bytes_read_back(order, 0, 0);
    lemma_host_bytes_read_back(order, pid as u32, 0);
    lemma_host_bytes_read_back(order, tgid as u32, 0);
    assert(bytes.subrange(36, 40) =~= host_bytes32(order, what));
    assert(bytes.subrange(52, 56) =~= host_bytes32(order, pid as u32));
    assert(bytes.subrange(56, 60) =~= host_bytes32(order, tgid as u32));
    lemma_read_back32(order, bytes, 36, what);
    lemma_read_back32(order, bytes, 52, pid as u32);
    lemma_read_back32(order, bytes, 56, tgid as u32);
}

/// The datagrams that the connector wants to see: sent by the kernel as a
/// single segment of the process events connector, about a process that
/// started or ended, and whose process id equals its thread group id. The
/// fields are read as a host of the given byte order stores them.
pub open spec fn is_leader_event(order: ByteOrder, packet: Seq<u8>) -> bool {
    let what = host32_at(order, packet, PAYLOAD_OFFSET + PROC_EVENT_WHAT_OFFSET);
    &&& packet.len() >= PAYLOAD_OFFSET + PROC_EVENT_TGID_OFFSET + 4
    &&& host32_at(order, packet, NLMSG_PID_OFFSET as int) == 0
    &&& host16_at(order, packet, NLMSG_TYPE_OFFSET as int) == NLMSG_DONE
    &&& host32_at(order, packet, CN_MSG_OFFSET + CN_MSG_IDX_OFFSET) == CN_IDX_PROC
    &&& host32_at(order, packet, CN_MSG_OFFSET + CN_MSG_VAL_OFFSET) == CN_VAL_PROC
    &&& (what == PROCESS_EVENT_EXEC || what == PROCESS_EVENT_EXIT)
    &&& host32_at(order, packet, PAYLOAD_OFFSET + PROC_EVENT_PID_OFFSET) == host32_at(
        order,
        packet,
        PAYLOAD_OFFSET + PROC_EVENT_TGID_OFFSET,
    )
}

/// An event datagram is one that the connector wants to see exactly when it
/// reports the start or the end of a process whose process id equals its
/// thread group id.
pub proof fn lemma_event_leader(order: ByteOrder, what: u32, pid: i32, tgid: i32)
    ensures
        is_leader_event(order, event_bytes(order, what, pid, tgid)) == ((what
            == PROCESS_EVENT_EXEC || what == PROCESS_EVENT_EXIT) && pid == tgid),
{
    let packet = event_bytes(order, what, pid, tgid);
    lemma_event_fields(order, what, pid, tgid);
    assert(message_at(order, packet) == event_message());
    assert((pid as u32 == tgid as u32) == (pid == tgid)) by (bit_vector);
}

/// The decoder reports the start or the end of the process whose id the
/// datagram holds, whatever its thread group id is, and nothing for a
/// datagram of another kind.
pub proof fn lemma_event_round_trip(order: ByteOrder, what: u32, pid: i32, tgid: i32)
    ensures
        event_of(order, event_bytes(order, what, pid, tgid)) == reported(what, pid),
{
    lemma_event_fields(order, what, pid, tgid);
    assert((pid as u32) as i32 == pid) by (bit_vector);
}

} // verus!
