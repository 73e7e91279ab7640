//! The socket filter of the process events connector.
//!
//! The kernel runs the filter program on every datagram of the channel and
//! delivers only those that the program accepts. This module builds the
//! program, gives the meaning of its instructions, and proves which
//! datagrams it accepts.

use vstd::prelude::*;
use crate::io::connector::byte_order::{
    be16_at, be32_at, host_to_network16, host_to_network32, lemma_network_involution, network16,
    network32, read_host16, read_host32, swap32, ByteOrder,
};
use crate::io::connector::cnproc::{
    bpf_jump, bpf_stmt, event_bytes, is_leader_event, jump, lemma_event_leader, message_length,
    sock_filter, stmt, BPF_ABS, BPF_H, BPF_JEQ, BPF_JMP, BPF_K, BPF_LD, BPF_LDX,
    BPF_MEM, BPF_RET, BPF_ST, BPF_W, BPF_X, CN_IDX_PROC, CN_MSG_IDX_OFFSET, CN_MSG_OFFSET,
    CN_MSG_SIZE, CN_MSG_VAL_OFFSET, CN_VAL_PROC, NLMSG_DONE, NLMSG_PID_OFFSET,
    NLMSG_TYPE_OFFSET, PAYLOAD_OFFSET, PROCESS_EVENT_EXEC, PROCESS_EVENT_EXIT,
    PROC_EVENT_PID_OFFSET, PROC_EVENT_TGID_OFFSET, PROC_EVENT_WHAT_OFFSET,
};

verus! {

/// Load the 32-bit word at a packet offset into the accumulator.
pub const LOAD_WORD: u16 = 0x20;

/// Load the 16-bit half word at a packet offset into the accumulator.
pub const LOAD_HALF: u16 = 0x28;

/// Store the accumulator into a scratch slot.
pub const STORE: u16 = 0x02;

/// Load a scratch slot into the index register.
pub const LOAD_INDEX: u16 = 0x61;

/// Compare the accumulator with the instruction's constant.
pub const JUMP_EQ_CONST: u16 = 0x15;

/// Compare the accumulator with the index register.
pub const JUMP_EQ_INDEX: u16 = 0x1d;

/// Return the instruction's constant.
pub const RETURN: u16 = 0x06;

/// Number of scratch slots of the filter machine.
pub const SCRATCH_SLOTS: usize = 16;

/// Decision of a filter: drop the datagram.
pub const REJECT: u32 = 0;

/// Decision of a filter: deliver the whole datagram.
pub const ACCEPT: u32 = 0xffff_ffff;

/// Offset of the sender's port in a datagram.
pub const SENDER_OFFSET: u32 = 12;

/// Offset of the message type in a datagram.
pub const TYPE_OFFSET: u32 = 4;

/// Offset of the connector index in a datagram.
pub const IDX_OFFSET: u32 = 16;

/// Offset of the connector value in a datagram.
pub const VAL_OFFSET: u32 = 20;

/// Offset of the event kind in a datagram.
pub const WHAT_OFFSET: u32 = 36;

/// Offset of the process id of a started or ended process in a datagram.
pub const PID_OFFSET: u32 = 52;

/// Offset of the thread group id of a started or ended process in a datagram.
pub const TGID_OFFSET: u32 = 56;

/// Number of instructions of the filter program.
pub const FILTER_LENGTH: usize = 29;

/// The operation codes are the classes, sizes, modes and sources that the
/// kernel defines, combined.
pub proof fn lemma_operation_codes()
    ensures
        LOAD_WORD == BPF_LD | BPF_W | BPF_ABS,
        LOAD_HALF == BPF_LD | BPF_H | BPF_ABS,
        STORE == BPF_ST,
        LOAD_INDEX == BPF_LDX | BPF_W | BPF_MEM,
        JUMP_EQ_CONST == BPF_JMP | BPF_JEQ | BPF_K,
        JUMP_EQ_INDEX == BPF_JMP | BPF_JEQ | BPF_X,
        RETURN == BPF_RET | BPF_K,
{
    assert(0x20u16 == 0x00u16 | 0x00u16 | 0x20u16) by (bit_vector);
    assert(0x28u16 == 0x00u16 | 0x08u16 | 0x20u16) by (bit_vector);
    assert(0x61u16 == 0x01u16 | 0x00u16 | 0x60u16) by (bit_vector);
    assert(0x15u16 == 0x05u16 | 0x10u16 | 0x00u16) by (bit_vector);
    assert(0x1du16 == 0x05u16 | 0x10u16 | 0x08u16) by (bit_vector);
    assert(0x06u16 == 0x06u16 | 0x00u16) by (bit_vector);
}

/// Registers and scratch memory of the filter machine.
pub struct Machine {
    /// Accumulator.
    pub a: u32,
    /// Index register.
    pub x: u32,
    /// Scratch slots.
    pub scratch: Seq<u32>,
}

/// What one instruction does.
pub enum Step {
    /// Execution goes on at an instruction, with the machine in a new state.
    Next(int, Machine),
    /// The program ends with a decision.
    Return(u32),
}

/// The machine before the first instruction: every register and slot is 0.
pub open spec fn initial_machine() -> Machine {
    Machine { a: 0, x: 0, scratch: Seq::new(SCRATCH_SLOTS as nat, |i: int| 0u32) }
}

/// The value that the load `code` reads at offset `k` of `packet`, in
/// network byte order, or `None` where the packet ends before the value does.
pub open spec fn loaded(code: u16, packet: Seq<u8>, k: u32) -> Option<u32> {
    if code == LOAD_WORD && k + 4 <= packet.len() {
        Some(be32_at(packet, k as int))
    } else if code == LOAD_HALF && k + 2 <= packet.len() {
        Some(be16_at(packet, k as int) as u32)
    } else {
        None
    }
}

/// The effect of the instruction `ins`, which stands at index `pc`, on a
/// machine in state `m` that examines `packet`. A load beyond the end of the
/// packet, an access to a scratch slot that does not exist and an operation
/// code outside the ones above all end the program with a rejection.
pub open spec fn step(ins: sock_filter, packet: Seq<u8>, pc: int, m: Machine) -> Step {
    if ins.code == LOAD_WORD || ins.code == LOAD_HALF {
        match loaded(ins.code, packet, ins.k) {
            Some(value) => Step::Next(pc + 1, Machine { a: value, ..m }),
            None => Step::Return(REJECT),
        }
    } else if ins.code == STORE {
        if ins.k < SCRATCH_SLOTS {
            Step::Next(pc + 1, Machine { scratch: m.scratch.update(ins.k as int, m.a), ..m })
        } else {
            Step::Return(REJECT)
        }
    } else if ins.code == LOAD_INDEX {
        if ins.k < SCRATCH_SLOTS {
            Step::Next(pc + 1, Machine { x: m.scratch[ins.k as int], ..m })
        } else {
            Step::Return(REJECT)
        }
    } else if ins.code == JUMP_EQ_CONST {
        Step::Next(
            pc + 1 + (if m.a == ins.k {
                ins.jt as int
            } else {
                ins.jf as int
            }),
            m,
        )
    } else if ins.code == JUMP_EQ_INDEX {
        Step::Next(
            pc + 1 + (if m.a == m.x {
                ins.jt as int
            } else {
                ins.jf as int
            }),
            m,
        )
    } else if ins.code == RETURN {
        Step::Return(ins.k)
    } else {
        Step::Return(REJECT)
    }
}

/// The decision of `program` on `packet` when execution stands at index `pc`
/// with the machine in state `m`. Running past the last instruction rejects.
pub open spec fn run_from(program: Seq<sock_filter>, packet: Seq<u8>, pc: int, m: Machine) -> u32
    decreases program.len() - pc,
{
    if pc < 0 || pc >= program.len() {
        REJECT
    } else {
        match step(program[pc], packet, pc, m) {
            Step::Return(decision) => decision,
            Step::Next(next, after) => if pc < next <= program.len() {
                run_from(program, packet, next, after)
            } else {
                REJECT
            },
        }
    }
}

/// The decision of `program` on `packet`: 0 to drop it, otherwise the number
/// of bytes to deliver.
pub open spec fn run(program: Seq<sock_filter>, packet: Seq<u8>) -> u32 {
    run_from(program, packet, 0, initial_machine())
}

/// Both targets of the instruction at index `i` lie within the program.
pub open spec fn targets_in_bounds(program: Seq<sock_filter>, i: int) -> bool {
    &&& i + 1 + program[i].jt < program.len()
    &&& i + 1 + program[i].jf < program.len()
}

/// The instruction at index `i` is a jump.
pub open spec fn is_branch(ins: sock_filter) -> bool {
    ins.code == JUMP_EQ_CONST || ins.code == JUMP_EQ_INDEX
}

/// Every branch of the program lands on an instruction of the program, and
/// the program ends with a return.
pub open spec fn well_formed(program: Seq<sock_filter>) -> bool {
    &&& program.len() > 0
    &&& program[program.len() - 1].code == RETURN
    &&& forall|i: int|
        0 <= i < program.len() && is_branch(#[trigger] program[i]) ==> targets_in_bounds(
            program,
            i,
        )
}

/// Three instructions that reject a datagram unless the field that `load`
/// reads at `offset` equals `expected`.
pub open spec fn field_check(load: u16, offset: u32, expected: u32) -> Seq<sock_filter> {
    seq![stmt(load, offset), jump(JUMP_EQ_CONST, expected, 1, 0), stmt(RETURN, REJECT)]
}

/// Eight instructions that accept a datagram whose event kind is `kind`, in
/// network byte order, and whose process id equals its thread group id. A
/// datagram of another kind skips `other_kind` instructions after the kind
/// test; one of this kind that fails the test of the ids skips `not_leader`
/// instructions after that test.
pub open spec fn leader_check(kind: u32, other_kind: u8, not_leader: u8) -> Seq<sock_filter> {
    seq![
        stmt(LOAD_WORD, WHAT_OFFSET),
        jump(JUMP_EQ_CONST, kind, 0, other_kind),
        stmt(LOAD_WORD, PID_OFFSET),
        stmt(STORE, 0),
        stmt(LOAD_INDEX, 0),
        stmt(LOAD_WORD, TGID_OFFSET),
        jump(JUMP_EQ_INDEX, 0, 0, not_leader),
        stmt(RETURN, ACCEPT),
    ]
}

/// The filter program of the process events connector on a host of the given
/// byte order.
pub open spec fn filter_program(order: ByteOrder) -> Seq<sock_filter> {
    field_check(LOAD_WORD, SENDER_OFFSET, 0)
        + field_check(LOAD_HALF, TYPE_OFFSET, network16(order, NLMSG_DONE) as u32)
        + field_check(LOAD_WORD, IDX_OFFSET, network32(order, CN_IDX_PROC))
        + field_check(LOAD_WORD, VAL_OFFSET, network32(order, CN_VAL_PROC))
        + leader_check(network32(order, PROCESS_EVENT_EXEC), 6, 9)
        + leader_check(network32(order, PROCESS_EVENT_EXIT), 6, 1)
        + seq![stmt(RETURN, REJECT)]
}

/// Appends the three instructions of a field check to `program`.
fn push_field_check(program: &mut Vec<sock_filter>, load: u16, offset: u32, expected: u32)
    ensures
        final(program)@ == old(program)@ + field_check(load, offset, expected),
{
    program.push(bpf_stmt(load, offset));
    program.push(bpf_jump(JUMP_EQ_CONST, expected, 1, 0));
    program.push(bpf_stmt(RETURN, REJECT));
    assert(final(program)@ =~= old(program)@ + field_check(load, offset, expected));
}

/// Appends the eight instructions of a leader check to `program`.
fn push_leader_check(program: &mut Vec<sock_filter>, kind: u32, other_kind: u8, not_leader: u8)
    ensures
        final(program)@ == old(program)@ + leader_check(kind, other_kind, not_leader),
{
    program.push(bpf_stmt(LOAD_WORD, WHAT_OFFSET));
    program.push(bpf_jump(JUMP_EQ_CONST, kind, 0, other_kind));
    program.push(bpf_stmt(LOAD_WORD, PID_OFFSET));
    program.push(bpf_stmt(STORE, 0));
    program.push(bpf_stmt(LOAD_INDEX, 0));
    program.push(bpf_stmt(LOAD_WORD, TGID_OFFSET));
    program.push(bpf_jump(JUMP_EQ_INDEX, 0, 0, not_leader));
    program.push(bpf_stmt(RETURN, ACCEPT));
    assert(final(program)@ =~= old(program)@ + leader_check(kind, other_kind, not_leader));
}

/// Builds the filter program that the connector installs on its channel.
///
/// The program rejects a datagram unless it comes from the kernel, is a
/// single segment and belongs to the process events connector. Of the rest
/// it accepts the events of a started and of an ended process whose process
/// id equals its thread group id, and rejects every other datagram.
pub fn process_events_filter(order: ByteOrder) -> (program: Vec<sock_filter>)
    ensures
        program@ == filter_program(order),
        program@.len() == FILTER_LENGTH,
        well_formed(program@),
        forall|packet: Seq<u8>|
            #[trigger] run(program@, packet) == (if is_leader_event(order, packet) {
                ACCEPT
            } else {
                REJECT
            }),
{
    let mut program: Vec<sock_filter> = Vec::new();
    let done: u16 = host_to_network16(order, NLMSG_DONE);
    push_field_check(&mut program, LOAD_WORD, SENDER_OFFSET, 0);
    push_field_check(&mut program, LOAD_HALF, TYPE_OFFSET, done as u32);
    push_field_check(&mut program, LOAD_WORD, IDX_OFFSET, host_to_network32(order, CN_IDX_PROC));
    push_field_check(&mut program, LOAD_WORD, VAL_OFFSET, host_to_network32(order, CN_VAL_PROC));
    push_leader_check(&mut program, host_to_network32(order, PROCESS_EVENT_EXEC), 6, 9);
    push_leader_check(&mut program, host_to_network32(order, PROCESS_EVENT_EXIT), 6, 1);
    program.push(bpf_stmt(RETURN, REJECT));
    proof {
        assert(program@ =~= filter_program(order));
        lemma_filter_well_formed(order);
        assert forall|packet: Seq<u8>|
            #[trigger] run(program@, packet) == (if is_leader_event(order, packet) {
                ACCEPT
            } else {
                REJECT
            }) by {
            lemma_filter_decision(order, packet);
        }
    }
    program
}

/// The instructions of the filter program, one by one.
pub proof fn lemma_filter_instructions(order: ByteOrder)
    ensures
        filter_program(order).len() == FILTER_LENGTH,
        filter_program(order)[0] == stmt(LOAD_WORD, SENDER_OFFSET),
        filter_program(order)[1] == jump(JUMP_EQ_CONST, 0, 1, 0),
        filter_program(order)[2] == stmt(RETURN, REJECT),
        filter_program(order)[3] == stmt(LOAD_HALF, TYPE_OFFSET),
        filter_program(order)[4] == jump(
            JUMP_EQ_CONST,
            network16(order, NLMSG_DONE) as u32,
            1,
            0,
        ),
        filter_program(order)[5] == stmt(RETURN, REJECT),
        filter_program(order)[6] == stmt(LOAD_WORD, IDX_OFFSET),
        filter_program(order)[7] == jump(JUMP_EQ_CONST, network32(order, CN_IDX_PROC), 1, 0),
        filter_program(order)[8] == stmt(RETURN, REJECT),
        filter_program(order)[9] == stmt(LOAD_WORD, VAL_OFFSET),
        filter_program(order)[10] == jump(JUMP_EQ_CONST, network32(order, CN_VAL_PROC), 1, 0),
        filter_program(order)[11] == stmt(RETURN, REJECT),
        filter_program(order)[12] == stmt(LOAD_WORD, WHAT_OFFSET),
        filter_program(order)[13] == jump(
            JUMP_EQ_CONST,
            network32(order, PROCESS_EVENT_EXEC),
            0,
            6,
        ),
        filter_program(order)[14] == stmt(LOAD_WORD, PID_OFFSET),
        filter_program(order)[15] == stmt(STORE, 0),
        filter_program(order)[16] == stmt(LOAD_INDEX, 0),
        filter_program(order)[17] == stmt(LOAD_WORD, TGID_OFFSET),
        filter_program(order)[18] == jump(JUMP_EQ_INDEX, 0, 0, 9),
        filter_program(order)[19] == stmt(RETURN, ACCEPT),
        filter_program(order)[20] == stmt(LOAD_WORD, WHAT_OFFSET),
        filter_program(order)[21] == jump(
            JUMP_EQ_CONST,
            network32(order, PROCESS_EVENT_EXIT),
            0,
            6,
        ),
        filter_program(order)[22] == stmt(LOAD_WORD, PID_OFFSET),
        filter_program(order)[23] == stmt(STORE, 0),
        filter_program(order)[24] == stmt(LOAD_INDEX, 0),
        filter_program(order)[25] == stmt(LOAD_WORD, TGID_OFFSET),
        filter_program(order)[26] == jump(JUMP_EQ_INDEX, 0, 0, 1),
        filter_program(order)[27] == stmt(RETURN, ACCEPT),
        filter_program(order)[28] == stmt(RETURN, REJECT),
{
}

/// Every branch of the filter program lands on an instruction of the
/// program: the number of instructions it skips, added to its own index plus
/// one, is an index of the program, whether its comparison holds or fails.
/// The program ends with a return.
pub proof fn lemma_filter_well_formed(order: ByteOrder)
    ensures
        well_formed(filter_program(order)),
{
    lemma_filter_instructions(order);
    let program = filter_program(order);
    assert forall|i: int| 0 <= i < program.len() && is_branch(#[trigger] program[i]) implies {
        &&& i + 1 + program[i].jt < program.len()
        &&& i + 1 + program[i].jf < program.len()
    } by {}
}

/// The offsets at which the filter program reads are those of the fields in
/// the layout of a datagram.
pub proof fn lemma_field_offsets()
    ensures
        SENDER_OFFSET == NLMSG_PID_OFFSET,
        TYPE_OFFSET == NLMSG_TYPE_OFFSET,
        IDX_OFFSET == CN_MSG_OFFSET + CN_MSG_IDX_OFFSET,
        VAL_OFFSET == CN_MSG_OFFSET + CN_MSG_VAL_OFFSET,
        WHAT_OFFSET == PAYLOAD_OFFSET + PROC_EVENT_WHAT_OFFSET,
        PID_OFFSET == PAYLOAD_OFFSET + PROC_EVENT_PID_OFFSET,
        TGID_OFFSET == PAYLOAD_OFFSET + PROC_EVENT_TGID_OFFSET,
        CN_MSG_OFFSET == message_length(0),
        PAYLOAD_OFFSET == CN_MSG_OFFSET + CN_MSG_SIZE,
{
}

/// What a field check decides: it rejects unless the field can be read and
/// holds the expected value, and otherwise goes on behind its three
/// instructions with the field in the accumulator.
proof fn lemma_field_check(
    program: Seq<sock_filter>,
    packet: Seq<u8>,
    pc: int,
    m: Machine,
    load: u16,
    offset: u32,
    expected: u32,
)
    requires
        0 <= pc,
        pc + 3 <= program.len(),
        load == LOAD_WORD || load == LOAD_HALF,
        program.subrange(pc, pc + 3) == field_check(load, offset, expected),
    ensures
        run_from(program, packet, pc, m) == (if loaded(load, packet, offset) == Some(expected) {
            run_from(program, packet, pc + 3, Machine { a: expected, ..m })
        } else {
            REJECT
        }),
{
    let block = program.subrange(pc, pc + 3);
    assert(program[pc] == block[0]);
    assert(program[pc + 1] == block[1]);
    assert(program[pc + 2] == block[2]);
    reveal_with_fuel(run_from, 3);
}

/// What a leader check decides: it accepts an event of its kind whose two ids
/// are equal, rejects where a field cannot be read, and otherwise goes on at
/// one of its two exits.
proof fn lemma_leader_check(
    program: Seq<sock_filter>,
    packet: Seq<u8>,
    pc: int,
    m: Machine,
    kind: u32,
    other_kind: u8,
    not_leader: u8,
)
    requires
        0 <= pc,
        pc + 8 <= program.len(),
        m.scratch.len() == SCRATCH_SLOTS,
        program.subrange(pc, pc + 8) == leader_check(kind, other_kind, not_leader),
    ensures
        run_from(program, packet, pc, m) == (if packet.len() < WHAT_OFFSET + 4 {
            REJECT
        } else if be32_at(packet, WHAT_OFFSET as int) != kind {
            run_from(
                program,
                packet,
                pc + 2 + other_kind,
                Machine { a: be32_at(packet, WHAT_OFFSET as int), ..m },
            )
        } else if packet.len() < TGID_OFFSET + 4 {
            REJECT
        } else if be32_at(packet, PID_OFFSET as int) == be32_at(packet, TGID_OFFSET as int) {
            ACCEPT
        } else {
            run_from(
                program,
                packet,
                pc + 7 + not_leader,
                Machine {
                    a: be32_at(packet, TGID_OFFSET as int),
                    x: be32_at(packet, PID_OFFSET as int),
                    scratch: m.scratch.update(0, be32_at(packet, PID_OFFSET as int)),
                },
            )
        }),
{
    let block = program.subrange(pc, pc + 8);
    assert(program[pc] == block[0]);
    assert(program[pc + 1] == block[1]);
    assert(program[pc + 2] == block[2]);
    assert(program[pc + 3] == block[3]);
    assert(program[pc + 4] == block[4]);
    assert(program[pc + 5] == block[5]);
    assert(program[pc + 6] == block[6]);
    assert(program[pc + 7] == block[7]);
    reveal_with_fuel(run_from, 8);
}

/// A field of a datagram equals a host-order constant exactly when the
/// filter, which reads in network byte order, sees the converted constant.
proof fn lemma_compare_in_network_order(order: ByteOrder, seen: u32, constant: u32)
    ensures
        (seen == network32(order, constant)) == (network32(order, seen) == constant),
{
    lemma_network_involution(order, seen, 0);
    lemma_network_involution(order, constant, 0);
}

/// The six blocks of the filter program, each at its place.
proof fn lemma_filter_blocks(order: ByteOrder)
    ensures
        filter_program(order).len() == FILTER_LENGTH,
        filter_program(order).subrange(0, 3) == field_check(LOAD_WORD, SENDER_OFFSET, 0),
        filter_program(order).subrange(3, 6) == field_check(
            LOAD_HALF,
            TYPE_OFFSET,
            network16(order, NLMSG_DONE) as u32,
        ),
        filter_program(order).subrange(6, 9) == field_check(
            LOAD_WORD,
            IDX_OFFSET,
            network32(order, CN_IDX_PROC),
        ),
        filter_program(order).subrange(9, 12) == field_check(
            LOAD_WORD,
            VAL_OFFSET,
            network32(order, CN_VAL_PROC),
        ),
        filter_program(order).subrange(12, 20) == leader_check(
            network32(order, PROCESS_EVENT_EXEC),
            6,
            9,
        ),
        filter_program(order).subrange(20, 28) == leader_check(
            network32(order, PROCESS_EVENT_EXIT),
            6,
            1,
        ),
        filter_program(order)[28] == stmt(RETURN, REJECT),
{
    let program = filter_program(order);
    lemma_filter_instructions(order);
    assert(program.subrange(0, 3) =~= field_check(LOAD_WORD, SENDER_OFFSET, 0));
    assert(program.subrange(3, 6) =~= field_check(
        LOAD_HALF,
        TYPE_OFFSET,
        network16(order, NLMSG_DONE) as u32,
    ));
    assert(program.subrange(6, 9) =~= field_check(
        LOAD_WORD,
        IDX_OFFSET,
        network32(order, CN_IDX_PROC),
    ));
    assert(program.subrange(9, 12) =~= field_check(
        LOAD_WORD,
        VAL_OFFSET,
        network32(order, CN_VAL_PROC),
    ));
    assert(program.subrange(12, 20) =~= leader_check(network32(order, PROCESS_EVENT_EXEC), 6, 9));
    assert(program.subrange(20, 28) =~= leader_check(network32(order, PROCESS_EVENT_EXIT), 6, 1));
}

/// The datagram is accepted as the filter sees it: every field, read in
/// network byte order, holds what the program compares it with.
spec fn seen_as_leader_event(order: ByteOrder, packet: Seq<u8>) -> bool {
    let what = be32_at(packet, WHAT_OFFSET as int);
    &&& packet.len() >= TGID_OFFSET + 4
    &&& be32_at(packet, SENDER_OFFSET as int) == 0
    &&& be16_at(packet, TYPE_OFFSET as int) as u32 == network16(order, NLMSG_DONE) as u32
    &&& be32_at(packet, IDX_OFFSET as int) == network32(order, CN_IDX_PROC)
    &&& be32_at(packet, VAL_OFFSET as int) == network32(order, CN_VAL_PROC)
    &&& (what == network32(order, PROCESS_EVENT_EXEC) || what == network32(
        order,
        PROCESS_EVENT_EXIT,
    ))
    &&& be32_at(packet, PID_OFFSET as int) == be32_at(packet, TGID_OFFSET as int)
}

/// The filter program accepts exactly the datagrams that it sees as events
/// of a leader.
proof fn lemma_filter_run(order: ByteOrder, packet: Seq<u8>)
    ensures
        run(filter_program(order), packet) == (if seen_as_leader_event(order, packet) {
            ACCEPT
        } else {
            REJECT
        }),
{
    let program = filter_program(order);
    let done: u32 = network16(order, NLMSG_DONE) as u32;
    let idx: u32 = network32(order, CN_IDX_PROC);
    let val: u32 = network32(order, CN_VAL_PROC);
    let exec: u32 = network32(order, PROCESS_EVENT_EXEC);
    let exit: u32 = network32(order, PROCESS_EVENT_EXIT);
    let what: u32 = be32_at(packet, WHAT_OFFSET as int);
    let pid: u32 = be32_at(packet, PID_OFFSET as int);
    let tgid: u32 = be32_at(packet, TGID_OFFSET as int);
    lemma_filter_blocks(order);
    let m0 = initial_machine();
    let m1 = Machine { a: 0, ..m0 };
    let m2 = Machine { a: done, ..m0 };
    let m3 = Machine { a: idx, ..m0 };
    let m4 = Machine { a: val, ..m0 };
    let m5 = Machine { a: what, ..m0 };
    let spilled = Machine { a: tgid, x: pid, scratch: m0.scratch.update(0, pid) };
    lemma_field_check(program, packet, 0, m0, LOAD_WORD, SENDER_OFFSET, 0);
    lemma_field_check(program, packet, 3, m1, LOAD_HALF, TYPE_OFFSET, done);
    lemma_field_check(program, packet, 6, m2, LOAD_WORD, IDX_OFFSET, idx);
    lemma_field_check(program, packet, 9, m3, LOAD_WORD, VAL_OFFSET, val);
    lemma_leader_check(program, packet, 12, m4, exec, 6, 9);
    lemma_leader_check(program, packet, 20, m5, exit, 6, 1);
    assert(run_from(program, packet, 28, m5) == REJECT);
    assert(run_from(program, packet, 28, spilled) == REJECT);
}

/// The filter program accepts a datagram, whole, exactly when it is the event
/// of a started or ended process whose process id equals its thread group id,
/// and rejects every other datagram: one of another kind, one whose two ids
/// differ, one that is too short to hold the fields.
pub proof fn lemma_filter_decision(order: ByteOrder, packet: Seq<u8>)
    ensures
        is_leader_event(order, packet) ==> run(filter_program(order), packet) == ACCEPT,
        !is_leader_event(order, packet) ==> run(filter_program(order), packet) == REJECT,
{
    let what: u32 = be32_at(packet, WHAT_OFFSET as int);
    lemma_filter_run(order, packet);
    assert(swap32(0) == 0) by (bit_vector);
    lemma_compare_in_network_order(order, be32_at(packet, SENDER_OFFSET as int), 0);
    lemma_network_involution(order, 0, be16_at(packet, TYPE_OFFSET as int));
    lemma_network_involution(order, 0, NLMSG_DONE);
    lemma_compare_in_network_order(order, be32_at(packet, IDX_OFFSET as int), CN_IDX_PROC);
    lemma_compare_in_network_order(order, be32_at(packet, VAL_OFFSET as int), CN_VAL_PROC);
    lemma_compare_in_network_order(order, what, PROCESS_EVENT_EXEC);
    lemma_compare_in_network_order(order, what, PROCESS_EVENT_EXIT);
    lemma_network_involution(order, be32_at(packet, PID_OFFSET as int), 0);
    lemma_network_involution(order, be32_at(packet, TGID_OFFSET as int), 0);
    assert(is_leader_event(order, packet) == seen_as_leader_event(order, packet));
}

/// Of the events that the kernel reports, the filter program accepts those
/// of a started and of an ended process whose process id equals its thread
/// group id, and rejects every other: one whose two ids differ, and one of
/// another kind whatever its ids are.
pub proof fn lemma_filter_on_events(order: ByteOrder, what: u32, pid: i32, tgid: i32)
    ensures
        run(filter_program(order), event_bytes(order, what, pid, tgid)) == (if (what
            == PROCESS_EVENT_EXEC || what == PROCESS_EVENT_EXIT) && pid == tgid {
            ACCEPT
        } else {
            REJECT
        }),
{
    lemma_event_leader(order, what, pid, tgid);
    lemma_filter_decision(order, event_bytes(order, what, pid, tgid));
}

/// Runs a filter program on a packet, as the kernel does for each datagram
/// of a channel, and returns its decision: 0 to drop the packet, otherwise
/// the number of bytes to deliver.
pub fn run_filter(program: &[sock_filter], packet: &[u8]) -> (decision: u32)
    ensures
        decision == run(program@, packet@),
{
    let mut a: u32 = 0;
    let mut x: u32 = 0;
    let mut scratch: Vec<u32> = Vec::new();
    while scratch.len() < SCRATCH_SLOTS
        invariant
            scratch@.len() <= SCRATCH_SLOTS,
            forall|i: int| 0 <= i < scratch@.len() ==> scratch@[i] == 0,
        decreases SCRATCH_SLOTS - scratch@.len(),
    {
        scratch.push(0);
    }
    assert(scratch@ =~= initial_machine().scratch);
    let mut pc: usize = 0;
    while pc < program.len()
        invariant
            scratch@.len() == SCRATCH_SLOTS,
            run(program@, packet@) == run_from(
                program@,
                packet@,
                pc as int,
                Machine { a, x, scratch: scratch@ },
            ),
        decreases program.len() - pc,
    {
        let ins: sock_filter = program[pc];
        let rest: usize = program.len() - pc - 1;
        let k: usize = ins.k as usize;
        if ins.code == LOAD_WORD {
            if packet.len() < 4 || k > packet.len() - 4 {
                return REJECT;
            }
            a = read_host32(packet, k, ByteOrder::BigEndian);
            pc = pc + 1;
        } else if ins.code == LOAD_HALF {
            if packet.len() < 2 || k > packet.len() - 2 {
                return REJECT;
            }
            a = read_host16(packet, k, ByteOrder::BigEndian) as u32;
            pc = pc + 1;
        } else if ins.code == STORE {
            if k >= SCRATCH_SLOTS {
                return REJECT;
            }
            scratch.set(k, a);
            pc = pc + 1;
        } else if ins.code == LOAD_INDEX {
            if k >= SCRATCH_SLOTS {
                return REJECT;
            }
            x = scratch[k];
            pc = pc + 1;
        } else if ins.code == JUMP_EQ_CONST || ins.code == JUMP_EQ_INDEX {
            let holds: bool = if ins.code == JUMP_EQ_CONST {
                a == ins.k
            } else {
                a == x
            };
            let skip: usize = if holds {
                ins.jt as usize
            } else {
                ins.jf as usize
            };
            if skip > rest {
                return REJECT;
            }
            pc = pc + 1 + skip;
        } else if ins.code == RETURN {
            return ins.k;
        } else {
            return REJECT;
        }
    }
    REJECT
}

} // verus!
