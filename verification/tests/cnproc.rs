use copes::io::connector::byte_order::{host_to_network32, ByteOrder};
use copes::io::connector::cnproc::{
    bpf_jump, bpf_stmt, decode_event, decode_message, decode_subscription, encode_message,
    event_datagram, nlmsg_align, nlmsg_hdrlen, nlmsg_length, sock_filter, subscription_datagram,
    cb_id, cn_msg, nlcn_msg, nlmsghdr, nlmsghdr_aligned, McastOp, BPF_JEQ, BPF_JMP, BPF_K,
    CN_IDX_PROC, CN_VAL_PROC, NLMSG_PID_OFFSET, PROCESS_EVENT_EXEC, PROCESS_EVENT_EXIT,
};
use copes::solver::{PEvent, PID};

#[test]
fn bpf_jump_expansion() {
    assert_eq!(
        sock_filter {
            code: 1 | 2,
            jt: 3,
            jf: 4,
            k: 5
        },
        bpf_jump(1 | 2, 5, 3, 4)
    );
}

#[test]
fn bpf_stmt_expansion() {
    assert_eq!(
        sock_filter {
            code: 1 | 2,
            jt: 0,
            jf: 0,
            k: 3
        },
        bpf_stmt(1 | 2, 3)
    );
}

#[test]
fn nlmsg_length_value() {
    assert_eq!(16, nlmsg_length(0));
    assert_eq!(24, nlmsg_length(8));
}

#[test]
fn filter_array_macros() {
    let data = [
        sock_filter {
            code: BPF_JMP | BPF_JEQ | BPF_K,
            jt: 0,
            jf: 0,
            k: NLMSG_PID_OFFSET as u32,
        },
        sock_filter {
            code: BPF_JMP | BPF_JEQ | BPF_K,
            jt: 1,
            jf: 0,
            k: u32::to_be(CN_IDX_PROC),
        },
    ];

    let filter = [
        bpf_stmt(BPF_JMP | BPF_JEQ | BPF_K, NLMSG_PID_OFFSET as u32),
        bpf_jump(
            BPF_JMP | BPF_JEQ | BPF_K,
            host_to_network32(ByteOrder::host(), CN_IDX_PROC),
            1,
            0,
        ),
    ];
    assert_eq!(data, filter);
}

#[test]
fn nlmsg_align_rounds_up_to_the_boundary() {
    assert_eq!(0, nlmsg_align(0));
    assert_eq!(4, nlmsg_align(1));
    assert_eq!(4, nlmsg_align(3));
    assert_eq!(4, nlmsg_align(4));
    assert_eq!(8, nlmsg_align(5));
    assert_eq!(16, nlmsg_hdrlen());
}

#[test]
fn nlmsg_length_of_an_empty_payload_is_the_header_size() {
    assert_eq!(std::mem::size_of::<libc::nlmsghdr>(), nlmsg_length(0));
}

#[test]
fn nlmsg_length_rounds_the_total_up() {
    assert_eq!(20, nlmsg_length(1));
    assert_eq!(20, nlmsg_length(2));
    assert_eq!(20, nlmsg_length(3));
    assert_eq!(20, nlmsg_length(4));
    assert_eq!(24, nlmsg_length(5));
    assert_eq!(40, nlmsg_length(21));
    assert_eq!(40, nlmsg_length(24));
    assert_eq!(76, nlmsg_length(60));
    for len in 0..200usize {
        let total = nlmsg_length(len);
        assert_eq!(0, total % 4);
        assert!(total >= len + 16);
        assert!(total < len + 20);
        if (len + 16) % 4 != 0 {
            assert_ne!(len + 16, total);
        }
    }
}

#[test]
fn subscribe_datagram_bytes_on_a_little_endian_host() {
    let datagram = subscription_datagram(ByteOrder::LittleEndian, McastOp::Listen);
    let expected: Vec<u8> = vec![
        40, 0, 0, 0, 3, 0, 0, 0, 0, 0, 0, 0, 0, 0, 0, 0, 1, 0, 0, 0, 1, 0, 0, 0, 0, 0, 0, 0, 0, 0,
        0, 0, 1, 0, 0, 0, 1, 0, 0, 0,
    ];
    assert_eq!(expected, datagram);
}

#[test]
fn subscribe_datagram_bytes_on_a_big_endian_host() {
    let datagram = subscription_datagram(ByteOrder::BigEndian, McastOp::Listen);
    let expected: Vec<u8> = vec![
        0, 0, 0, 40, 0, 3, 0, 0, 0, 0, 0, 0, 0, 0, 0, 0, 0, 0, 0, 1, 0, 0, 0, 1, 0, 0, 0, 0, 0, 0,
        0, 0, 0, 1, 0, 0, 1, 0, 0, 0,
    ];
    assert_eq!(expected, datagram);
}

#[test]
fn subscribe_datagram_round_trip() {
    for order in [ByteOrder::LittleEndian, ByteOrder::BigEndian] {
        let datagram = subscription_datagram(order, McastOp::Listen);
        assert_eq!(40, datagram.len());
        assert_eq!(
            Some((
                cb_id {
                    idx: CN_IDX_PROC,
                    val: CN_VAL_PROC
                },
                McastOp::Listen
            )),
            decode_subscription(&datagram, order)
        );
    }
}

#[test]
fn unsubscribe_datagram_round_trip() {
    for order in [ByteOrder::LittleEndian, ByteOrder::BigEndian] {
        let datagram = subscription_datagram(order, McastOp::Ignore);
        assert_eq!(40, datagram.len());
        assert_eq!(
            Some((
                cb_id {
                    idx: CN_IDX_PROC,
                    val: CN_VAL_PROC
                },
                McastOp::Ignore
            )),
            decode_subscription(&datagram, order)
        );
    }
}

#[test]
fn subscription_with_unknown_operation_or_short_datagram_is_not_decoded() {
    let order = ByteOrder::LittleEndian;
    let mut datagram = subscription_datagram(order, McastOp::Listen);
    datagram[36] = 7;
    assert_eq!(None, decode_subscription(&datagram, order));
    let datagram = subscription_datagram(order, McastOp::Listen);
    assert_eq!(None, decode_subscription(&datagram[..36], order));
    assert_eq!(
        Some((
            cb_id {
                idx: CN_IDX_PROC,
                val: CN_VAL_PROC
            },
            McastOp::Listen
        )),
        decode_subscription(&datagram[..37], order)
    );
}

#[test]
fn subscription_payload_is_one_operation_byte() {
    for order in [ByteOrder::LittleEndian, ByteOrder::BigEndian] {
        for (op, code) in [(McastOp::Listen, 1u8), (McastOp::Ignore, 0u8)] {
            let datagram = subscription_datagram(order, op);
            assert_eq!(40, datagram.len());
            assert_eq!(nlmsg_length(20 + 1), datagram.len());
            assert_eq!(code, datagram[36]);
            assert_eq!(vec![0u8, 0, 0], datagram[37..].to_vec());
            let headers = decode_message(&datagram, order).unwrap();
            assert_eq!(1, headers.cn_msg.len);
            assert_eq!(40, headers.nl_hdr.0.nlmsg_len);
            assert_eq!(3, headers.nl_hdr.0.nlmsg_type);
            assert_eq!(0, headers.nl_hdr.0.nlmsg_pid);
        }
    }
    // the operation does not depend on the byte order of the host
    let little = subscription_datagram(ByteOrder::LittleEndian, McastOp::Listen);
    let big = subscription_datagram(ByteOrder::BigEndian, McastOp::Listen);
    assert_eq!(little[36..].to_vec(), big[36..].to_vec());
}

#[test]
fn operation_codes() {
    assert_eq!(1, McastOp::Listen.code());
    assert_eq!(0, McastOp::Ignore.code());
    assert_eq!(Some(McastOp::Listen), McastOp::from_code(1));
    assert_eq!(Some(McastOp::Ignore), McastOp::from_code(0));
    assert_eq!(None, McastOp::from_code(9));
    assert_eq!(libc::PROC_CN_MCAST_LISTEN as u8, McastOp::Listen.code());
}

#[test]
fn message_headers_round_trip() {
    let msg = nlcn_msg {
        nl_hdr: nlmsghdr_aligned(nlmsghdr {
            nlmsg_len: 0x0102_0304,
            nlmsg_type: 0x0506,
            nlmsg_flags: 0x0708,
            nlmsg_seq: 0x090a_0b0c,
            nlmsg_pid: 0x0d0e_0f10,
        }),
        cn_msg: cn_msg {
            id: cb_id {
                idx: 0x1112_1314,
                val: 0x1516_1718,
            },
            seq: 0x191a_1b1c,
            ack: 0x1d1e_1f20,
            len: 0x2122,
            flags: 0x2324,
        },
    };
    let big = encode_message(&msg, ByteOrder::BigEndian);
    let expected: Vec<u8> = (1..=36u8).collect();
    assert_eq!(expected, big);
    let little = encode_message(&msg, ByteOrder::LittleEndian);
    assert_eq!(vec![4u8, 3, 2, 1, 6, 5, 8, 7], little[..8].to_vec());
    for (order, bytes) in [(ByteOrder::BigEndian, big), (ByteOrder::LittleEndian, little)] {
        let back = decode_message(&bytes, order).unwrap();
        assert_eq!(msg.nl_hdr.0, back.nl_hdr.0);
        assert_eq!(msg.cn_msg, back.cn_msg);
        assert!(decode_message(&bytes[..35], order).is_none());
    }
}

#[test]
fn started_event_of_a_leader_is_decoded() {
    for order in [ByteOrder::LittleEndian, ByteOrder::BigEndian] {
        let datagram = event_datagram(order, PROCESS_EVENT_EXEC, 4242, 4242);
        assert_eq!(76, datagram.len());
        assert_eq!(
            Some(PEvent::Exec(PID::from(4242))),
            decode_event(&datagram, order)
        );
    }
}

#[test]
fn started_event_of_a_thread_is_decoded_all_the_same() {
    for order in [ByteOrder::LittleEndian, ByteOrder::BigEndian] {
        let datagram = event_datagram(order, PROCESS_EVENT_EXEC, 4242, 17);
        assert_eq!(
            Some(PEvent::Exec(PID::from(4242))),
            decode_event(&datagram, order)
        );
    }
}

#[test]
fn ended_event_is_decoded() {
    for order in [ByteOrder::LittleEndian, ByteOrder::BigEndian] {
        let datagram = event_datagram(order, PROCESS_EVENT_EXIT, 31, 31);
        assert_eq!(
            Some(PEvent::Exit(PID::from(31))),
            decode_event(&datagram, order)
        );
    }
}

#[test]
fn event_of_another_kind_or_short_datagram_is_discarded() {
    let order = ByteOrder::LittleEndian;
    let fork = event_datagram(order, 1, 4242, 4242);
    assert_eq!(None, decode_event(&fork, order));
    let started = event_datagram(order, PROCESS_EVENT_EXEC, 4242, 4242);
    assert_eq!(None, decode_event(&started[..55], order));
    assert_eq!(
        Some(PEvent::Exec(PID::from(4242))),
        decode_event(&started[..56], order)
    );
    let empty: Vec<u8> = vec![0; 76];
    assert_eq!(None, decode_event(&empty, order));
}

#[test]
fn event_datagram_bytes_on_a_little_endian_host() {
    let datagram = event_datagram(ByteOrder::LittleEndian, PROCESS_EVENT_EXIT, 258, -2);
    let mut expected: Vec<u8> = vec![0; 76];
    expected[0] = 76;
    expected[4] = 3;
    expected[16] = 1;
    expected[20] = 1;
    expected[32] = 40;
    expected[39] = 0x80;
    expected[52] = 2;
    expected[53] = 1;
    expected[56] = 0xfe;
    expected[57] = 0xff;
    expected[58] = 0xff;
    expected[59] = 0xff;
    assert_eq!(expected, datagram);
    assert_eq!(
        Some(PEvent::Exit(PID::from(258))),
        decode_event(&datagram, ByteOrder::LittleEndian)
    );
}

#[test]
fn negative_process_id_survives_the_wire() {
    let datagram = event_datagram(ByteOrder::BigEndian, PROCESS_EVENT_EXEC, -5, -5);
    assert_eq!(
        Some(PEvent::Exec(PID::from(-5))),
        decode_event(&datagram, ByteOrder::BigEndian)
    );
}

#[test]
fn wire_constants_are_those_of_the_kernel() {
    assert_eq!(libc::CN_IDX_PROC, CN_IDX_PROC);
    assert_eq!(libc::CN_VAL_PROC, CN_VAL_PROC);
    assert_eq!(libc::PROC_EVENT_EXEC as u32, PROCESS_EVENT_EXEC);
    assert_eq!(libc::PROC_EVENT_EXIT as u32, PROCESS_EVENT_EXIT);
    assert_eq!(libc::NLMSG_DONE as u16, copes::io::connector::cnproc::NLMSG_DONE);
    assert_eq!(libc::BPF_JMP as u16, BPF_JMP);
    assert_eq!(libc::BPF_JEQ as u16, BPF_JEQ);
    assert_eq!(libc::BPF_K as u16, BPF_K);
    assert_eq!(libc::BPF_LD as u16, copes::io::connector::cnproc::BPF_LD);
    assert_eq!(libc::BPF_LDX as u16, copes::io::connector::cnproc::BPF_LDX);
    assert_eq!(libc::BPF_ST as u16, copes::io::connector::cnproc::BPF_ST);
    assert_eq!(libc::BPF_RET as u16, copes::io::connector::cnproc::BPF_RET);
    assert_eq!(libc::BPF_W as u16, copes::io::connector::cnproc::BPF_W);
    assert_eq!(libc::BPF_H as u16, copes::io::connector::cnproc::BPF_H);
    assert_eq!(libc::BPF_ABS as u16, copes::io::connector::cnproc::BPF_ABS);
    assert_eq!(libc::BPF_MEM as u16, copes::io::connector::cnproc::BPF_MEM);
    assert_eq!(libc::BPF_X as u16, copes::io::connector::cnproc::BPF_X);
    assert_eq!(8, std::mem::size_of::<libc::sock_filter>());
}
