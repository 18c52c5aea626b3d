//! Laws that relate encoding, reply length and decoding.
use vstd::prelude::*;
use rmodbus::client::ModbusRequest;
use rmodbus::ModbusProto;
use crate::frame::{
    be_bytes, bit_value, coil_bits, crc_matches, le_bytes, pack_bits, packed_len, reply_bounds,
    unpack_bits, word,
};
use crate::task::{
    decoded_reply, encoding, expected_reply_len, modbus_proto, pending_of, reply_error, request_pdu,
    CommandType, ProtocolType, Task, TaskError,
};

verus! {

/// Bit `k` of a byte assembled from eight 0/1 values is the `k`-th value.
proof fn lemma_assembled_bit(c0: u8, c1: u8, c2: u8, c3: u8, c4: u8, c5: u8, c6: u8, c7: u8, k: u8)
    requires
        c0 <= 1, c1 <= 1, c2 <= 1, c3 <= 1, c4 <= 1, c5 <= 1, c6 <= 1, c7 <= 1,
        k < 8,
    ensures
        ((c0 | (c1 << 1u8) | (c2 << 2u8) | (c3 << 3u8) | (c4 << 4u8) | (c5 << 5u8) | (c6 << 6u8)
            | (c7 << 7u8)) >> k) & 1u8 == if k == 0 { c0 } else if k == 1 { c1 } else if k == 2 {
            c2 } else if k == 3 { c3 } else if k == 4 { c4 } else if k == 5 { c5 } else if k == 6 {
            c6 } else { c7 },
{
    assert(((c0 | (c1 << 1u8) | (c2 << 2u8) | (c3 << 3u8) | (c4 << 4u8) | (c5 << 5u8) | (c6 << 6u8)
        | (c7 << 7u8)) >> k) & 1u8 == if k == 0 { c0 } else if k == 1 { c1 } else if k == 2 {
        c2 } else if k == 3 { c3 } else if k == 4 { c4 } else if k == 5 { c5 } else if k == 6 {
        c6 } else { c7 }) by (bit_vector)
        requires
            c0 <= 1, c1 <= 1, c2 <= 1, c3 <= 1, c4 <= 1, c5 <= 1, c6 <= 1, c7 <= 1,
            k < 8,
    ;
}

/// Unpacking the LSB-first packing of a bit sequence gives the sequence back.
pub proof fn lemma_unpack_pack(bits: Seq<bool>)
    requires
        bits.len() <= 1968,
    ensures
        unpack_bits(pack_bits(bits), bits.len()) == bits,
{
    let packed = pack_bits(bits);
    let out = unpack_bits(packed, bits.len());
    assert(8 * packed.len() >= bits.len());
    assert forall|i: int| 0 <= i < bits.len() implies out[i] == bits[i] by {
        let j = i / 8;
        let k = i % 8;
        assert(0 <= j < packed.len());
        lemma_assembled_bit(
            bit_value(bits, 8 * j), bit_value(bits, 8 * j + 1), bit_value(bits, 8 * j + 2),
            bit_value(bits, 8 * j + 3), bit_value(bits, 8 * j + 4), bit_value(bits, 8 * j + 5),
            bit_value(bits, 8 * j + 6), bit_value(bits, 8 * j + 7), k as u8,
        );
        assert(8 * j + k == i);
    }
    assert(out =~= bits);
}

/// The PDU of an encodable task is at most 252 bytes long.
proof fn lemma_pdu_len(t: &Task)
    requires
        pending_of(t) is Ok,
    ensures
        2 <= request_pdu(t).len() <= 252,
{
    match t.command {
        CommandType::ForceMultipleCoils => {
            assert(packed_len(t.data@.len()) <= 246);
        },
        _ => {},
    }
}

/// Every RTU frame that encoding produces ends with the CRC-16 of the bytes
/// before it, low byte first.
pub proof fn lemma_rtu_frame_crc(t: &Task)
    requires
        t.protocol == ProtocolType::Uart,
        pending_of(t) is Ok,
    ensures
        crc_matches(encoding(t)),
{
    let body = seq![t.unit_id] + request_pdu(t);
    let f = encoding(t);
    assert(f == body + le_bytes(crate::frame::crc16_of(body)));
    assert(f.subrange(0, f.len() - 2) =~= body);
    assert(f.subrange(f.len() - 2, f.len() as int) =~= le_bytes(crate::frame::crc16_of(body)));
}

/// The two bytes of `v`, high byte first, make `v` again.
proof fn lemma_word_be_bytes(v: u16)
    ensures
        word(be_bytes(v)[0], be_bytes(v)[1]) == v,
{
}

/// Every TCP frame that encoding produces starts with the task's transaction
/// id, then protocol id 0, then the number of bytes that follow the first six.
pub proof fn lemma_tcp_frame_header(t: &Task)
    requires
        t.protocol == ProtocolType::Tcp,
        pending_of(t) is Ok,
    ensures
        word(encoding(t)[0], encoding(t)[1]) == t.id,
        encoding(t)[2] == 0 && encoding(t)[3] == 0,
        word(encoding(t)[4], encoding(t)[5]) == encoding(t).len() - 6,
{
    let pdu = request_pdu(t);
    lemma_pdu_len(t);
    let f = encoding(t);
    let len = (pdu.len() + 1) as u16;
    assert(f == be_bytes(t.id) + seq![0u8, 0u8] + be_bytes(len) + seq![t.unit_id] + pdu);
    assert(f[0] == be_bytes(t.id)[0] && f[1] == be_bytes(t.id)[1]);
    assert(f[4] == be_bytes(len)[0] && f[5] == be_bytes(len)[1]);
    lemma_word_be_bytes(t.id);
    lemma_word_be_bytes(len);
}

/// A reply that decodes, or that reports a server exception, is exactly as
/// long as the reply length that its first bytes announce (6 of them for TCP,
/// 3 for RTU, or more).
pub proof fn lemma_reply_len(p: ProtocolType, q: ModbusRequest, f: Seq<u8>, k: int)
    requires
        q.proto == modbus_proto(p),
        decoded_reply(q, f) is Ok || decoded_reply(q, f) matches Err(TaskError::ProtocolException(_)),
        (if p == ProtocolType::Tcp { 6int } else { 3int }) <= k <= f.len(),
    ensures
        expected_reply_len(p, f.subrange(0, k)) == Ok::<u32, TaskError>(f.len() as u32),
{
    let b = f.subrange(0, k);
    match p {
        ProtocolType::Tcp => {
            assert(b[2] == f[2] && b[3] == f[3] && b[4] == f[4] && b[5] == f[5]);
        },
        ProtocolType::Uart => {
            let pdu = f.subrange(1, f.len() - 2);
            assert(pdu[0] == f[1] && pdu[1] == f[2]);
            assert(b[1] == f[1] && b[2] == f[2]);
        },
    }
}

/// A TCP reply whose transaction id is not the request's is a broken frame.
pub proof fn lemma_tcp_wrong_transaction(q: ModbusRequest, f: Seq<u8>)
    requires
        q.proto is TcpUdp,
        f.len() >= 2,
        word(f[0], f[1]) != q.tr_id,
    ensures
        decoded_reply(q, f) == Err::<Seq<u16>, TaskError>(TaskError::FrameBroken),
{
}

/// An RTU reply whose last two bytes are not the CRC-16 of the others is a
/// broken frame.
pub proof fn lemma_rtu_wrong_crc(q: ModbusRequest, f: Seq<u8>)
    requires
        q.proto is Rtu,
        !crc_matches(f),
    ensures
        decoded_reply(q, f) == Err::<Seq<u16>, TaskError>(TaskError::FrameBroken),
{
}

/// A well-framed exception reply (function code with its high bit set, then
/// one byte) reports the server's exception code, that byte.
pub proof fn lemma_exception_reply(q: ModbusRequest, f: Seq<u8>)
    requires
        match q.proto {
            ModbusProto::TcpUdp => f.len() == 9 && word(f[0], f[1]) == q.tr_id && word(f[2], f[3]) == 0
                && word(f[4], f[5]) == 3 && f[6] == q.unit_id && f[7] >= 0x80,
            ModbusProto::Rtu => f.len() == 5 && f[0] == q.unit_id && crc_matches(f) && f[1] >= 0x80,
            ModbusProto::Ascii => false,
        },
    ensures
        decoded_reply(q, f) == Err::<Seq<u16>, TaskError>(TaskError::ProtocolException(
            if q.proto is TcpUdp { f[8] } else { f[2] },
        )),
{
    if q.proto is TcpUdp {
        let p = f.subrange(7, f.len() as int);
        assert(p[0] == f[7] && p[1] == f[8]);
    } else {
        let p = f.subrange(1, f.len() - 2);
        assert(p[0] == f[1] && p[1] == f[2]);
    }
}

/// A reply that decodes for an encoded task yields one value per coil or
/// register read, one for a single write, and one per coil or register of a
/// bulk write, where the echo of the write holds that many (up to 24 coils,
/// up to 2 registers).
pub proof fn lemma_decoded_count(t: &Task, f: Seq<u8>)
    requires
        pending_of(t) is Ok,
        decoded_reply(pending_of(t)->Ok_0, f) is Ok,
        t.command == CommandType::ForceMultipleCoils ==> t.count <= 24,
        t.command == CommandType::PresetMultipleRegisters ==> t.count <= 2,
    ensures
        decoded_reply(pending_of(t)->Ok_0, f)->Ok_0.len() == match t.command {
            CommandType::ForceSingleCoil | CommandType::PresetSingleRegister => 1,
            _ => t.count as int,
        },
{
    let q = pending_of(t)->Ok_0;
    assert(reply_error(q, f) is None);
    let (s, e) = crate::frame::reply_bounds(q.proto, f.len() as int);
    let p = f.subrange(s + 1, e);
    if q.proto is TcpUdp {
        assert(p =~= f.subrange(7, f.len() as int));
    } else {
        assert(p =~= f.subrange(1, f.len() - 2));
    }
    assert(p[1] == f[s + 2]);
}

/// The coils of a bulk coil write come back whole from a read of as many
/// coils whose reply carries the packed bytes of the write: decoding yields
/// `1` for each coil written on and `0` for each written off.
pub proof fn lemma_coils_round_trip(t: &Task, q: ModbusRequest, f: Seq<u8>)
    requires
        t.command == CommandType::ForceMultipleCoils,
        pending_of(t) is Ok,
        q.func is GetCoils || q.func is GetDiscretes,
        q.count == t.count,
        decoded_reply(q, f) is Ok,
        f.subrange(reply_bounds(q.proto, f.len() as int).0 + 3, reply_bounds(q.proto, f.len() as int).1)
            == pack_bits(coil_bits(t.data@)),
    ensures
        decoded_reply(q, f)->Ok_0 == coil_bits(t.data@).map_values(|b: bool| if b { 1u16 } else { 0u16 }),
{
    lemma_unpack_pack(coil_bits(t.data@));
}

} // verus!
