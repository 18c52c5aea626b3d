//! Mathematical model of Modbus frames: byte orders, PDUs, bit packing and
//! the two framings (MBAP header for TCP/UDP, CRC trailer for RTU).
use vstd::prelude::*;
use rmodbus::consts::ModbusFunction;
use rmodbus::ModbusProto;

verus! {

/// The two bytes of `v`, high byte first.
pub open spec fn be_bytes(v: u16) -> Seq<u8> {
    seq![(v / 256) as u8, (v % 256) as u8]
}

/// The two bytes of `v`, low byte first.
pub open spec fn le_bytes(v: u16) -> Seq<u8> {
    seq![(v % 256) as u8, (v / 256) as u8]
}

/// The 16-bit word whose high byte is `hi` and low byte is `lo`.
pub open spec fn word(hi: u8, lo: u8) -> u16 {
    (hi as int * 256 + lo as int) as u16
}

/// The Modbus CRC-16 (polynomial 0xA001 reflected, seed 0xFFFF) of `body`, as
/// rmodbus computes it when it frames or checks an RTU message.
pub uninterp spec fn crc16_of(body: Seq<u8>) -> u16;

/// The function code that goes on the wire for `f`.
pub open spec fn function_code(f: ModbusFunction) -> u8 {
    match f {
        ModbusFunction::GetCoils => 0x01,
        ModbusFunction::GetDiscretes => 0x02,
        ModbusFunction::GetHoldings => 0x03,
        ModbusFunction::GetInputs => 0x04,
        ModbusFunction::SetCoil => 0x05,
        ModbusFunction::SetHolding => 0x06,
        ModbusFunction::SetCoilsBulk => 0x0F,
        ModbusFunction::SetHoldingsBulk => 0x10,
    }
}

/// Whether `f` reads coils, inputs or registers.
pub open spec fn is_read(f: ModbusFunction) -> bool {
    matches!(f, ModbusFunction::GetCoils | ModbusFunction::GetDiscretes
        | ModbusFunction::GetHoldings | ModbusFunction::GetInputs)
}

/// Whether the reply to `f` carries bits (coils, discrete inputs) rather than words.
pub open spec fn is_bit_function(f: ModbusFunction) -> bool {
    matches!(f, ModbusFunction::GetCoils | ModbusFunction::GetDiscretes
        | ModbusFunction::SetCoil | ModbusFunction::SetCoilsBulk)
}

/// A PDU wrapped for the wire: behind an MBAP header for TCP/UDP, or between
/// the unit id and the little-endian CRC-16 for RTU.
pub open spec fn wrap_pdu(proto: ModbusProto, tr_id: u16, unit_id: u8, pdu: Seq<u8>) -> Seq<u8> {
    match proto {
        ModbusProto::TcpUdp => be_bytes(tr_id) + seq![0u8, 0u8] + be_bytes((pdu.len() + 1) as u16)
            + seq![unit_id] + pdu,
        _ => (seq![unit_id] + pdu) + le_bytes(crc16_of(seq![unit_id] + pdu)),
    }
}

/// PDU of a read request: function code, first address, quantity.
pub open spec fn read_pdu(code: u8, reg: u16, count: u16) -> Seq<u8> {
    seq![code] + be_bytes(reg) + be_bytes(count)
}

/// PDU of a single-coil write: 0xFF00 switches the coil on, 0x0000 off.
pub open spec fn set_coil_pdu(reg: u16, on: bool) -> Seq<u8> {
    seq![0x05u8] + be_bytes(reg) + seq![if on { 0xFFu8 } else { 0x00u8 }, 0x00u8]
}

/// PDU of a single-register write.
pub open spec fn set_holding_pdu(reg: u16, value: u16) -> Seq<u8> {
    seq![0x06u8] + be_bytes(reg) + be_bytes(value)
}

/// `1` where bit `k` of `bits` exists and is set, else `0`.
pub open spec fn bit_value(bits: Seq<bool>, k: int) -> u8 {
    if 0 <= k < bits.len() && bits[k] { 1 } else { 0 }
}

/// Byte `j` of the LSB-first packing of `bits`: bit `i` of it is `bits[8 * j + i]`.
pub open spec fn packed_byte(bits: Seq<bool>, j: int) -> u8 {
    bit_value(bits, 8 * j) | (bit_value(bits, 8 * j + 1) << 1u8) | (bit_value(bits, 8 * j + 2) << 2u8)
        | (bit_value(bits, 8 * j + 3) << 3u8) | (bit_value(bits, 8 * j + 4) << 4u8)
        | (bit_value(bits, 8 * j + 5) << 5u8) | (bit_value(bits, 8 * j + 6) << 6u8)
        | (bit_value(bits, 8 * j + 7) << 7u8)
}

/// Number of bytes that hold `n` packed bits.
pub open spec fn packed_len(n: nat) -> nat {
    (n + 7) / 8
}

/// `bits` packed eight to a byte, least significant bit first.
pub open spec fn pack_bits(bits: Seq<bool>) -> Seq<u8> {
    Seq::new(packed_len(bits.len()), |j: int| packed_byte(bits, j))
}

/// Whether bit `i` (0 = least significant) of `b` is set.
pub open spec fn bit_at(b: u8, i: int) -> bool {
    (b >> (i as u8)) & 1u8 == 1u8
}

/// The first `count` bits held LSB-first in `bytes` (all of them, if there are fewer).
pub open spec fn unpack_bits(bytes: Seq<u8>, count: nat) -> Seq<bool> {
    let n = if count <= 8 * bytes.len() { count } else { 8 * bytes.len() };
    Seq::new(n, |i: int| bit_at(bytes[i / 8], i % 8))
}

/// The words of `values`, each as two bytes high byte first.
pub open spec fn words_to_bytes(values: Seq<u16>) -> Seq<u8> {
    Seq::new(2 * values.len(), |k: int| if k % 2 == 0 { (values[k / 2] / 256) as u8 } else { (values[k / 2] % 256) as u8 })
}

/// The first `count` big-endian words of `bytes` (all whole words, if there are fewer).
pub open spec fn bytes_to_words(bytes: Seq<u8>, count: nat) -> Seq<u16> {
    let n = if count <= bytes.len() / 2 { count } else { bytes.len() / 2 };
    Seq::new(n, |i: int| word(bytes[2 * i], bytes[2 * i + 1]))
}

/// PDU of a bulk coil write.
pub open spec fn set_coils_pdu(reg: u16, bits: Seq<bool>) -> Seq<u8> {
    seq![0x0Fu8] + be_bytes(reg) + be_bytes(bits.len() as u16) + seq![packed_len(bits.len()) as u8]
        + pack_bits(bits)
}

/// PDU of a bulk register write.
pub open spec fn set_holdings_pdu(reg: u16, values: Seq<u16>) -> Seq<u8> {
    seq![0x10u8] + be_bytes(reg) + be_bytes(values.len() as u16) + seq![(2 * values.len()) as u8]
        + words_to_bytes(values)
}

/// Where the unit id of a reply of `len` bytes stands, and where its PDU ends.
pub open spec fn reply_bounds(proto: ModbusProto, len: int) -> (int, int) {
    match proto {
        ModbusProto::TcpUdp => (6, len),
        _ => (0, len - 2),
    }
}

/// Whether the last two bytes of the RTU frame `f` are the CRC-16 of the rest, low byte first.
pub open spec fn crc_matches(f: Seq<u8>) -> bool {
    f.len() >= 2 && le_bytes(crc16_of(f.subrange(0, f.len() - 2))) == f.subrange(f.len() - 2, f.len() as int)
}

} // verus!

verus! {

/// One coil state per data word: on where the word is not zero.
pub open spec fn coil_bits(data: Seq<u16>) -> Seq<bool> {
    data.map_values(|w: u16| w != 0)
}

} // verus!
