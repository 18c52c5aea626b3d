//! What this library takes from rmodbus: its request type, the framing of
//! requests and the parsing of replies.
use vstd::prelude::*;
use rmodbus::client::ModbusRequest;
use rmodbus::consts::ModbusFunction;
use rmodbus::{ErrorKind, ModbusProto};
use crate::frame::{
    bytes_to_words, crc16_of, crc_matches, function_code, is_read, le_bytes, read_pdu,
    reply_bounds, set_coil_pdu, set_coils_pdu, set_holding_pdu, set_holdings_pdu, unpack_bits, word,
    wrap_pdu,
};

verus! {

#[verifier::external_type_specification]
pub struct ExModbusProto(ModbusProto);

#[verifier::external_type_specification]
pub struct ExModbusFunction(ModbusFunction);

#[verifier::external_type_specification]
pub struct ExErrorKind(ErrorKind);

#[verifier::external_type_specification]
pub struct ExModbusRequest(ModbusRequest);

/// `ModbusRequest::new`: transaction id 1, the given unit and protocol, no
/// register, function or quantity yet.
pub assume_specification[ ModbusRequest::new ](unit_id: u8, proto: ModbusProto) -> (r: ModbusRequest)
    ensures
        r == (ModbusRequest {
            tr_id: 1,
            unit_id,
            func: ModbusFunction::GetCoils,
            reg: 0,
            count: 0,
            proto,
        }),
;

/// What `ModbusRequest::generate_*` leaves in the request: the function, the
/// first register and the quantity of the message it framed.
pub open spec fn request_after(old: ModbusRequest, func: ModbusFunction, reg: u16, count: u16) -> ModbusRequest {
    ModbusRequest { tr_id: old.tr_id, unit_id: old.unit_id, func, reg, count, proto: old.proto }
}

/// Relies on rmodbus's `ModbusRequest::generate_get_coils` (function 0x01).
#[verifier::external_body]
pub(crate) fn generate_get_coils(req: &mut ModbusRequest, reg: u16, count: u16) -> (r: Result<Vec<u8>, ErrorKind>)
    requires
        !(old(req).proto is Ascii),
    ensures
        *final(req) == request_after(*old(req), ModbusFunction::GetCoils, reg, count),
        r is Ok && r->Ok_0@ == wrap_pdu(old(req).proto, old(req).tr_id, old(req).unit_id, read_pdu(0x01, reg, count)),
{
    let mut request = Vec::new();
    req.generate_get_coils(reg, count, &mut request)?;
    Ok(request)
}

/// Relies on rmodbus's `ModbusRequest::generate_get_discretes` (function 0x02).
#[verifier::external_body]
pub(crate) fn generate_get_discretes(req: &mut ModbusRequest, reg: u16, count: u16) -> (r: Result<Vec<u8>, ErrorKind>)
    requires
        !(old(req).proto is Ascii),
    ensures
        *final(req) == request_after(*old(req), ModbusFunction::GetDiscretes, reg, count),
        r is Ok && r->Ok_0@ == wrap_pdu(old(req).proto, old(req).tr_id, old(req).unit_id, read_pdu(0x02, reg, count)),
{
    let mut request = Vec::new();
    req.generate_get_discretes(reg, count, &mut request)?;
    Ok(request)
}

/// Relies on rmodbus's `ModbusRequest::generate_get_holdings` (function 0x03).
#[verifier::external_body]
pub(crate) fn generate_get_holdings(req: &mut ModbusRequest, reg: u16, count: u16) -> (r: Result<Vec<u8>, ErrorKind>)
    requires
        !(old(req).proto is Ascii),
    ensures
        *final(req) == request_after(*old(req), ModbusFunction::GetHoldings, reg, count),
        r is Ok && r->Ok_0@ == wrap_pdu(old(req).proto, old(req).tr_id, old(req).unit_id, read_pdu(0x03, reg, count)),
{
    let mut request = Vec::new();
    req.generate_get_holdings(reg, count, &mut request)?;
    Ok(request)
}

/// Relies on rmodbus's `ModbusRequest::generate_get_inputs` (function 0x04).
#[verifier::external_body]
pub(crate) fn generate_get_inputs(req: &mut ModbusRequest, reg: u16, count: u16) -> (r: Result<Vec<u8>, ErrorKind>)
    requires
        !(old(req).proto is Ascii),
    ensures
        *final(req) == request_after(*old(req), ModbusFunction::GetInputs, reg, count),
        r is Ok && r->Ok_0@ == wrap_pdu(old(req).proto, old(req).tr_id, old(req).unit_id, read_pdu(0x04, reg, count)),
{
    let mut request = Vec::new();
    req.generate_get_inputs(reg, count, &mut request)?;
    Ok(request)
}

/// Relies on rmodbus's `ModbusRequest::generate_set_coil` (function 0x05),
/// given a `bool`: `true` becomes 0xFF00 on the wire, `false` 0x0000.
#[verifier::external_body]
pub(crate) fn generate_set_coil(req: &mut ModbusRequest, reg: u16, on: bool) -> (r: Result<Vec<u8>, ErrorKind>)
    requires
        !(old(req).proto is Ascii),
    ensures
        *final(req) == request_after(*old(req), ModbusFunction::SetCoil, reg, 1),
        r is Ok && r->Ok_0@ == wrap_pdu(old(req).proto, old(req).tr_id, old(req).unit_id, set_coil_pdu(reg, on)),
{
    let mut request = Vec::new();
    req.generate_set_coil(reg, on, &mut request)?;
    Ok(request)
}

/// Relies on rmodbus's `ModbusRequest::generate_set_holding` (function 0x06).
#[verifier::external_body]
pub(crate) fn generate_set_holding(req: &mut ModbusRequest, reg: u16, value: u16) -> (r: Result<Vec<u8>, ErrorKind>)
    requires
        !(old(req).proto is Ascii),
    ensures
        *final(req) == request_after(*old(req), ModbusFunction::SetHolding, reg, 1),
        r is Ok && r->Ok_0@ == wrap_pdu(old(req).proto, old(req).tr_id, old(req).unit_id, set_holding_pdu(reg, value)),
{
    let mut request = Vec::new();
    req.generate_set_holding(reg, value, &mut request)?;
    Ok(request)
}

/// Relies on rmodbus's `ModbusRequest::generate_set_coils_bulk` (function 0x0F),
/// given `bool`s: one bit per value, packed LSB first; the quantity is the
/// number of values. Up to 1968 values the frame fits its 255-byte limits.
#[verifier::external_body]
pub(crate) fn generate_set_coils_bulk(req: &mut ModbusRequest, reg: u16, values: &[bool]) -> (r: Result<Vec<u8>, ErrorKind>)
    requires
        !(old(req).proto is Ascii),
        values@.len() <= 1968,
    ensures
        *final(req) == request_after(*old(req), ModbusFunction::SetCoilsBulk, reg, values@.len() as u16),
        r is Ok && r->Ok_0@ == wrap_pdu(old(req).proto, old(req).tr_id, old(req).unit_id, set_coils_pdu(reg, values@)),
{
    let mut request = Vec::new();
    req.generate_set_coils_bulk(reg, values, &mut request)?;
    Ok(request)
}

/// Relies on rmodbus's `ModbusRequest::generate_set_holdings_bulk` (function
/// 0x10): the quantity is the number of values. Up to 123 values the frame
/// fits its 255-byte limits.
#[verifier::external_body]
pub(crate) fn generate_set_holdings_bulk(req: &mut ModbusRequest, reg: u16, values: &[u16]) -> (r: Result<Vec<u8>, ErrorKind>)
    requires
        !(old(req).proto is Ascii),
        values@.len() <= 123,
    ensures
        *final(req) == request_after(*old(req), ModbusFunction::SetHoldingsBulk, reg, values@.len() as u16),
        r is Ok && r->Ok_0@ == wrap_pdu(old(req).proto, old(req).tr_id, old(req).unit_id, set_holdings_pdu(reg, values@)),
{
    let mut request = Vec::new();
    req.generate_set_holdings_bulk(reg, values, &mut request)?;
    Ok(request)
}

/// `ModbusRequest::parse_ok` on an RTU reply of 5 to 257 bytes: it fails with
/// `FrameCRCError` exactly when the last two bytes are not the CRC-16 of the
/// others, low byte first (its later checks fail with other kinds).
pub assume_specification[ ModbusRequest::parse_ok ](req: &ModbusRequest, buf: &[u8]) -> (r: Result<(), ErrorKind>)
    requires
        req.proto is Rtu,
        5 <= buf@.len() <= 257,
    ensures
        (r == Err::<(), ErrorKind>(ErrorKind::FrameCRCError)) <==> le_bytes(crc16_of(buf@.subrange(0, buf@.len() - 2)))
            != buf@.subrange(buf@.len() - 2, buf@.len() as int),
;

/// The checks under which rmodbus's `ModbusRequest::parse_response` accepts a reply.
pub open spec fn rmodbus_accepts(q: ModbusRequest, f: Seq<u8>) -> bool {
    let (s, e) = reply_bounds(q.proto, f.len() as int);
    &&& match q.proto {
        ModbusProto::TcpUdp => f.len() >= 9 && word(f[0], f[1]) == q.tr_id && word(f[2], f[3]) == 0,
        ModbusProto::Rtu => 5 <= f.len() <= 257 && crc_matches(f),
        ModbusProto::Ascii => false,
    }
    &&& f[s] == q.unit_id
    &&& f[s + 1] == function_code(q.func)
    &&& is_read(q.func) ==> 2 * f[s + 2] >= e - s - 3
}

/// The bits, LSB first, of the bytes of `f` that follow the unit id, the
/// function code and one more byte (the byte count of a read reply), up to
/// the end of the PDU: at most as many as the quantity of `q`.
pub open spec fn rmodbus_bits(q: ModbusRequest, f: Seq<u8>) -> Seq<bool> {
    let (s, e) = reply_bounds(q.proto, f.len() as int);
    unpack_bits(f.subrange(s + 3, e), q.count as nat)
}

/// Relies on rmodbus's `ModbusRequest::parse_bool`: on a reply that
/// `parse_response` accepts, the bits that `rmodbus_bits` describes.
#[verifier::external_body]
pub(crate) fn parse_bool(req: &ModbusRequest, buf: &[u8]) -> (r: Result<Vec<bool>, ErrorKind>)
    requires
        rmodbus_accepts(*req, buf@),
    ensures
        r is Ok && r->Ok_0@ == rmodbus_bits(*req, buf@),
{
    let mut result = Vec::new();
    req.parse_bool(buf, &mut result)?;
    Ok(result)
}

/// Where the data that `parse_u16` reads starts: after unit id, function
/// code and byte count of a read reply, after unit id and function code of a
/// write echo.
pub open spec fn word_data_start(q: ModbusRequest, len: int) -> int {
    reply_bounds(q.proto, len).0 + if is_read(q.func) { 3int } else { 2int }
}

/// The big-endian words of the data of `f`, at most as many as the quantity of `q`.
pub open spec fn rmodbus_words(q: ModbusRequest, f: Seq<u8>) -> Seq<u16> {
    let e = reply_bounds(q.proto, f.len() as int).1;
    bytes_to_words(f.subrange(word_data_start(q, f.len() as int), e), q.count as nat)
}

/// Relies on rmodbus's `ModbusRequest::parse_u16`: on a reply that
/// `parse_response` accepts and that has data (with none, its loop bound
/// `data.len() - 1` would underflow), the words that `rmodbus_words` describes.
#[verifier::external_body]
pub(crate) fn parse_u16(req: &ModbusRequest, buf: &[u8]) -> (r: Result<Vec<u16>, ErrorKind>)
    requires
        rmodbus_accepts(*req, buf@),
        word_data_start(*req, buf@.len() as int) < reply_bounds(req.proto, buf@.len() as int).1,
    ensures
        r is Ok && r->Ok_0@ == rmodbus_words(*req, buf@),
{
    let mut result = Vec::new();
    req.parse_u16(buf, &mut result)?;
    Ok(result)
}

} // verus!
