//! A single Modbus request: its description, its encoding, the length of its
//! reply and the decoding of that reply.
use vstd::prelude::*;
use rmodbus::client::ModbusRequest;
use rmodbus::consts::ModbusFunction;
use rmodbus::{ErrorKind, ModbusProto};
use crate::frame::{
    bytes_to_words, coil_bits, crc_matches, function_code, is_bit_function, is_read, packed_len,
    read_pdu, reply_bounds, set_coil_pdu, set_coils_pdu, set_holding_pdu, set_holdings_pdu,
    unpack_bits, word, wrap_pdu,
};
use crate::proto::{
    generate_get_coils, generate_get_discretes, generate_get_holdings, generate_get_inputs,
    generate_set_coil, generate_set_coils_bulk, generate_set_holding, generate_set_holdings_bulk,
    parse_bool, parse_u16,
};

verus! {

/// The framing a task is sent in.
#[derive(Clone, Copy, Debug, PartialEq, Eq, Structural)]
pub enum ProtocolType {
    /// Modbus TCP/UDP: MBAP header in front of the PDU.
    Tcp,
    /// Modbus RTU over a serial line: unit id, PDU, CRC-16.
    Uart,
}

/// The eight Modbus functions a task can carry.
#[derive(Clone, Copy, Debug, PartialEq, Eq, Structural)]
pub enum CommandType {
    ReadCoilStatus,
    ReadInputStatus,
    ReadHoldingRegisters,
    ReadInputRegisters,
    ForceSingleCoil,
    PresetSingleRegister,
    ForceMultipleCoils,
    PresetMultipleRegisters,
}

/// Why a task could not be encoded, or its reply not measured or decoded.
#[derive(Clone, Copy, Debug, PartialEq, Eq, Structural)]
pub enum TaskError {
    /// The task's quantity or data do not make a valid request, or a reply's
    /// payload does not fit the request.
    IllegalDataValue,
    /// A single-register write without a value, or a reply to decode before
    /// any request was encoded.
    CommunicationError,
    /// Too few bytes of a reply to tell its length.
    FrameTooShort,
    /// A reply whose framing, header, checksum, length or function code is wrong.
    FrameBroken,
    /// The server answered with this Modbus exception code.
    ProtocolException(u8),
}

/// The rmodbus protocol for a framing.
pub open spec fn modbus_proto(p: ProtocolType) -> ModbusProto {
    match p {
        ProtocolType::Tcp => ModbusProto::TcpUdp,
        ProtocolType::Uart => ModbusProto::Rtu,
    }
}

impl From<ProtocolType> for ModbusProto {
    fn from(p: ProtocolType) -> (r: ModbusProto)
        ensures
            r == modbus_proto(p),
    {
        match p {
            ProtocolType::Tcp => ModbusProto::TcpUdp,
            ProtocolType::Uart => ModbusProto::Rtu,
        }
    }
}

impl vstd::std_specs::convert::FromSpecImpl<ProtocolType> for ModbusProto {
    open spec fn obeys_from_spec() -> bool {
        true
    }

    open spec fn from_spec(p: ProtocolType) -> ModbusProto {
        modbus_proto(p)
    }
}

/// One request to a Modbus device, and, once encoded, what its reply is read against.
pub struct Task {
    /// Transaction id (TCP only).
    pub id: u16,
    /// Address of the device.
    pub unit_id: u8,
    pub protocol: ProtocolType,
    pub command: CommandType,
    /// First coil or register.
    pub start: u16,
    /// Quantity of coils or registers.
    pub count: u16,
    /// Values to write: one word per coil or register.
    pub data: Vec<u16>,
    /// The request as last encoded; `None` before a successful encoding.
    pub mreq: Option<ModbusRequest>,
}

/// The request context of task `t` for function `func` and quantity `count`.
pub open spec fn request_for(t: &Task, func: ModbusFunction, count: u16) -> ModbusRequest {
    ModbusRequest {
        tr_id: t.id,
        unit_id: t.unit_id,
        func,
        reg: t.start,
        count,
        proto: modbus_proto(t.protocol),
    }
}

/// Whether the quantity of a read or bulk write lies in `1..=max`.
pub open spec fn count_in(count: u16, max: u16) -> bool {
    1 <= count <= max
}

/// The request context that encoding `t` leaves behind, or the error it fails with.
pub open spec fn pending_of(t: &Task) -> Result<ModbusRequest, TaskError> {
    let n = t.data@.len();
    match t.command {
        CommandType::ReadCoilStatus => if count_in(t.count, 2000) {
            Ok(request_for(t, ModbusFunction::GetCoils, t.count))
        } else {
            Err(TaskError::IllegalDataValue)
        },
        CommandType::ReadInputStatus => if count_in(t.count, 2000) {
            Ok(request_for(t, ModbusFunction::GetDiscretes, t.count))
        } else {
            Err(TaskError::IllegalDataValue)
        },
        CommandType::ReadHoldingRegisters => if count_in(t.count, 125) {
            Ok(request_for(t, ModbusFunction::GetHoldings, t.count))
        } else {
            Err(TaskError::IllegalDataValue)
        },
        CommandType::ReadInputRegisters => if count_in(t.count, 125) {
            Ok(request_for(t, ModbusFunction::GetInputs, t.count))
        } else {
            Err(TaskError::IllegalDataValue)
        },
        CommandType::ForceSingleCoil => if n >= 1 {
            Ok(request_for(t, ModbusFunction::SetCoil, 1))
        } else {
            Err(TaskError::IllegalDataValue)
        },
        CommandType::PresetSingleRegister => if n >= 1 {
            Ok(request_for(t, ModbusFunction::SetHolding, 1))
        } else {
            Err(TaskError::CommunicationError)
        },
        CommandType::ForceMultipleCoils => if count_in(t.count, 1968) && n == t.count {
            Ok(request_for(t, ModbusFunction::SetCoilsBulk, t.count))
        } else {
            Err(TaskError::IllegalDataValue)
        },
        CommandType::PresetMultipleRegisters => if count_in(t.count, 123) && n == t.count {
            Ok(request_for(t, ModbusFunction::SetHoldingsBulk, t.count))
        } else {
            Err(TaskError::IllegalDataValue)
        },
    }
}

/// The PDU of the request of `t`, where `pending_of(t)` succeeds.
pub open spec fn request_pdu(t: &Task) -> Seq<u8> {
    match t.command {
        CommandType::ReadCoilStatus => read_pdu(0x01, t.start, t.count),
        CommandType::ReadInputStatus => read_pdu(0x02, t.start, t.count),
        CommandType::ReadHoldingRegisters => read_pdu(0x03, t.start, t.count),
        CommandType::ReadInputRegisters => read_pdu(0x04, t.start, t.count),
        CommandType::ForceSingleCoil => set_coil_pdu(t.start, t.data@[0] != 0),
        CommandType::PresetSingleRegister => set_holding_pdu(t.start, t.data@[0]),
        CommandType::ForceMultipleCoils => set_coils_pdu(t.start, coil_bits(t.data@)),
        CommandType::PresetMultipleRegisters => set_holdings_pdu(t.start, t.data@),
    }
}

/// The wire bytes of the request of `t`, where `pending_of(t)` succeeds.
pub open spec fn encoding(t: &Task) -> Seq<u8> {
    wrap_pdu(modbus_proto(t.protocol), t.id, t.unit_id, request_pdu(t))
}

/// Whether `a` and `b` describe the same request, whatever their contexts.
pub open spec fn same_request(a: &Task, b: &Task) -> bool {
    &&& a.id == b.id
    &&& a.unit_id == b.unit_id
    &&& a.protocol == b.protocol
    &&& a.command == b.command
    &&& a.start == b.start
    &&& a.count == b.count
    &&& a.data@ == b.data@
}

/// The library's error for an rmodbus error.
pub open spec fn task_error_of(e: ErrorKind) -> TaskError {
    match e {
        ErrorKind::FrameBroken | ErrorKind::FrameCRCError => TaskError::FrameBroken,
        ErrorKind::OOB | ErrorKind::OOBContext | ErrorKind::IllegalDataValue => TaskError::IllegalDataValue,
        _ => TaskError::CommunicationError,
    }
}

fn task_error(e: ErrorKind) -> (r: TaskError)
    ensures
        r == task_error_of(e),
{
    match e {
        ErrorKind::FrameBroken | ErrorKind::FrameCRCError => TaskError::FrameBroken,
        ErrorKind::OOB | ErrorKind::OOBContext | ErrorKind::IllegalDataValue => TaskError::IllegalDataValue,
        _ => TaskError::CommunicationError,
    }
}

/// One coil state per data word: on where the word is not zero.
fn coil_states(data: &Vec<u16>) -> (r: Vec<bool>)
    ensures
        r@ == coil_bits(data@),
{
    let mut r: Vec<bool> = Vec::new();
    let mut i: usize = 0;
    while i < data.len()
        invariant
            i <= data@.len(),
            r@ == coil_bits(data@.subrange(0, i as int)),
        decreases data@.len() - i,
    {
        r.push(data[i] != 0);
        i += 1;
        assert(data@.subrange(0, i as int) == data@.subrange(0, i - 1) + seq![data@[i - 1]]);
    }
    assert(data@.subrange(0, data@.len() as int) == data@);
    r
}

impl Task {
    /// Encodes the task into the bytes of its request, and keeps the request
    /// context for decoding the reply. On failure no context is kept.
    pub fn generate_request(&mut self) -> (r: Result<Vec<u8>, TaskError>)
        ensures
            same_request(final(self), old(self)),
            r is Ok <==> pending_of(old(self)) is Ok,
            r is Ok ==> r->Ok_0@ == encoding(old(self)) && final(self).mreq == Some(pending_of(old(self))->Ok_0),
            r is Err ==> r->Err_0 == pending_of(old(self))->Err_0 && final(self).mreq is None,
    {
        self.mreq = None;
        let mut mreq = ModbusRequest::new(self.unit_id, self.protocol.into());
        mreq.tr_id = self.id;
        let generated = match self.command {
            CommandType::ReadCoilStatus => {
                if self.count < 1 || self.count > 2000 {
                    return Err(TaskError::IllegalDataValue);
                }
                generate_get_coils(&mut mreq, self.start, self.count)
            },
            CommandType::ReadInputStatus => {
                if self.count < 1 || self.count > 2000 {
                    return Err(TaskError::IllegalDataValue);
                }
                generate_get_discretes(&mut mreq, self.start, self.count)
            },
            CommandType::ReadHoldingRegisters => {
                if self.count < 1 || self.count > 125 {
                    return Err(TaskError::IllegalDataValue);
                }
                generate_get_holdings(&mut mreq, self.start, self.count)
            },
            CommandType::ReadInputRegisters => {
                if self.count < 1 || self.count > 125 {
                    return Err(TaskError::IllegalDataValue);
                }
                generate_get_inputs(&mut mreq, self.start, self.count)
            },
            CommandType::ForceSingleCoil => {
                if self.data.len() < 1 {
                    return Err(TaskError::IllegalDataValue);
                }
                generate_set_coil(&mut mreq, self.start, self.data[0] != 0)
            },
            CommandType::PresetSingleRegister => {
                if self.data.len() < 1 {
                    return Err(TaskError::CommunicationError);
                }
                generate_set_holding(&mut mreq, self.start, self.data[0])
            },
            CommandType::ForceMultipleCoils => {
                if self.count < 1 || self.count > 1968 || self.data.len() != self.count as usize {
                    return Err(TaskError::IllegalDataValue);
                }
                let states = coil_states(&self.data);
                generate_set_coils_bulk(&mut mreq, self.start, states.as_slice())
            },
            CommandType::PresetMultipleRegisters => {
                if self.count < 1 || self.count > 123 || self.data.len() != self.count as usize {
                    return Err(TaskError::IllegalDataValue);
                }
                generate_set_holdings_bulk(&mut mreq, self.start, self.data.as_slice())
            },
        };
        match generated {
            Ok(request) => {
                self.mreq = Some(mreq);
                Ok(request)
            },
            Err(e) => Err(task_error(e)),
        }
    }

    /// Forgets the request context, so the task can be encoded afresh.
    pub fn reset(&mut self)
        ensures
            same_request(final(self), old(self)),
            final(self).mreq is None,
    {
        self.mreq = None;
    }
}

/// The total length of the reply whose first bytes are `b`, as far as they tell it.
/// TCP: 6 bytes of MBAP header give it, 6 more than the length field. RTU:
/// an exception reply has 5 bytes, a read reply 5 more than its byte count
/// (the third byte), a write echo 8; another function code is a broken frame.
pub open spec fn expected_reply_len(p: ProtocolType, b: Seq<u8>) -> Result<u32, TaskError> {
    match p {
        ProtocolType::Tcp => if b.len() < 6 {
            Err(TaskError::FrameTooShort)
        } else {
            Ok((word(b[4], b[5]) + 6) as u32)
        },
        ProtocolType::Uart => if b.len() < 2 || (1 <= b[1] <= 4 && b.len() < 3) {
            Err(TaskError::FrameTooShort)
        } else if b[1] >= 0x80 {
            Ok(5)
        } else if 1 <= b[1] <= 4 {
            Ok((b[2] + 5) as u32)
        } else if b[1] == 5 || b[1] == 6 || b[1] == 15 || b[1] == 16 {
            Ok(8)
        } else {
            Err(TaskError::FrameBroken)
        },
    }
}

/// The byte count that a read reply to `q` must announce.
pub open spec fn reply_byte_count(q: ModbusRequest) -> int {
    if is_bit_function(q.func) { packed_len(q.count as nat) as int } else { 2 * q.count }
}

/// What is wrong with the PDU `p` of a reply to `q`, if anything.
pub open spec fn pdu_error(q: ModbusRequest, p: Seq<u8>) -> Option<TaskError> {
    if p[0] >= 0x80 {
        if p.len() != 2 { Some(TaskError::FrameBroken) } else { Some(TaskError::ProtocolException(p[1])) }
    } else if p[0] != function_code(q.func) {
        Some(TaskError::FrameBroken)
    } else if is_read(q.func) {
        if p.len() != p[1] + 2 {
            Some(TaskError::FrameBroken)
        } else if q.count == 0 || p[1] != reply_byte_count(q) {
            Some(TaskError::IllegalDataValue)
        } else {
            None
        }
    } else if p.len() != 5 {
        Some(TaskError::FrameBroken)
    } else {
        None
    }
}

/// What is wrong with the reply `f` to the request `q`, if anything: first
/// its framing (TCP: transaction id, protocol id, length field, unit id;
/// RTU: unit id and CRC), then its PDU.
pub open spec fn reply_error(q: ModbusRequest, f: Seq<u8>) -> Option<TaskError> {
    match q.proto {
        ModbusProto::TcpUdp => if f.len() < 9 || word(f[0], f[1]) != q.tr_id || word(f[2], f[3]) != 0
            || word(f[4], f[5]) != f.len() - 6 || f[6] != q.unit_id {
            Some(TaskError::FrameBroken)
        } else {
            pdu_error(q, f.subrange(7, f.len() as int))
        },
        ModbusProto::Rtu => if f.len() < 5 || f.len() > 257 || f[0] != q.unit_id || !crc_matches(f) {
            Some(TaskError::FrameBroken)
        } else {
            pdu_error(q, f.subrange(1, f.len() - 2))
        },
        ModbusProto::Ascii => Some(TaskError::IllegalDataValue),
    }
}

/// The values a valid reply `f` to `q` carries: for coils and discrete
/// inputs `1` or `0` per bit, LSB first, from after the byte count (for the
/// write echoes, from the same place); for registers the big-endian words
/// after the byte count of a read reply, or after the function code of a
/// write echo. At most the request's quantity of either.
pub open spec fn reply_values(q: ModbusRequest, f: Seq<u8>) -> Seq<u16> {
    let (s, e) = reply_bounds(q.proto, f.len() as int);
    if is_bit_function(q.func) {
        unpack_bits(f.subrange(s + 3, e), q.count as nat).map_values(|b: bool| if b { 1u16 } else { 0u16 })
    } else if is_read(q.func) {
        bytes_to_words(f.subrange(s + 3, e), q.count as nat)
    } else {
        bytes_to_words(f.subrange(s + 2, e), q.count as nat)
    }
}

/// The decoding of the reply `f` to the request `q`.
pub open spec fn decoded_reply(q: ModbusRequest, f: Seq<u8>) -> Result<Seq<u16>, TaskError> {
    match reply_error(q, f) {
        Some(e) => Err(e),
        None => Ok(reply_values(q, f)),
    }
}

/// The word whose high byte is `hi` and low byte is `lo`.
fn word_of(hi: u8, lo: u8) -> (r: u16)
    ensures
        r == word(hi, lo),
{
    hi as u16 * 256 + lo as u16
}

/// `head` followed by `tail`.
fn joined(head: &[u8], tail: &[u8]) -> (r: Vec<u8>)
    ensures
        r@ == head@ + tail@,
{
    let mut r: Vec<u8> = Vec::new();
    let mut i: usize = 0;
    while i < head.len()
        invariant
            i <= head@.len(),
            r@ == head@.subrange(0, i as int),
        decreases head@.len() - i,
    {
        r.push(head[i]);
        i += 1;
    }
    let mut j: usize = 0;
    while j < tail.len()
        invariant
            j <= tail@.len(),
            r@ == head@ + tail@.subrange(0, j as int),
        decreases tail@.len() - j,
    {
        r.push(tail[j]);
        j += 1;
    }
    r
}

/// `1` for each set bit, `0` for each cleared one.
fn bits_as_words(bits: &Vec<bool>) -> (r: Vec<u16>)
    ensures
        r@ == bits@.map_values(|b: bool| if b { 1u16 } else { 0u16 }),
{
    let mut r: Vec<u16> = Vec::new();
    let mut i: usize = 0;
    while i < bits.len()
        invariant
            i <= bits@.len(),
            r@ == bits@.subrange(0, i as int).map_values(|b: bool| if b { 1u16 } else { 0u16 }),
        decreases bits@.len() - i,
    {
        r.push(if bits[i] { 1u16 } else { 0u16 });
        i += 1;
    }
    assert(bits@.subrange(0, bits@.len() as int) == bits@);
    r
}

/// Whether the reply to `func` carries bits rather than words.
fn carries_bits(func: ModbusFunction) -> (r: bool)
    ensures
        r == is_bit_function(func),
{
    match func {
        ModbusFunction::GetCoils | ModbusFunction::GetDiscretes | ModbusFunction::SetCoil
        | ModbusFunction::SetCoilsBulk => true,
        _ => false,
    }
}

/// Whether `func` is a read.
fn reads(func: ModbusFunction) -> (r: bool)
    ensures
        r == is_read(func),
{
    match func {
        ModbusFunction::GetCoils | ModbusFunction::GetDiscretes | ModbusFunction::GetHoldings
        | ModbusFunction::GetInputs => true,
        _ => false,
    }
}

/// The wire code of `func`.
fn code_of(func: ModbusFunction) -> (r: u8)
    ensures
        r == function_code(func),
{
    match func {
        ModbusFunction::GetCoils => 0x01,
        ModbusFunction::GetDiscretes => 0x02,
        ModbusFunction::GetHoldings => 0x03,
        ModbusFunction::GetInputs => 0x04,
        ModbusFunction::SetCoil => 0x05,
        ModbusFunction::SetHolding => 0x06,
        ModbusFunction::SetCoilsBulk => 0x0F,
        ModbusFunction::SetHoldingsBulk => 0x10,
    }
}

/// Checks the reply `f` to `q` and decodes its values.
pub fn decode_reply(q: &ModbusRequest, f: &Vec<u8>) -> (r: Result<Vec<u16>, TaskError>)
    ensures
        r is Ok <==> decoded_reply(*q, f@) is Ok,
        r is Ok ==> r->Ok_0@ == decoded_reply(*q, f@)->Ok_0,
        r is Err ==> r->Err_0 == decoded_reply(*q, f@)->Err_0,
{
    let n = f.len();
    let s: usize;
    let e: usize;
    match q.proto {
        ModbusProto::TcpUdp => {
            if n < 9 || word_of(f[0], f[1]) != q.tr_id || word_of(f[2], f[3]) != 0
                || word_of(f[4], f[5]) as usize != n - 6 || f[6] != q.unit_id {
                return Err(TaskError::FrameBroken);
            }
            s = 6;
            e = n;
        },
        ModbusProto::Rtu => {
            if n < 5 || n > 257 || f[0] != q.unit_id {
                return Err(TaskError::FrameBroken);
            }
            match q.parse_ok(f.as_slice()) {
                Err(ErrorKind::FrameCRCError) => {
                    return Err(TaskError::FrameBroken);
                },
                _ => {},
            }
            s = 0;
            e = n - 2;
        },
        ModbusProto::Ascii => {
            return Err(TaskError::IllegalDataValue);
        },
    }
    let func = f[s + 1];
    if func >= 0x80 {
        if e - s - 1 != 2 {
            return Err(TaskError::FrameBroken);
        }
        return Err(TaskError::ProtocolException(f[s + 2]));
    }
    if func != code_of(q.func) {
        return Err(TaskError::FrameBroken);
    }
    let bits = carries_bits(q.func);
    if reads(q.func) {
        let byte_count = f[s + 2] as usize;
        if e - s - 1 != byte_count + 2 {
            return Err(TaskError::FrameBroken);
        }
        let expected: usize = if bits { (q.count as usize + 7) / 8 } else { 2 * q.count as usize };
        if q.count == 0 || byte_count != expected {
            return Err(TaskError::IllegalDataValue);
        }
    } else if e - s - 1 != 5 {
        return Err(TaskError::FrameBroken);
    }
    if bits {
        match parse_bool(q, f.as_slice()) {
            Ok(values) => Ok(bits_as_words(&values)),
            Err(err) => Err(task_error(err)),
        }
    } else {
        match parse_u16(q, f.as_slice()) {
            Ok(values) => Ok(values),
            Err(err) => Err(task_error(err)),
        }
    }
}

impl Task {
    /// The total length of the reply whose first bytes are `data` (TCP: at
    /// least 6 of them; RTU: 2, or 3 for a read).
    pub fn get_responce_len(&self, data: &[u8]) -> (r: Result<u32, TaskError>)
        ensures
            r == expected_reply_len(self.protocol, data@),
    {
        match self.protocol {
            ProtocolType::Tcp => {
                if data.len() < 6 {
                    return Err(TaskError::FrameTooShort);
                }
                Ok(word_of(data[4], data[5]) as u32 + 6)
            },
            ProtocolType::Uart => {
                if data.len() < 2 || (1 <= data[1] && data[1] <= 4 && data.len() < 3) {
                    return Err(TaskError::FrameTooShort);
                }
                let func = data[1];
                if func >= 0x80 {
                    Ok(5)
                } else if 1 <= func && func <= 4 {
                    Ok(data[2] as u32 + 5)
                } else if func == 5 || func == 6 || func == 15 || func == 16 {
                    Ok(8)
                } else {
                    Err(TaskError::FrameBroken)
                }
            },
        }
    }

    /// Decodes the reply whose first bytes are `head_arr` and the rest
    /// `tail_arr`, against the request last encoded.
    pub fn show_result(&self, head_arr: &[u8], tail_arr: &[u8]) -> (r: Result<Option<Vec<u16>>, TaskError>)
        ensures
            self.mreq is None ==> r == Err::<Option<Vec<u16>>, TaskError>(TaskError::CommunicationError),
            self.mreq is Some ==> (r is Ok <==> decoded_reply(self.mreq->Some_0, head_arr@ + tail_arr@) is Ok),
            self.mreq is Some && r is Ok ==> r->Ok_0 is Some
                && r->Ok_0->Some_0@ == decoded_reply(self.mreq->Some_0, head_arr@ + tail_arr@)->Ok_0,
            self.mreq is Some && r is Err ==> r->Err_0 == decoded_reply(self.mreq->Some_0, head_arr@ + tail_arr@)->Err_0,
    {
        let data = joined(head_arr, tail_arr);
        match &self.mreq {
            Some(mreq) => match decode_reply(mreq, &data) {
                Ok(values) => Ok(Some(values)),
                Err(err) => Err(err),
            },
            None => Err(TaskError::CommunicationError),
        }
    }
}

} // verus!
