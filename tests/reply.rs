use modbus_client::task::{CommandType, ProtocolType, Task, TaskError};

fn task(protocol: ProtocolType, unit_id: u8, command: CommandType, start: u16, count: u16, data: Vec<u16>) -> Task {
    Task { id: 1, unit_id, protocol, command, start, count, data, mreq: None }
}

/// Modbus CRC-16, computed here independently of the library.
fn crc16(bytes: &[u8]) -> u16 {
    let mut crc: u16 = 0xFFFF;
    for b in bytes {
        crc ^= *b as u16;
        for _ in 0..8 {
            if crc & 1 == 0 {
                crc >>= 1;
            } else {
                crc = (crc >> 1) ^ 0xA001;
            }
        }
    }
    crc
}

fn with_crc(body: &[u8]) -> Vec<u8> {
    let mut f = body.to_vec();
    let crc = crc16(body);
    f.push((crc & 0xFF) as u8);
    f.push((crc >> 8) as u8);
    f
}

#[test]
fn tcp_read_coil_bytes() {
    let mut t = task(ProtocolType::Tcp, 1, CommandType::ReadCoilStatus, 0, 2, vec![]);
    assert_eq!(t.generate_request().unwrap(), vec![0x00, 0x01, 0x00, 0x00, 0x00, 0x06, 0x01, 0x01, 0x00, 0x00, 0x00, 0x02]);
}

#[test]
fn rtu_preset_multiple_registers_bytes() {
    let mut t = task(ProtocolType::Uart, 17, CommandType::PresetMultipleRegisters, 1, 2, vec![0x000A, 0x0102]);
    assert_eq!(
        t.generate_request().unwrap(),
        vec![0x11, 0x10, 0x00, 0x01, 0x00, 0x02, 0x04, 0x00, 0x0A, 0x01, 0x02, 0xC6, 0xF0]
    );
}

#[test]
fn rtu_frames_end_with_their_crc() {
    let commands = [
        (CommandType::ReadCoilStatus, 37u16, vec![]),
        (CommandType::ReadHoldingRegisters, 3, vec![]),
        (CommandType::ForceSingleCoil, 1, vec![0]),
        (CommandType::ForceMultipleCoils, 10, vec![1, 1, 0, 0, 1, 1, 0, 1, 0, 1]),
        (CommandType::PresetMultipleRegisters, 3, vec![1, 2, 3]),
    ];
    for (command, count, data) in commands {
        let mut t = task(ProtocolType::Uart, 17, command, 19, count, data);
        let f = t.generate_request().unwrap();
        let n = f.len();
        let crc = crc16(&f[..n - 2]);
        assert_eq!(f[n - 2], (crc & 0xFF) as u8);
        assert_eq!(f[n - 1], (crc >> 8) as u8);
    }
}

#[test]
fn rtu_force_multiple_coils_packs_bits() {
    let mut t = task(ProtocolType::Uart, 17, CommandType::ForceMultipleCoils, 19, 10, vec![1, 1, 0, 0, 1, 1, 0, 1, 0, 1]);
    let f = t.generate_request().unwrap();
    assert_eq!(&f[..9], &[0x11, 0x0F, 0x00, 0x13, 0x00, 0x0A, 0x02, 0xB3, 0x02]);
}

#[test]
fn tcp_frame_header_counts_the_rest() {
    let mut t = Task { id: 0x1234, ..task(ProtocolType::Tcp, 5, CommandType::PresetMultipleRegisters, 7, 3, vec![1, 2, 3]) };
    let f = t.generate_request().unwrap();
    assert_eq!(&f[..4], &[0x12, 0x34, 0x00, 0x00]);
    assert_eq!(u16::from_be_bytes([f[4], f[5]]) as usize, f.len() - 6);
}

#[test]
fn counts_out_of_range_are_refused() {
    let cases = [
        (CommandType::ReadCoilStatus, 0u16),
        (CommandType::ReadCoilStatus, 2001),
        (CommandType::ReadInputStatus, 2001),
        (CommandType::ReadHoldingRegisters, 126),
        (CommandType::ReadInputRegisters, 126),
    ];
    for (command, count) in cases {
        let mut t = task(ProtocolType::Tcp, 1, command, 0, count, vec![]);
        assert_eq!(t.generate_request(), Err(TaskError::IllegalDataValue));
        assert!(t.mreq.is_none());
    }
    let mut t = task(ProtocolType::Tcp, 1, CommandType::ReadCoilStatus, 0, 2000, vec![]);
    assert!(t.generate_request().is_ok());
    let mut t = task(ProtocolType::Tcp, 1, CommandType::ReadHoldingRegisters, 0, 125, vec![]);
    assert!(t.generate_request().is_ok());
}

#[test]
fn bulk_writes_check_their_data() {
    let mut t = task(ProtocolType::Tcp, 1, CommandType::ForceMultipleCoils, 0, 2, vec![]);
    assert_eq!(t.generate_request(), Err(TaskError::IllegalDataValue));
    let mut t = task(ProtocolType::Tcp, 1, CommandType::ForceMultipleCoils, 0, 3, vec![1, 0]);
    assert_eq!(t.generate_request(), Err(TaskError::IllegalDataValue));
    let mut t = task(ProtocolType::Tcp, 1, CommandType::ForceMultipleCoils, 0, 1969, vec![1; 1969]);
    assert_eq!(t.generate_request(), Err(TaskError::IllegalDataValue));
    let mut t = task(ProtocolType::Uart, 1, CommandType::ForceMultipleCoils, 0, 1968, vec![1; 1968]);
    assert_eq!(t.generate_request().unwrap().len(), 7 + 246 + 2);
    let mut t = task(ProtocolType::Tcp, 1, CommandType::PresetMultipleRegisters, 0, 124, vec![7; 124]);
    assert_eq!(t.generate_request(), Err(TaskError::IllegalDataValue));
    let mut t = task(ProtocolType::Uart, 1, CommandType::PresetMultipleRegisters, 0, 123, vec![7; 123]);
    assert_eq!(t.generate_request().unwrap().len(), 7 + 246 + 2);
}

#[test]
fn single_writes_need_a_value() {
    let mut t = task(ProtocolType::Tcp, 1, CommandType::ForceSingleCoil, 0, 1, vec![]);
    assert_eq!(t.generate_request(), Err(TaskError::IllegalDataValue));
    let mut t = task(ProtocolType::Tcp, 1, CommandType::PresetSingleRegister, 0, 1, vec![]);
    assert_eq!(t.generate_request(), Err(TaskError::CommunicationError));
}

#[test]
fn force_single_coil_off() {
    let mut t = task(ProtocolType::Tcp, 1, CommandType::ForceSingleCoil, 2, 1, vec![0]);
    assert_eq!(t.generate_request().unwrap(), vec![0, 1, 0, 0, 0, 6, 1, 5, 0, 2, 0, 0]);
}

#[test]
fn decode_before_encode_fails() {
    let t = task(ProtocolType::Tcp, 1, CommandType::ReadCoilStatus, 0, 2, vec![]);
    assert_eq!(t.show_result(&[0, 1, 0, 0, 0, 4], &[1, 1, 1, 2]), Err(TaskError::CommunicationError));
}

#[test]
fn tcp_read_coils_reply() {
    let mut t = task(ProtocolType::Tcp, 1, CommandType::ReadCoilStatus, 0, 10, vec![]);
    t.generate_request().unwrap();
    let head = [0x00, 0x01, 0x00, 0x00, 0x00, 0x05];
    assert_eq!(t.get_responce_len(&head), Ok(11));
    let tail = [0x01, 0x01, 0x02, 0xCD, 0x01];
    assert_eq!(t.show_result(&head, &tail), Ok(Some(vec![1, 0, 1, 1, 0, 0, 1, 1, 1, 0])));
}

#[test]
fn tcp_read_holding_registers_reply() {
    let mut t = task(ProtocolType::Tcp, 1, CommandType::ReadHoldingRegisters, 0, 2, vec![]);
    t.generate_request().unwrap();
    let head = [0x00, 0x01, 0x00, 0x00, 0x00, 0x07];
    assert_eq!(t.get_responce_len(&head), Ok(13));
    let tail = [0x01, 0x03, 0x04, 0x00, 0x0A, 0x01, 0x02];
    assert_eq!(t.show_result(&head, &tail), Ok(Some(vec![0x000A, 0x0102])));
}

#[test]
fn rtu_read_input_registers_reply() {
    let mut t = task(ProtocolType::Uart, 17, CommandType::ReadInputRegisters, 8, 1, vec![]);
    t.generate_request().unwrap();
    let reply = with_crc(&[0x11, 0x04, 0x02, 0x00, 0x0A]);
    assert_eq!(t.get_responce_len(&reply[..3]), Ok(reply.len() as u32));
    assert_eq!(t.show_result(&reply[..3], &reply[3..]), Ok(Some(vec![0x000A])));
}

#[test]
fn rtu_write_echo_reply() {
    let mut t = task(ProtocolType::Uart, 17, CommandType::PresetSingleRegister, 1, 1, vec![3]);
    let request = t.generate_request().unwrap();
    assert_eq!(t.get_responce_len(&request[..2]), Ok(8));
    assert_eq!(t.show_result(&request[..3], &request[3..]), Ok(Some(vec![0x0001])));
}

#[test]
fn coils_round_trip_through_a_reply() {
    let bits: Vec<u16> = vec![1, 0, 0, 1, 1, 1, 0, 1, 0, 0, 1, 1, 0];
    let mut write = task(ProtocolType::Tcp, 1, CommandType::ForceMultipleCoils, 0, 13, bits.clone());
    let request = write.generate_request().unwrap();
    let packed = &request[13..];
    assert_eq!(packed.len(), 2);
    let mut read = task(ProtocolType::Tcp, 1, CommandType::ReadCoilStatus, 0, 13, vec![]);
    read.generate_request().unwrap();
    let head = [0x00, 0x01, 0x00, 0x00, 0x00, 0x05];
    let tail = [0x01, 0x01, 0x02, packed[0], packed[1]];
    assert_eq!(read.show_result(&head, &tail), Ok(Some(bits)));
}

#[test]
fn reply_length_matches_what_decodes() {
    let mut t = task(ProtocolType::Uart, 3, CommandType::ReadCoilStatus, 0, 12, vec![]);
    t.generate_request().unwrap();
    let reply = with_crc(&[0x03, 0x01, 0x02, 0xFF, 0x0F]);
    for k in 3..=reply.len() {
        assert_eq!(t.get_responce_len(&reply[..k]), Ok(reply.len() as u32));
    }
    assert_eq!(t.show_result(&reply[..3], &reply[3..]).unwrap().unwrap().len(), 12);
}

#[test]
fn tcp_reply_with_other_transaction_is_broken() {
    let mut t = task(ProtocolType::Tcp, 1, CommandType::ReadCoilStatus, 0, 2, vec![]);
    t.generate_request().unwrap();
    assert_eq!(t.show_result(&[0x00, 0x02, 0x00, 0x00, 0x00, 0x04], &[0x01, 0x01, 0x01, 0x02]), Err(TaskError::FrameBroken));
}

#[test]
fn rtu_reply_with_wrong_crc_is_broken() {
    let mut t = task(ProtocolType::Uart, 17, CommandType::ReadHoldingRegisters, 107, 1, vec![]);
    t.generate_request().unwrap();
    let mut reply = with_crc(&[0x11, 0x03, 0x02, 0x00, 0x2B]);
    reply[6] ^= 0x01;
    assert_eq!(t.show_result(&reply[..3], &reply[3..]), Err(TaskError::FrameBroken));
    let mut exception = with_crc(&[0x11, 0x83, 0x02]);
    exception[4] ^= 0x80;
    assert_eq!(t.show_result(&exception[..2], &exception[2..]), Err(TaskError::FrameBroken));
}

#[test]
fn exception_reply_reports_its_code() {
    let mut t = task(ProtocolType::Tcp, 1, CommandType::ReadCoilStatus, 0, 2, vec![]);
    t.generate_request().unwrap();
    let head = [0x00, 0x01, 0x00, 0x00, 0x00, 0x03];
    let tail = [0x01, 0x81, 0x02];
    assert_eq!(t.show_result(&head, &tail), Err(TaskError::ProtocolException(2)));
    let mut r = task(ProtocolType::Uart, 17, CommandType::ReadCoilStatus, 0, 2, vec![]);
    r.generate_request().unwrap();
    let reply = with_crc(&[0x11, 0x81, 0x0B]);
    assert_eq!(r.get_responce_len(&reply[..2]), Ok(5));
    assert_eq!(r.show_result(&reply[..2], &reply[2..]), Err(TaskError::ProtocolException(11)));
}

#[test]
fn broken_replies() {
    let mut t = task(ProtocolType::Tcp, 1, CommandType::ReadHoldingRegisters, 0, 2, vec![]);
    t.generate_request().unwrap();
    // wrong unit id
    assert_eq!(t.show_result(&[0, 1, 0, 0, 0, 7], &[2, 3, 4, 0, 1, 0, 2]), Err(TaskError::FrameBroken));
    // length field does not match
    assert_eq!(t.show_result(&[0, 1, 0, 0, 0, 8], &[1, 3, 4, 0, 1, 0, 2]), Err(TaskError::FrameBroken));
    // other function code
    assert_eq!(t.show_result(&[0, 1, 0, 0, 0, 7], &[1, 4, 4, 0, 1, 0, 2]), Err(TaskError::FrameBroken));
    // byte count that does not fit the request
    assert_eq!(t.show_result(&[0, 1, 0, 0, 0, 5], &[1, 3, 2, 0, 1]), Err(TaskError::IllegalDataValue));
}

#[test]
fn reply_length_needs_enough_bytes() {
    let t = task(ProtocolType::Tcp, 1, CommandType::ReadCoilStatus, 0, 2, vec![]);
    assert_eq!(t.get_responce_len(&[0, 1, 0, 0, 0]), Err(TaskError::FrameTooShort));
    assert_eq!(t.get_responce_len(&[0, 1, 0, 1, 0, 4]), Ok(10));
    assert_eq!(t.get_responce_len(&[0, 1, 0, 0, 0xFF, 0xFF]), Ok(65541));
    assert_eq!(t.get_responce_len(&[0, 1, 0, 0, 0, 253]), Ok(259));
    let r = task(ProtocolType::Uart, 1, CommandType::ReadCoilStatus, 0, 2, vec![]);
    assert_eq!(r.get_responce_len(&[1]), Err(TaskError::FrameTooShort));
    assert_eq!(r.get_responce_len(&[1, 3]), Err(TaskError::FrameTooShort));
    assert_eq!(r.get_responce_len(&[1, 3, 4]), Ok(9));
    assert_eq!(r.get_responce_len(&[1, 3, 255]), Ok(260));
    assert_eq!(r.get_responce_len(&[1, 0x0F]), Ok(8));
    assert_eq!(r.get_responce_len(&[1, 0x07]), Err(TaskError::FrameBroken));
}

#[test]
fn reset_forgets_the_request() {
    let mut t = task(ProtocolType::Tcp, 1, CommandType::ReadCoilStatus, 0, 2, vec![]);
    t.generate_request().unwrap();
    assert!(t.mreq.is_some());
    t.reset();
    assert!(t.mreq.is_none());
    assert_eq!(t.show_result(&[0, 1, 0, 0, 0, 4], &[1, 1, 1, 2]), Err(TaskError::CommunicationError));
}

#[test]
fn long_tcp_register_reply() {
    let mut t = task(ProtocolType::Tcp, 1, CommandType::ReadHoldingRegisters, 0, 125, vec![]);
    t.generate_request().unwrap();
    let head = [0x00, 0x01, 0x00, 0x00, 0x00, 253];
    assert_eq!(t.get_responce_len(&head), Ok(259));
    let mut tail = vec![0x01, 0x03, 250];
    let mut expected = Vec::new();
    for i in 0..125u16 {
        tail.push((i >> 8) as u8);
        tail.push((i & 0xFF) as u8);
        expected.push(i);
    }
    assert_eq!(head.len() + tail.len(), 259);
    assert_eq!(t.show_result(&head, &tail), Ok(Some(expected)));
}

#[test]
fn exception_reply_of_wrong_length_is_broken() {
    let mut t = task(ProtocolType::Uart, 17, CommandType::ReadCoilStatus, 0, 2, vec![]);
    t.generate_request().unwrap();
    let reply = with_crc(&[0x11, 0x81, 0x02, 0x00]);
    assert_eq!(t.show_result(&reply[..2], &reply[2..]), Err(TaskError::FrameBroken));
    let mut u = task(ProtocolType::Tcp, 1, CommandType::ReadCoilStatus, 0, 2, vec![]);
    u.generate_request().unwrap();
    assert_eq!(u.show_result(&[0, 1, 0, 0, 0, 4], &[0x01, 0x81, 0x02, 0x00]), Err(TaskError::FrameBroken));
}
