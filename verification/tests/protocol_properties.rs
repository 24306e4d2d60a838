use std::collections::VecDeque;

use dynamixel_protocol::packet_buf::PacketBuf;
use dynamixel_protocol::packet_handler::{
    CommunicationResult, ErrorBit, PacketReceivingState, ProtocolHandlerParsingState,
};
use dynamixel_protocol::stuffing::add_stuffing;
use dynamixel_protocol::{BufferInterface, Clock, ControlTableData, DynamixelProtocolHandler};

pub struct LoopSerial {
    pub rx_buf: Vec<u8>,
    pub tx_buf: VecDeque<u8>,
}

impl LoopSerial {
    pub fn new() -> Self {
        Self { rx_buf: Vec::new(), tx_buf: VecDeque::new() }
    }

    pub fn feed(&mut self, data: &[u8]) {
        for d in data {
            self.tx_buf.push_back(*d);
        }
    }
}

impl BufferInterface for LoopSerial {
    fn write_byte(&mut self, data: u8) {
        self.rx_buf.push(data);
    }

    fn write_bytes(&mut self, data: &[u8]) {
        for d in data {
            self.rx_buf.push(*d);
        }
    }

    fn read_byte(&mut self) -> Option<u8> {
        self.tx_buf.pop_front()
    }

    fn read_bytes(&mut self, buf: &mut Vec<u8>) -> Option<usize> {
        let m = core::cmp::min(self.tx_buf.len(), buf.len());
        for i in 0..m {
            buf[i] = self.tx_buf.pop_front().unwrap();
        }
        Some(m)
    }

    fn clear_read_buf(&mut self) {
        self.tx_buf.clear();
    }
}

pub struct FixedClock {
    pub now_us: u64,
}

impl Clock for FixedClock {
    fn get_current_time(&self) -> u64 {
        self.now_us
    }
}

fn handler_with_id(id: u8) -> DynamixelProtocolHandler<LoopSerial, FixedClock> {
    let mut ctd = ControlTableData::new();
    ctd.modify(|_, w| w.id(id));
    DynamixelProtocolHandler::new(LoopSerial::new(), FixedClock { now_us: 0 }, 115200, ctd)
}

// A frame addressed to another device produces no transmit bytes and
// leaves the prepared reply alone.
#[test]
fn foreign_id_is_ignored() {
    let mut dxl = handler_with_id(1);
    // a PING for ID 5: same shape as the ID-1 PING, re-checksummed
    let mut ping = vec![0xFFu8, 0xFF, 0xFD, 0x00, 0x05, 0x03, 0x00, 0x01];
    let crc = dxl.calc_crc_value(&ping);
    ping.push((crc & 0xFF) as u8);
    ping.push((crc >> 8) as u8);
    dxl.uart.feed(&ping);

    assert_eq!(dxl.parse_data(), Ok(()));

    assert!(dxl.uart.rx_buf.is_empty());
    assert_eq!(dxl.return_packet().as_slice(), &[] as &[u8]);
    let mut untouched = ControlTableData::new();
    untouched.modify(|_, w| w.id(1));
    assert_eq!(dxl.ctd.read().bits(), untouched.read().bits());
}

// A frame whose checksum does not validate is discarded: the tick
// reports failure, nothing is transmitted, the store is untouched.
#[test]
fn bad_crc_is_discarded() {
    let mut dxl = handler_with_id(1);
    let bad = [0xFFu8, 0xFF, 0xFD, 0x00, 0x01, 0x03, 0x00, 0x01, 0x19, 0x4F];
    dxl.uart.feed(&bad);

    assert_eq!(dxl.parse_data(), Err(()));

    assert!(dxl.uart.rx_buf.is_empty());
    assert_eq!(dxl.parsing_state, ProtocolHandlerParsingState::Init);
    let mut untouched = ControlTableData::new();
    untouched.modify(|_, w| w.id(1));
    assert_eq!(dxl.ctd.read().bits(), untouched.read().bits());
}

// With nothing to read and a timeout already in the past, the receiver
// reports a timeout; with no timeout it reports that it is waiting.
#[test]
fn receive_timeout_and_waiting() {
    let mut dxl = handler_with_id(1);
    dxl.clock.now_us = 1000;
    assert_eq!(dxl.receive_packet(1), Err(CommunicationResult::RxTimeout));
    assert_eq!(dxl.packet_receiving_state, PacketReceivingState::Init);
    assert_eq!(dxl.receive_packet(0), Err(CommunicationResult::RxWaiting));
    assert_eq!(dxl.packet_receiving_state, PacketReceivingState::Waiting);
}

// Garbage before the header is dropped; the frame after it still goes
// through.
#[test]
fn resynchronizes_after_garbage() {
    let mut dxl = handler_with_id(1);
    let mut bytes = vec![0x12u8, 0x34, 0x56];
    bytes.extend_from_slice(&[0xFF, 0xFF, 0xFD, 0x00, 0x01, 0x03, 0x00, 0x01, 0x19, 0x4E]);
    dxl.uart.feed(&bytes);

    assert_eq!(dxl.parse_data(), Ok(()));

    // the reply is the PING status of a zeroed table for ID 1
    let mut expected = vec![0xFFu8, 0xFF, 0xFD, 0x00, 0x01, 0x07, 0x00, 0x55, 0x00, 0x00, 0x00,
        0x00];
    let crc = dxl.calc_crc_value(&expected);
    expected.push((crc & 0xFF) as u8);
    expected.push((crc >> 8) as u8);
    assert_eq!(dxl.uart.rx_buf, expected);
}

// A WRITE whose data runs past the end of the table is clipped: the
// bytes that fit are stored, the overflow is dropped, and the write is
// still acknowledged.
#[test]
fn write_past_table_end_is_clipped() {
    let mut dxl = handler_with_id(1);
    // WRITE of AA BB CC DD at address 229; only two bytes fit
    let mut frame = vec![0xFFu8, 0xFF, 0xFD, 0x00, 0x01, 0x09, 0x00, 0x03, 0xE5, 0x00, 0xAA,
        0xBB, 0xCC, 0xDD];
    let crc = dxl.calc_crc_value(&frame);
    frame.push((crc & 0xFF) as u8);
    frame.push((crc >> 8) as u8);
    dxl.uart.feed(&frame);

    assert_eq!(dxl.parse_data(), Ok(()));

    let bits = dxl.ctd.read().bits();
    assert_eq!(bits[229], 0xAA);
    assert_eq!(bits[230], 0xBB);
    assert_eq!(bits[228], 0x00);
    // the acknowledgement still goes out
    let mut expected = vec![0xFFu8, 0xFF, 0xFD, 0x00, 0x01, 0x04, 0x00, 0x55, 0x00];
    let crc = dxl.calc_crc_value(&expected);
    expected.push((crc & 0xFF) as u8);
    expected.push((crc >> 8) as u8);
    assert_eq!(dxl.uart.rx_buf, expected);
}

// A READ asking for more than a status frame can carry is clipped to
// the largest payload that fits the packet buffer.
#[test]
fn read_of_whole_table_is_clipped() {
    let mut dxl = handler_with_id(1);
    // READ of 0xFFFF bytes from address 0
    let mut frame = vec![0xFFu8, 0xFF, 0xFD, 0x00, 0x01, 0x07, 0x00, 0x02, 0x00, 0x00, 0xFF,
        0xFF];
    let crc = dxl.calc_crc_value(&frame);
    frame.push((crc & 0xFF) as u8);
    frame.push((crc >> 8) as u8);
    dxl.uart.feed(&frame);

    assert_eq!(dxl.parse_data(), Ok(()));

    // 117 payload bytes, so the length field reads 121 and the whole
    // frame is exactly the packet buffer size
    assert_eq!(dxl.uart.rx_buf.len(), 128);
    assert_eq!(dxl.uart.rx_buf[5], 121);
    assert_eq!(dxl.uart.rx_buf[6], 0);
    assert_eq!(dxl.uart.rx_buf[7], 0x55);
    let bits = dxl.ctd.read().bits();
    for k in 0..117 {
        assert_eq!(dxl.uart.rx_buf[9 + k], bits[k]);
    }
    let crc = dxl.calc_crc_value(&dxl.uart.rx_buf[0..126]);
    assert_eq!(dxl.uart.rx_buf[126], (crc & 0xFF) as u8);
    assert_eq!(dxl.uart.rx_buf[127], (crc >> 8) as u8);
}

// A frame whose length field is under 8 is not stuffed at all.
#[test]
fn short_frame_needs_no_stuffing() {
    let mut msg: PacketBuf = heapless::Vec::new();
    msg.extend_from_slice(&[0xFF, 0xFF, 0xFD, 0x00, 0x01, 0x03, 0x00, 0x01, 0x19, 0x4E]).unwrap();
    add_stuffing(&mut msg);
    assert_eq!(
        msg.as_slice(),
        &[0xFF, 0xFF, 0xFD, 0x00, 0x01, 0x03, 0x00, 0x01, 0x19, 0x4E]
    );
}

// The checksum of the empty message is the initial value.
#[test]
fn crc_of_empty_is_zero() {
    let dxl = handler_with_id(1);
    assert_eq!(dxl.calc_crc_value(&[]), 0x0000);
}

// Each outcome describes itself.
#[test]
fn outcome_messages() {
    assert_eq!(
        CommunicationResult::RxWaiting.message(),
        "[TxRxResult] Now receiving packet!"
    );
    assert_eq!(
        CommunicationResult::Success.message(),
        "[TxRxResult] Communication success."
    );
}

// Each error class carries its protocol code.
#[test]
fn error_bit_codes() {
    assert_eq!(ErrorBit::ErrNone.to_u8(), 0x00);
    assert_eq!(ErrorBit::ErrCRC.to_u8(), 0x03);
    assert_eq!(ErrorBit::ErrAlert.to_u8(), 0x08);
}
