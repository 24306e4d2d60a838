use std::collections::VecDeque;

use dynamixel_protocol::packet_buf::PacketBuf;
use dynamixel_protocol::stuffing::{add_stuffing, remove_stuffing};
use dynamixel_protocol::{BufferInterface, Clock, ControlTableData, DynamixelProtocolHandler};
use dynamixel_protocol::packet_handler::{PacketReceivingState, ProtocolHandlerParsingState};

pub struct MockSerial {
    pub rx_buf: Vec<u8>,
    pub tx_buf: VecDeque<u8>,
}

impl MockSerial {
    pub fn new() -> Self {
        Self { rx_buf: Vec::new(), tx_buf: VecDeque::new() }
    }
}

impl BufferInterface for MockSerial {
    fn write_byte(&mut self, data: u8) {
        self.rx_buf.push(data);
    }

    fn write_bytes(&mut self, data: &[u8]) {
        for d in data {
            self.rx_buf.push(*d);
        }
    }

    fn read_byte(&mut self) -> Option<u8> {
        self.tx_buf.pop_front()
    }

    fn read_bytes(&mut self, buf: &mut Vec<u8>) -> Option<usize> {
        let m = core::cmp::min(self.tx_buf.len(), buf.len());
        for i in 0..m {
            buf[i] = self.tx_buf.pop_front().unwrap();
        }
        Some(m)
    }

    fn clear_read_buf(&mut self) {
        self.tx_buf.clear();
    }
}

pub struct MockClock {
    pub time_elapsed_us: u64,
}

impl MockClock {
    pub fn new() -> Self {
        Self { time_elapsed_us: 0 }
    }

    pub fn tick(&mut self) {
        self.time_elapsed_us += 1000;
    }
}

impl Clock for MockClock {
    fn get_current_time(&self) -> u64 {
        self.time_elapsed_us
    }
}

#[test]
fn empty() {
    let mock_uart = MockSerial::new();
    let mock_clock = MockClock::new();
    let mut control_table_data = ControlTableData::new();
    control_table_data.modify(|_, w| w.model_number(0x0406));
    control_table_data.modify(|_, w| w.firmware_version(0x26));
    control_table_data.modify(|_, w| w.id(1));

    let mut dxl = DynamixelProtocolHandler::new(mock_uart, mock_clock, 115200, control_table_data);

    assert_eq!(dxl.parse_data(), Ok(()));

    assert_eq!(dxl.packet_receiving_state, PacketReceivingState::Waiting);
    assert_eq!(dxl.parsing_state, ProtocolHandlerParsingState::WaitForCommandPacket);

    assert_eq!(dxl.packet_return_time(), 0);
    // ID1(XM430-W210): model number 1030(0x0406), firmware version 38(0x26)
    assert_eq!(dxl.return_packet().as_slice(), &[] as &[u8]);
    assert_eq!(dxl.uart.rx_buf, Vec::<u8>::new());
}

#[test]
fn not_complete_command() {
    let mock_uart = MockSerial::new();
    let mock_clock = MockClock::new();
    let mut control_table_data = ControlTableData::new();
    control_table_data.modify(|_, w| w.model_number(0x0406));
    control_table_data.modify(|_, w| w.firmware_version(0x26));
    control_table_data.modify(|_, w| w.id(1));

    let mut dxl = DynamixelProtocolHandler::new(mock_uart, mock_clock, 115200, control_table_data);

    // the first bytes of a PING instruction packet for ID 1
    let instruction = [0xFF, 0xFF, 0xFD];
    for data in instruction {
        dxl.uart.tx_buf.push_back(data);
    }

    assert_eq!(dxl.parse_data(), Ok(()));

    assert_eq!(dxl.packet_receiving_state, PacketReceivingState::Waiting);
    assert_eq!(dxl.parsing_state, ProtocolHandlerParsingState::WaitForCommandPacket);

    assert_eq!(dxl.packet_return_time(), 0);
    assert_eq!(dxl.return_packet().as_slice(), &[] as &[u8]);
    assert_eq!(dxl.uart.rx_buf, Vec::<u8>::new());

    // the rest of the PING instruction packet
    let instruction = [0x00, 0x01, 0x03, 0x00, 0x01, 0x19, 0x4E];
    for data in instruction {
        dxl.uart.tx_buf.push_back(data);
    }

    assert_eq!(dxl.parse_data(), Ok(()));

    assert_eq!(dxl.packet_return_time(), 0);
    assert_eq!(
        dxl.return_packet().as_slice(),
        &[0xFF, 0xFF, 0xFD, 0x00, 0x01, 0x07, 0x00, 0x55, 0x00, 0x06, 0x04, 0x26, 0x65, 0x5D]
    );
    assert_eq!(
        dxl.uart.rx_buf,
        vec![0xFF, 0xFF, 0xFD, 0x00, 0x01, 0x07, 0x00, 0x55, 0x00, 0x06, 0x04, 0x26, 0x65, 0x5D]
    );
}

#[test]
fn ping() {
    let mock_uart = MockSerial::new();
    let mock_clock = MockClock::new();
    let mut control_table_data = ControlTableData::new();
    control_table_data.modify(|_, w| w.model_number(0x0406));
    control_table_data.modify(|_, w| w.firmware_version(0x26));
    control_table_data.modify(|_, w| w.id(1));

    let mut dxl = DynamixelProtocolHandler::new(mock_uart, mock_clock, 115200, control_table_data);

    // a PING instruction packet for ID 1
    let instruction = [0xFF, 0xFF, 0xFD, 0x00, 0x01, 0x03, 0x00, 0x01, 0x19, 0x4E];
    for data in instruction {
        dxl.uart.tx_buf.push_back(data);
    }

    assert_eq!(dxl.parse_data(), Ok(()));

    assert_eq!(dxl.packet_return_time(), 0);
    assert_eq!(
        dxl.return_packet().as_slice(),
        &[0xFF, 0xFF, 0xFD, 0x00, 0x01, 0x07, 0x00, 0x55, 0x00, 0x06, 0x04, 0x26, 0x65, 0x5D]
    );
    assert_eq!(
        dxl.uart.rx_buf,
        vec![0xFF, 0xFF, 0xFD, 0x00, 0x01, 0x07, 0x00, 0x55, 0x00, 0x06, 0x04, 0x26, 0x65, 0x5D]
    );
}

#[test]
fn ping_broadcast() {
    let mock_uart = MockSerial::new();
    let mock_clock = MockClock::new();
    let mut control_table_data = ControlTableData::new();
    control_table_data.modify(|_, w| w.model_number(0x0406));
    control_table_data.modify(|_, w| w.firmware_version(0x26));
    control_table_data.modify(|_, w| w.id(2));

    let mut dxl = DynamixelProtocolHandler::new(mock_uart, mock_clock, 115200, control_table_data);
    // a PING instruction packet for ID 254 (the broadcast ID)
    let instruction = [0xFF, 0xFF, 0xFD, 0x00, 0xFE, 0x03, 0x00, 0x01, 0x31, 0x42];
    for data in instruction {
        dxl.uart.tx_buf.push_back(data);
    }
    // the case where a device with ID 1 is present and answers first
    let id1_response = [
        0xFF, 0xFF, 0xFD, 0x00, 0x01, 0x07, 0x00, 0x55, 0x00, 0x06, 0x04, 0x26, 0x65, 0x5D,
    ];
    for data in id1_response {
        dxl.uart.tx_buf.push_back(data);
    }

    assert_eq!(dxl.parse_data(), Ok(()));

    assert_eq!(dxl.packet_return_time(), 0);
    assert_eq!(
        dxl.return_packet().as_slice(),
        &[0xFF, 0xFF, 0xFD, 0x00, 0x02, 0x07, 0x00, 0x55, 0x00, 0x06, 0x04, 0x26, 0x6F, 0x6D]
    );
    assert_eq!(
        dxl.uart.rx_buf,
        vec![0xFF, 0xFF, 0xFD, 0x00, 0x02, 0x07, 0x00, 0x55, 0x00, 0x06, 0x04, 0x26, 0x6F, 0x6D]
    );
}

#[test]
fn ping_broadcast_id1_not_response() {
    let mock_uart = MockSerial::new();
    let mock_clock = MockClock::new();
    let mut control_table_data = ControlTableData::new();
    control_table_data.modify(|_, w| w.model_number(0x0406));
    control_table_data.modify(|_, w| w.firmware_version(0x26));
    control_table_data.modify(|_, w| w.id(2));

    let mut dxl = DynamixelProtocolHandler::new(mock_uart, mock_clock, 115200, control_table_data);
    // a PING instruction packet for ID 254 (the broadcast ID); no device
    // with ID 1 is present
    let instruction = [0xFF, 0xFF, 0xFD, 0x00, 0xFE, 0x03, 0x00, 0x01, 0x31, 0x42];
    for data in instruction {
        dxl.uart.tx_buf.push_back(data);
    }

    assert_eq!(dxl.parse_data(), Ok(()));

    assert_eq!(dxl.packet_return_time(), 0);
    assert_eq!(
        dxl.return_packet().as_slice(),
        &[0xFF, 0xFF, 0xFD, 0x00, 0x02, 0x07, 0x00, 0x55, 0x00, 0x06, 0x04, 0x26, 0x6F, 0x6D]
    );
    // the reply is ready but the device waits for ID 1 to answer first
    assert_eq!(dxl.uart.rx_buf, Vec::<u8>::new());

    dxl.clock.tick();
    dxl.clock.tick();

    assert_eq!(dxl.parse_data(), Ok(()));

    // after the per-peer timeout (1472 us) the reply goes out
    assert_eq!(
        dxl.uart.rx_buf,
        vec![0xFF, 0xFF, 0xFD, 0x00, 0x02, 0x07, 0x00, 0x55, 0x00, 0x06, 0x04, 0x26, 0x6F, 0x6D]
    );
}

#[test]
fn packet_handler_read() {
    let mock_uart = MockSerial::new();
    let mock_clock = MockClock::new();
    let mut control_table_data = ControlTableData::new();
    control_table_data.modify(|_, w| w.model_number(0x0406));
    control_table_data.modify(|_, w| w.firmware_version(0x26));
    control_table_data.modify(|_, w| w.id(1));
    control_table_data.modify(|_, w| w.present_position(166));

    let mut dxl = DynamixelProtocolHandler::new(mock_uart, mock_clock, 115200, control_table_data);

    // READ of Present Position (132, 0x0084, 4 bytes) from ID 1
    let instruction = [
        0xFF, 0xFF, 0xFD, 0x00, 0x01, 0x07, 0x00, 0x02, 0x84, 0x00, 0x04, 0x00, 0x1D, 0x15,
    ];
    for data in instruction {
        dxl.uart.tx_buf.push_back(data);
    }

    assert_eq!(dxl.parse_data(), Ok(()));

    assert_eq!(dxl.packet_return_time(), 0);
    // Present Position = 166 (0x000000A6)
    assert_eq!(
        dxl.return_packet().as_slice(),
        &[0xFF, 0xFF, 0xFD, 0x00, 0x01, 0x08, 0x00, 0x55, 0x00, 0xA6, 0x00, 0x00, 0x00, 0x8C, 0xC0]
    );
    assert_eq!(
        dxl.uart.rx_buf,
        vec![
            0xFF, 0xFF, 0xFD, 0x00, 0x01, 0x08, 0x00, 0x55, 0x00, 0xA6, 0x00, 0x00, 0x00, 0x8C,
            0xC0
        ]
    );
}

#[test]
fn packet_handler_write() {
    let mock_uart = MockSerial::new();
    let mock_clock = MockClock::new();
    let mut control_table_data = ControlTableData::new();
    control_table_data.modify(|_, w| w.id(1));

    let mut dxl = DynamixelProtocolHandler::new(mock_uart, mock_clock, 115200, control_table_data);

    // WRITE of 512 (0x00000200) to Goal Position (116, 0x0074, 4 bytes)
    let instruction = [
        0xFF, 0xFF, 0xFD, 0x00, 0x01, 0x09, 0x00, 0x03, 0x74, 0x00, 0x00, 0x02, 0x00, 0x00, 0xCA,
        0x89,
    ];
    for data in instruction {
        dxl.uart.tx_buf.push_back(data);
    }

    assert_eq!(dxl.parse_data(), Ok(()));

    // the control table holds the written value
    assert_eq!(dxl.ctd.read().goal_position(), 512);

    assert_eq!(dxl.packet_return_time(), 0);
    assert_eq!(
        dxl.return_packet().as_slice(),
        &[0xFF, 0xFF, 0xFD, 0x00, 0x01, 0x04, 0x00, 0x55, 0x00, 0xA1, 0x0C]
    );
    assert_eq!(
        dxl.uart.rx_buf,
        vec![0xFF, 0xFF, 0xFD, 0x00, 0x01, 0x04, 0x00, 0x55, 0x00, 0xA1, 0x0C]
    );
}

#[test]
fn sync_read() {
    let mock_uart1 = MockSerial::new();
    let mock_uart2 = MockSerial::new();
    let mock_clock1 = MockClock::new();
    let mock_clock2 = MockClock::new();
    let mut control_table_data1 = ControlTableData::new();
    control_table_data1.modify(|_, w| w.id(1));
    control_table_data1.modify(|_, w| w.present_position(166));
    let mut control_table_data2 = ControlTableData::new();
    control_table_data2.modify(|_, w| w.id(2));
    control_table_data2.modify(|_, w| w.present_position(2079));

    let mut dxl1 =
        DynamixelProtocolHandler::new(mock_uart1, mock_clock1, 115200, control_table_data1);
    let mut dxl2 =
        DynamixelProtocolHandler::new(mock_uart2, mock_clock2, 115200, control_table_data2);

    // SYNC_READ of Present Position (132, 0x0084, 4 bytes) from IDs 1 and 2
    let instruction = [
        0xFF, 0xFF, 0xFD, 0x00, 0xFE, 0x09, 0x00, 0x82, 0x84, 0x00, 0x04, 0x00, 0x01, 0x02, 0xCE,
        0xFA,
    ];
    for data in instruction {
        dxl1.uart.tx_buf.push_back(data);
        dxl2.uart.tx_buf.push_back(data);
    }
    let id1_response = [
        0xFF, 0xFF, 0xFD, 0x00, 0x01, 0x08, 0x00, 0x55, 0x00, 0xA6, 0x00, 0x00, 0x00, 0x8C, 0xC0,
    ];
    // the device with ID 2 sees the answer of ID 1 on the bus
    for data in id1_response {
        dxl2.uart.tx_buf.push_back(data);
    }

    assert_eq!(dxl1.parse_data(), Ok(()));
    assert_eq!(dxl2.parse_data(), Ok(()));

    assert_eq!(dxl1.packet_return_time(), 0);
    assert_eq!(dxl2.packet_return_time(), 0);
    assert_eq!(
        dxl1.return_packet().as_slice(),
        &[0xFF, 0xFF, 0xFD, 0x00, 0x01, 0x08, 0x00, 0x55, 0x00, 0xA6, 0x00, 0x00, 0x00, 0x8C, 0xC0]
    );
    assert_eq!(
        dxl1.uart.rx_buf,
        vec![
            0xFF, 0xFF, 0xFD, 0x00, 0x01, 0x08, 0x00, 0x55, 0x00, 0xA6, 0x00, 0x00, 0x00, 0x8C,
            0xC0
        ]
    );
    assert_eq!(
        dxl2.return_packet().as_slice(),
        &[0xFF, 0xFF, 0xFD, 0x00, 0x02, 0x08, 0x00, 0x55, 0x00, 0x1F, 0x08, 0x00, 0x00, 0xBA, 0xBE]
    );
    assert_eq!(
        dxl2.uart.rx_buf,
        vec![
            0xFF, 0xFF, 0xFD, 0x00, 0x02, 0x08, 0x00, 0x55, 0x00, 0x1F, 0x08, 0x00, 0x00, 0xBA,
            0xBE
        ]
    );
}

#[test]
fn sync_write() {
    let mock_uart1 = MockSerial::new();
    let mock_uart2 = MockSerial::new();
    let mock_clock1 = MockClock::new();
    let mock_clock2 = MockClock::new();
    let mut control_table_data1 = ControlTableData::new();
    control_table_data1.modify(|_, w| w.id(1));
    let mut control_table_data2 = ControlTableData::new();
    control_table_data2.modify(|_, w| w.id(2));

    let mut dxl1 =
        DynamixelProtocolHandler::new(mock_uart1, mock_clock1, 115200, control_table_data1);
    let mut dxl2 =
        DynamixelProtocolHandler::new(mock_uart2, mock_clock2, 115200, control_table_data2);

    // SYNC_WRITE to Goal Position (116, 0x0074, 4 bytes):
    // 150 (0x00000096) for ID 1, 170 (0x000000AA) for ID 2
    let instruction = [
        0xFF, 0xFF, 0xFD, 0x00, 0xFE, 0x11, 0x00, 0x83, 0x74, 0x00, 0x04, 0x00, 0x01, 0x96, 0x00,
        0x00, 0x00, 0x02, 0xAA, 0x00, 0x00, 0x00, 0x82, 0x87,
    ];
    for data in instruction {
        dxl1.uart.tx_buf.push_back(data);
        dxl2.uart.tx_buf.push_back(data);
    }

    assert_eq!(dxl1.parse_data(), Ok(()));
    assert_eq!(dxl2.parse_data(), Ok(()));

    // each control table holds the value written for its own ID
    assert_eq!(dxl1.ctd.read().goal_position(), 150);
    assert_eq!(dxl2.ctd.read().goal_position(), 170);

    assert_eq!(dxl1.packet_return_time(), 0);
    assert_eq!(dxl2.packet_return_time(), 0);
    // a SYNC_WRITE is never answered
    assert_eq!(dxl1.return_packet().as_slice(), &[] as &[u8]);
    assert_eq!(dxl2.return_packet().as_slice(), &[] as &[u8]);
    assert!(dxl1.uart.rx_buf.is_empty());
    assert!(dxl2.uart.rx_buf.is_empty());
}

#[test]
fn crc() {
    let mock_uart = MockSerial::new();
    let mock_clock = MockClock::new();
    let control_table_data = ControlTableData::new();

    let dxl = DynamixelProtocolHandler::new(mock_uart, mock_clock, 115200, control_table_data);
    let msg = [
        0xFFu8, 0xFF, 0xFD, 0x00, 0x01, 0x07, 0x00, 0x55, 0x00, 0x06, 0x04, 0x26,
    ];
    assert_eq!(dxl.calc_crc_value(&msg), 0x5D65);
}

#[test]
fn stuffing() {
    let mut msg: PacketBuf = heapless::Vec::new();
    msg.extend_from_slice(&[
        0xFF, 0xFF, 0xFD, 0x00, 0x01, 0x0B, 0x00, 0x03, 0xE0, 0x00, 0xFF, 0xFF, 0xFF, 0xFF, 0xFD,
        0x01, 0x00, 0x00,
    ])
    .unwrap();
    add_stuffing(&mut msg);
    assert_eq!(
        msg.as_slice(),
        &[
            0xFF, 0xFF, 0xFD, 0x00, 0x01, 0x0C, 0x00, 0x03, 0xE0, 0x00, 0xFF, 0xFF, 0xFF, 0xFF,
            0xFD, 0xFD, 0x01, 0x00, 0x00
        ]
    );
    remove_stuffing(&mut msg);
    assert_eq!(
        msg.as_slice(),
        &[
            0xFF, 0xFF, 0xFD, 0x00, 0x01, 0x0B, 0x00, 0x03, 0xE0, 0x00, 0xFF, 0xFF, 0xFF, 0xFF,
            0xFD, 0x01, 0x00, 0x00
        ]
    );
}

#[test]
fn clear_port() {
    let mut mock_uart = MockSerial::new();
    let control_table_data = ControlTableData::new();

    mock_uart.tx_buf.push_back(1);
    mock_uart.tx_buf.push_back(2);
    mock_uart.tx_buf.push_back(3);
    let mock_clock = MockClock::new();
    let mut dxl = DynamixelProtocolHandler::new(mock_uart, mock_clock, 115200, control_table_data);
    dxl.clear_port();
    assert_eq!(dxl.uart.tx_buf.is_empty(), true);
}
