//! The protocol handler: the incremental packet receiver, the
//! instruction dispatcher, and the bus-sharing coordinator that lets
//! one device answer master commands on a multi-drop half-duplex bus.
use vstd::prelude::*;

use crate::control_table::{spec_write_bytes, ControlTableData, CONTROL_TABLE_SIZE};
use crate::crc::{calc_crc, crc16};
use crate::instruction::Instruction;
use crate::packet_buf::{
    buf_append, buf_append_take, buf_as_slice, buf_bytes, buf_clone, buf_get, buf_len, buf_new,
    buf_push, buf_read_region, buf_suffix, buf_truncate, PacketBuf, MAX_PACKET_LEN,
};
use crate::stuffing::{remove_stuffing, unstuff_frame, unstuffed};
use crate::wire::{
    le16_bytes, lemma_le_u16_round_trip, lemma_u16_le_round_trip, make_u16, u16_hi, u16_high,
    u16_lo, u16_low, u16_of_le,
};
use crate::{BufferInterface, Clock};

verus! {

/// Frames addressed here concern every device on the bus.
pub const BROADCAST_ID: u8 = 0xFE;

/// The largest payload a status frame can carry and still fit the
/// packet buffer: a status frame is eleven bytes plus its payload.
pub const MAX_RESPONSE_PAYLOAD: usize = 117;

/// Named byte positions within a frame.
pub enum Packet {
    Header0,
    Header1,
    Header2,
    Reserved,
    Id,
    LengthL,
    LengthH,
    Instruction,
    Error,
    Parameter0,
}

impl Packet {
    /// The position's byte offset from the start of the frame.
    pub open spec fn spec_pos(&self) -> usize {
        match self {
            Packet::Header0 => 0,
            Packet::Header1 => 1,
            Packet::Header2 => 2,
            Packet::Reserved => 3,
            Packet::Id => 4,
            Packet::LengthL => 5,
            Packet::LengthH => 6,
            Packet::Instruction => 7,
            Packet::Error => 8,
            Packet::Parameter0 => 8,
        }
    }

    /// The position's byte offset from the start of the frame.
    pub fn to_pos(&self) -> (r: usize)
        ensures
            r == self.spec_pos(),
    {
        match self {
            Packet::Header0 => 0,
            Packet::Header1 => 1,
            Packet::Header2 => 2,
            Packet::Reserved => 3,
            Packet::Id => 4,
            Packet::LengthL => 5,
            Packet::LengthH => 6,
            Packet::Instruction => 7,
            Packet::Error => 8,
            Packet::Parameter0 => 8,
        }
    }
}

/// Error classes a status frame could report. This design always
/// reports none; the taxonomy is reserved.
#[derive(Clone, Copy, Debug, PartialEq)]
pub enum ErrorBit {
    ErrNone,
    ErrResultFail,
    ErrInstruction,
    ErrCRC,
    ErrDataRange,
    ErrDataLength,
    ErrDataLimit,
    ErrAccess,
    ErrAlert,
}

impl ErrorBit {
    /// The error class's code in a status frame's error byte.
    pub open spec fn spec_code(&self) -> u8 {
        match self {
            ErrorBit::ErrNone => 0x00,
            ErrorBit::ErrResultFail => 0x01,
            ErrorBit::ErrInstruction => 0x02,
            ErrorBit::ErrCRC => 0x03,
            ErrorBit::ErrDataRange => 0x04,
            ErrorBit::ErrDataLength => 0x05,
            ErrorBit::ErrDataLimit => 0x06,
            ErrorBit::ErrAccess => 0x07,
            ErrorBit::ErrAlert => 0x08,
        }
    }

    /// The error class's code in a status frame's error byte.
    pub fn to_u8(&self) -> (r: u8)
        ensures
            r == self.spec_code(),
    {
        match self {
            ErrorBit::ErrNone => 0x00,
            ErrorBit::ErrResultFail => 0x01,
            ErrorBit::ErrInstruction => 0x02,
            ErrorBit::ErrCRC => 0x03,
            ErrorBit::ErrDataRange => 0x04,
            ErrorBit::ErrDataLength => 0x05,
            ErrorBit::ErrDataLimit => 0x06,
            ErrorBit::ErrAccess => 0x07,
            ErrorBit::ErrAlert => 0x08,
        }
    }
}

/// Outcome of one receive or transmit attempt.
#[derive(Debug, PartialEq, Eq, Structural)]
pub enum CommunicationResult {
    Success,
    PortBusy,
    TxFail,
    RxFail,
    TxError,
    RxWaiting,
    RxTimeout,
    RxCorrupt,
    RxCRCError,
    NotAvailable,
    SomethingWentWrong,
}

impl CommunicationResult {
    /// The account each outcome gives of itself.
    pub open spec fn spec_message(&self) -> Seq<char> {
        match self {
            CommunicationResult::Success => "[TxRxResult] Communication success."@,
            CommunicationResult::PortBusy => "[TxRxResult] Port is in use!"@,
            CommunicationResult::TxFail => "[TxRxResult] Failed transmit instruction packet!"@,
            CommunicationResult::RxFail => "[TxRxResult] Failed get status packet from device!"@,
            CommunicationResult::TxError => "[TxRxResult] Incorrect instruction packet!"@,
            CommunicationResult::RxWaiting => "[TxRxResult] Now receiving packet!"@,
            CommunicationResult::RxTimeout => "[TxRxResult] There is no status packet!"@,
            CommunicationResult::RxCorrupt => "[TxRxResult] Incorrect status packet!"@,
            CommunicationResult::RxCRCError => "[TxRxResult] Incorrect Rx CRC!"@,
            CommunicationResult::NotAvailable => "[TxRxResult] Protocol does not support This function!"@,
            CommunicationResult::SomethingWentWrong => "[TxRxResult] Something went wrong!"@,
        }
    }

    /// A human-readable account of the outcome.
    pub fn message(&self) -> (r: &'static str)
        ensures
            r@ == self.spec_message(),
    {
        match self {
            CommunicationResult::Success => "[TxRxResult] Communication success.",
            CommunicationResult::PortBusy => "[TxRxResult] Port is in use!",
            CommunicationResult::TxFail => "[TxRxResult] Failed transmit instruction packet!",
            CommunicationResult::RxFail => "[TxRxResult] Failed get status packet from device!",
            CommunicationResult::TxError => "[TxRxResult] Incorrect instruction packet!",
            CommunicationResult::RxWaiting => "[TxRxResult] Now receiving packet!",
            CommunicationResult::RxTimeout => "[TxRxResult] There is no status packet!",
            CommunicationResult::RxCorrupt => "[TxRxResult] Incorrect status packet!",
            CommunicationResult::RxCRCError => "[TxRxResult] Incorrect Rx CRC!",
            CommunicationResult::NotAvailable => "[TxRxResult] Protocol does not support This function!",
            CommunicationResult::SomethingWentWrong => "[TxRxResult] Something went wrong!",
        }
    }
}

/// Where the handler stands between ticks.
#[derive(Clone, Copy, Debug, PartialEq, Eq, Structural)]
pub enum ProtocolHandlerParsingState {
    WaitForCommandPacket,
    WaitForOthersResponsePacket,  // after this, wait for the return delay time
    WaitReturnDelayTime,
    Init,
}

/// Where the receiver stands between ticks.
#[derive(Clone, Copy, Debug, PartialEq, Eq, Structural)]
pub enum PacketReceivingState {
    Waiting,
    Init,
}

/// The device ID a frame is addressed to.
pub open spec fn frame_id(f: Seq<u8>) -> u8 {
    f[4]
}

/// The frame's length field: the byte count from the instruction on.
pub open spec fn frame_len(f: Seq<u8>) -> int {
    u16_of_le(f[5], f[6]) as int
}

/// The frame's instruction byte.
pub open spec fn frame_inst(f: Seq<u8>) -> u8 {
    f[7]
}

/// Whether a frame concerns the device with the given ID.
pub open spec fn addressed_to(f: Seq<u8>, my_id: u8) -> bool {
    frame_id(f) == BROADCAST_ID || frame_id(f) == my_id
}

/// A frame as the receiver accepts it off the wire, before destuffing:
/// correct header, a device or broadcast ID, a length that matches the
/// byte count and fits the packet buffer, and a checksum that validates
/// over every byte before the two trailing CRC bytes.
pub open spec fn valid_raw_frame(raw: Seq<u8>) -> bool {
    &&& 10 <= raw.len() <= MAX_PACKET_LEN
    &&& raw.len() == 7 + frame_len(raw)
    &&& raw[0] == 0xFF && raw[1] == 0xFF && raw[2] == 0xFD && raw[3] == 0x00
    &&& (raw[4] <= 0xFC || raw[4] == BROADCAST_ID)
    &&& u16_of_le(raw[raw.len() - 2], raw[raw.len() - 1]) == crc16(raw.take(raw.len() - 2))
}

/// A destuffed frame as the dispatcher takes it.
pub open spec fn dispatchable(f: Seq<u8>) -> bool {
    &&& 10 <= f.len() <= MAX_PACKET_LEN
    &&& f.len() == 7 + frame_len(f)
    &&& f[0] == 0xFF && f[1] == 0xFF && f[2] == 0xFD && f[3] == 0x00
    &&& (f[4] <= 0xFC || f[4] == BROADCAST_ID)
}

/// The uniform status frame: header, ID, length, the status code 0x55,
/// a zero error byte, the payload, and the little-endian checksum.
pub open spec fn status_frame(id: u8, payload: Seq<u8>) -> Seq<u8> {
    let body = seq![0xFFu8, 0xFFu8, 0xFDu8, 0x00u8, id] + le16_bytes((payload.len() + 4) as u16)
        + seq![0x55u8, 0x00u8] + payload;
    body + le16_bytes(crc16(body))
}

/// What a READ of `len` bytes at `addr` returns: the stored bytes,
/// clipped to the table and to what a status frame can carry.
pub open spec fn read_payload(table: Seq<u8>, addr: int, len: int) -> Seq<u8> {
    let avail = if addr < table.len() {
        table.len() - addr
    } else {
        0
    };
    let n0 = if len <= avail {
        len
    } else {
        avail
    };
    let n = if n0 <= MAX_RESPONSE_PAYLOAD as int {
        n0
    } else {
        MAX_RESPONSE_PAYLOAD as int
    };
    if n <= 0 {
        Seq::<u8>::empty()
    } else {
        table.subrange(addr, addr + n)
    }
}

/// The start address a READ, WRITE, SYNC_READ or SYNC_WRITE names.
pub open spec fn frame_addr(f: Seq<u8>) -> int {
    u16_of_le(f[8], f[9]) as int
}

/// The byte count a READ or SYNC_READ asks for, or the per-device data
/// length of a SYNC_WRITE.
pub open spec fn frame_rlen(f: Seq<u8>) -> int {
    u16_of_le(f[10], f[11]) as int
}

/// The data bytes of a WRITE: everything between the address and the
/// checksum.
pub open spec fn write_data(f: Seq<u8>) -> Seq<u8> {
    f.subrange(10, 5 + frame_len(f))
}

/// How many (ID, data) tuples a SYNC_WRITE carries.
pub open spec fn sync_tuple_count(f: Seq<u8>) -> int {
    (frame_len(f) - 7) / (frame_rlen(f) + 1)
}

/// The table after the SYNC_WRITE tuples from `i` on have been applied:
/// each tuple whose ID matches the table's own ID field writes its data
/// at the frame's address. A tuple can change the ID field itself, so
/// later tuples are matched against the table as it then stands.
pub open spec fn sync_apply(table: Seq<u8>, f: Seq<u8>, i: int) -> Seq<u8>
    decreases sync_tuple_count(f) - i,
{
    if i >= sync_tuple_count(f) {
        table
    } else {
        let dlen = frame_rlen(f);
        let pos = 12 + i * (dlen + 1);
        let t2 = if f[pos] == table[7] {
            spec_write_bytes(table, frame_addr(f), f.subrange(pos + 1, pos + 1 + dlen))
        } else {
            table
        };
        sync_apply(t2, f, i + 1)
    }
}

/// Whether `now` is what `before` becomes after some bytes have been
/// consumed from its front: the receiver takes bytes off the transport
/// in order and never invents any.
pub open spec fn rx_suffix(now: Seq<u8>, before: Seq<u8>) -> bool {
    exists|k: int| 0 <= k <= before.len() && now == #[trigger] before.skip(k)
}

/// What the receiver still holds of an unfinished frame: the in-flight
/// buffer while it waits, nothing otherwise (any other outcome resets
/// the buffer before the next frame).
pub open spec fn receiver_pending(msg: Seq<u8>, state: PacketReceivingState) -> Seq<u8> {
    if state == PacketReceivingState::Waiting {
        msg
    } else {
        Seq::<u8>::empty()
    }
}

/// A complete, well-framed run of bytes whose trailing checksum does
/// not validate: what the receiver discards with a CRC error.
pub open spec fn corrupt_frame(m: Seq<u8>) -> bool {
    &&& 10 <= m.len() <= MAX_PACKET_LEN
    &&& m.len() == 7 + frame_len(m)
    &&& m[0] == 0xFF && m[1] == 0xFF && m[2] == 0xFD && m[3] == 0x00
    &&& (m[4] <= 0xFC || m[4] == BROADCAST_ID)
    &&& u16_of_le(m[m.len() - 2], m[m.len() - 1]) != crc16(m.take(m.len() - 2))
}

/// `sub` occurs as one contiguous run inside `sup`.
pub open spec fn seq_within(sub: Seq<u8>, sup: Seq<u8>) -> bool {
    exists|d: int|
        0 <= d && d + sub.len() <= sup.len() && sub == #[trigger] sup.subrange(d, d + sub.len())
}

/// Consuming nothing leaves a suffix.
pub proof fn lemma_rx_suffix_refl(s: Seq<u8>)
    ensures
        rx_suffix(s, s),
{
    assert(s =~= s.skip(0));
}

/// A suffix of a suffix is a suffix.
pub proof fn lemma_rx_suffix_trans(c: Seq<u8>, b: Seq<u8>, a: Seq<u8>)
    requires
        rx_suffix(c, b),
        rx_suffix(b, a),
    ensures
        rx_suffix(c, a),
{
    let k1 = choose|k: int| 0 <= k <= b.len() && c == #[trigger] b.skip(k);
    let k2 = choose|k: int| 0 <= k <= a.len() && b == #[trigger] a.skip(k);
    assert(a.skip(k2).skip(k1) =~= a.skip(k2 + k1));
}

/// A zero-filled scratch vector for the transport to read into.
fn make_zero_vec(n: usize) -> (r: Vec<u8>)
    ensures
        r@.len() == n as int,
{
    let mut v: Vec<u8> = Vec::new();
    let mut i: usize = 0;
    while i < n
        invariant
            i <= n,
            v@.len() == i as int,
        decreases n - i,
    {
        v.push(0);
        i = i + 1;
    }
    v
}

/// Destuffing a frame the receiver accepted gives a frame the
/// dispatcher can take, addressed to the same ID.
pub proof fn lemma_unstuff_frame_valid(raw: Seq<u8>)
    requires
        valid_raw_frame(raw),
    ensures
        dispatchable(unstuff_frame(raw)),
        unstuff_frame(raw)[4] == raw[4],
        unstuff_frame(raw).len() <= raw.len(),
{
    let len_in = frame_len(raw);
    assert(3 <= len_in <= 121);
    let params = raw.subrange(8, 5 + len_in);
    let up = unstuffed(params);
    crate::stuffing::lemma_unstuffed_len(params);
    let f = unstuff_frame(raw);
    let len_out = (3 + up.len()) as u16;
    assert(f.len() == 10 + up.len());
    assert(f[5] == u16_lo(len_out) && f[6] == u16_hi(len_out));
    lemma_u16_le_round_trip(len_out);
    assert(u16_of_le(f[5], f[6]) == len_out);
    assert(f[0] == raw[0] && f[1] == raw[1] && f[2] == raw[2] && f[3] == raw[3] && f[4] == raw[4]);
}

/// How one tick may change the store: either it is untouched, or a
/// checksum-valid frame addressed to the device carried a WRITE or
/// SYNC_WRITE and the store changed exactly as that frame says.
pub open spec fn store_change_explained(t0: Seq<u8>, t1: Seq<u8>) -> bool {
    t1 == t0 || exists|raw: Seq<u8>|
        #[trigger] valid_raw_frame(raw) && {
            let f = unstuff_frame(raw);
            &&& addressed_to(f, t0[7])
            &&& ((frame_inst(f) == 0x03 && frame_len(f) >= 5 && t1 == spec_write_bytes(
                t0,
                frame_addr(f),
                write_data(f),
            )) || (frame_inst(f) == 0x83 && frame_len(f) >= 7 && t1 == sync_apply(t0, f, 0)))
        }
}

/// Every status frame the builder yields is itself a frame the
/// receiver would accept: correctly framed, correctly sized, and with a
/// checksum that validates over its preceding bytes.
pub proof fn lemma_status_frame_valid(id: u8, payload: Seq<u8>)
    requires
        id <= 0xFC || id == BROADCAST_ID,
        payload.len() <= MAX_RESPONSE_PAYLOAD,
    ensures
        valid_raw_frame(status_frame(id, payload)),
{
    let length = (payload.len() + 4) as u16;
    let body = seq![0xFFu8, 0xFFu8, 0xFDu8, 0x00u8, id] + le16_bytes(length) + seq![0x55u8, 0x00u8]
        + payload;
    let g = status_frame(id, payload);
    assert(g.len() == 11 + payload.len());
    assert(g.take(g.len() - 2) =~= body);
    lemma_u16_le_round_trip(crc16(body));
    assert(g[g.len() - 2] == u16_lo(crc16(body)) && g[g.len() - 1] == u16_hi(crc16(body)));
    assert(g[5] == u16_lo(length) && g[6] == u16_hi(length));
    lemma_u16_le_round_trip(length);
    assert(u16_of_le(g[5], g[6]) == length);
}

/// The window, in microseconds, granted to one silent peer during a
/// broadcast round: the time its reply of the same length would occupy
/// on the wire, plus return-delay slack.
pub open spec fn peer_wait_us(reply_len: int, baudrate: int) -> int {
    reply_len * 8 * 1000000 / baudrate + 500
}

/// The reply a frame earns, as a function of the store it found: PING
/// answers with model number and firmware version, READ and SYNC_READ
/// with the requested stored bytes, WRITE with a bare acknowledgement
/// carrying the table's (possibly just rewritten) ID. No other frame
/// earns one.
pub open spec fn response_for(f: Seq<u8>, t: Seq<u8>) -> Seq<u8> {
    if frame_inst(f) == 0x01 {
        status_frame(t[7], seq![t[0], t[1], t[6]])
    } else if (frame_inst(f) == 0x02 || frame_inst(f) == 0x82) && frame_len(f) >= 7 {
        status_frame(t[7], read_payload(t, frame_addr(f), frame_rlen(f)))
    } else if frame_inst(f) == 0x03 && frame_len(f) >= 5 {
        status_frame(spec_write_bytes(t, frame_addr(f), write_data(f))[7], Seq::<u8>::empty())
    } else {
        Seq::<u8>::empty()
    }
}

/// The handler itself: it owns the transport, the clock, the control
/// table and the parsing state, and makes progress one `parse_data`
/// call at a time.
pub struct DynamixelProtocolHandler<I, C> where I: BufferInterface, C: Clock {
    pub uart: I,
    pub clock: C,
    pub is_using: bool,
    pub baudrate: u32,
    pub return_packet: PacketBuf,
    pub packet_return_time: u64,
    pub ctd: ControlTableData,
    pub wait_length: usize,
    pub msg: PacketBuf,
    pub parsing_state: ProtocolHandlerParsingState,
    pub packet_receiving_state: PacketReceivingState,
    pub last_received_command: u8,
    pub last_received_id: u8,
}

impl<I, C> DynamixelProtocolHandler<I, C> where I: BufferInterface, C: Clock {
    /// The handler's internal consistency: a positive baud rate, and a
    /// receiver that, while waiting, still wants a frame that fits its
    /// buffer and holds fewer bytes than it waits for.
    pub open spec fn wf(&self) -> bool {
        &&& self.baudrate > 0
        &&& (self.packet_receiving_state == PacketReceivingState::Waiting ==> 10
            <= self.wait_length <= MAX_PACKET_LEN && buf_bytes(self.msg).len() < self.wait_length)
    }

    /// A fresh handler around a transport, a clock and a configured
    /// control table.
    pub fn new(uart: I, clock: C, baudrate: u32, control_table_data: ControlTableData) -> (r: Self)
        requires
            baudrate > 0,
        ensures
            r.wf(),
            r.uart == uart,
            r.clock == clock,
            r.ctd == control_table_data,
            r.baudrate == baudrate,
            r.parsing_state == ProtocolHandlerParsingState::Init,
            r.packet_receiving_state == PacketReceivingState::Init,
            buf_bytes(r.return_packet) == Seq::<u8>::empty(),
            buf_bytes(r.msg) == Seq::<u8>::empty(),
            r.packet_return_time == 0,
            r.wait_length == 0,
            r.last_received_id == 1,
            r.last_received_command == Instruction::Unknown.spec_code(),
            !r.is_using,
    {
        DynamixelProtocolHandler {
            uart,
            clock,
            is_using: false,
            baudrate,
            return_packet: buf_new(),
            packet_return_time: 0,
            ctd: control_table_data,
            wait_length: 0,
            msg: buf_new(),
            parsing_state: ProtocolHandlerParsingState::Init,
            packet_receiving_state: PacketReceivingState::Init,
            last_received_command: Instruction::Unknown.code(),
            last_received_id: 1,
        }
    }

    /// The time, in microseconds since the clock's origin, before which
    /// the prepared reply must not be transmitted.
    pub fn packet_return_time(&self) -> (r: u64)
        ensures
            r == self.packet_return_time,
    {
        self.packet_return_time
    }

    /// Copy of the reply prepared for transmission.
    pub fn return_packet(&mut self) -> (r: PacketBuf)
        ensures
            *final(self) == *old(self),
            buf_bytes(r) == buf_bytes(old(self).return_packet),
    {
        buf_clone(&self.return_packet)
    }

    /// The protocol checksum of `msg`.
    pub fn calc_crc_value(&self, msg: &[u8]) -> (r: u16)
        ensures
            r == crc16(msg@),
    {
        calc_crc(msg)
    }

    /// Drop everything waiting on the transport's receive side.
    pub fn clear_port(&mut self)
        ensures
            final(self).uart.rx_view() == Seq::<u8>::empty(),
            final(self).uart.tx_view() == old(self).uart.tx_view(),
            final(self).clock == old(self).clock,
            final(self).ctd == old(self).ctd,
            final(self).parsing_state == old(self).parsing_state,
            final(self).packet_receiving_state == old(self).packet_receiving_state,
            final(self).return_packet == old(self).return_packet,
            final(self).msg == old(self).msg,
            final(self).wait_length == old(self).wait_length,
            final(self).baudrate == old(self).baudrate,
            final(self).last_received_id == old(self).last_received_id,
            final(self).last_received_command == old(self).last_received_command,
            final(self).packet_return_time == old(self).packet_return_time,
            final(self).is_using == old(self).is_using,
            final(self).wf() == old(self).wf(),
    {
        self.uart.clear_read_buf();
    }

    /// A status frame: the reply skeleton shared by every response.
    fn status_packet(&self, id: u8, payload: &Vec<u8>) -> (r: PacketBuf)
        requires
            payload@.len() <= MAX_RESPONSE_PAYLOAD,
        ensures
            buf_bytes(r) == status_frame(id, payload@),
            buf_bytes(r).len() == 11 + payload@.len(),
    {
        let length: u16 = (payload.len() + 4) as u16;
        let mut msg = buf_new();
        buf_push(&mut msg, 0xFF);
        buf_push(&mut msg, 0xFF);
        buf_push(&mut msg, 0xFD);
        buf_push(&mut msg, 0x00);
        buf_push(&mut msg, id);
        buf_push(&mut msg, u16_low(length));
        buf_push(&mut msg, u16_high(length));
        buf_push(&mut msg, Instruction::Status.code());
        buf_push(&mut msg, 0);  // the error byte: no error classes are emitted
        let msg = buf_append(msg, payload);
        let ghost body = seq![0xFFu8, 0xFFu8, 0xFDu8, 0x00u8, id] + le16_bytes(length)
            + seq![0x55u8, 0x00u8] + payload@;
        proof {
            assert(buf_bytes(msg) =~= body);
        }
        let crc = calc_crc(buf_as_slice(&msg));
        let mut msg = msg;
        buf_push(&mut msg, u16_low(crc));
        buf_push(&mut msg, u16_high(crc));
        proof {
            assert(buf_bytes(msg) =~= status_frame(id, payload@));
        }
        msg
    }

    /// The reply to a PING: model number and firmware version.
    fn ping_response_packet(&self, id: u8, model_number: u16, firmware_version: u8) -> (r:
        PacketBuf)
        ensures
            buf_bytes(r) == status_frame(
                id,
                le16_bytes(model_number) + seq![firmware_version],
            ),
    {
        let mut payload: Vec<u8> = Vec::new();
        payload.push(u16_low(model_number));
        payload.push(u16_high(model_number));
        payload.push(firmware_version);
        proof {
            assert(payload@ =~= le16_bytes(model_number) + seq![firmware_version]);
        }
        self.status_packet(id, &payload)
    }

    /// The reply to a READ: the requested bytes from the store.
    fn read_response_packet(&self, id: u8, data: &Vec<u8>) -> (r: PacketBuf)
        requires
            data@.len() <= MAX_RESPONSE_PAYLOAD,
        ensures
            buf_bytes(r) == status_frame(id, data@),
    {
        self.status_packet(id, data)
    }

    /// The reply to a WRITE: a bare acknowledgement.
    fn write_response_packet(&self, id: u8) -> (r: PacketBuf)
        ensures
            buf_bytes(r) == status_frame(id, Seq::<u8>::empty()),
    {
        let payload: Vec<u8> = Vec::new();
        self.status_packet(id, &payload)
    }

    /// One resumable step of the incremental receiver: read what the
    /// transport has, resynchronize on the frame header, retarget on the
    /// length field, and either yield a destuffed, checksum-validated
    /// frame or report that it is still waiting, timed out, or saw a bad
    /// checksum. The receiver consumes a prefix of the transport's
    /// pending bytes, in order, without inventing any; a delivered frame
    /// is the destuffing of a checksum-valid contiguous run of what was
    /// buffered plus what was consumed; a CRC error names a complete,
    /// well-framed run whose checksum did not validate; a timeout is
    /// reported exactly when one was set and the clock stands past it;
    /// and while waiting it retains exactly the unconsumed tail of the
    /// stream, so the next call resumes where this one left off.
    #[verifier::rlimit(100)]
    #[verifier::spinoff_prover]
    pub fn receive_packet(&mut self, timeout_us: u64) -> (r: Result<PacketBuf, CommunicationResult>)
        requires
            old(self).wf(),
        ensures
            final(self).wf(),
            final(self).uart.tx_view() == old(self).uart.tx_view(),
            rx_suffix(final(self).uart.rx_view(), old(self).uart.rx_view()),
            final(self).ctd == old(self).ctd,
            final(self).parsing_state == old(self).parsing_state,
            final(self).return_packet == old(self).return_packet,
            final(self).baudrate == old(self).baudrate,
            final(self).last_received_id == old(self).last_received_id,
            final(self).last_received_command == old(self).last_received_command,
            final(self).packet_return_time == old(self).packet_return_time,
            final(self).clock == old(self).clock,
            match r {
                Ok(v) => final(self).packet_receiving_state == PacketReceivingState::Init
                    && dispatchable(buf_bytes(v)) && exists|raw: Seq<u8>|
                    #[trigger] valid_raw_frame(raw) && buf_bytes(v) == unstuff_frame(raw),
                Err(e) => (e == CommunicationResult::RxWaiting
                    <==> final(self).packet_receiving_state == PacketReceivingState::Waiting) && (e
                    == CommunicationResult::RxWaiting || e == CommunicationResult::RxTimeout || e
                    == CommunicationResult::RxCRCError),
            },
            // a timeout is reported exactly when one was set and the clock
            // stands past it; otherwise an incomplete frame keeps waiting
            r == Err::<PacketBuf, CommunicationResult>(CommunicationResult::RxTimeout) ==> timeout_us != 0 && old(self).clock.time_view() > timeout_us,
            r == Err::<PacketBuf, CommunicationResult>(CommunicationResult::RxWaiting) ==> timeout_us == 0 || old(self).clock.time_view() <= timeout_us,
            // an empty transport can neither complete nor corrupt a frame
            old(self).uart.rx_view().len() == 0 ==> r == Err::<PacketBuf, CommunicationResult>(
                CommunicationResult::RxWaiting,
            ) || r == Err::<PacketBuf, CommunicationResult>(CommunicationResult::RxTimeout),
            // a delivered frame always consumed at least one fresh byte
            r is Ok ==> final(self).uart.rx_view().len() < old(self).uart.rx_view().len(),
            // the receiver consumes a prefix of the pending bytes; a
            // delivered frame is a contiguous run of what was buffered plus
            // what was consumed, and while it waits it retains exactly the
            // unconsumed tail of that stream for the next call
            exists|c: int|
                {
                    let stream = receiver_pending(
                        buf_bytes(old(self).msg),
                        old(self).packet_receiving_state,
                    ) + old(self).uart.rx_view().take(c);
                    &&& 0 <= c <= old(self).uart.rx_view().len()
                    &&& final(self).uart.rx_view() == #[trigger] old(self).uart.rx_view().skip(c)
                    &&& match r {
                        Ok(v) => exists|raw: Seq<u8>|
                            #[trigger] valid_raw_frame(raw) && buf_bytes(v) == unstuff_frame(raw)
                                && seq_within(raw, stream),
                        Err(e) => {
                            &&& (e == CommunicationResult::RxWaiting ==> exists|dd: int|
                                0 <= dd <= stream.len() && buf_bytes(final(self).msg)
                                    == #[trigger] stream.skip(dd))
                            &&& (e == CommunicationResult::RxCRCError ==> exists|m: Seq<u8>|
                                #[trigger] corrupt_frame(m) && seq_within(m, stream))
                        },
                    }
                },
    {
        if self.packet_receiving_state == PacketReceivingState::Init {
            self.wait_length = 10;  // the minimum frame: header, reserved, ID, length, instruction, CRC
            self.msg = buf_new();
        }
        let ghost rx0 = self.uart.rx_view();
        let ghost pending = receiver_pending(
            buf_bytes(old(self).msg),
            old(self).packet_receiving_state,
        );
        let ghost mut c: int = 0;
        let ghost mut d: int = 0;
        proof {
            assert(buf_bytes(self.msg) =~= (pending + rx0.take(0)).skip(0));
        }
        loop
            invariant
                old(self).wf(),
                10 <= self.wait_length <= MAX_PACKET_LEN,
                buf_bytes(self.msg).len() <= MAX_PACKET_LEN,
                self.uart.tx_view() == old(self).uart.tx_view(),
                rx0 == old(self).uart.rx_view(),
                pending == receiver_pending(
                    buf_bytes(old(self).msg),
                    old(self).packet_receiving_state,
                ),
                0 <= c <= rx0.len(),
                self.uart.rx_view() == rx0.skip(c),
                0 <= d <= pending.len() + c,
                buf_bytes(self.msg) == (pending + rx0.take(c)).skip(d),
                rx0.len() == 0 ==> buf_bytes(self.msg).len() < self.wait_length,
                c >= 1 || buf_bytes(self.msg).len() < self.wait_length,
                self.ctd == old(self).ctd,
                self.parsing_state == old(self).parsing_state,
                self.return_packet == old(self).return_packet,
                self.baudrate == old(self).baudrate,
                self.last_received_id == old(self).last_received_id,
                self.last_received_command == old(self).last_received_command,
                self.packet_return_time == old(self).packet_return_time,
                self.clock == old(self).clock,
            decreases self.uart.rx_view().len() + buf_bytes(self.msg).len(),
        {
            let mlen = buf_len(&self.msg);
            if mlen < self.wait_length {
                let ghost rx_pre = self.uart.rx_view();
                let ghost msg_pre = buf_bytes(self.msg);
                self.fill_msg();
                proof {
                    let n = choose|n: int|
                        0 <= n <= rx_pre.len() && buf_bytes(self.msg) == msg_pre + rx_pre.take(n)
                            && self.uart.rx_view() == #[trigger] rx_pre.skip(n);
                    assert(rx0.skip(c).take(n) =~= rx0.subrange(c, c + n));
                    assert(rx0.skip(c).skip(n) =~= rx0.skip(c + n));
                    assert((pending + rx0.take(c)).skip(d) + rx0.subrange(c, c + n) =~= (pending
                        + rx0.take(c + n)).skip(d));
                    c = c + n;
                }
            }
            let mlen = buf_len(&self.msg);
            if mlen < self.wait_length {
                proof {
                    assert(buf_bytes(self.msg) == (receiver_pending(
                        buf_bytes(old(self).msg),
                        old(self).packet_receiving_state,
                    ) + old(self).uart.rx_view().take(c)).skip(d));
                }
                return self.report_short(timeout_us);
            }
            // find the packet header
            let mut idx: usize = 0;
            while idx < mlen - 3
                invariant
                    idx <= mlen - 3,
                    mlen == buf_bytes(self.msg).len(),
                    10 <= mlen,
                decreases mlen - 3 - idx,
            {
                if buf_get(&self.msg, idx) == 0xFF && buf_get(&self.msg, idx + 1) == 0xFF
                    && buf_get(&self.msg, idx + 2) == 0xFD && buf_get(&self.msg, idx + 3) == 0x00 {
                    break ;
                }
                idx = idx + 1;
            }
            if idx == 0 {
                let h0 = buf_get(&self.msg, 0);
                let h1 = buf_get(&self.msg, 1);
                let h2 = buf_get(&self.msg, 2);
                let h3 = buf_get(&self.msg, 3);
                let id = buf_get(&self.msg, 4);
                let l0 = buf_get(&self.msg, 5);
                let l1 = buf_get(&self.msg, 6);
                let length = make_u16(l0, l1) as usize;
                if !(h0 == 0xFF && h1 == 0xFF && h2 == 0xFD && h3 == 0x00) || (id > 0xFC && id
                    != BROADCAST_ID) || length < 3 || length + 7 > MAX_PACKET_LEN {
                    // remove the first byte and resynchronize
                    self.msg = buf_suffix(&self.msg, 1);
                    proof {
                        assert((pending + rx0.take(c)).skip(d).skip(1) =~= (pending + rx0.take(
                            c,
                        )).skip(d + 1));
                        d = d + 1;
                    }
                    continue ;
                }
                // re-target the exact length of the rx packet and read the rest
                let f_len = length + 7;
                if self.wait_length != f_len {
                    self.wait_length = f_len;
                    let mlen2 = buf_len(&self.msg);
                    if mlen2 < f_len {
                        let ghost rx_pre = self.uart.rx_view();
                        let ghost msg_pre = buf_bytes(self.msg);
                        self.fill_msg();
                        proof {
                            let n = choose|n: int|
                                0 <= n <= rx_pre.len() && buf_bytes(self.msg) == msg_pre
                                    + rx_pre.take(n) && self.uart.rx_view() == #[trigger] rx_pre.skip(
                                    n,
                                );
                            assert(rx0.skip(c).take(n) =~= rx0.subrange(c, c + n));
                            assert(rx0.skip(c).skip(n) =~= rx0.skip(c + n));
                            assert((pending + rx0.take(c)).skip(d) + rx0.subrange(c, c + n) =~= (
                            pending + rx0.take(c + n)).skip(d));
                            c = c + n;
                        }
                        let mlen3 = buf_len(&self.msg);
                        if mlen3 < f_len {
                            proof {
                                assert(buf_bytes(self.msg) == (receiver_pending(
                                    buf_bytes(old(self).msg),
                                    old(self).packet_receiving_state,
                                ) + old(self).uart.rx_view().take(c)).skip(d));
                            }
                            return self.report_short(timeout_us);
                        }
                    }
                }
                // the whole frame is here: verify its checksum
                let ghost stream = pending + rx0.take(c);
                proof {
                    assert(buf_bytes(self.msg).take(self.wait_length as int) =~= stream.subrange(
                        d,
                        d + self.wait_length,
                    ));
                }
                let res = self.complete_frame(Ghost(stream));
                proof {
                    assert(self.uart.rx_view() == old(self).uart.rx_view().skip(c));
                }
                return res;
            } else {
                // drop the bytes before the header candidate
                self.msg = buf_suffix(&self.msg, idx);
                proof {
                    assert((pending + rx0.take(c)).skip(d).skip(idx as int) =~= (pending
                        + rx0.take(c)).skip(d + idx));
                    d = d + idx;
                }
                continue ;
            }
        }
    }

    /// Verify the checksum of the complete frame at the head of the
    /// buffer and relate the outcome to the byte stream it was read
    /// from: a valid frame is delivered destuffed, a corrupt one is
    /// reported, either as a contiguous run of the stream.
    fn complete_frame(&mut self, Ghost(stream): Ghost<Seq<u8>>) -> (r: Result<
        PacketBuf,
        CommunicationResult,
    >)
        requires
            old(self).baudrate > 0,
            10 <= old(self).wait_length <= MAX_PACKET_LEN,
            buf_bytes(old(self).msg).len() >= old(self).wait_length,
            buf_bytes(old(self).msg).len() <= MAX_PACKET_LEN,
            ({
                let m = buf_bytes(old(self).msg);
                m[0] == 0xFF && m[1] == 0xFF && m[2] == 0xFD && m[3] == 0x00 && (m[4] <= 0xFC
                    || m[4] == BROADCAST_ID) && u16_of_le(m[5], m[6]) + 7 == old(self).wait_length
            }),
            seq_within(buf_bytes(old(self).msg).take(old(self).wait_length as int), stream),
        ensures
            final(self).wf(),
            final(self).uart == old(self).uart,
            final(self).ctd == old(self).ctd,
            final(self).parsing_state == old(self).parsing_state,
            final(self).return_packet == old(self).return_packet,
            final(self).baudrate == old(self).baudrate,
            final(self).last_received_id == old(self).last_received_id,
            final(self).last_received_command == old(self).last_received_command,
            final(self).packet_return_time == old(self).packet_return_time,
            final(self).clock == old(self).clock,
            final(self).packet_receiving_state == PacketReceivingState::Init,
            match r {
                Ok(v) => dispatchable(buf_bytes(v)) && exists|raw: Seq<u8>|
                    #[trigger] valid_raw_frame(raw) && buf_bytes(v) == unstuff_frame(raw)
                        && seq_within(raw, stream),
                Err(e) => e == CommunicationResult::RxCRCError && exists|m: Seq<u8>|
                    #[trigger] corrupt_frame(m) && seq_within(m, stream),
            },
    {
        let ghost m0 = buf_bytes(old(self).msg).take(old(self).wait_length as int);
        let res = self.finish_frame();
        proof {
            if res is Err {
                assert(corrupt_frame(m0));
            }
        }
        res
    }

    /// Report an incomplete frame: a timeout when one was set and has
    /// passed, else that the receiver is waiting for more bytes.
    fn report_short(&mut self, timeout_us: u64) -> (r: Result<PacketBuf, CommunicationResult>)
        requires
            old(self).baudrate > 0,
            10 <= old(self).wait_length <= MAX_PACKET_LEN,
            buf_bytes(old(self).msg).len() < old(self).wait_length,
        ensures
            final(self).wf(),
            final(self).uart == old(self).uart,
            final(self).clock == old(self).clock,
            final(self).ctd == old(self).ctd,
            final(self).parsing_state == old(self).parsing_state,
            final(self).return_packet == old(self).return_packet,
            final(self).baudrate == old(self).baudrate,
            final(self).last_received_id == old(self).last_received_id,
            final(self).last_received_command == old(self).last_received_command,
            final(self).packet_return_time == old(self).packet_return_time,
            final(self).msg == old(self).msg,
            final(self).wait_length == old(self).wait_length,
            r is Err,
            r == Err::<PacketBuf, CommunicationResult>(CommunicationResult::RxTimeout) || r
                == Err::<PacketBuf, CommunicationResult>(CommunicationResult::RxWaiting),
            r == Err::<PacketBuf, CommunicationResult>(CommunicationResult::RxTimeout) <==> (
            timeout_us != 0 && old(self).clock.time_view() > timeout_us),
            r == Err::<PacketBuf, CommunicationResult>(CommunicationResult::RxWaiting)
                <==> final(self).packet_receiving_state == PacketReceivingState::Waiting,
            r == Err::<PacketBuf, CommunicationResult>(CommunicationResult::RxTimeout)
                <==> final(self).packet_receiving_state == PacketReceivingState::Init,
    {
        self.is_using = false;
        if timeout_us != 0 && self.clock.get_current_time() > timeout_us {
            self.packet_receiving_state = PacketReceivingState::Init;
            Err(CommunicationResult::RxTimeout)
        } else {
            self.packet_receiving_state = PacketReceivingState::Waiting;
            Err(CommunicationResult::RxWaiting)
        }
    }

    /// Read from the transport into the in-flight buffer, up to the
    /// byte count the receiver is waiting for.
    fn fill_msg(&mut self)
        requires
            buf_bytes(old(self).msg).len() < old(self).wait_length,
            old(self).wait_length <= MAX_PACKET_LEN,
        ensures
            final(self).uart.tx_view() == old(self).uart.tx_view(),
            final(self).ctd == old(self).ctd,
            final(self).parsing_state == old(self).parsing_state,
            final(self).return_packet == old(self).return_packet,
            final(self).baudrate == old(self).baudrate,
            final(self).last_received_id == old(self).last_received_id,
            final(self).last_received_command == old(self).last_received_command,
            final(self).packet_return_time == old(self).packet_return_time,
            final(self).clock == old(self).clock,
            final(self).wait_length == old(self).wait_length,
            final(self).packet_receiving_state == old(self).packet_receiving_state,
            final(self).is_using == old(self).is_using,
            buf_bytes(final(self).msg).len() <= old(self).wait_length,
            rx_suffix(final(self).uart.rx_view(), old(self).uart.rx_view()),
            exists|n: int|
                0 <= n <= old(self).uart.rx_view().len() && buf_bytes(final(self).msg) == buf_bytes(
                    old(self).msg,
                ) + old(self).uart.rx_view().take(n) && final(self).uart.rx_view() == #[trigger] old(self).uart.rx_view().skip(n),
    {
        let mlen = buf_len(&self.msg);
        let need = self.wait_length - mlen;
        let mut res = make_zero_vec(need);
        let ghost rx_before = self.uart.rx_view();
        let got = self.uart.read_bytes(&mut res);
        match got {
            None => {
                proof {
                    assert(buf_bytes(self.msg) =~= buf_bytes(self.msg) + rx_before.take(0));
                    assert(self.uart.rx_view() =~= rx_before.skip(0));
                }
            },
            Some(readlen) => {
                let mut m = buf_new();
                core::mem::swap(&mut m, &mut self.msg);
                proof {
                    assert(res@.take(readlen as int) =~= rx_before.take(readlen as int));
                }
                let m2 = buf_append_take(m, &res, readlen);
                self.msg = m2;
            },
        }
    }

    /// Check the checksum of the complete frame in the buffer and, when
    /// it validates, destuff it and hand it out.
    fn finish_frame(&mut self) -> (r: Result<PacketBuf, CommunicationResult>)
        requires
            old(self).baudrate > 0,
            10 <= old(self).wait_length <= MAX_PACKET_LEN,
            buf_bytes(old(self).msg).len() >= old(self).wait_length,
            buf_bytes(old(self).msg).len() <= MAX_PACKET_LEN,
            ({
                let m = buf_bytes(old(self).msg);
                m[0] == 0xFF && m[1] == 0xFF && m[2] == 0xFD && m[3] == 0x00 && (m[4] <= 0xFC
                    || m[4] == BROADCAST_ID) && u16_of_le(m[5], m[6]) + 7 == old(self).wait_length
            }),
        ensures
            final(self).wf(),
            final(self).uart == old(self).uart,
            final(self).ctd == old(self).ctd,
            final(self).parsing_state == old(self).parsing_state,
            final(self).return_packet == old(self).return_packet,
            final(self).baudrate == old(self).baudrate,
            final(self).last_received_id == old(self).last_received_id,
            final(self).last_received_command == old(self).last_received_command,
            final(self).packet_return_time == old(self).packet_return_time,
            final(self).clock == old(self).clock,
            final(self).packet_receiving_state == PacketReceivingState::Init,
            ({
                let m = buf_bytes(old(self).msg).take(old(self).wait_length as int);
                &&& (r is Ok <==> u16_of_le(m[m.len() - 2], m[m.len() - 1]) == crc16(
                    m.take(m.len() - 2),
                ))
                &&& match r {
                    Ok(v) => valid_raw_frame(m) && buf_bytes(v) == unstuff_frame(m)
                        && dispatchable(buf_bytes(v)),
                    Err(e) => e == CommunicationResult::RxCRCError,
                }
            }),
    {
        let ghost m0 = buf_bytes(old(self).msg).take(old(self).wait_length as int);
        let wl = self.wait_length;
        let crc_lo = buf_get(&self.msg, wl - 2);
        let crc_hi = buf_get(&self.msg, wl - 1);
        let crc_stored = make_u16(crc_lo, crc_hi);
        let head = buf_read_region(&self.msg, 0, wl - 2);
        let crc_calc = calc_crc(head.as_slice());
        self.is_using = false;
        self.packet_receiving_state = PacketReceivingState::Init;
        if crc_calc == crc_stored {
            let mut m = buf_new();
            core::mem::swap(&mut m, &mut self.msg);
            buf_truncate(&mut m, wl);
            let ghost raw = buf_bytes(m);
            proof {
                assert(raw =~= m0);
                assert(raw.take(wl - 2) =~= head@);
                assert(valid_raw_frame(raw));
                lemma_unstuff_frame_valid(raw);
            }
            remove_stuffing(&mut m);
            return Ok(m);
        } else {
            proof {
                assert(m0.take(m0.len() - 2) =~= head@);
                assert(m0[m0.len() - 2] == crc_lo && m0[m0.len() - 1] == crc_hi);
            }
            return Err(CommunicationResult::RxCRCError);
        }
    }

    /// Dispatch one received frame. A frame addressed elsewhere changes
    /// nothing; PING and SYNC_READ prepare a reply and wait for
    /// lower-ID peers; READ and WRITE prepare a reply and wait only for
    /// the return delay; WRITE and SYNC_WRITE update the store exactly
    /// as the frame says, clipped to the table; SYNC_WRITE sends no
    /// reply. A frame too short for its instruction's parameters
    /// changes nothing.
    pub fn handle_frame(&mut self, v: &PacketBuf)
        requires
            old(self).wf(),
            dispatchable(buf_bytes(*v)),
        ensures
            final(self).wf(),
            final(self).uart == old(self).uart,
            final(self).clock == old(self).clock,
            final(self).msg == old(self).msg,
            final(self).wait_length == old(self).wait_length,
            final(self).baudrate == old(self).baudrate,
            final(self).packet_receiving_state == old(self).packet_receiving_state,
            final(self).packet_return_time == old(self).packet_return_time,
            final(self).last_received_id == old(self).last_received_id,
            ({
                let f = buf_bytes(*v);
                let t = old(self).ctd@;
                let my = t[7];
                &&& (!addressed_to(f, my) ==> *final(self) == *old(self))
                &&& (addressed_to(f, my) && frame_inst(f) == 0x01 ==> {
                    &&& final(self).ctd@ == t
                    &&& buf_bytes(final(self).return_packet) == status_frame(
                        my,
                        seq![t[0], t[1], t[6]],
                    )
                    &&& final(self).parsing_state
                        == ProtocolHandlerParsingState::WaitForOthersResponsePacket
                    &&& final(self).last_received_command == 0x01
                })
                &&& (addressed_to(f, my) && frame_inst(f) == 0x02 ==> if frame_len(f) >= 7 {
                    &&& final(self).ctd@ == t
                    &&& buf_bytes(final(self).return_packet) == status_frame(
                        my,
                        read_payload(t, frame_addr(f), frame_rlen(f)),
                    )
                    &&& final(self).parsing_state == ProtocolHandlerParsingState::WaitReturnDelayTime
                    &&& final(self).last_received_command == 0x02
                } else {
                    *final(self) == *old(self)
                })
                &&& (addressed_to(f, my) && frame_inst(f) == 0x03 ==> if frame_len(f) >= 5 {
                    let t2 = spec_write_bytes(t, frame_addr(f), write_data(f));
                    &&& final(self).ctd@ == t2
                    &&& buf_bytes(final(self).return_packet) == status_frame(
                        t2[7],
                        Seq::<u8>::empty(),
                    )
                    &&& final(self).parsing_state == ProtocolHandlerParsingState::WaitReturnDelayTime
                    &&& final(self).last_received_command == 0x03
                } else {
                    *final(self) == *old(self)
                })
                &&& (addressed_to(f, my) && frame_inst(f) == 0x82 ==> if frame_len(f) >= 7 {
                    &&& final(self).ctd@ == t
                    &&& buf_bytes(final(self).return_packet) == status_frame(
                        my,
                        read_payload(t, frame_addr(f), frame_rlen(f)),
                    )
                    &&& final(self).parsing_state
                        == ProtocolHandlerParsingState::WaitForOthersResponsePacket
                    &&& final(self).last_received_command == 0x82
                } else {
                    *final(self) == *old(self)
                })
                &&& (addressed_to(f, my) && frame_inst(f) == 0x83 ==> if frame_len(f) >= 7 {
                    &&& final(self).ctd@ == sync_apply(t, f, 0)
                    &&& final(self).return_packet == old(self).return_packet
                    &&& final(self).parsing_state == ProtocolHandlerParsingState::Init
                    &&& final(self).last_received_command == old(self).last_received_command
                } else {
                    *final(self) == *old(self)
                })
                &&& (addressed_to(f, my) && frame_inst(f) != 0x01 && frame_inst(f) != 0x02
                    && frame_inst(f) != 0x03 && frame_inst(f) != 0x82 && frame_inst(f) != 0x83
                    ==> *final(self) == *old(self))
            }),
    {
        let ghost f = buf_bytes(*v);
        let id_byte = buf_get(v, 4);
        let my = self.ctd.read().id();
        if id_byte != BROADCAST_ID && id_byte != my {
            // not for this device
            return ;
        }
        let l0 = buf_get(v, 5);
        let l1 = buf_get(v, 6);
        let length = make_u16(l0, l1) as usize;
        let inst = buf_get(v, 7);
        if inst == Instruction::Ping.code() {
            // PING: model number and firmware version, then wait for peers
            let r = self.ctd.read();
            let reply = self.ping_response_packet(my, r.model_number(), r.firmware_version());
            proof {
                let t = old(self).ctd@;
                lemma_le_u16_round_trip(t[0], t[1]);
                assert(le16_bytes(u16_of_le(t[0], t[1])) + seq![t[6]] =~= seq![t[0], t[1], t[6]]);
            }
            self.return_packet = reply;
            self.last_received_command = Instruction::Ping.code();
            self.parsing_state = ProtocolHandlerParsingState::WaitForOthersResponsePacket;
        } else if inst == Instruction::Read.code() || inst == Instruction::SyncRead.code() {
            // READ or SYNC_READ: the requested stored bytes
            if length < 7 {
                return ;
            }
            let addr = make_u16(buf_get(v, 8), buf_get(v, 9)) as usize;
            let rlen = make_u16(buf_get(v, 10), buf_get(v, 11)) as usize;
            let payload = self.read_table_region(addr, rlen);
            let reply = self.read_response_packet(my, &payload);
            self.return_packet = reply;
            if inst == Instruction::Read.code() {
                self.last_received_command = Instruction::Read.code();
                self.parsing_state = ProtocolHandlerParsingState::WaitReturnDelayTime;
            } else {
                self.last_received_command = Instruction::SyncRead.code();
                self.parsing_state = ProtocolHandlerParsingState::WaitForOthersResponsePacket;
            }
        } else if inst == Instruction::Write.code() {
            // WRITE: store the data, acknowledge
            if length < 5 {
                return ;
            }
            let addr = make_u16(buf_get(v, 8), buf_get(v, 9)) as usize;
            let data_len = length - 5;
            let data = buf_read_region(v, 10, 10 + data_len);
            self.ctd.write_bytes(addr, data.as_slice());
            proof {
                assert(data@ =~= write_data(f));
            }
            let new_id = self.ctd.read().id();
            let reply = self.write_response_packet(new_id);
            self.return_packet = reply;
            self.last_received_command = Instruction::Write.code();
            self.parsing_state = ProtocolHandlerParsingState::WaitReturnDelayTime;
        } else if inst == Instruction::SyncWrite.code() {
            // SYNC_WRITE: apply each tuple addressed to this device; no reply
            if length < 7 {
                return ;
            }
            let addr = make_u16(buf_get(v, 8), buf_get(v, 9)) as usize;
            let dlen = make_u16(buf_get(v, 10), buf_get(v, 11)) as usize;
            let tuple = dlen + 1;
            let count = (length - 7) / tuple;
            let ghost t0 = self.ctd@;
            proof {
                vstd::arithmetic::div_mod::lemma_fundamental_div_mod(
                    length as int - 7,
                    tuple as int,
                );
                vstd::arithmetic::div_mod::lemma_mod_bound(length as int - 7, tuple as int);
                vstd::arithmetic::mul::lemma_mul_is_commutative(tuple as int, count as int);
                assert(count as int * tuple as int <= length as int - 7);
            }
            let mut i: usize = 0;
            while i < count
                invariant
                    i <= count,
                    dispatchable(f),
                    f == buf_bytes(*v),
                    frame_len(f) == length,
                    7 <= length <= 121,
                    tuple == dlen + 1,
                    dlen == frame_rlen(f),
                    addr == frame_addr(f),
                    count == sync_tuple_count(f),
                    count * tuple <= length - 7,
                    sync_apply(t0, f, 0) == sync_apply(self.ctd@, f, i as int),
                    self.uart == old(self).uart,
                    self.clock == old(self).clock,
                    self.msg == old(self).msg,
                    self.wait_length == old(self).wait_length,
                    self.baudrate == old(self).baudrate,
                    self.packet_receiving_state == old(self).packet_receiving_state,
                    self.packet_return_time == old(self).packet_return_time,
                    self.last_received_id == old(self).last_received_id,
                    self.last_received_command == old(self).last_received_command,
                    self.parsing_state == old(self).parsing_state,
                    self.return_packet == old(self).return_packet,
                decreases count - i,
            {
                proof {
                    vstd::arithmetic::mul::lemma_mul_inequality(
                        i as int + 1,
                        count as int,
                        tuple as int,
                    );
                    assert((i + 1) * tuple == i * tuple + tuple) by (nonlinear_arith);
                }
                let pos = 12 + i * tuple;
                let tid = buf_get(v, pos);
                let my_now = self.ctd.read().id();
                if tid == my_now {
                    let data = buf_read_region(v, pos + 1, pos + 1 + dlen);
                    self.ctd.write_bytes(addr, data.as_slice());
                }
                i = i + 1;
            }
            self.parsing_state = ProtocolHandlerParsingState::Init;
        } else {
            // unsupported instruction: stay silent
        }
    }

    /// One tick of the handler: receive at most one frame, dispatch it,
    /// share the bus with lower-ID peers on broadcast queries, and
    /// transmit at most the prepared reply. Whatever arrives:
    /// - bytes leave the transport's receive side in order and none are
    ///   invented;
    /// - the transmit side either stays as it was or grows by exactly
    ///   the prepared reply, and only with the handler reset afterwards;
    /// - while a command is still being awaited nothing is transmitted
    ///   and nothing in the store or the reply changes;
    /// - when a command was being awaited, a transmit can only follow a
    ///   checksum-valid frame addressed to this device, and what is
    ///   transmitted is exactly that frame's response;
    /// - the store changes only as an addressed WRITE or SYNC_WRITE
    ///   frame says;
    /// - nothing is transmitted before the return-delay gate has passed;
    /// - an empty tick changes nothing and settles into waiting;
    /// - in a broadcast round the reply is held while the bus is silent
    ///   and the per-peer window is open, released once the window has
    ///   elapsed, and otherwise goes out only after peer bytes were
    ///   consumed or the round was already over.
    pub fn parse_data(&mut self) -> (r: Result<(), ()>)
        requires
            old(self).wf(),
        ensures
            final(self).wf(),
            rx_suffix(final(self).uart.rx_view(), old(self).uart.rx_view()),
            final(self).uart.tx_view() == old(self).uart.tx_view() || final(self).uart.tx_view()
                == old(self).uart.tx_view() + buf_bytes(final(self).return_packet),
            final(self).uart.tx_view() != old(self).uart.tx_view() ==> final(self).parsing_state
                == ProtocolHandlerParsingState::Init && final(self).packet_receiving_state
                == PacketReceivingState::Init && final(self).last_received_id == 1,
            r is Err ==> final(self).parsing_state == ProtocolHandlerParsingState::Init && final(self).ctd@ == old(self).ctd@ && final(self).uart.tx_view() == old(self).uart.tx_view(),
            store_change_explained(old(self).ctd@, final(self).ctd@),
            (old(self).parsing_state == ProtocolHandlerParsingState::Init || old(self).parsing_state == ProtocolHandlerParsingState::WaitForCommandPacket) && final(self).uart.tx_view() != old(self).uart.tx_view() ==> exists|raw: Seq<u8>|
                #[trigger] valid_raw_frame(raw) && addressed_to(unstuff_frame(raw), old(self).ctd@[7])
                    && buf_bytes(final(self).return_packet) == response_for(
                    unstuff_frame(raw),
                    old(self).ctd@,
                ),
            (old(self).parsing_state == ProtocolHandlerParsingState::Init || old(self).parsing_state == ProtocolHandlerParsingState::WaitForCommandPacket) && final(self).parsing_state == ProtocolHandlerParsingState::WaitForCommandPacket ==> r is Ok
                && final(self).uart.tx_view() == old(self).uart.tx_view() && final(self).ctd@
                == old(self).ctd@ && final(self).return_packet == old(self).return_packet,
            // the reply is never transmitted before the return-delay gate
            final(self).uart.tx_view() != old(self).uart.tx_view() ==> old(self).clock.time_view()
                >= final(self).packet_return_time,
            // an empty tick: nothing arrives, nothing changes, the handler
            // settles into waiting for a command
            old(self).uart.rx_view().len() == 0 && (old(self).parsing_state
                == ProtocolHandlerParsingState::Init || old(self).parsing_state
                == ProtocolHandlerParsingState::WaitForCommandPacket) ==> r is Ok && final(self).uart.tx_view() == old(self).uart.tx_view() && final(self).parsing_state
                == ProtocolHandlerParsingState::WaitForCommandPacket && final(self).packet_receiving_state == PacketReceivingState::Waiting && final(self).ctd@ == old(self).ctd@ && final(self).return_packet == old(self).return_packet,
            // a failed tick needs input: only a corrupted frame fails
            r is Err ==> old(self).uart.rx_view().len() > 0,
            // a broadcast round with a silent bus holds its reply while the
            // per-peer window is open ...
            (old(self).parsing_state == ProtocolHandlerParsingState::WaitForOthersResponsePacket
                && old(self).last_received_id < old(self).ctd@[7] && old(self).uart.rx_view().len() == 0 && old(self).clock.time_view() <= peer_wait_us(
                buf_bytes(old(self).return_packet).len() as int,
                old(self).baudrate as int,
            )) ==> r is Ok && final(self).uart.tx_view() == old(self).uart.tx_view() && final(self).parsing_state == ProtocolHandlerParsingState::WaitForOthersResponsePacket,
            // ... and releases it once every silent peer has timed out and
            // the return delay has passed
            (old(self).parsing_state == ProtocolHandlerParsingState::WaitForOthersResponsePacket
                && old(self).last_received_id < old(self).ctd@[7] && old(self).uart.rx_view().len() == 0 && old(self).clock.time_view() > peer_wait_us(
                buf_bytes(old(self).return_packet).len() as int,
                old(self).baudrate as int,
            ) && old(self).clock.time_view() >= old(self).packet_return_time) ==> r is Ok && final(self).uart.tx_view() == old(self).uart.tx_view() + buf_bytes(old(self).return_packet)
                && final(self).parsing_state == ProtocolHandlerParsingState::Init,
            // in a broadcast round the reply goes out only once the round
            // was already over, the per-peer window had elapsed, or peer
            // bytes were consumed off the bus
            (old(self).parsing_state == ProtocolHandlerParsingState::WaitForOthersResponsePacket
                && final(self).uart.tx_view() != old(self).uart.tx_view()) ==> (old(
                self,
            ).last_received_id >= old(self).ctd@[7] || old(self).clock.time_view() > peer_wait_us(
                buf_bytes(old(self).return_packet).len() as int,
                old(self).baudrate as int,
            ) || final(self).uart.rx_view().len() < old(self).uart.rx_view().len()),
    {
        let ghost t0 = old(self).ctd@;
        let ghost my0 = old(self).ctd@[7];
        proof {
            lemma_rx_suffix_refl(self.uart.rx_view());
        }
        if self.parsing_state == ProtocolHandlerParsingState::Init || self.parsing_state
            == ProtocolHandlerParsingState::WaitForCommandPacket {
            // a command from the master: no timeout applies
            match self.receive_packet(0) {
                Ok(v) => {
                    let ghost raw_w = choose|raw: Seq<u8>|
                        #[trigger] valid_raw_frame(raw) && buf_bytes(v) == unstuff_frame(raw);
                    let id_byte = buf_get(&v, 4);
                    let my = self.ctd.read().id();
                    if id_byte != BROADCAST_ID && id_byte != my {
                        // not broadcast and not ours: nothing to do
                        return Ok(());
                    }
                    self.handle_frame(&v);
                    if self.parsing_state == ProtocolHandlerParsingState::Init
                        || self.parsing_state
                        == ProtocolHandlerParsingState::WaitForCommandPacket {
                        // nothing to send back
                        return Ok(());
                    }
                    // gate the reply on the configured return delay time
                    let rdt = self.ctd.read().return_delay_time();
                    let now = self.clock.get_current_time();
                    let delay = 2 * (rdt as u64);
                    self.packet_return_time = if now > u64::MAX - delay {
                        u64::MAX
                    } else {
                        now + delay
                    };
                },
                Err(e) => {
                    if e == CommunicationResult::RxWaiting {
                        self.parsing_state = ProtocolHandlerParsingState::WaitForCommandPacket;
                        return Ok(());
                    } else {
                        self.parsing_state = ProtocolHandlerParsingState::Init;
                        return Err(());
                    }
                },
            }
        }
        if self.parsing_state == ProtocolHandlerParsingState::WaitForOthersResponsePacket {
            // wait for each lower-ID peer to answer first
            let my = self.ctd.read().id();
            let mut k = self.last_received_id;
            while k < my
                invariant_except_break
                    self.parsing_state
                        == ProtocolHandlerParsingState::WaitForOthersResponsePacket,
                invariant
                    old(self).wf(),
                    self.wf(),
                    self.baudrate == old(self).baudrate,
                    self.clock == old(self).clock,
                    my == old(self).ctd@[7],
                    self.ctd@ == old(self).ctd@,
                    self.parsing_state == ProtocolHandlerParsingState::WaitForOthersResponsePacket
                        || self.parsing_state == ProtocolHandlerParsingState::WaitReturnDelayTime,
                    self.uart.tx_view() == old(self).uart.tx_view(),
                    rx_suffix(self.uart.rx_view(), old(self).uart.rx_view()),
                    old(self).parsing_state
                        == ProtocolHandlerParsingState::WaitForOthersResponsePacket
                        ==> self.packet_return_time == old(self).packet_return_time,
                    (old(self).parsing_state
                        == ProtocolHandlerParsingState::WaitForOthersResponsePacket && old(self).uart.rx_view().len() == 0 && old(self).clock.time_view() <= peer_wait_us(
                        buf_bytes(old(self).return_packet).len() as int,
                        old(self).baudrate as int,
                    )) ==> k == old(self).last_received_id,
                    (old(self).parsing_state == ProtocolHandlerParsingState::Init || old(
                        self,
                    ).parsing_state == ProtocolHandlerParsingState::WaitForCommandPacket) ==> old(
                        self,
                    ).uart.rx_view().len() > 0,
                    old(self).parsing_state
                        == ProtocolHandlerParsingState::WaitForOthersResponsePacket ==> k >= old(
                        self,
                    ).last_received_id,
                    (old(self).parsing_state
                        == ProtocolHandlerParsingState::WaitForOthersResponsePacket && k > old(
                        self,
                    ).last_received_id) ==> (old(self).clock.time_view() > peer_wait_us(
                        buf_bytes(old(self).return_packet).len() as int,
                        old(self).baudrate as int,
                    ) || self.uart.rx_view().len() < old(self).uart.rx_view().len()),
                    self.return_packet == old(self).return_packet || (
                    old(self).parsing_state == ProtocolHandlerParsingState::Init || old(self).parsing_state == ProtocolHandlerParsingState::WaitForCommandPacket),
                    (old(self).parsing_state == ProtocolHandlerParsingState::Init || old(self).parsing_state == ProtocolHandlerParsingState::WaitForCommandPacket)
                        ==> exists|raw: Seq<u8>|
                        #[trigger] valid_raw_frame(raw) && addressed_to(unstuff_frame(raw), my0)
                            && buf_bytes(self.return_packet) == response_for(
                            unstuff_frame(raw),
                            t0,
                        ),
                    my0 == old(self).ctd@[7],
                ensures
                    (old(self).parsing_state
                        == ProtocolHandlerParsingState::WaitForOthersResponsePacket && old(
                        self,
                    ).uart.rx_view().len() == 0 && old(self).clock.time_view() <= peer_wait_us(
                        buf_bytes(old(self).return_packet).len() as int,
                        old(self).baudrate as int,
                    )) ==> old(self).last_received_id >= old(self).ctd@[7],
                    old(self).parsing_state
                        == ProtocolHandlerParsingState::WaitForOthersResponsePacket ==> (old(
                        self,
                    ).last_received_id >= old(self).ctd@[7] || old(self).clock.time_view()
                        > peer_wait_us(
                        buf_bytes(old(self).return_packet).len() as int,
                        old(self).baudrate as int,
                    ) || self.uart.rx_view().len() < old(self).uart.rx_view().len()),
                decreases my - k,
            {
                let rp_len = buf_len(&self.return_packet);
                // one peer frame's time on the wire, plus return-delay slack
                let wait_us = (rp_len as u32) * 8 * 1_000_000 / self.baudrate + 500;
                let ghost rx_pre = self.uart.rx_view();
                let rcv = self.receive_packet(wait_us as u64);
                proof {
                    lemma_rx_suffix_trans(self.uart.rx_view(), rx_pre, old(self).uart.rx_view());
                    let k1 = choose|k1: int|
                        0 <= k1 <= old(self).uart.rx_view().len() && rx_pre == #[trigger] old(
                            self,
                        ).uart.rx_view().skip(k1);
                    let k2 = choose|k2: int|
                        0 <= k2 <= rx_pre.len() && self.uart.rx_view() == #[trigger] rx_pre.skip(
                            k2,
                        );
                }
                match rcv {
                    Ok(ov) => {
                        let oid = buf_get(&ov, 4);
                        self.last_received_id = oid;
                        if oid == my - 1 {
                            // every lower ID has spoken
                            self.parsing_state = ProtocolHandlerParsingState::WaitReturnDelayTime;
                            break ;
                        }
                    },
                    Err(e) => {
                        if e == CommunicationResult::RxWaiting {
                            return Ok(());
                        } else if e == CommunicationResult::RxTimeout {
                            // a silent peer is skipped
                        } else {
                            self.parsing_state = ProtocolHandlerParsingState::Init;
                            return Err(());
                        }
                    },
                }
                k = k + 1;
            }
        }
        // transmit once the return delay has passed
        self.parsing_state = ProtocolHandlerParsingState::WaitReturnDelayTime;
        let now = self.clock.get_current_time();
        if now < self.packet_return_time {
            return Ok(());
        }
        self.uart.write_bytes(buf_as_slice(&self.return_packet));
        self.parsing_state = ProtocolHandlerParsingState::Init;
        self.packet_receiving_state = PacketReceivingState::Init;
        self.last_received_id = 1;
        Ok(())
    }

    /// The stored bytes a READ or SYNC_READ asks for, clipped to the
    /// table and to what a status frame can carry.
    fn read_table_region(&self, addr: usize, rlen: usize) -> (r: Vec<u8>)
        ensures
            r@ == read_payload(self.ctd@, addr as int, rlen as int),
            r@.len() <= MAX_RESPONSE_PAYLOAD,
    {
        proof {
            use_type_invariant(&self.ctd);
        }
        let snapshot = self.ctd.read();
        let bits = snapshot.bits();
        let avail = if addr < CONTROL_TABLE_SIZE {
            CONTROL_TABLE_SIZE - addr
        } else {
            0
        };
        let n0 = if rlen <= avail {
            rlen
        } else {
            avail
        };
        let n = if n0 <= MAX_RESPONSE_PAYLOAD {
            n0
        } else {
            MAX_RESPONSE_PAYLOAD
        };
        let mut payload: Vec<u8> = Vec::new();
        let mut k: usize = 0;
        while k < n
            invariant
                k <= n,
                n > 0 ==> addr + n <= CONTROL_TABLE_SIZE,
                bits@ == self.ctd@,
                bits@.len() == CONTROL_TABLE_SIZE as int,
                payload@ =~= self.ctd@.subrange(addr as int, addr as int + k as int) || (k == 0
                    && payload@ == Seq::<u8>::empty()),
                payload@.len() == k as int,
            decreases n - k,
        {
            payload.push(bits[addr + k]);
            proof {
                assert(payload@ =~= self.ctd@.subrange(addr as int, addr as int + k + 1));
            }
            k = k + 1;
        }
        proof {
            assert(payload@ =~= read_payload(self.ctd@, addr as int, rlen as int));
        }
        payload
    }
}

} // verus!
