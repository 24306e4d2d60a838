//! Firmware-side handler for the Dynamixel 2.0 servo protocol.
//!
//! The crate implements the slave side of the half-duplex serial bus:
//! an incremental packet receiver with header resynchronization,
//! byte-destuffing and CRC-16 validation, a dispatcher for the
//! PING / READ / WRITE / SYNC_READ / SYNC_WRITE instructions, and a
//! byte-addressable control table with typed field accessors.
#![allow(unused_imports)]

pub mod buffer;
pub mod control_table;
pub mod crc;
pub mod instruction;
pub mod packet_buf;
pub mod packet_handler;
pub mod stuffing;
pub mod wire;

pub use control_table::ControlTable;
pub use control_table::ControlTableData;
pub use instruction::Instruction;
pub use packet_handler::CommunicationResult;
pub use packet_handler::DynamixelProtocolHandler;

use vstd::prelude::*;

verus! {

/// The byte transport the handler drives: a non-blocking UART-like
/// sink and source. The handler owns it exclusively.
///
/// `tx_view` models every byte ever handed to the transport for
/// sending, `rx_view` the bytes waiting to be read. Implementations
/// live outside the library; the handler's proofs rest on these
/// contracts, which any faithful byte queue meets.
pub trait BufferInterface {
    /// All bytes written for transmission so far, in order. The
    /// default model is the empty stream; an implementation verified
    /// against this trait supplies its own.
    open spec fn tx_view(&self) -> Seq<u8> {
        Seq::<u8>::empty()
    }

    /// The bytes waiting to be read, in arrival order. The default
    /// model is the empty stream; an implementation verified against
    /// this trait supplies its own.
    open spec fn rx_view(&self) -> Seq<u8> {
        Seq::<u8>::empty()
    }

    /// Queue one byte for transmission.
    fn write_byte(&mut self, data: u8)
        ensures
            final(self).tx_view() == old(self).tx_view().push(data),
            final(self).rx_view() == old(self).rx_view(),
    ;

    /// Queue a run of bytes for transmission.
    fn write_bytes(&mut self, data: &[u8])
        ensures
            final(self).tx_view() == old(self).tx_view() + data@,
            final(self).rx_view() == old(self).rx_view(),
    ;

    /// Take the next received byte, if one is waiting.
    fn read_byte(&mut self) -> (r: Option<u8>)
        ensures
            final(self).tx_view() == old(self).tx_view(),
            match r {
                Some(b) => old(self).rx_view().len() > 0 && b == old(self).rx_view()[0]
                    && final(self).rx_view() == old(self).rx_view().skip(1),
                None => final(self).rx_view() == old(self).rx_view(),
            },
    ;

    /// Fill a prefix of `buf` with waiting bytes; the count read may be
    /// less than the buffer's length, and may be zero.
    fn read_bytes(&mut self, buf: &mut Vec<u8>) -> (r: Option<usize>)
        ensures
            final(self).tx_view() == old(self).tx_view(),
            final(buf)@.len() == old(buf)@.len(),
            match r {
                Some(n) => n <= old(buf)@.len() && n <= old(self).rx_view().len() && final(buf)@
                    == old(self).rx_view().take(n as int) + old(buf)@.skip(n as int)
                    && final(self).rx_view() == old(self).rx_view().skip(n as int),
                None => final(self).rx_view() == old(self).rx_view() && final(buf)@ == old(buf)@,
            },
    ;

    /// Drop every byte waiting to be read.
    fn clear_read_buf(&mut self)
        ensures
            final(self).tx_view() == old(self).tx_view(),
            final(self).rx_view() == Seq::<u8>::empty(),
    ;
}

/// A monotonic clock; only elapsed time matters, so the origin is
/// arbitrary. The value is in microseconds.
///
/// `time_view` models the clock's reading. The handler runs one tick
/// at a time and holds the clock immutably while it does, so within a
/// tick the reading is treated as one timestamp; between ticks the
/// embedding advances it.
pub trait Clock {
    /// The clock's reading, in microseconds since its origin. The
    /// default model is the origin itself; an implementation verified
    /// against this trait supplies its own.
    open spec fn time_view(&self) -> u64 {
        0
    }

    /// Time since the clock's origin, in microseconds.
    fn get_current_time(&self) -> (r: u64)
        ensures
            r == self.time_view(),
    ;
}

} // verus!
