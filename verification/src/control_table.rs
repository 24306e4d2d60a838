//! The control table: the byte-addressable register map through which
//! a servo exposes its state. A static schema gives each named field a
//! byte offset and width; the store is a 231-byte zero-initialized
//! array with typed little-endian accessors, read through snapshots
//! (`R`) and written through a by-value writer (`W`).
use vstd::prelude::*;

use crate::wire::{
    i16_of_le, i32_of_le, make_i16, make_i32, make_u16, make_u32, u16_hi, u16_high, u16_lo,
    u16_low, u16_of_le, u32_byte, u32_byte_at, u32_of_le,
};

verus! {

/// Number of addressable bytes in the store.
pub const CONTROL_TABLE_SIZE: usize = 231;

/// The all-zero content a fresh store holds.
pub open spec fn table_zeros() -> Seq<u8> {
    Seq::new(CONTROL_TABLE_SIZE as nat, |i: int| 0u8)
}

/// Raw bulk write into the store: bytes that would land past the end
/// of the table are silently dropped.
pub open spec fn spec_write_bytes(s: Seq<u8>, addr: int, data: Seq<u8>) -> Seq<u8> {
    Seq::new(s.len(), |i: int| if addr <= i < addr + data.len() { data[i - addr] } else { s[i] })
}

/// A raw bulk write puts the data at its addresses: every table byte in
/// `[addr, addr + data.len())` equals the corresponding data byte, every
/// table byte outside that range keeps its old value, and the table
/// keeps its size.
pub proof fn lemma_write_bytes_effect(s: Seq<u8>, addr: int, data: Seq<u8>)
    ensures
        spec_write_bytes(s, addr, data).len() == s.len(),
        forall|i: int|
            addr <= i < addr + data.len() && 0 <= i < s.len() ==> #[trigger] spec_write_bytes(
                s,
                addr,
                data,
            )[i] == data[i - addr],
        forall|i: int|
            0 <= i < s.len() && !(addr <= i < addr + data.len()) ==> #[trigger] spec_write_bytes(
                s,
                addr,
                data,
            )[i] == s[i],
{
}

/// The named fields of the control table.
#[derive(Clone, Copy, PartialEq, Eq, Structural)]
pub enum ControlTable {
    ModelNumber,
    ModelInformation,
    FirmwareVersion,
    ID,
    BaudRate,
    ReturnDelayTime,
    DriveMode,
    OperatingMode,
    SecondaryID,
    ProtocolType,
    HomingOffset,
    MovingThreshold,
    TemperatureLimit,
    MaxVoltageLimit,
    MinVoltageLimit,
    PWMLimit,
    CurrentLimit,
    VelocityLimit,
    MaxPositionLimit,
    MinPositionLimit,
    StartupConfiguration,
    PWMSlope,
    Shutdown,
    TorqueEnable,
    LED,
    StatusReturnLevel,
    RegisteredInstruction,
    HardwareErrorStatus,
    VelocityIGain,
    VelocityPgain,
    PositionDGain,
    PositionIGain,
    PositionPGain,
    Feedforward2ndGain,
    Feedforward1stGain,
    BusWatchdog,
    GoalPWM,
    GoalCurrent,
    GoalVelocity,
    ProfileAccleration,
    ProfileVelocity,
    GoalPosition,
    RealtimeTick,
    Moving,
    MovingStatus,
    PresentPWM,
    PresentCurrent,
    PresentVelocity,
    PresentPosition,
    VelocityTrajectory,
    PositionTrajectory,
    PresentInputVoltage,
    PresentTemperature,
    BackupReady,
    IndirectAddress1,
    IndirectAddress2,
    IndirectAddress3,
    IndirectAddress4,
    IndirectAddress5,
    IndirectAddress6,
    IndirectAddress7,
    IndirectAddress8,
    IndirectAddress9,
    IndirectAddress10,
    IndirectAddress11,
    IndirectAddress12,
    IndirectAddress13,
    IndirectAddress14,
    IndirectAddress15,
    IndirectAddress16,
    IndirectAddress17,
    IndirectAddress18,
    IndirectAddress19,
    IndirectAddress20,
    IndirectData1,
    IndirectData2,
    IndirectData3,
    IndirectData4,
    IndirectData5,
    IndirectData6,
    IndirectData7,
    IndirectData8,
    IndirectData9,
    IndirectData10,
    IndirectData11,
    IndirectData12,
    IndirectData13,
    IndirectData14,
    IndirectData15,
    IndirectData16,
    IndirectData17,
    IndirectData18,
    IndirectData19,
    IndirectData20,
}

impl ControlTable {
    /// Byte offset of the field in the store.
    pub open spec fn spec_address(&self) -> u16 {
        match self {
            ControlTable::ModelNumber => 0,
            ControlTable::ModelInformation => 2,
            ControlTable::FirmwareVersion => 6,
            ControlTable::ID => 7,
            ControlTable::BaudRate => 8,
            ControlTable::ReturnDelayTime => 9,
            ControlTable::DriveMode => 10,
            ControlTable::OperatingMode => 11,
            ControlTable::SecondaryID => 12,
            ControlTable::ProtocolType => 13,
            ControlTable::HomingOffset => 20,
            ControlTable::MovingThreshold => 24,
            ControlTable::TemperatureLimit => 31,
            ControlTable::MaxVoltageLimit => 32,
            ControlTable::MinVoltageLimit => 34,
            ControlTable::PWMLimit => 36,
            ControlTable::CurrentLimit => 38,
            ControlTable::VelocityLimit => 44,
            ControlTable::MaxPositionLimit => 48,
            ControlTable::MinPositionLimit => 52,
            ControlTable::StartupConfiguration => 60,
            ControlTable::PWMSlope => 62,
            ControlTable::Shutdown => 63,
            ControlTable::TorqueEnable => 64,
            ControlTable::LED => 65,
            ControlTable::StatusReturnLevel => 68,
            ControlTable::RegisteredInstruction => 69,
            ControlTable::HardwareErrorStatus => 70,
            ControlTable::VelocityIGain => 76,
            ControlTable::VelocityPgain => 78,
            ControlTable::PositionDGain => 80,
            ControlTable::PositionIGain => 82,
            ControlTable::PositionPGain => 84,
            ControlTable::Feedforward2ndGain => 88,
            ControlTable::Feedforward1stGain => 90,
            ControlTable::BusWatchdog => 98,
            ControlTable::GoalPWM => 100,
            ControlTable::GoalCurrent => 102,
            ControlTable::GoalVelocity => 104,
            ControlTable::ProfileAccleration => 108,
            ControlTable::ProfileVelocity => 112,
            ControlTable::GoalPosition => 116,
            ControlTable::RealtimeTick => 120,
            ControlTable::Moving => 122,
            ControlTable::MovingStatus => 123,
            ControlTable::PresentPWM => 124,
            ControlTable::PresentCurrent => 126,
            ControlTable::PresentVelocity => 128,
            ControlTable::PresentPosition => 132,
            ControlTable::VelocityTrajectory => 136,
            ControlTable::PositionTrajectory => 140,
            ControlTable::PresentInputVoltage => 144,
            ControlTable::PresentTemperature => 146,
            ControlTable::BackupReady => 147,
            ControlTable::IndirectAddress1 => 168,
            ControlTable::IndirectAddress2 => 170,
            ControlTable::IndirectAddress3 => 172,
            ControlTable::IndirectAddress4 => 174,
            ControlTable::IndirectAddress5 => 176,
            ControlTable::IndirectAddress6 => 178,
            ControlTable::IndirectAddress7 => 180,
            ControlTable::IndirectAddress8 => 182,
            ControlTable::IndirectAddress9 => 184,
            ControlTable::IndirectAddress10 => 186,
            ControlTable::IndirectAddress11 => 188,
            ControlTable::IndirectAddress12 => 190,
            ControlTable::IndirectAddress13 => 192,
            ControlTable::IndirectAddress14 => 194,
            ControlTable::IndirectAddress15 => 196,
            ControlTable::IndirectAddress16 => 198,
            ControlTable::IndirectAddress17 => 200,
            ControlTable::IndirectAddress18 => 202,
            ControlTable::IndirectAddress19 => 204,
            ControlTable::IndirectAddress20 => 206,
            ControlTable::IndirectData1 => 208,
            ControlTable::IndirectData2 => 209,
            ControlTable::IndirectData3 => 210,
            ControlTable::IndirectData4 => 211,
            ControlTable::IndirectData5 => 212,
            ControlTable::IndirectData6 => 213,
            ControlTable::IndirectData7 => 214,
            ControlTable::IndirectData8 => 215,
            ControlTable::IndirectData9 => 216,
            ControlTable::IndirectData10 => 217,
            ControlTable::IndirectData11 => 218,
            ControlTable::IndirectData12 => 219,
            ControlTable::IndirectData13 => 220,
            ControlTable::IndirectData14 => 221,
            ControlTable::IndirectData15 => 222,
            ControlTable::IndirectData16 => 223,
            ControlTable::IndirectData17 => 224,
            ControlTable::IndirectData18 => 225,
            ControlTable::IndirectData19 => 226,
            ControlTable::IndirectData20 => 227,
        }
    }

    /// Byte offset of the field in the store.
    pub fn to_address(&self) -> (r: u16)
        ensures
            r == self.spec_address(),
    {
        match self {
            ControlTable::ModelNumber => 0,
            ControlTable::ModelInformation => 2,
            ControlTable::FirmwareVersion => 6,
            ControlTable::ID => 7,
            ControlTable::BaudRate => 8,
            ControlTable::ReturnDelayTime => 9,
            ControlTable::DriveMode => 10,
            ControlTable::OperatingMode => 11,
            ControlTable::SecondaryID => 12,
            ControlTable::ProtocolType => 13,
            ControlTable::HomingOffset => 20,
            ControlTable::MovingThreshold => 24,
            ControlTable::TemperatureLimit => 31,
            ControlTable::MaxVoltageLimit => 32,
            ControlTable::MinVoltageLimit => 34,
            ControlTable::PWMLimit => 36,
            ControlTable::CurrentLimit => 38,
            ControlTable::VelocityLimit => 44,
            ControlTable::MaxPositionLimit => 48,
            ControlTable::MinPositionLimit => 52,
            ControlTable::StartupConfiguration => 60,
            ControlTable::PWMSlope => 62,
            ControlTable::Shutdown => 63,
            ControlTable::TorqueEnable => 64,
            ControlTable::LED => 65,
            ControlTable::StatusReturnLevel => 68,
            ControlTable::RegisteredInstruction => 69,
            ControlTable::HardwareErrorStatus => 70,
            ControlTable::VelocityIGain => 76,
            ControlTable::VelocityPgain => 78,
            ControlTable::PositionDGain => 80,
            ControlTable::PositionIGain => 82,
            ControlTable::PositionPGain => 84,
            ControlTable::Feedforward2ndGain => 88,
            ControlTable::Feedforward1stGain => 90,
            ControlTable::BusWatchdog => 98,
            ControlTable::GoalPWM => 100,
            ControlTable::GoalCurrent => 102,
            ControlTable::GoalVelocity => 104,
            ControlTable::ProfileAccleration => 108,
            ControlTable::ProfileVelocity => 112,
            ControlTable::GoalPosition => 116,
            ControlTable::RealtimeTick => 120,
            ControlTable::Moving => 122,
            ControlTable::MovingStatus => 123,
            ControlTable::PresentPWM => 124,
            ControlTable::PresentCurrent => 126,
            ControlTable::PresentVelocity => 128,
            ControlTable::PresentPosition => 132,
            ControlTable::VelocityTrajectory => 136,
            ControlTable::PositionTrajectory => 140,
            ControlTable::PresentInputVoltage => 144,
            ControlTable::PresentTemperature => 146,
            ControlTable::BackupReady => 147,
            ControlTable::IndirectAddress1 => 168,
            ControlTable::IndirectAddress2 => 170,
            ControlTable::IndirectAddress3 => 172,
            ControlTable::IndirectAddress4 => 174,
            ControlTable::IndirectAddress5 => 176,
            ControlTable::IndirectAddress6 => 178,
            ControlTable::IndirectAddress7 => 180,
            ControlTable::IndirectAddress8 => 182,
            ControlTable::IndirectAddress9 => 184,
            ControlTable::IndirectAddress10 => 186,
            ControlTable::IndirectAddress11 => 188,
            ControlTable::IndirectAddress12 => 190,
            ControlTable::IndirectAddress13 => 192,
            ControlTable::IndirectAddress14 => 194,
            ControlTable::IndirectAddress15 => 196,
            ControlTable::IndirectAddress16 => 198,
            ControlTable::IndirectAddress17 => 200,
            ControlTable::IndirectAddress18 => 202,
            ControlTable::IndirectAddress19 => 204,
            ControlTable::IndirectAddress20 => 206,
            ControlTable::IndirectData1 => 208,
            ControlTable::IndirectData2 => 209,
            ControlTable::IndirectData3 => 210,
            ControlTable::IndirectData4 => 211,
            ControlTable::IndirectData5 => 212,
            ControlTable::IndirectData6 => 213,
            ControlTable::IndirectData7 => 214,
            ControlTable::IndirectData8 => 215,
            ControlTable::IndirectData9 => 216,
            ControlTable::IndirectData10 => 217,
            ControlTable::IndirectData11 => 218,
            ControlTable::IndirectData12 => 219,
            ControlTable::IndirectData13 => 220,
            ControlTable::IndirectData14 => 221,
            ControlTable::IndirectData15 => 222,
            ControlTable::IndirectData16 => 223,
            ControlTable::IndirectData17 => 224,
            ControlTable::IndirectData18 => 225,
            ControlTable::IndirectData19 => 226,
            ControlTable::IndirectData20 => 227,
        }
    }

    /// Width of the field in bytes.
    pub open spec fn spec_size(&self) -> u16 {
        match self {
            ControlTable::ModelNumber => 2,
            ControlTable::ModelInformation => 4,
            ControlTable::FirmwareVersion => 1,
            ControlTable::ID => 1,
            ControlTable::BaudRate => 1,
            ControlTable::ReturnDelayTime => 1,
            ControlTable::DriveMode => 1,
            ControlTable::OperatingMode => 1,
            ControlTable::SecondaryID => 1,
            ControlTable::ProtocolType => 1,
            ControlTable::HomingOffset => 4,
            ControlTable::MovingThreshold => 4,
            ControlTable::TemperatureLimit => 1,
            ControlTable::MaxVoltageLimit => 2,
            ControlTable::MinVoltageLimit => 2,
            ControlTable::PWMLimit => 2,
            ControlTable::CurrentLimit => 2,
            ControlTable::VelocityLimit => 4,
            ControlTable::MaxPositionLimit => 4,
            ControlTable::MinPositionLimit => 4,
            ControlTable::StartupConfiguration => 1,
            ControlTable::PWMSlope => 1,
            ControlTable::Shutdown => 1,
            ControlTable::TorqueEnable => 1,
            ControlTable::LED => 1,
            ControlTable::StatusReturnLevel => 1,
            ControlTable::RegisteredInstruction => 1,
            ControlTable::HardwareErrorStatus => 1,
            ControlTable::VelocityIGain => 2,
            ControlTable::VelocityPgain => 2,
            ControlTable::PositionDGain => 2,
            ControlTable::PositionIGain => 2,
            ControlTable::PositionPGain => 2,
            ControlTable::Feedforward2ndGain => 2,
            ControlTable::Feedforward1stGain => 2,
            ControlTable::BusWatchdog => 1,
            ControlTable::GoalPWM => 2,
            ControlTable::GoalCurrent => 2,
            ControlTable::GoalVelocity => 4,
            ControlTable::ProfileAccleration => 4,
            ControlTable::ProfileVelocity => 4,
            ControlTable::GoalPosition => 4,
            ControlTable::RealtimeTick => 2,
            ControlTable::Moving => 1,
            ControlTable::MovingStatus => 1,
            ControlTable::PresentPWM => 2,
            ControlTable::PresentCurrent => 2,
            ControlTable::PresentVelocity => 4,
            ControlTable::PresentPosition => 4,
            ControlTable::VelocityTrajectory => 4,
            ControlTable::PositionTrajectory => 4,
            ControlTable::PresentInputVoltage => 2,
            ControlTable::PresentTemperature => 1,
            ControlTable::BackupReady => 1,
            ControlTable::IndirectAddress1 => 2,
            ControlTable::IndirectAddress2 => 2,
            ControlTable::IndirectAddress3 => 2,
            ControlTable::IndirectAddress4 => 2,
            ControlTable::IndirectAddress5 => 2,
            ControlTable::IndirectAddress6 => 2,
            ControlTable::IndirectAddress7 => 2,
            ControlTable::IndirectAddress8 => 2,
            ControlTable::IndirectAddress9 => 2,
            ControlTable::IndirectAddress10 => 2,
            ControlTable::IndirectAddress11 => 2,
            ControlTable::IndirectAddress12 => 2,
            ControlTable::IndirectAddress13 => 2,
            ControlTable::IndirectAddress14 => 2,
            ControlTable::IndirectAddress15 => 2,
            ControlTable::IndirectAddress16 => 2,
            ControlTable::IndirectAddress17 => 2,
            ControlTable::IndirectAddress18 => 2,
            ControlTable::IndirectAddress19 => 2,
            ControlTable::IndirectAddress20 => 2,
            ControlTable::IndirectData1 => 1,
            ControlTable::IndirectData2 => 1,
            ControlTable::IndirectData3 => 1,
            ControlTable::IndirectData4 => 1,
            ControlTable::IndirectData5 => 1,
            ControlTable::IndirectData6 => 1,
            ControlTable::IndirectData7 => 1,
            ControlTable::IndirectData8 => 1,
            ControlTable::IndirectData9 => 1,
            ControlTable::IndirectData10 => 1,
            ControlTable::IndirectData11 => 1,
            ControlTable::IndirectData12 => 1,
            ControlTable::IndirectData13 => 1,
            ControlTable::IndirectData14 => 1,
            ControlTable::IndirectData15 => 1,
            ControlTable::IndirectData16 => 1,
            ControlTable::IndirectData17 => 1,
            ControlTable::IndirectData18 => 1,
            ControlTable::IndirectData19 => 1,
            ControlTable::IndirectData20 => 1,
        }
    }

    /// Width of the field in bytes.
    pub fn to_size(&self) -> (r: u16)
        ensures
            r == self.spec_size(),
    {
        match self {
            ControlTable::ModelNumber => 2,
            ControlTable::ModelInformation => 4,
            ControlTable::FirmwareVersion => 1,
            ControlTable::ID => 1,
            ControlTable::BaudRate => 1,
            ControlTable::ReturnDelayTime => 1,
            ControlTable::DriveMode => 1,
            ControlTable::OperatingMode => 1,
            ControlTable::SecondaryID => 1,
            ControlTable::ProtocolType => 1,
            ControlTable::HomingOffset => 4,
            ControlTable::MovingThreshold => 4,
            ControlTable::TemperatureLimit => 1,
            ControlTable::MaxVoltageLimit => 2,
            ControlTable::MinVoltageLimit => 2,
            ControlTable::PWMLimit => 2,
            ControlTable::CurrentLimit => 2,
            ControlTable::VelocityLimit => 4,
            ControlTable::MaxPositionLimit => 4,
            ControlTable::MinPositionLimit => 4,
            ControlTable::StartupConfiguration => 1,
            ControlTable::PWMSlope => 1,
            ControlTable::Shutdown => 1,
            ControlTable::TorqueEnable => 1,
            ControlTable::LED => 1,
            ControlTable::StatusReturnLevel => 1,
            ControlTable::RegisteredInstruction => 1,
            ControlTable::HardwareErrorStatus => 1,
            ControlTable::VelocityIGain => 2,
            ControlTable::VelocityPgain => 2,
            ControlTable::PositionDGain => 2,
            ControlTable::PositionIGain => 2,
            ControlTable::PositionPGain => 2,
            ControlTable::Feedforward2ndGain => 2,
            ControlTable::Feedforward1stGain => 2,
            ControlTable::BusWatchdog => 1,
            ControlTable::GoalPWM => 2,
            ControlTable::GoalCurrent => 2,
            ControlTable::GoalVelocity => 4,
            ControlTable::ProfileAccleration => 4,
            ControlTable::ProfileVelocity => 4,
            ControlTable::GoalPosition => 4,
            ControlTable::RealtimeTick => 2,
            ControlTable::Moving => 1,
            ControlTable::MovingStatus => 1,
            ControlTable::PresentPWM => 2,
            ControlTable::PresentCurrent => 2,
            ControlTable::PresentVelocity => 4,
            ControlTable::PresentPosition => 4,
            ControlTable::VelocityTrajectory => 4,
            ControlTable::PositionTrajectory => 4,
            ControlTable::PresentInputVoltage => 2,
            ControlTable::PresentTemperature => 1,
            ControlTable::BackupReady => 1,
            ControlTable::IndirectAddress1 => 2,
            ControlTable::IndirectAddress2 => 2,
            ControlTable::IndirectAddress3 => 2,
            ControlTable::IndirectAddress4 => 2,
            ControlTable::IndirectAddress5 => 2,
            ControlTable::IndirectAddress6 => 2,
            ControlTable::IndirectAddress7 => 2,
            ControlTable::IndirectAddress8 => 2,
            ControlTable::IndirectAddress9 => 2,
            ControlTable::IndirectAddress10 => 2,
            ControlTable::IndirectAddress11 => 2,
            ControlTable::IndirectAddress12 => 2,
            ControlTable::IndirectAddress13 => 2,
            ControlTable::IndirectAddress14 => 2,
            ControlTable::IndirectAddress15 => 2,
            ControlTable::IndirectAddress16 => 2,
            ControlTable::IndirectAddress17 => 2,
            ControlTable::IndirectAddress18 => 2,
            ControlTable::IndirectAddress19 => 2,
            ControlTable::IndirectAddress20 => 2,
            ControlTable::IndirectData1 => 1,
            ControlTable::IndirectData2 => 1,
            ControlTable::IndirectData3 => 1,
            ControlTable::IndirectData4 => 1,
            ControlTable::IndirectData5 => 1,
            ControlTable::IndirectData6 => 1,
            ControlTable::IndirectData7 => 1,
            ControlTable::IndirectData8 => 1,
            ControlTable::IndirectData9 => 1,
            ControlTable::IndirectData10 => 1,
            ControlTable::IndirectData11 => 1,
            ControlTable::IndirectData12 => 1,
            ControlTable::IndirectData13 => 1,
            ControlTable::IndirectData14 => 1,
            ControlTable::IndirectData15 => 1,
            ControlTable::IndirectData16 => 1,
            ControlTable::IndirectData17 => 1,
            ControlTable::IndirectData18 => 1,
            ControlTable::IndirectData19 => 1,
            ControlTable::IndirectData20 => 1,
        }
    }
}

/// Copy of a byte vector, element for element.
fn copy_bytes(v: &Vec<u8>) -> (r: Vec<u8>)
    ensures
        r@ == v@,
{
    let mut out: Vec<u8> = Vec::new();
    let mut i: usize = 0;
    while i < v.len()
        invariant
            i <= v@.len(),
            out@ == v@.take(i as int),
        decreases v@.len() - i,
    {
        out.push(v[i]);
        proof {
            assert(v@.take(i + 1) =~= v@.take(i as int).push(v@[i as int]));
        }
        i = i + 1;
    }
    proof {
        assert(v@.take(v@.len() as int) =~= v@);
    }
    out
}

/// The store itself: one mutable 231-byte array per servo identity.
pub struct ControlTableData {
    bits: Vec<u8>,
}

impl View for ControlTableData {
    type V = Seq<u8>;

    closed spec fn view(&self) -> Seq<u8> {
        self.bits@
    }
}

impl ControlTableData {
    /// The store always holds exactly `CONTROL_TABLE_SIZE` bytes.
    #[verifier::type_invariant]
    pub open spec fn wf(&self) -> bool {
        self@.len() == CONTROL_TABLE_SIZE as int
    }

    /// A fresh, zero-initialized store.
    pub fn new() -> (r: Self)
        ensures
            r@ == table_zeros(),
    {
        let mut bits: Vec<u8> = Vec::new();
        let mut i: usize = 0;
        while i < CONTROL_TABLE_SIZE
            invariant
                i <= CONTROL_TABLE_SIZE,
                bits@ == table_zeros().take(i as int),
            decreases CONTROL_TABLE_SIZE - i,
        {
            bits.push(0);
            proof {
                assert(table_zeros().take(i + 1) =~= table_zeros().take(i as int).push(0u8));
            }
            i = i + 1;
        }
        proof {
            assert(table_zeros().take(CONTROL_TABLE_SIZE as int) =~= table_zeros());
        }
        ControlTableData { bits }
    }

    /// Snapshot of the current content.
    pub fn read(&self) -> (r: R)
        ensures
            r@ == self@,
    {
        proof {
            use_type_invariant(self);
        }
        R { bits: copy_bytes(&self.bits) }
    }

    /// Raw bulk write: copies `data` into the store at `address`; any
    /// bytes that would land past the end of the table are dropped.
    pub fn write_bytes(&mut self, address: usize, data: &[u8])
        ensures
            final(self)@ == spec_write_bytes(old(self)@, address as int, data@),
    {
        proof {
            use_type_invariant(&*self);
        }
        let n = if address < CONTROL_TABLE_SIZE {
            let room = CONTROL_TABLE_SIZE - address;
            if data.len() < room {
                data.len()
            } else {
                room
            }
        } else {
            0
        };
        let ghost s0 = self@;
        let mut bits = copy_bytes(&self.bits);
        let mut k: usize = 0;
        while k < n
            invariant
                k <= n,
                n <= data@.len(),
                n == 0 || address + n <= CONTROL_TABLE_SIZE,
                bits@.len() == CONTROL_TABLE_SIZE as int,
                s0.len() == CONTROL_TABLE_SIZE as int,
                forall|i: int|
                    0 <= i < CONTROL_TABLE_SIZE as int ==> bits@[i] == (if address as int <= i
                        < address as int + k as int {
                        data@[i - address as int]
                    } else {
                        s0[i]
                    }),
            decreases n - k,
        {
            bits.set(address + k, data[k]);
            k = k + 1;
        }
        proof {
            assert(bits@ =~= spec_write_bytes(s0, address as int, data@));
        }
        self.bits = bits;
    }

    /// Whole-table write: hands the function a zeroed writer and stores
    /// what it returns.
    pub fn write<F: FnOnce(W) -> W>(&mut self, f: F)
        requires
            forall|w: W| w@ == table_zeros() ==> #[trigger] call_requires(f, (w,)),
        ensures
            exists|w: W, out: W|
                w@ == table_zeros() && #[trigger] call_ensures(f, (w,), out) && final(self)@ == out@,
    {
        let ctd = ControlTableData::new();
        let w = W { bits: ctd.bits };
        let out = f(w);
        proof {
            use_type_invariant(&out);
        }
        self.bits = out.bits;
    }

    /// Read-modify-write: hands the function a snapshot and a writer
    /// initialized with the current content, and stores what it
    /// returns.
    pub fn modify<F: FnOnce(R, W) -> W>(&mut self, f: F)
        requires
            forall|r: R, w: W|
                r@ == old(self)@ && w@ == old(self)@ ==> #[trigger] call_requires(f, (r, w)),
        ensures
            exists|r: R, w: W, out: W|
                r@ == old(self)@ && w@ == old(self)@ && #[trigger] call_ensures(f, (r, w), out)
                    && final(self)@ == out@,
    {
        proof {
            use_type_invariant(&*self);
        }
        let r = R { bits: copy_bytes(&self.bits) };
        let w = W { bits: copy_bytes(&self.bits) };
        let out = f(r, w);
        proof {
            use_type_invariant(&out);
        }
        self.bits = out.bits;
    }
}

/// Snapshot reader: the result of `read`, with one typed getter per
/// field, each decoding little-endian bytes at the field's offset.
pub struct R {
    bits: Vec<u8>,
}

impl View for R {
    type V = Seq<u8>;

    closed spec fn view(&self) -> Seq<u8> {
        self.bits@
    }
}

impl R {
    /// A snapshot always holds exactly `CONTROL_TABLE_SIZE` bytes.
    #[verifier::type_invariant]
    pub open spec fn wf(&self) -> bool {
        self@.len() == CONTROL_TABLE_SIZE as int
    }

    /// Raw copy of the snapshot bytes.
    pub fn bits(&self) -> (r: Vec<u8>)
        ensures
            r@ == self@,
    {
        copy_bytes(&self.bits)
    }

    fn b(&self, off: usize) -> (r: u8)
        requires
            off < CONTROL_TABLE_SIZE,
        ensures
            r == self@[off as int],
    {
        proof {
            use_type_invariant(self);
        }
        self.bits[off]
    }

    pub fn model_number(&self) -> (r: u16)
        ensures
            r == u16_of_le(self@[0], self@[1]),
    {
        make_u16(self.b(0), self.b(1))
    }

    pub fn model_information(&self) -> (r: u32)
        ensures
            r == u32_of_le(self@[2], self@[3], self@[4], self@[5]),
    {
        make_u32(self.b(2), self.b(3), self.b(4), self.b(5))
    }

    pub fn firmware_version(&self) -> (r: u8)
        ensures
            r == self@[6],
    {
        self.b(6)
    }

    pub fn id(&self) -> (r: u8)
        ensures
            r == self@[7],
    {
        self.b(7)
    }

    pub fn baud_rate(&self) -> (r: u8)
        ensures
            r == self@[8],
    {
        self.b(8)
    }

    pub fn return_delay_time(&self) -> (r: u8)
        ensures
            r == self@[9],
    {
        self.b(9)
    }

    pub fn drive_mode(&self) -> (r: u8)
        ensures
            r == self@[10],
    {
        self.b(10)
    }

    pub fn operating_mode(&self) -> (r: u8)
        ensures
            r == self@[11],
    {
        self.b(11)
    }

    pub fn secondary_id(&self) -> (r: u8)
        ensures
            r == self@[12],
    {
        self.b(12)
    }

    pub fn protocol_type(&self) -> (r: u8)
        ensures
            r == self@[13],
    {
        self.b(13)
    }

    pub fn homing_offset(&self) -> (r: i32)
        ensures
            r == i32_of_le(self@[20], self@[21], self@[22], self@[23]),
    {
        make_i32(self.b(20), self.b(21), self.b(22), self.b(23))
    }

    pub fn moving_threshold(&self) -> (r: u32)
        ensures
            r == u32_of_le(self@[24], self@[25], self@[26], self@[27]),
    {
        make_u32(self.b(24), self.b(25), self.b(26), self.b(27))
    }

    pub fn temperature_limit(&self) -> (r: u8)
        ensures
            r == self@[31],
    {
        self.b(31)
    }

    pub fn max_voltage_limit(&self) -> (r: u16)
        ensures
            r == u16_of_le(self@[32], self@[33]),
    {
        make_u16(self.b(32), self.b(33))
    }

    pub fn min_voltage_limit(&self) -> (r: u16)
        ensures
            r == u16_of_le(self@[34], self@[35]),
    {
        make_u16(self.b(34), self.b(35))
    }

    pub fn pwm_limit(&self) -> (r: u16)
        ensures
            r == u16_of_le(self@[36], self@[37]),
    {
        make_u16(self.b(36), self.b(37))
    }

    pub fn current_limit(&self) -> (r: u16)
        ensures
            r == u16_of_le(self@[38], self@[39]),
    {
        make_u16(self.b(38), self.b(39))
    }

    pub fn velocity_limit(&self) -> (r: u32)
        ensures
            r == u32_of_le(self@[44], self@[45], self@[46], self@[47]),
    {
        make_u32(self.b(44), self.b(45), self.b(46), self.b(47))
    }

    pub fn max_position_limit(&self) -> (r: u32)
        ensures
            r == u32_of_le(self@[48], self@[49], self@[50], self@[51]),
    {
        make_u32(self.b(48), self.b(49), self.b(50), self.b(51))
    }

    pub fn min_position_limit(&self) -> (r: u32)
        ensures
            r == u32_of_le(self@[52], self@[53], self@[54], self@[55]),
    {
        make_u32(self.b(52), self.b(53), self.b(54), self.b(55))
    }

    pub fn startup_configuration(&self) -> (r: u8)
        ensures
            r == self@[60],
    {
        self.b(60)
    }

    pub fn pwm_slope(&self) -> (r: u8)
        ensures
            r == self@[62],
    {
        self.b(62)
    }

    pub fn shutdown(&self) -> (r: u8)
        ensures
            r == self@[63],
    {
        self.b(63)
    }

    pub fn torque_enable(&self) -> (r: u8)
        ensures
            r == self@[64],
    {
        self.b(64)
    }

    pub fn led(&self) -> (r: u8)
        ensures
            r == self@[65],
    {
        self.b(65)
    }

    pub fn status_return_level(&self) -> (r: u8)
        ensures
            r == self@[68],
    {
        self.b(68)
    }

    pub fn registered_instruction(&self) -> (r: u8)
        ensures
            r == self@[69],
    {
        self.b(69)
    }

    pub fn hardware_error_status(&self) -> (r: u8)
        ensures
            r == self@[70],
    {
        self.b(70)
    }

    pub fn velocity_igain(&self) -> (r: u16)
        ensures
            r == u16_of_le(self@[76], self@[77]),
    {
        make_u16(self.b(76), self.b(77))
    }

    pub fn velocity_pgain(&self) -> (r: u16)
        ensures
            r == u16_of_le(self@[78], self@[79]),
    {
        make_u16(self.b(78), self.b(79))
    }

    pub fn position_dgain(&self) -> (r: u16)
        ensures
            r == u16_of_le(self@[80], self@[81]),
    {
        make_u16(self.b(80), self.b(81))
    }

    pub fn position_igain(&self) -> (r: u16)
        ensures
            r == u16_of_le(self@[82], self@[83]),
    {
        make_u16(self.b(82), self.b(83))
    }

    pub fn position_pgain(&self) -> (r: u16)
        ensures
            r == u16_of_le(self@[84], self@[85]),
    {
        make_u16(self.b(84), self.b(85))
    }

    pub fn feedforward2nd_gain(&self) -> (r: u16)
        ensures
            r == u16_of_le(self@[88], self@[89]),
    {
        make_u16(self.b(88), self.b(89))
    }

    pub fn feedforward1st_gain(&self) -> (r: u16)
        ensures
            r == u16_of_le(self@[90], self@[91]),
    {
        make_u16(self.b(90), self.b(91))
    }

    pub fn bus_watchdog(&self) -> (r: u8)
        ensures
            r == self@[98],
    {
        self.b(98)
    }

    pub fn goal_pwm(&self) -> (r: i16)
        ensures
            r == i16_of_le(self@[100], self@[101]),
    {
        make_i16(self.b(100), self.b(101))
    }

    pub fn goal_current(&self) -> (r: i16)
        ensures
            r == i16_of_le(self@[102], self@[103]),
    {
        make_i16(self.b(102), self.b(103))
    }

    pub fn goal_velocity(&self) -> (r: i32)
        ensures
            r == i32_of_le(self@[104], self@[105], self@[106], self@[107]),
    {
        make_i32(self.b(104), self.b(105), self.b(106), self.b(107))
    }

    pub fn profile_accleration(&self) -> (r: u32)
        ensures
            r == u32_of_le(self@[108], self@[109], self@[110], self@[111]),
    {
        make_u32(self.b(108), self.b(109), self.b(110), self.b(111))
    }

    pub fn profile_velocity(&self) -> (r: u32)
        ensures
            r == u32_of_le(self@[112], self@[113], self@[114], self@[115]),
    {
        make_u32(self.b(112), self.b(113), self.b(114), self.b(115))
    }

    pub fn goal_position(&self) -> (r: i32)
        ensures
            r == i32_of_le(self@[116], self@[117], self@[118], self@[119]),
    {
        make_i32(self.b(116), self.b(117), self.b(118), self.b(119))
    }

    pub fn realtime_tick(&self) -> (r: u16)
        ensures
            r == u16_of_le(self@[120], self@[121]),
    {
        make_u16(self.b(120), self.b(121))
    }

    pub fn moving(&self) -> (r: u8)
        ensures
            r == self@[122],
    {
        self.b(122)
    }

    pub fn moving_status(&self) -> (r: u8)
        ensures
            r == self@[123],
    {
        self.b(123)
    }

    pub fn present_pwm(&self) -> (r: i16)
        ensures
            r == i16_of_le(self@[124], self@[125]),
    {
        make_i16(self.b(124), self.b(125))
    }

    pub fn present_current(&self) -> (r: i16)
        ensures
            r == i16_of_le(self@[126], self@[127]),
    {
        make_i16(self.b(126), self.b(127))
    }

    pub fn present_velocity(&self) -> (r: i32)
        ensures
            r == i32_of_le(self@[128], self@[129], self@[130], self@[131]),
    {
        make_i32(self.b(128), self.b(129), self.b(130), self.b(131))
    }

    pub fn present_position(&self) -> (r: i32)
        ensures
            r == i32_of_le(self@[132], self@[133], self@[134], self@[135]),
    {
        make_i32(self.b(132), self.b(133), self.b(134), self.b(135))
    }

    pub fn velocity_trajectory(&self) -> (r: i32)
        ensures
            r == i32_of_le(self@[136], self@[137], self@[138], self@[139]),
    {
        make_i32(self.b(136), self.b(137), self.b(138), self.b(139))
    }

    pub fn position_trajectory(&self) -> (r: i32)
        ensures
            r == i32_of_le(self@[140], self@[141], self@[142], self@[143]),
    {
        make_i32(self.b(140), self.b(141), self.b(142), self.b(143))
    }

    pub fn present_input_voltage(&self) -> (r: u16)
        ensures
            r == u16_of_le(self@[144], self@[145]),
    {
        make_u16(self.b(144), self.b(145))
    }

    pub fn present_temperature(&self) -> (r: u8)
        ensures
            r == self@[146],
    {
        self.b(146)
    }

    pub fn backup_ready(&self) -> (r: u8)
        ensures
            r == self@[147],
    {
        self.b(147)
    }

    pub fn indirect_address1(&self) -> (r: u16)
        ensures
            r == u16_of_le(self@[168], self@[169]),
    {
        make_u16(self.b(168), self.b(169))
    }

    pub fn indirect_address2(&self) -> (r: u16)
        ensures
            r == u16_of_le(self@[170], self@[171]),
    {
        make_u16(self.b(170), self.b(171))
    }

    pub fn indirect_address3(&self) -> (r: u16)
        ensures
            r == u16_of_le(self@[172], self@[173]),
    {
        make_u16(self.b(172), self.b(173))
    }

    pub fn indirect_address4(&self) -> (r: u16)
        ensures
            r == u16_of_le(self@[174], self@[175]),
    {
        make_u16(self.b(174), self.b(175))
    }

    pub fn indirect_address5(&self) -> (r: u16)
        ensures
            r == u16_of_le(self@[176], self@[177]),
    {
        make_u16(self.b(176), self.b(177))
    }

    pub fn indirect_address6(&self) -> (r: u16)
        ensures
            r == u16_of_le(self@[178], self@[179]),
    {
        make_u16(self.b(178), self.b(179))
    }

    pub fn indirect_address7(&self) -> (r: u16)
        ensures
            r == u16_of_le(self@[180], self@[181]),
    {
        make_u16(self.b(180), self.b(181))
    }

    pub fn indirect_address8(&self) -> (r: u16)
        ensures
            r == u16_of_le(self@[182], self@[183]),
    {
        make_u16(self.b(182), self.b(183))
    }

    pub fn indirect_address9(&self) -> (r: u16)
        ensures
            r == u16_of_le(self@[184], self@[185]),
    {
        make_u16(self.b(184), self.b(185))
    }

    pub fn indirect_address10(&self) -> (r: u16)
        ensures
            r == u16_of_le(self@[186], self@[187]),
    {
        make_u16(self.b(186), self.b(187))
    }

    pub fn indirect_address11(&self) -> (r: u16)
        ensures
            r == u16_of_le(self@[188], self@[189]),
    {
        make_u16(self.b(188), self.b(189))
    }

    pub fn indirect_address12(&self) -> (r: u16)
        ensures
            r == u16_of_le(self@[190], self@[191]),
    {
        make_u16(self.b(190), self.b(191))
    }

    pub fn indirect_address13(&self) -> (r: u16)
        ensures
            r == u16_of_le(self@[192], self@[193]),
    {
        make_u16(self.b(192), self.b(193))
    }

    pub fn indirect_address14(&self) -> (r: u16)
        ensures
            r == u16_of_le(self@[194], self@[195]),
    {
        make_u16(self.b(194), self.b(195))
    }

    pub fn indirect_address15(&self) -> (r: u16)
        ensures
            r == u16_of_le(self@[196], self@[197]),
    {
        make_u16(self.b(196), self.b(197))
    }

    pub fn indirect_address16(&self) -> (r: u16)
        ensures
            r == u16_of_le(self@[198], self@[199]),
    {
        make_u16(self.b(198), self.b(199))
    }

    pub fn indirect_address17(&self) -> (r: u16)
        ensures
            r == u16_of_le(self@[200], self@[201]),
    {
        make_u16(self.b(200), self.b(201))
    }

    pub fn indirect_address18(&self) -> (r: u16)
        ensures
            r == u16_of_le(self@[202], self@[203]),
    {
        make_u16(self.b(202), self.b(203))
    }

    pub fn indirect_address19(&self) -> (r: u16)
        ensures
            r == u16_of_le(self@[204], self@[205]),
    {
        make_u16(self.b(204), self.b(205))
    }

    pub fn indirect_address20(&self) -> (r: u16)
        ensures
            r == u16_of_le(self@[206], self@[207]),
    {
        make_u16(self.b(206), self.b(207))
    }

    pub fn indirect_data1(&self) -> (r: u8)
        ensures
            r == self@[208],
    {
        self.b(208)
    }

    pub fn indirect_data2(&self) -> (r: u8)
        ensures
            r == self@[209],
    {
        self.b(209)
    }

    pub fn indirect_data3(&self) -> (r: u8)
        ensures
            r == self@[210],
    {
        self.b(210)
    }

    pub fn indirect_data4(&self) -> (r: u8)
        ensures
            r == self@[211],
    {
        self.b(211)
    }

    pub fn indirect_data5(&self) -> (r: u8)
        ensures
            r == self@[212],
    {
        self.b(212)
    }

    pub fn indirect_data6(&self) -> (r: u8)
        ensures
            r == self@[213],
    {
        self.b(213)
    }

    pub fn indirect_data7(&self) -> (r: u8)
        ensures
            r == self@[214],
    {
        self.b(214)
    }

    pub fn indirect_data8(&self) -> (r: u8)
        ensures
            r == self@[215],
    {
        self.b(215)
    }

    pub fn indirect_data9(&self) -> (r: u8)
        ensures
            r == self@[216],
    {
        self.b(216)
    }

    pub fn indirect_data10(&self) -> (r: u8)
        ensures
            r == self@[217],
    {
        self.b(217)
    }

    pub fn indirect_data11(&self) -> (r: u8)
        ensures
            r == self@[218],
    {
        self.b(218)
    }

    pub fn indirect_data12(&self) -> (r: u8)
        ensures
            r == self@[219],
    {
        self.b(219)
    }

    pub fn indirect_data13(&self) -> (r: u8)
        ensures
            r == self@[220],
    {
        self.b(220)
    }

    pub fn indirect_data14(&self) -> (r: u8)
        ensures
            r == self@[221],
    {
        self.b(221)
    }

    pub fn indirect_data15(&self) -> (r: u8)
        ensures
            r == self@[222],
    {
        self.b(222)
    }

    pub fn indirect_data16(&self) -> (r: u8)
        ensures
            r == self@[223],
    {
        self.b(223)
    }

    pub fn indirect_data17(&self) -> (r: u8)
        ensures
            r == self@[224],
    {
        self.b(224)
    }

    pub fn indirect_data18(&self) -> (r: u8)
        ensures
            r == self@[225],
    {
        self.b(225)
    }

    pub fn indirect_data19(&self) -> (r: u8)
        ensures
            r == self@[226],
    {
        self.b(226)
    }

    pub fn indirect_data20(&self) -> (r: u8)
        ensures
            r == self@[227],
    {
        self.b(227)
    }

}

/// By-value writer: each typed setter encodes its value little-endian
/// at the field's offset and hands the writer back.
pub struct W {
    bits: Vec<u8>,
}

impl View for W {
    type V = Seq<u8>;

    closed spec fn view(&self) -> Seq<u8> {
        self.bits@
    }
}

impl W {
    /// A writer always holds exactly `CONTROL_TABLE_SIZE` bytes.
    #[verifier::type_invariant]
    pub open spec fn wf(&self) -> bool {
        self@.len() == CONTROL_TABLE_SIZE as int
    }

    /// Replace the whole table content.
    pub fn bits(self, bits: Vec<u8>) -> (r: W)
        requires
            bits@.len() == CONTROL_TABLE_SIZE as int,
        ensures
            r@ == bits@,
    {
        W { bits }
    }

    /// Raw bulk write at `address`; bytes that would land past the end
    /// of the table are dropped.
    pub fn bytes(self, address: usize, data: &[u8]) -> (r: W)
        ensures
            r@ == spec_write_bytes(self@, address as int, data@),
    {
        proof {
            use_type_invariant(&self);
        }
        let mut ctd = ControlTableData { bits: self.bits };
        ctd.write_bytes(address, data);
        W { bits: ctd.bits }
    }

    fn put(self, off: usize, v: u8) -> (r: W)
        requires
            off < CONTROL_TABLE_SIZE,
        ensures
            r@ == self@.update(off as int, v),
    {
        proof {
            use_type_invariant(&self);
        }
        let W { bits } = self;
        let mut bits = bits;
        bits.set(off, v);
        W { bits }
    }

    pub fn model_number(self, value: u16) -> (r: W)
        ensures
            r@ == self@.update(0, u16_lo(value)).update(1, u16_hi(value)),
    {
        self.put(0, u16_low(value)).put(1, u16_high(value))
    }

    pub fn model_information(self, value: u32) -> (r: W)
        ensures
            r@ == self@.update(2, u32_byte(value, 0)).update(3, u32_byte(value, 1)).update(4, u32_byte(value, 2)).update(5, u32_byte(value, 3)),
    {
        self.put(2, u32_byte_at(value, 0)).put(3, u32_byte_at(value, 1)).put(4, u32_byte_at(value, 2)).put(5, u32_byte_at(value, 3))
    }

    pub fn firmware_version(self, value: u8) -> (r: W)
        ensures
            r@ == self@.update(6, value),
    {
        self.put(6, value)
    }

    pub fn id(self, value: u8) -> (r: W)
        ensures
            r@ == self@.update(7, value),
    {
        self.put(7, value)
    }

    pub fn baud_rate(self, value: u8) -> (r: W)
        ensures
            r@ == self@.update(8, value),
    {
        self.put(8, value)
    }

    pub fn return_delay_time(self, value: u8) -> (r: W)
        ensures
            r@ == self@.update(9, value),
    {
        self.put(9, value)
    }

    pub fn drive_mode(self, value: u8) -> (r: W)
        ensures
            r@ == self@.update(10, value),
    {
        self.put(10, value)
    }

    pub fn operating_mode(self, value: u8) -> (r: W)
        ensures
            r@ == self@.update(11, value),
    {
        self.put(11, value)
    }

    pub fn secondary_id(self, value: u8) -> (r: W)
        ensures
            r@ == self@.update(12, value),
    {
        self.put(12, value)
    }

    pub fn protocol_type(self, value: u8) -> (r: W)
        ensures
            r@ == self@.update(13, value),
    {
        self.put(13, value)
    }

    pub fn homing_offset(self, value: i32) -> (r: W)
        ensures
            r@ == self@.update(20, u32_byte(value as u32, 0)).update(21, u32_byte(value as u32, 1)).update(22, u32_byte(value as u32, 2)).update(23, u32_byte(value as u32, 3)),
    {
        self.put(20, u32_byte_at(value as u32, 0)).put(21, u32_byte_at(value as u32, 1)).put(22, u32_byte_at(value as u32, 2)).put(23, u32_byte_at(value as u32, 3))
    }

    pub fn moving_threshold(self, value: u32) -> (r: W)
        ensures
            r@ == self@.update(24, u32_byte(value, 0)).update(25, u32_byte(value, 1)).update(26, u32_byte(value, 2)).update(27, u32_byte(value, 3)),
    {
        self.put(24, u32_byte_at(value, 0)).put(25, u32_byte_at(value, 1)).put(26, u32_byte_at(value, 2)).put(27, u32_byte_at(value, 3))
    }

    pub fn temperature_limit(self, value: u8) -> (r: W)
        ensures
            r@ == self@.update(31, value),
    {
        self.put(31, value)
    }

    pub fn max_voltage_limit(self, value: u16) -> (r: W)
        ensures
            r@ == self@.update(32, u16_lo(value)).update(33, u16_hi(value)),
    {
        self.put(32, u16_low(value)).put(33, u16_high(value))
    }

    pub fn min_voltage_limit(self, value: u16) -> (r: W)
        ensures
            r@ == self@.update(34, u16_lo(value)).update(35, u16_hi(value)),
    {
        self.put(34, u16_low(value)).put(35, u16_high(value))
    }

    pub fn pwm_limit(self, value: u16) -> (r: W)
        ensures
            r@ == self@.update(36, u16_lo(value)).update(37, u16_hi(value)),
    {
        self.put(36, u16_low(value)).put(37, u16_high(value))
    }

    pub fn current_limit(self, value: u16) -> (r: W)
        ensures
            r@ == self@.update(38, u16_lo(value)).update(39, u16_hi(value)),
    {
        self.put(38, u16_low(value)).put(39, u16_high(value))
    }

    pub fn velocity_limit(self, value: u32) -> (r: W)
        ensures
            r@ == self@.update(44, u32_byte(value, 0)).update(45, u32_byte(value, 1)).update(
                46,
                u32_byte(value, 2),
            ).update(47, u32_byte(value, 3)),
    {
        self.put(44, u32_byte_at(value, 0)).put(45, u32_byte_at(value, 1)).put(
            46,
            u32_byte_at(value, 2),
        ).put(47, u32_byte_at(value, 3))
    }

    pub fn max_position_limit(self, value: u32) -> (r: W)
        ensures
            r@ == self@.update(48, u32_byte(value, 0)).update(49, u32_byte(value, 1)).update(50, u32_byte(value, 2)).update(51, u32_byte(value, 3)),
    {
        self.put(48, u32_byte_at(value, 0)).put(49, u32_byte_at(value, 1)).put(50, u32_byte_at(value, 2)).put(51, u32_byte_at(value, 3))
    }

    pub fn min_position_limit(self, value: u32) -> (r: W)
        ensures
            r@ == self@.update(52, u32_byte(value, 0)).update(53, u32_byte(value, 1)).update(54, u32_byte(value, 2)).update(55, u32_byte(value, 3)),
    {
        self.put(52, u32_byte_at(value, 0)).put(53, u32_byte_at(value, 1)).put(54, u32_byte_at(value, 2)).put(55, u32_byte_at(value, 3))
    }

    pub fn startup_configuration(self, value: u8) -> (r: W)
        ensures
            r@ == self@.update(60, value),
    {
        self.put(60, value)
    }

    pub fn pwm_slope(self, value: u8) -> (r: W)
        ensures
            r@ == self@.update(62, value),
    {
        self.put(62, value)
    }

    pub fn shutdown(self, value: u8) -> (r: W)
        ensures
            r@ == self@.update(63, value),
    {
        self.put(63, value)
    }

    pub fn torque_enable(self, value: u8) -> (r: W)
        ensures
            r@ == self@.update(64, value),
    {
        self.put(64, value)
    }

    pub fn led(self, value: u8) -> (r: W)
        ensures
            r@ == self@.update(65, value),
    {
        self.put(65, value)
    }

    pub fn status_return_level(self, value: u8) -> (r: W)
        ensures
            r@ == self@.update(68, value),
    {
        self.put(68, value)
    }

    pub fn registered_instruction(self, value: u8) -> (r: W)
        ensures
            r@ == self@.update(69, value),
    {
        self.put(69, value)
    }

    pub fn hardware_error_status(self, value: u8) -> (r: W)
        ensures
            r@ == self@.update(70, value),
    {
        self.put(70, value)
    }

    pub fn velocity_igain(self, value: u16) -> (r: W)
        ensures
            r@ == self@.update(76, u16_lo(value)).update(77, u16_hi(value)),
    {
        self.put(76, u16_low(value)).put(77, u16_high(value))
    }

    pub fn velocity_pgain(self, value: u16) -> (r: W)
        ensures
            r@ == self@.update(78, u16_lo(value)).update(79, u16_hi(value)),
    {
        self.put(78, u16_low(value)).put(79, u16_high(value))
    }

    pub fn position_dgain(self, value: u16) -> (r: W)
        ensures
            r@ == self@.update(80, u16_lo(value)).update(81, u16_hi(value)),
    {
        self.put(80, u16_low(value)).put(81, u16_high(value))
    }

    pub fn position_igain(self, value: u16) -> (r: W)
        ensures
            r@ == self@.update(82, u16_lo(value)).update(83, u16_hi(value)),
    {
        self.put(82, u16_low(value)).put(83, u16_high(value))
    }

    pub fn position_pgain(self, value: u16) -> (r: W)
        ensures
            r@ == self@.update(84, u16_lo(value)).update(85, u16_hi(value)),
    {
        self.put(84, u16_low(value)).put(85, u16_high(value))
    }

    pub fn feedforward2nd_gain(self, value: u16) -> (r: W)
        ensures
            r@ == self@.update(88, u16_lo(value)).update(89, u16_hi(value)),
    {
        self.put(88, u16_low(value)).put(89, u16_high(value))
    }

    pub fn feedforward1st_gain(self, value: u16) -> (r: W)
        ensures
            r@ == self@.update(90, u16_lo(value)).update(91, u16_hi(value)),
    {
        self.put(90, u16_low(value)).put(91, u16_high(value))
    }

    pub fn bus_watchdog(self, value: u8) -> (r: W)
        ensures
            r@ == self@.update(98, value),
    {
        self.put(98, value)
    }

    pub fn goal_pwm(self, value: i16) -> (r: W)
        ensures
            r@ == self@.update(100, u16_lo(value as u16)).update(101, u16_hi(value as u16)),
    {
        self.put(100, u16_low(value as u16)).put(101, u16_high(value as u16))
    }

    pub fn goal_current(self, value: i16) -> (r: W)
        ensures
            r@ == self@.update(102, u16_lo(value as u16)).update(103, u16_hi(value as u16)),
    {
        self.put(102, u16_low(value as u16)).put(103, u16_high(value as u16))
    }

    pub fn goal_velocity(self, value: i32) -> (r: W)
        ensures
            r@ == self@.update(104, u32_byte(value as u32, 0)).update(105, u32_byte(value as u32, 1)).update(106, u32_byte(value as u32, 2)).update(107, u32_byte(value as u32, 3)),
    {
        self.put(104, u32_byte_at(value as u32, 0)).put(105, u32_byte_at(value as u32, 1)).put(106, u32_byte_at(value as u32, 2)).put(107, u32_byte_at(value as u32, 3))
    }

    pub fn profile_accleration(self, value: u32) -> (r: W)
        ensures
            r@ == self@.update(108, u32_byte(value, 0)).update(109, u32_byte(value, 1)).update(110, u32_byte(value, 2)).update(111, u32_byte(value, 3)),
    {
        self.put(108, u32_byte_at(value, 0)).put(109, u32_byte_at(value, 1)).put(110, u32_byte_at(value, 2)).put(111, u32_byte_at(value, 3))
    }

    pub fn profile_velocity(self, value: u32) -> (r: W)
        ensures
            r@ == self@.update(112, u32_byte(value, 0)).update(113, u32_byte(value, 1)).update(114, u32_byte(value, 2)).update(115, u32_byte(value, 3)),
    {
        self.put(112, u32_byte_at(value, 0)).put(113, u32_byte_at(value, 1)).put(114, u32_byte_at(value, 2)).put(115, u32_byte_at(value, 3))
    }

    pub fn goal_position(self, value: i32) -> (r: W)
        ensures
            r@ == self@.update(116, u32_byte(value as u32, 0)).update(117, u32_byte(value as u32, 1)).update(118, u32_byte(value as u32, 2)).update(119, u32_byte(value as u32, 3)),
    {
        self.put(116, u32_byte_at(value as u32, 0)).put(117, u32_byte_at(value as u32, 1)).put(118, u32_byte_at(value as u32, 2)).put(119, u32_byte_at(value as u32, 3))
    }

    pub fn realtime_tick(self, value: u16) -> (r: W)
        ensures
            r@ == self@.update(120, u16_lo(value)).update(121, u16_hi(value)),
    {
        self.put(120, u16_low(value)).put(121, u16_high(value))
    }

    pub fn moving(self, value: u8) -> (r: W)
        ensures
            r@ == self@.update(122, value),
    {
        self.put(122, value)
    }

    pub fn moving_status(self, value: u8) -> (r: W)
        ensures
            r@ == self@.update(123, value),
    {
        self.put(123, value)
    }

    pub fn present_pwm(self, value: i16) -> (r: W)
        ensures
            r@ == self@.update(124, u16_lo(value as u16)).update(125, u16_hi(value as u16)),
    {
        self.put(124, u16_low(value as u16)).put(125, u16_high(value as u16))
    }

    pub fn present_current(self, value: i16) -> (r: W)
        ensures
            r@ == self@.update(126, u16_lo(value as u16)).update(127, u16_hi(value as u16)),
    {
        self.put(126, u16_low(value as u16)).put(127, u16_high(value as u16))
    }

    pub fn present_velocity(self, value: i32) -> (r: W)
        ensures
            r@ == self@.update(128, u32_byte(value as u32, 0)).update(129, u32_byte(value as u32, 1)).update(130, u32_byte(value as u32, 2)).update(131, u32_byte(value as u32, 3)),
    {
        self.put(128, u32_byte_at(value as u32, 0)).put(129, u32_byte_at(value as u32, 1)).put(130, u32_byte_at(value as u32, 2)).put(131, u32_byte_at(value as u32, 3))
    }

    pub fn present_position(self, value: i32) -> (r: W)
        ensures
            r@ == self@.update(132, u32_byte(value as u32, 0)).update(133, u32_byte(value as u32, 1)).update(134, u32_byte(value as u32, 2)).update(135, u32_byte(value as u32, 3)),
    {
        self.put(132, u32_byte_at(value as u32, 0)).put(133, u32_byte_at(value as u32, 1)).put(134, u32_byte_at(value as u32, 2)).put(135, u32_byte_at(value as u32, 3))
    }

    pub fn velocity_trajectory(self, value: i32) -> (r: W)
        ensures
            r@ == self@.update(136, u32_byte(value as u32, 0)).update(137, u32_byte(value as u32, 1)).update(138, u32_byte(value as u32, 2)).update(139, u32_byte(value as u32, 3)),
    {
        self.put(136, u32_byte_at(value as u32, 0)).put(137, u32_byte_at(value as u32, 1)).put(138, u32_byte_at(value as u32, 2)).put(139, u32_byte_at(value as u32, 3))
    }

    pub fn position_trajectory(self, value: i32) -> (r: W)
        ensures
            r@ == self@.update(140, u32_byte(value as u32, 0)).update(141, u32_byte(value as u32, 1)).update(142, u32_byte(value as u32, 2)).update(143, u32_byte(value as u32, 3)),
    {
        self.put(140, u32_byte_at(value as u32, 0)).put(141, u32_byte_at(value as u32, 1)).put(142, u32_byte_at(value as u32, 2)).put(143, u32_byte_at(value as u32, 3))
    }

    pub fn present_input_voltage(self, value: u16) -> (r: W)
        ensures
            r@ == self@.update(144, u16_lo(value)).update(145, u16_hi(value)),
    {
        self.put(144, u16_low(value)).put(145, u16_high(value))
    }

    pub fn present_temperature(self, value: u8) -> (r: W)
        ensures
            r@ == self@.update(146, value),
    {
        self.put(146, value)
    }

    pub fn backup_ready(self, value: u8) -> (r: W)
        ensures
            r@ == self@.update(147, value),
    {
        self.put(147, value)
    }

    pub fn indirect_address1(self, value: u16) -> (r: W)
        ensures
            r@ == self@.update(168, u16_lo(value)).update(169, u16_hi(value)),
    {
        self.put(168, u16_low(value)).put(169, u16_high(value))
    }

    pub fn indirect_address2(self, value: u16) -> (r: W)
        ensures
            r@ == self@.update(170, u16_lo(value)).update(171, u16_hi(value)),
    {
        self.put(170, u16_low(value)).put(171, u16_high(value))
    }

    pub fn indirect_address3(self, value: u16) -> (r: W)
        ensures
            r@ == self@.update(172, u16_lo(value)).update(173, u16_hi(value)),
    {
        self.put(172, u16_low(value)).put(173, u16_high(value))
    }

    pub fn indirect_address4(self, value: u16) -> (r: W)
        ensures
            r@ == self@.update(174, u16_lo(value)).update(175, u16_hi(value)),
    {
        self.put(174, u16_low(value)).put(175, u16_high(value))
    }

    pub fn indirect_address5(self, value: u16) -> (r: W)
        ensures
            r@ == self@.update(176, u16_lo(value)).update(177, u16_hi(value)),
    {
        self.put(176, u16_low(value)).put(177, u16_high(value))
    }

    pub fn indirect_address6(self, value: u16) -> (r: W)
        ensures
            r@ == self@.update(178, u16_lo(value)).update(179, u16_hi(value)),
    {
        self.put(178, u16_low(value)).put(179, u16_high(value))
    }

    pub fn indirect_address7(self, value: u16) -> (r: W)
        ensures
            r@ == self@.update(180, u16_lo(value)).update(181, u16_hi(value)),
    {
        self.put(180, u16_low(value)).put(181, u16_high(value))
    }

    pub fn indirect_address8(self, value: u16) -> (r: W)
        ensures
            r@ == self@.update(182, u16_lo(value)).update(183, u16_hi(value)),
    {
        self.put(182, u16_low(value)).put(183, u16_high(value))
    }

    pub fn indirect_address9(self, value: u16) -> (r: W)
        ensures
            r@ == self@.update(184, u16_lo(value)).update(185, u16_hi(value)),
    {
        self.put(184, u16_low(value)).put(185, u16_high(value))
    }

    pub fn indirect_address10(self, value: u16) -> (r: W)
        ensures
            r@ == self@.update(186, u16_lo(value)).update(187, u16_hi(value)),
    {
        self.put(186, u16_low(value)).put(187, u16_high(value))
    }

    pub fn indirect_address11(self, value: u16) -> (r: W)
        ensures
            r@ == self@.update(188, u16_lo(value)).update(189, u16_hi(value)),
    {
        self.put(188, u16_low(value)).put(189, u16_high(value))
    }

    pub fn indirect_address12(self, value: u16) -> (r: W)
        ensures
            r@ == self@.update(190, u16_lo(value)).update(191, u16_hi(value)),
    {
        self.put(190, u16_low(value)).put(191, u16_high(value))
    }

    pub fn indirect_address13(self, value: u16) -> (r: W)
        ensures
            r@ == self@.update(192, u16_lo(value)).update(193, u16_hi(value)),
    {
        self.put(192, u16_low(value)).put(193, u16_high(value))
    }

    pub fn indirect_address14(self, value: u16) -> (r: W)
        ensures
            r@ == self@.update(194, u16_lo(value)).update(195, u16_hi(value)),
    {
        self.put(194, u16_low(value)).put(195, u16_high(value))
    }

    pub fn indirect_address15(self, value: u16) -> (r: W)
        ensures
            r@ == self@.update(196, u16_lo(value)).update(197, u16_hi(value)),
    {
        self.put(196, u16_low(value)).put(197, u16_high(value))
    }

    pub fn indirect_address16(self, value: u16) -> (r: W)
        ensures
            r@ == self@.update(198, u16_lo(value)).update(199, u16_hi(value)),
    {
        self.put(198, u16_low(value)).put(199, u16_high(value))
    }

    pub fn indirect_address17(self, value: u16) -> (r: W)
        ensures
            r@ == self@.update(200, u16_lo(value)).update(201, u16_hi(value)),
    {
        self.put(200, u16_low(value)).put(201, u16_high(value))
    }

    pub fn indirect_address18(self, value: u16) -> (r: W)
        ensures
            r@ == self@.update(202, u16_lo(value)).update(203, u16_hi(value)),
    {
        self.put(202, u16_low(value)).put(203, u16_high(value))
    }

    pub fn indirect_address19(self, value: u16) -> (r: W)
        ensures
            r@ == self@.update(204, u16_lo(value)).update(205, u16_hi(value)),
    {
        self.put(204, u16_low(value)).put(205, u16_high(value))
    }

    pub fn indirect_address20(self, value: u16) -> (r: W)
        ensures
            r@ == self@.update(206, u16_lo(value)).update(207, u16_hi(value)),
    {
        self.put(206, u16_low(value)).put(207, u16_high(value))
    }

    pub fn indirect_data1(self, value: u8) -> (r: W)
        ensures
            r@ == self@.update(208, value),
    {
        self.put(208, value)
    }

    pub fn indirect_data2(self, value: u8) -> (r: W)
        ensures
            r@ == self@.update(209, value),
    {
        self.put(209, value)
    }

    pub fn indirect_data3(self, value: u8) -> (r: W)
        ensures
            r@ == self@.update(210, value),
    {
        self.put(210, value)
    }

    pub fn indirect_data4(self, value: u8) -> (r: W)
        ensures
            r@ == self@.update(211, value),
    {
        self.put(211, value)
    }

    pub fn indirect_data5(self, value: u8) -> (r: W)
        ensures
            r@ == self@.update(212, value),
    {
        self.put(212, value)
    }

    pub fn indirect_data6(self, value: u8) -> (r: W)
        ensures
            r@ == self@.update(213, value),
    {
        self.put(213, value)
    }

    pub fn indirect_data7(self, value: u8) -> (r: W)
        ensures
            r@ == self@.update(214, value),
    {
        self.put(214, value)
    }

    pub fn indirect_data8(self, value: u8) -> (r: W)
        ensures
            r@ == self@.update(215, value),
    {
        self.put(215, value)
    }

    pub fn indirect_data9(self, value: u8) -> (r: W)
        ensures
            r@ == self@.update(216, value),
    {
        self.put(216, value)
    }

    pub fn indirect_data10(self, value: u8) -> (r: W)
        ensures
            r@ == self@.update(217, value),
    {
        self.put(217, value)
    }

    pub fn indirect_data11(self, value: u8) -> (r: W)
        ensures
            r@ == self@.update(218, value),
    {
        self.put(218, value)
    }

    pub fn indirect_data12(self, value: u8) -> (r: W)
        ensures
            r@ == self@.update(219, value),
    {
        self.put(219, value)
    }

    pub fn indirect_data13(self, value: u8) -> (r: W)
        ensures
            r@ == self@.update(220, value),
    {
        self.put(220, value)
    }

    pub fn indirect_data14(self, value: u8) -> (r: W)
        ensures
            r@ == self@.update(221, value),
    {
        self.put(221, value)
    }

    pub fn indirect_data15(self, value: u8) -> (r: W)
        ensures
            r@ == self@.update(222, value),
    {
        self.put(222, value)
    }

    pub fn indirect_data16(self, value: u8) -> (r: W)
        ensures
            r@ == self@.update(223, value),
    {
        self.put(223, value)
    }

    pub fn indirect_data17(self, value: u8) -> (r: W)
        ensures
            r@ == self@.update(224, value),
    {
        self.put(224, value)
    }

    pub fn indirect_data18(self, value: u8) -> (r: W)
        ensures
            r@ == self@.update(225, value),
    {
        self.put(225, value)
    }

    pub fn indirect_data19(self, value: u8) -> (r: W)
        ensures
            r@ == self@.update(226, value),
    {
        self.put(226, value)
    }

    pub fn indirect_data20(self, value: u8) -> (r: W)
        ensures
            r@ == self@.update(227, value),
    {
        self.put(227, value)
    }

}

} // verus!
