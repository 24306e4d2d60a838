//! Instruction codes of the wire protocol.
use vstd::prelude::*;

verus! {

/// The instructions the handler understands, and the status code its
/// replies carry.
#[derive(Clone, Copy, Debug, PartialEq, Eq, Structural)]
pub enum Instruction {
    Ping,
    Read,
    Write,
    Status,
    SyncRead,
    SyncWrite,
    Unknown,
}

impl Instruction {
    /// The instruction's code on the wire.
    pub open spec fn spec_code(&self) -> u8 {
        match self {
            Instruction::Ping => 0x01,
            Instruction::Read => 0x02,
            Instruction::Write => 0x03,
            Instruction::Status => 0x55,
            Instruction::SyncRead => 0x82,
            Instruction::SyncWrite => 0x83,
            Instruction::Unknown => 0x00,
        }
    }

    /// The instruction's code on the wire.
    pub fn code(&self) -> (r: u8)
        ensures
            r == self.spec_code(),
    {
        match self {
            Instruction::Ping => 0x01,
            Instruction::Read => 0x02,
            Instruction::Write => 0x03,
            Instruction::Status => 0x55,
            Instruction::SyncRead => 0x82,
            Instruction::SyncWrite => 0x83,
            Instruction::Unknown => 0x00,
        }
    }
}

} // verus!
