//! Bus transaction descriptors and the device's command set.
use vstd::prelude::*;

verus! {

/// Size of a program page, in bytes.
pub const MEMORY_PAGE_SIZE: usize = 8;

/// First address past the 24-bit device address space.
pub const ADDRESS_LIMIT: u32 = 0x0100_0000;

pub const CMD_QUAD_READ: u8 = 0x6B;
pub const CMD_QUAD_WRITE_PG: u8 = 0x32;
pub const CMD_READ_ID: u8 = 0x9F;
pub const CMD_ENABLE_RESET: u8 = 0x66;
pub const CMD_RESET: u8 = 0x99;
pub const CMD_WRITE_ENABLE: u8 = 0x06;
pub const CMD_CHIP_ERASE: u8 = 0xC7;
pub const CMD_SECTOR_ERASE: u8 = 0x20;
pub const CMD_BLOCK_ERASE_32K: u8 = 0x52;
pub const CMD_BLOCK_ERASE_64K: u8 = 0xD8;
pub const CMD_ENTER_QSPI_MODE: u8 = 0x38;
pub const CMD_SET_READ_PARAMETERS: u8 = 0xC0;
pub const CMD_READ_STATUS_REG1: u8 = 0x05;
pub const CMD_READ_STATUS_REG2: u8 = 0x35;
pub const CMD_WRITE_STATUS_REG1: u8 = 0x01;
pub const CMD_WRITE_STATUS_REG2: u8 = 0x31;
pub const CMD_FAST_READ_QUAD_IO: u8 = 0xEB;

/// Quad-Enable bit of the Configuration Register (mirrored in Status Register 1).
pub const QE_MASK: u8 = 0x02;

/// Write-In-Progress bit of Status Register 1.
pub const WIP_MASK: u8 = 0x01;

/// Read-parameter byte written on QPI entry: 8 dummy cycles.
pub const READ_PARAMETERS: u8 = 0x30;

/// Number of signal lines that carry one phase of a transaction.
#[derive(Clone, Copy, Debug, PartialEq, Eq)]
pub enum Width {
    Absent,
    Single,
    Quad,
}

/// One bus transaction: opcode, per-phase width, optional address, dummy cycles.
#[derive(Clone, Copy, Debug, PartialEq, Eq)]
pub struct Command {
    pub instruction: u8,
    pub iwidth: Width,
    pub awidth: Width,
    pub dwidth: Width,
    pub address: Option<u32>,
    pub dummy: u8,
}

impl Command {
    /// An address phase is present exactly when an address is given, and the
    /// address fits in 24 bits.
    pub open spec fn wf(self) -> bool {
        &&& (self.awidth != Width::Absent <==> self.address.is_some())
        &&& (self.address matches Some(a) ==> a < ADDRESS_LIMIT)
    }
}

/// Instruction-only command with the given instruction width.
pub open spec fn plain(instruction: u8, iwidth: Width) -> Command {
    Command {
        instruction,
        iwidth,
        awidth: Width::Absent,
        dwidth: Width::Absent,
        address: None,
        dummy: 0,
    }
}

/// Single-wire instruction and address, no data, no dummy cycles.
pub open spec fn addressed(instruction: u8, address: u32) -> Command {
    Command {
        instruction,
        iwidth: Width::Single,
        awidth: Width::Single,
        dwidth: Width::Absent,
        address: Some(address),
        dummy: 0,
    }
}

/// Register access: instruction and data both quad in QPI mode, both single otherwise.
pub open spec fn register_spec(instruction: u8, qpi: bool) -> Command {
    let w = if qpi { Width::Quad } else { Width::Single };
    Command { instruction, iwidth: w, awidth: Width::Absent, dwidth: w, address: None, dummy: 0 }
}

/// Page program: single-wire instruction and address, quad data.
pub open spec fn page_program_spec(address: u32) -> Command {
    Command {
        instruction: CMD_QUAD_WRITE_PG,
        iwidth: Width::Single,
        awidth: Width::Single,
        dwidth: Width::Quad,
        address: Some(address),
        dummy: 0,
    }
}

/// Quad-output read: single-wire instruction and address, quad data, 8 dummy cycles.
pub open spec fn quad_read_spec(address: u32) -> Command {
    Command {
        instruction: CMD_QUAD_READ,
        iwidth: Width::Single,
        awidth: Width::Single,
        dwidth: Width::Quad,
        address: Some(address),
        dummy: 8,
    }
}

/// Memory-map template: fast read quad I/O, every phase quad, 8 dummy cycles.
pub open spec fn memory_map_spec() -> Command {
    Command {
        instruction: CMD_FAST_READ_QUAD_IO,
        iwidth: Width::Quad,
        awidth: Width::Quad,
        dwidth: Width::Quad,
        address: Some(0),
        dummy: 8,
    }
}

pub fn plain_command(instruction: u8, iwidth: Width) -> (r: Command)
    ensures
        r == plain(instruction, iwidth),
        r.wf(),
{
    Command { instruction, iwidth, awidth: Width::Absent, dwidth: Width::Absent, address: None, dummy: 0 }
}

pub fn addressed_command(instruction: u8, address: u32) -> (r: Command)
    requires
        address < ADDRESS_LIMIT,
    ensures
        r == addressed(instruction, address),
        r.wf(),
{
    Command {
        instruction,
        iwidth: Width::Single,
        awidth: Width::Single,
        dwidth: Width::Absent,
        address: Some(address),
        dummy: 0,
    }
}

pub fn register_command(instruction: u8, qpi: bool) -> (r: Command)
    ensures
        r == register_spec(instruction, qpi),
        r.wf(),
{
    let w = if qpi { Width::Quad } else { Width::Single };
    Command { instruction, iwidth: w, awidth: Width::Absent, dwidth: w, address: None, dummy: 0 }
}

pub fn page_program_command(address: u32) -> (r: Command)
    requires
        address < ADDRESS_LIMIT,
    ensures
        r == page_program_spec(address),
        r.wf(),
{
    Command {
        instruction: CMD_QUAD_WRITE_PG,
        iwidth: Width::Single,
        awidth: Width::Single,
        dwidth: Width::Quad,
        address: Some(address),
        dummy: 0,
    }
}

pub fn quad_read_command(address: u32) -> (r: Command)
    requires
        address < ADDRESS_LIMIT,
    ensures
        r == quad_read_spec(address),
        r.wf(),
{
    Command {
        instruction: CMD_QUAD_READ,
        iwidth: Width::Single,
        awidth: Width::Single,
        dwidth: Width::Quad,
        address: Some(address),
        dummy: 8,
    }
}

pub fn memory_map_command() -> (r: Command)
    ensures
        r == memory_map_spec(),
        r.wf(),
{
    Command {
        instruction: CMD_FAST_READ_QUAD_IO,
        iwidth: Width::Quad,
        awidth: Width::Quad,
        dwidth: Width::Quad,
        address: Some(0),
        dummy: 8,
    }
}

} // verus!
