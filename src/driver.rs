//! The flash driver: mode tracking and the transaction sequences of every
//! device operation.
//!
//! Each operation returns the steps the caller must run on the bus, in order.
//! Where a decision depends on a register value, the caller reads it and hands
//! it in.
use vstd::prelude::*;
use vstd::slice::{slice_subrange, slice_to_vec};

use crate::chunker::{chunk_bytes, page_chunks, page_offset, page_split, PageChunk};
use crate::command::{
    addressed, addressed_command, page_program_command, page_program_spec, plain, plain_command,
    quad_read_command, quad_read_spec, memory_map_command, memory_map_spec, register_command, register_spec, Command, Width,
    ADDRESS_LIMIT, CMD_BLOCK_ERASE_32K, CMD_BLOCK_ERASE_64K, CMD_CHIP_ERASE, CMD_ENABLE_RESET,
    CMD_ENTER_QSPI_MODE, CMD_READ_ID, CMD_READ_STATUS_REG1, CMD_READ_STATUS_REG2, CMD_RESET, CMD_SECTOR_ERASE,
    CMD_SET_READ_PARAMETERS, CMD_WRITE_ENABLE, CMD_QUAD_WRITE_PG, CMD_WRITE_STATUS_REG1, CMD_WRITE_STATUS_REG2,
    MEMORY_PAGE_SIZE, QE_MASK, READ_PARAMETERS, WIP_MASK,
};

verus! {

/// Interface mode of the device, as tracked by the driver. Transitions only go
/// forward, in the order of declaration.
#[derive(Clone, Copy, Debug, PartialEq, Eq)]
pub enum Mode {
    SingleWire,
    QuadRegisterEnabled,
    Qpi,
    MemoryMapped,
}

/// Position of a mode along the one-way chain of transitions.
pub open spec fn rank(m: Mode) -> nat {
    match m {
        Mode::SingleWire => 0,
        Mode::QuadRegisterEnabled => 1,
        Mode::Qpi => 2,
        Mode::MemoryMapped => 3,
    }
}

/// The mode reached by moving towards `target`: never backwards.
pub open spec fn advance(m: Mode, target: Mode) -> Mode {
    if rank(m) >= rank(target) {
        m
    } else {
        target
    }
}

/// Whether instructions are sent on four lines in this mode.
pub open spec fn is_qpi(m: Mode) -> bool {
    rank(m) >= 2
}

/// One step that the caller performs on the bus.
#[derive(Clone, Debug, PartialEq, Eq)]
pub enum Step {
    /// A transaction without a data phase.
    Command(Command),
    /// A transaction that sends the bytes as its data phase.
    Write(Command, Vec<u8>),
    /// Read Status Register 1 with this command until the Write-In-Progress
    /// bit is clear (see `is_busy`).
    WaitIdle(Command),
    /// Arm the persistent memory-mapped read window with this template.
    MapMemory(Command),
}

/// `s` sends `bytes` with command `cmd`.
pub open spec fn writes(s: Step, cmd: Command, bytes: Seq<u8>) -> bool {
    s matches Step::Write(c, v) && c == cmd && v@ == bytes
}

pub open spec fn write_enable_step() -> Step {
    Step::Command(plain(CMD_WRITE_ENABLE, Width::Single))
}

pub open spec fn wait_idle_step(qpi: bool) -> Step {
    Step::WaitIdle(register_spec(CMD_READ_STATUS_REG1, qpi))
}

/// Read-ID: single-wire instruction and data, no address.
pub open spec fn read_id_spec() -> Command {
    Command {
        instruction: CMD_READ_ID,
        iwidth: Width::Single,
        awidth: Width::Absent,
        dwidth: Width::Single,
        address: None,
        dummy: 0,
    }
}

/// Set-read-parameters, sent in QPI mode: quad instruction and data.
pub open spec fn read_parameters_spec() -> Command {
    Command {
        instruction: CMD_SET_READ_PARAMETERS,
        iwidth: Width::Quad,
        awidth: Width::Absent,
        dwidth: Width::Quad,
        address: None,
        dummy: 0,
    }
}

/// Write-enable, then the operation, then wait until the device is idle.
pub open spec fn erase_plan(qpi: bool, cmd: Command) -> Seq<Step> {
    seq![write_enable_step(), Step::Command(cmd), wait_idle_step(qpi)]
}

/// Write-enable, program `bytes` at `address`, then wait until idle.
pub open spec fn page_plan(qpi: bool, address: u32, bytes: Seq<u8>, steps: Seq<Step>) -> bool {
    &&& steps.len() == 3
    &&& steps[0] == write_enable_step()
    &&& writes(steps[1], page_program_spec(address), bytes)
    &&& steps[2] == wait_idle_step(qpi)
}

/// `steps` program each chunk of `data` in order, three steps per chunk.
pub open spec fn program_plan(
    qpi: bool,
    data: Seq<u8>,
    chunks: Seq<PageChunk>,
    steps: Seq<Step>,
) -> bool {
    &&& steps.len() == 3 * chunks.len()
    &&& forall|i: int|
        0 <= i < chunks.len() ==> page_plan(
            qpi,
            (#[trigger] chunks[i]).address,
            chunk_bytes(data, chunks[i]),
            steps.subrange(3 * i, 3 * i + 3),
        )
}

/// Steps of QPI entry: enter-QPI on one line, write-enable, then the quad
/// set-read-parameters write.
pub open spec fn qpi_entry_plan(steps: Seq<Step>) -> bool {
    &&& steps.len() == 3
    &&& steps[0] == Step::Command(plain(CMD_ENTER_QSPI_MODE, Width::Single))
    &&& steps[1] == write_enable_step()
    &&& writes(steps[2], read_parameters_spec(), seq![READ_PARAMETERS])
}

/// Whether a status register 1 value has the Write-In-Progress bit set.
pub fn is_busy(sr: u8) -> (r: bool)
    ensures
        r == (sr & WIP_MASK != 0),
{
    sr & WIP_MASK != 0
}

/// Whether a Configuration Register value has the Quad-Enable bit set.
pub fn quad_enabled(cr: u8) -> (r: bool)
    ensures
        r == (cr & QE_MASK != 0),
{
    cr & QE_MASK != 0
}

/// Driver state for one flash device: the tracked interface mode.
pub struct FlashMemory {
    mode: Mode,
}

impl FlashMemory {
    pub closed spec fn current_mode(&self) -> Mode {
        self.mode
    }

    pub open spec fn qpi(&self) -> bool {
        is_qpi(self.current_mode())
    }

    /// A driver for a device as it powers up: single-wire mode. The caller
    /// then runs `reset_memory` and the Quad-Enable step.
    pub fn new() -> (r: Self)
        ensures
            r.current_mode() == Mode::SingleWire,
    {
        FlashMemory { mode: Mode::SingleWire }
    }

    pub fn mode(&self) -> (r: Mode)
        ensures
            r == self.current_mode(),
    {
        self.mode
    }

    pub fn qpi_mode(&self) -> (r: bool)
        ensures
            r == self.qpi(),
    {
        match self.mode {
            Mode::Qpi | Mode::MemoryMapped => true,
            _ => false,
        }
    }

    /// Command that reads one register byte, encoded for the current mode.
    fn read_register(&self, instruction: u8) -> (r: Command)
        ensures
            r == register_spec(instruction, self.qpi()),
    {
        register_command(instruction, self.qpi_mode())
    }

    /// Step that writes one register byte, encoded for the current mode.
    fn write_register(&self, instruction: u8, value: u8) -> (r: Step)
        ensures
            writes(r, register_spec(instruction, self.qpi()), seq![value]),
    {
        let data = vec![value];
        proof {
            assert(data@ =~= seq![value]);
        }
        Step::Write(register_command(instruction, self.qpi_mode()), data)
    }

    /// Command that reads the Configuration Register (one byte).
    pub fn read_cr(&self) -> (r: Command)
        ensures
            r == register_spec(CMD_READ_STATUS_REG2, self.qpi()),
    {
        self.read_register(CMD_READ_STATUS_REG2)
    }

    pub fn write_cr(&self, value: u8) -> (r: Step)
        ensures
            writes(r, register_spec(CMD_WRITE_STATUS_REG2, self.qpi()), seq![value]),
    {
        self.write_register(CMD_WRITE_STATUS_REG2, value)
    }

    /// Command that reads Status Register 1 (one byte).
    pub fn read_sr(&self) -> (r: Command)
        ensures
            r == register_spec(CMD_READ_STATUS_REG1, self.qpi()),
    {
        self.read_register(CMD_READ_STATUS_REG1)
    }

    pub fn write_sr(&self, value: u8) -> (r: Step)
        ensures
            writes(r, register_spec(CMD_WRITE_STATUS_REG1, self.qpi()), seq![value]),
    {
        self.write_register(CMD_WRITE_STATUS_REG1, value)
    }

    /// Instruction-only command on one line.
    fn exec_command(&self, instruction: u8) -> (r: Step)
        ensures
            r == Step::Command(plain(instruction, Width::Single)),
    {
        Step::Command(plain_command(instruction, Width::Single))
    }

    /// Instruction-only command on four lines.
    fn exec_command_4(&self, instruction: u8) -> (r: Step)
        ensures
            r == Step::Command(plain(instruction, Width::Quad)),
    {
        Step::Command(plain_command(instruction, Width::Quad))
    }

    pub fn write_enable(&self) -> (r: Step)
        ensures
            r == write_enable_step(),
    {
        self.exec_command(CMD_WRITE_ENABLE)
    }

    /// Poll status register 1 until the device is idle.
    fn wait_write_finish(&self) -> (r: Step)
        ensures
            r == wait_idle_step(self.qpi()),
    {
        Step::WaitIdle(self.read_sr())
    }

    /// Reset in both wire modes, whichever the device is in, then wait until idle.
    pub fn reset_memory(&self) -> (r: Vec<Step>)
        ensures
            r@ == seq![
                Step::Command(plain(CMD_ENABLE_RESET, Width::Quad)),
                Step::Command(plain(CMD_RESET, Width::Quad)),
                Step::Command(plain(CMD_ENABLE_RESET, Width::Single)),
                Step::Command(plain(CMD_RESET, Width::Single)),
                wait_idle_step(self.qpi()),
            ],
    {
        let mut steps: Vec<Step> = Vec::new();
        steps.push(self.exec_command_4(CMD_ENABLE_RESET));
        steps.push(self.exec_command_4(CMD_RESET));
        steps.push(self.exec_command(CMD_ENABLE_RESET));
        steps.push(self.exec_command(CMD_RESET));
        steps.push(self.wait_write_finish());
        proof {
            assert(steps@ =~= seq![
                Step::Command(plain(CMD_ENABLE_RESET, Width::Quad)),
                Step::Command(plain(CMD_RESET, Width::Quad)),
                Step::Command(plain(CMD_ENABLE_RESET, Width::Single)),
                Step::Command(plain(CMD_RESET, Width::Single)),
                wait_idle_step(self.qpi()),
            ]);
        }
        steps
    }

    /// Command that reads the three manufacturer/device ID bytes.
    pub fn read_id(&self) -> (r: Command)
        ensures
            r == read_id_spec(),
            r.wf(),
    {
        Command {
            instruction: CMD_READ_ID,
            iwidth: Width::Single,
            awidth: Width::Absent,
            dwidth: Width::Single,
            address: None,
            dummy: 0,
        }
    }

    /// Command that reads any number of bytes from `address` on.
    pub fn read_memory(&self, address: u32) -> (r: Command)
        requires
            address < ADDRESS_LIMIT,
        ensures
            r == quad_read_spec(address),
            r.wf(),
    {
        quad_read_command(address)
    }

    fn perform_erase(&self, address: u32, instruction: u8) -> (r: Vec<Step>)
        requires
            address < ADDRESS_LIMIT,
        ensures
            r@ == erase_plan(self.qpi(), addressed(instruction, address)),
    {
        let mut steps: Vec<Step> = Vec::new();
        steps.push(self.write_enable());
        steps.push(Step::Command(addressed_command(instruction, address)));
        steps.push(self.wait_write_finish());
        proof {
            assert(steps@ =~= erase_plan(self.qpi(), addressed(instruction, address)));
        }
        steps
    }

    /// Erases the sector that holds `address`.
    pub fn erase_sector(&self, address: u32) -> (r: Vec<Step>)
        requires
            address < ADDRESS_LIMIT,
        ensures
            r@ == erase_plan(self.qpi(), addressed(CMD_SECTOR_ERASE, address)),
    {
        self.perform_erase(address, CMD_SECTOR_ERASE)
    }

    /// Erases the 32 KiB block that holds `address`.
    pub fn erase_block_32k(&self, address: u32) -> (r: Vec<Step>)
        requires
            address < ADDRESS_LIMIT,
        ensures
            r@ == erase_plan(self.qpi(), addressed(CMD_BLOCK_ERASE_32K, address)),
    {
        self.perform_erase(address, CMD_BLOCK_ERASE_32K)
    }

    /// Erases the 64 KiB block that holds `address`.
    pub fn erase_block_64k(&self, address: u32) -> (r: Vec<Step>)
        requires
            address < ADDRESS_LIMIT,
        ensures
            r@ == erase_plan(self.qpi(), addressed(CMD_BLOCK_ERASE_64K, address)),
    {
        self.perform_erase(address, CMD_BLOCK_ERASE_64K)
    }

    /// Erases the whole device.
    pub fn erase_chip(&self) -> (r: Vec<Step>)
        ensures
            r@ == erase_plan(self.qpi(), plain(CMD_CHIP_ERASE, Width::Single)),
    {
        let mut steps: Vec<Step> = Vec::new();
        steps.push(self.write_enable());
        steps.push(self.exec_command(CMD_CHIP_ERASE));
        steps.push(self.wait_write_finish());
        proof {
            assert(steps@ =~= erase_plan(self.qpi(), plain(CMD_CHIP_ERASE, Width::Single)));
        }
        steps
    }

    /// Programs `data` at `address`, which must all lie in one page.
    fn write_page(&self, address: u32, data: &[u8]) -> (r: Vec<Step>)
        requires
            address < ADDRESS_LIMIT,
            page_offset(address as int) + data@.len() <= MEMORY_PAGE_SIZE,
        ensures
            page_plan(self.qpi(), address, data@, r@),
    {
        let mut steps: Vec<Step> = Vec::new();
        steps.push(self.write_enable());
        steps.push(Step::Write(page_program_command(address), slice_to_vec(data)));
        steps.push(self.wait_write_finish());
        steps
    }

    /// Programs `data` from `address` on, one page-program per page touched.
    pub fn write_memory(&self, address: u32, data: &[u8]) -> (r: Vec<Step>)
        requires
            address as int + data@.len() <= ADDRESS_LIMIT,
        ensures
            exists|chunks: Seq<PageChunk>|
                page_split(address as int, data@.len() as int, chunks) && program_plan(
                    self.qpi(),
                    data@,
                    chunks,
                    r@,
                ),
    {
        let chunks = page_chunks(address, data.len());
        let mut steps: Vec<Step> = Vec::new();
        let mut i: usize = 0;
        while i < chunks.len()
            invariant
                page_split(address as int, data@.len() as int, chunks@),
                address as int + data@.len() <= ADDRESS_LIMIT,
                i <= chunks@.len(),
                steps@.len() == 3 * i,
                forall|k: int|
                    0 <= k < i ==> page_plan(
                        self.qpi(),
                        (#[trigger] chunks@[k]).address,
                        chunk_bytes(data@, chunks@[k]),
                        steps@.subrange(3 * k, 3 * k + 3),
                    ),
            decreases chunks@.len() - i,
        {
            let c = chunks[i];
            assert(crate::chunker::chunk_in_page(address as int, chunks@[i as int]));
            proof {
                crate::chunker::lemma_split_bounds(address as int, data@.len() as int, chunks@, i as int);
            }
            let part = slice_subrange(data, c.offset, c.offset + c.len);
            let mut page = self.write_page(c.address, part);
            let ghost before = steps@;
            let ghost planned = page@;
            steps.append(&mut page);
            assert(steps@.subrange(3 * i, 3 * i + 3) =~= planned);
            assert forall|k: int| 0 <= k < i + 1 implies page_plan(
                self.qpi(),
                (#[trigger] chunks@[k]).address,
                chunk_bytes(data@, chunks@[k]),
                steps@.subrange(3 * k, 3 * k + 3),
            ) by {
                if k < i {
                    assert(steps@.subrange(3 * k, 3 * k + 3) =~= before.subrange(3 * k, 3 * k + 3));
                }
            }
            i = i + 1;
        }
        steps
    }

    /// The Quad-Enable step, given the Configuration Register value just read:
    /// `None` (no write at all) when the bit is already set, else the write
    /// that sets it. When a write is returned, the caller then mirrors the bit
    /// into Status Register 1 with `mirror_quad_enable`.
    pub fn enable_quad(&mut self, cr: u8) -> (r: Option<Step>)
        ensures
            final(self).current_mode() == advance(
                old(self).current_mode(),
                Mode::QuadRegisterEnabled,
            ),
            cr & QE_MASK != 0 ==> r is None,
            cr & QE_MASK == 0 ==> (r matches Some(w) && writes(
                w,
                register_spec(CMD_WRITE_STATUS_REG2, old(self).qpi()),
                seq![cr | QE_MASK],
            )),
    {
        if let Mode::SingleWire = self.mode {
            self.mode = Mode::QuadRegisterEnabled;
        }
        if quad_enabled(cr) {
            None
        } else {
            Some(self.write_cr(cr | QE_MASK))
        }
    }

    /// Write that sets the Quad-Enable bit in Status Register 1, given its
    /// value just read.
    pub fn mirror_quad_enable(&self, sr: u8) -> (r: Step)
        ensures
            writes(r, register_spec(CMD_WRITE_STATUS_REG1, self.qpi()), seq![sr | QE_MASK]),
    {
        self.write_sr(sr | QE_MASK)
    }

    /// Write that clears the Quad-Enable bit, given the Configuration
    /// Register value just read.
    pub fn disable_quad(&self, cr: u8) -> (r: Step)
        ensures
            writes(r, register_spec(CMD_WRITE_STATUS_REG2, self.qpi()), seq![cr & !QE_MASK]),
    {
        self.write_cr(cr & !QE_MASK)
    }

    /// Enters QPI mode; the Quad-Enable step must have been run. From here on
    /// register accesses are encoded on four lines, the parameter write
    /// included.
    pub fn enter_qpi_mode(&mut self) -> (r: Vec<Step>)
        requires
            rank(old(self).current_mode()) >= 1,
        ensures
            final(self).current_mode() == advance(old(self).current_mode(), Mode::Qpi),
            qpi_entry_plan(r@),
    {
        let mut steps: Vec<Step> = Vec::new();
        steps.push(self.exec_command(CMD_ENTER_QSPI_MODE));
        if let Mode::QuadRegisterEnabled = self.mode {
            self.mode = Mode::Qpi;
        }
        steps.push(self.write_enable());
        let params = Command {
            instruction: CMD_SET_READ_PARAMETERS,
            iwidth: Width::Quad,
            awidth: Width::Absent,
            dwidth: Width::Quad,
            address: None,
            dummy: 0,
        };
        let data = vec![READ_PARAMETERS];
        proof {
            assert(data@ =~= seq![READ_PARAMETERS]);
        }
        steps.push(Step::Write(params, data));
        steps
    }

    /// Enters QPI mode, then arms the memory-mapped read window. This is the
    /// last transition: nothing leaves memory-mapped mode.
    pub fn enable_mm(&mut self) -> (r: Vec<Step>)
        requires
            rank(old(self).current_mode()) >= 1,
        ensures
            final(self).current_mode() == advance(old(self).current_mode(), Mode::MemoryMapped),
            final(self).current_mode() == Mode::MemoryMapped,
            r@.len() == 4,
            qpi_entry_plan(r@.subrange(0, 3)),
            r@[3] == Step::MapMemory(memory_map_spec()),
    {
        let mut steps = self.enter_qpi_mode();
        let ghost entry = steps@;
        steps.push(Step::MapMemory(memory_map_command()));
        self.mode = Mode::MemoryMapped;
        assert(steps@.subrange(0, 3) =~= entry);
        steps
    }
}

/// Whether a step changes the array contents: an erase or a page program.
pub open spec fn mutates(s: Step) -> bool {
    match s {
        Step::Command(c) => c.instruction == CMD_CHIP_ERASE || c.instruction == CMD_SECTOR_ERASE
            || c.instruction == CMD_BLOCK_ERASE_32K || c.instruction == CMD_BLOCK_ERASE_64K,
        Step::Write(c, _) => c.instruction == CMD_QUAD_WRITE_PG,
        _ => false,
    }
}

/// Every erase or program in `steps` comes right after a write-enable and
/// right before a wait until idle.
pub open spec fn guarded(steps: Seq<Step>) -> bool {
    forall|k: int|
        0 <= k < steps.len() && #[trigger] mutates(steps[k]) ==> {
            &&& 1 <= k < steps.len() - 1
            &&& steps[k - 1] == write_enable_step()
            &&& steps[k + 1] is WaitIdle
        }
}

/// Each mode transition moves forward along single-wire, quad-enabled, QPI,
/// memory-mapped: never back, and at least as far as its target.
pub proof fn lemma_mode_monotonic(m: Mode, target: Mode)
    ensures
        rank(advance(m, target)) >= rank(m),
        rank(advance(m, target)) >= rank(target),
        m == Mode::MemoryMapped ==> advance(m, target) == Mode::MemoryMapped,
{
}

/// An erase is issued right after a write-enable and followed by a wait
/// until idle.
pub proof fn lemma_erase_guarded(qpi: bool, cmd: Command)
    ensures
        guarded(erase_plan(qpi, cmd)),
{
    let p = erase_plan(qpi, cmd);
    assert(!mutates(p[0]));
    assert(!mutates(p[2]));
}

/// In the steps of a multi-page write, every page program is issued right
/// after a write-enable and followed by a wait until idle.
pub proof fn lemma_program_guarded(
    qpi: bool,
    data: Seq<u8>,
    chunks: Seq<PageChunk>,
    steps: Seq<Step>,
)
    requires
        program_plan(qpi, data, chunks, steps),
    ensures
        guarded(steps),
{
    assert forall|k: int| 0 <= k < steps.len() && #[trigger] mutates(steps[k]) implies {
        &&& 1 <= k < steps.len() - 1
        &&& steps[k - 1] == write_enable_step()
        &&& steps[k + 1] is WaitIdle
    } by {
        let i = k / 3;
        assert(0 <= i < chunks.len());
        let c = chunks[i];
        let page = steps.subrange(3 * i, 3 * i + 3);
        assert(page_plan(qpi, c.address, chunk_bytes(data, c), page));
        assert(page[0] == steps[3 * i]);
        assert(page[1] == steps[3 * i + 1]);
        assert(page[2] == steps[3 * i + 2]);
        assert(!mutates(page[0]));
        assert(!mutates(page[2]));
    }
}

} // verus!
