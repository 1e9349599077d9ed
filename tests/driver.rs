use qspi_flash::chunker::{page_chunks, PageChunk};
use qspi_flash::command::{Command, Width};
use qspi_flash::driver::{is_busy, quad_enabled, FlashMemory, Mode, Step};

const SECTOR: usize = 4096;

/// A small in-memory model of the flash device, used to run the driver's steps.
struct Device {
    mem: Vec<u8>,
    cr: u8,
    sr: u8,
    write_enabled: bool,
    mapped: bool,
    programs: usize,
}

impl Device {
    fn new() -> Device {
        Device { mem: vec![0xA5; 2 * SECTOR], cr: 0, sr: 0, write_enabled: false, mapped: false, programs: 0 }
    }

    fn run(&mut self, steps: &[Step]) {
        for s in steps {
            match s {
                Step::Command(c) => self.command(c),
                Step::Write(c, data) => self.write(c, data),
                Step::WaitIdle(c) => {
                    assert_eq!(c.instruction, 0x05);
                    while is_busy(self.read(c, 1)[0]) {}
                }
                Step::MapMemory(c) => {
                    assert_eq!(c.instruction, 0xEB);
                    self.mapped = true;
                }
            }
        }
    }

    fn command(&mut self, c: &Command) {
        match c.instruction {
            0x06 => self.write_enabled = true,
            0x20 => {
                assert!(self.write_enabled);
                let base = c.address.unwrap() as usize / SECTOR * SECTOR;
                for b in &mut self.mem[base..base + SECTOR] {
                    *b = 0xFF;
                }
                self.write_enabled = false;
            }
            0xC7 => {
                assert!(self.write_enabled);
                for b in self.mem.iter_mut() {
                    *b = 0xFF;
                }
                self.write_enabled = false;
            }
            _ => {}
        }
    }

    fn write(&mut self, c: &Command, data: &[u8]) {
        match c.instruction {
            0x32 => {
                assert!(self.write_enabled);
                let addr = c.address.unwrap() as usize;
                assert!(addr % 8 + data.len() <= 8);
                for (i, b) in data.iter().enumerate() {
                    self.mem[addr + i] &= *b;
                }
                self.programs += 1;
                self.write_enabled = false;
            }
            0x31 => self.cr = data[0],
            0x01 => self.sr = data[0],
            _ => {}
        }
    }

    fn read(&self, c: &Command, len: usize) -> Vec<u8> {
        match c.instruction {
            0x9F => vec![0xEF, 0x40, 0x17],
            0x05 => vec![self.sr],
            0x35 => vec![self.cr],
            0x6B => {
                let a = c.address.unwrap() as usize;
                self.mem[a..a + len].to_vec()
            }
            _ => vec![0; len],
        }
    }

    fn load_u32(&self, offset: usize) -> u32 {
        assert!(self.mapped);
        u32::from_le_bytes([self.mem[offset], self.mem[offset + 1], self.mem[offset + 2], self.mem[offset + 3]])
    }
}

fn quad_enable(flash: &mut FlashMemory, dev: &mut Device) {
    let cr = dev.read(&flash.read_cr(), 1)[0];
    if let Some(w) = flash.enable_quad(cr) {
        dev.run(&[w]);
        let sr = dev.read(&flash.read_sr(), 1)[0];
        dev.run(&[flash.mirror_quad_enable(sr)]);
    }
}

fn plain(instruction: u8, iwidth: Width) -> Command {
    Command { instruction, iwidth, awidth: Width::Absent, dwidth: Width::Absent, address: None, dummy: 0 }
}

fn sr_read(quad: bool) -> Command {
    let w = if quad { Width::Quad } else { Width::Single };
    Command { instruction: 0x05, iwidth: w, awidth: Width::Absent, dwidth: w, address: None, dummy: 0 }
}

#[test]
fn chunks_clip_at_page_boundary() {
    let chunks = page_chunks(7, 2);
    assert_eq!(
        chunks,
        vec![PageChunk { address: 7, offset: 0, len: 1 }, PageChunk { address: 8, offset: 1, len: 1 }]
    );
    let flash = FlashMemory::new();
    let steps = flash.write_memory(7, &[0xAA, 0xBB]);
    let programs: Vec<&Step> = steps.iter().filter(|s| matches!(s, Step::Write(c, _) if c.instruction == 0x32)).collect();
    assert_eq!(programs.len(), 2);
}

#[test]
fn chunks_of_aligned_and_unaligned_writes() {
    assert_eq!(page_chunks(0, 8), vec![PageChunk { address: 0, offset: 0, len: 8 }]);
    assert_eq!(
        page_chunks(3, 20),
        vec![
            PageChunk { address: 3, offset: 0, len: 5 },
            PageChunk { address: 8, offset: 5, len: 8 },
            PageChunk { address: 16, offset: 13, len: 7 },
        ]
    );
    assert!(page_chunks(5, 0).is_empty());
    assert_eq!(page_chunks(0xFF_FFFF, 1), vec![PageChunk { address: 0xFF_FFFF, offset: 0, len: 1 }]);
}

#[test]
fn write_memory_programs_each_page_between_enable_and_wait() {
    let flash = FlashMemory::new();
    let data: Vec<u8> = (0u8..13).collect();
    let steps = flash.write_memory(6, &data);
    assert_eq!(steps.len(), 9);
    let mut joined = Vec::new();
    for k in 0..3 {
        assert_eq!(steps[3 * k], Step::Command(plain(0x06, Width::Single)));
        assert_eq!(steps[3 * k + 2], Step::WaitIdle(sr_read(false)));
        match &steps[3 * k + 1] {
            Step::Write(c, bytes) => {
                assert_eq!(c.instruction, 0x32);
                assert_eq!((c.iwidth, c.awidth, c.dwidth), (Width::Single, Width::Single, Width::Quad));
                let a = c.address.unwrap() as usize;
                assert!(a % 8 + bytes.len() <= 8);
                assert_eq!(a, 6 + joined.len());
                joined.extend_from_slice(bytes);
            }
            other => panic!("expected a page program, got {:?}", other),
        }
    }
    assert_eq!(joined, data);
    assert!(flash.write_memory(0, &[]).is_empty());
}

#[test]
fn erase_plans() {
    let flash = FlashMemory::new();
    let addressed = |op: u8, a: u32| Command {
        instruction: op,
        iwidth: Width::Single,
        awidth: Width::Single,
        dwidth: Width::Absent,
        address: Some(a),
        dummy: 0,
    };
    let we = Step::Command(plain(0x06, Width::Single));
    let wait = Step::WaitIdle(sr_read(false));
    assert_eq!(flash.erase_sector(0x1000), vec![we.clone(), Step::Command(addressed(0x20, 0x1000)), wait.clone()]);
    assert_eq!(flash.erase_block_32k(0x8000), vec![we.clone(), Step::Command(addressed(0x52, 0x8000)), wait.clone()]);
    assert_eq!(flash.erase_block_64k(0x10000), vec![we.clone(), Step::Command(addressed(0xD8, 0x10000)), wait.clone()]);
    assert_eq!(flash.erase_chip(), vec![we, Step::Command(plain(0xC7, Width::Single)), wait]);
}

#[test]
fn reset_sends_both_encodings() {
    let flash = FlashMemory::new();
    assert_eq!(
        flash.reset_memory(),
        vec![
            Step::Command(plain(0x66, Width::Quad)),
            Step::Command(plain(0x99, Width::Quad)),
            Step::Command(plain(0x66, Width::Single)),
            Step::Command(plain(0x99, Width::Single)),
            Step::WaitIdle(sr_read(false)),
        ]
    );
}

#[test]
fn quad_enable_skips_writes_when_bit_set() {
    let mut flash = FlashMemory::new();
    assert_eq!(flash.enable_quad(0x02), None);
    assert_eq!(flash.enable_quad(0xFF), None);
    assert_eq!(flash.mode(), Mode::QuadRegisterEnabled);
    let w = flash.enable_quad(0x40);
    let cmd = Command { instruction: 0x31, iwidth: Width::Single, awidth: Width::Absent, dwidth: Width::Single, address: None, dummy: 0 };
    assert_eq!(w, Some(Step::Write(cmd, vec![0x42])));
    match flash.mirror_quad_enable(0x80) {
        Step::Write(c, v) => {
            assert_eq!(c.instruction, 0x01);
            assert_eq!(v, vec![0x82]);
        }
        other => panic!("unexpected {:?}", other),
    }
    match flash.disable_quad(0x03) {
        Step::Write(c, v) => {
            assert_eq!(c.instruction, 0x31);
            assert_eq!(v, vec![0x01]);
        }
        other => panic!("unexpected {:?}", other),
    }
}

#[test]
fn modes_only_move_forward() {
    let mut flash = FlashMemory::new();
    assert_eq!(flash.mode(), Mode::SingleWire);
    assert!(!flash.qpi_mode());
    flash.enable_quad(0);
    assert_eq!(flash.mode(), Mode::QuadRegisterEnabled);
    let steps = flash.enter_qpi_mode();
    assert_eq!(flash.mode(), Mode::Qpi);
    assert!(flash.qpi_mode());
    assert_eq!(steps[0], Step::Command(plain(0x38, Width::Single)));
    assert_eq!(steps[1], Step::Command(plain(0x06, Width::Single)));
    let params = Command { instruction: 0xC0, iwidth: Width::Quad, awidth: Width::Absent, dwidth: Width::Quad, address: None, dummy: 0 };
    assert_eq!(steps[2], Step::Write(params, vec![0x30]));
    assert_eq!(flash.read_sr(), sr_read(true));
    flash.enable_quad(0);
    assert_eq!(flash.mode(), Mode::Qpi);
    let steps = flash.enable_mm();
    assert_eq!(flash.mode(), Mode::MemoryMapped);
    let template = Command { instruction: 0xEB, iwidth: Width::Quad, awidth: Width::Quad, dwidth: Width::Quad, address: Some(0), dummy: 8 };
    assert_eq!(steps.len(), 4);
    assert_eq!(steps[3], Step::MapMemory(template));
    flash.enable_quad(0);
    flash.enter_qpi_mode();
    assert_eq!(flash.mode(), Mode::MemoryMapped);
}

#[test]
fn register_commands_follow_mode() {
    let mut flash = FlashMemory::new();
    let single = Command { instruction: 0x35, iwidth: Width::Single, awidth: Width::Absent, dwidth: Width::Single, address: None, dummy: 0 };
    assert_eq!(flash.read_cr(), single);
    flash.enable_quad(0x02);
    flash.enter_qpi_mode();
    let quad = Command { iwidth: Width::Quad, dwidth: Width::Quad, ..single };
    assert_eq!(flash.read_cr(), quad);
    assert_eq!(flash.write_sr(0x42), Step::Write(Command { instruction: 0x01, ..quad }, vec![0x42]));
    assert_eq!(flash.write_cr(0x02), Step::Write(Command { instruction: 0x31, ..quad }, vec![0x02]));
    assert_eq!(flash.write_enable(), Step::Command(plain(0x06, Width::Single)));
}

#[test]
fn status_bits() {
    assert!(is_busy(0x01));
    assert!(is_busy(0xFF));
    assert!(!is_busy(0xFE));
    assert!(quad_enabled(0x02));
    assert!(!quad_enabled(0xFD));
}

#[test]
fn read_commands() {
    let flash = FlashMemory::new();
    assert_eq!(
        flash.read_id(),
        Command { instruction: 0x9F, iwidth: Width::Single, awidth: Width::Absent, dwidth: Width::Single, address: None, dummy: 0 }
    );
    assert_eq!(
        flash.read_memory(0x123),
        Command { instruction: 0x6B, iwidth: Width::Single, awidth: Width::Single, dwidth: Width::Quad, address: Some(0x123), dummy: 8 }
    );
}

#[test]
fn write_then_read_back() {
    let mut dev = Device::new();
    let flash = FlashMemory::new();
    dev.run(&flash.erase_sector(0));
    let data: Vec<u8> = (0u8..8).collect();
    dev.run(&flash.write_memory(0, &data));
    assert_eq!(dev.programs, 1);
    let back = dev.read(&flash.read_memory(0), 16);
    assert_eq!(&back[..8], &[0, 1, 2, 3, 4, 5, 6, 7]);
    assert_eq!(&back[8..], &[0xFF; 8]);
}

#[test]
fn end_to_end_to_memory_map() {
    let mut dev = Device::new();
    let mut flash = FlashMemory::new();
    dev.run(&flash.reset_memory());
    quad_enable(&mut flash, &mut dev);
    assert!(quad_enabled(dev.cr));
    assert!(quad_enabled(dev.sr));
    let id = dev.read(&flash.read_id(), 3);
    assert_eq!(id.len(), 3);
    assert!(id.iter().any(|b| *b != 0));
    dev.run(&flash.erase_sector(0));
    let data: Vec<u8> = (0u8..8).collect();
    dev.run(&flash.write_memory(0, &data));
    let back = dev.read(&flash.read_memory(0), 16);
    assert_eq!(back, vec![0, 1, 2, 3, 4, 5, 6, 7, 0xFF, 0xFF, 0xFF, 0xFF, 0xFF, 0xFF, 0xFF, 0xFF]);
    let cr = dev.read(&flash.read_cr(), 1)[0];
    assert_eq!(flash.enable_quad(cr), None);
    dev.run(&flash.enable_mm());
    assert_eq!(dev.load_u32(0), 0x03020100);
    assert_eq!(dev.load_u32(4), 0x07060504);
}
