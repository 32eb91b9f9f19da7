use spi_memory::engine::{Action, Engine};
use spi_memory::protocol::{is_busy, is_latch_set, Command, Config, STATUS_BUSY, STATUS_WEL};
use spi_memory::Error;

#[derive(Debug, Clone, Copy, PartialEq, Eq)]
struct Fault(u8);

/// A simulated 25-series chip that records every transaction.
struct Chip {
    mem: Vec<u8>,
    wel: bool,
    busy_left: u32,
    busy_per_op: u32,
    stuck_busy: bool,
    ignore_write_enable: bool,
    fail_status_reads: bool,
    log: Vec<Command>,
}

impl Chip {
    fn new(size: usize) -> Chip {
        Chip {
            mem: vec![0xFF; size],
            wel: false,
            busy_left: 0,
            busy_per_op: 2,
            stuck_busy: false,
            ignore_write_enable: false,
            fail_status_reads: false,
            log: Vec::new(),
        }
    }

    fn status(&self) -> u8 {
        let mut s = 0;
        if self.busy_left > 0 || self.stuck_busy {
            s |= STATUS_BUSY;
        }
        if self.wel {
            s |= STATUS_WEL;
        }
        s
    }

    fn exchange(&mut self, cmd: Command, data: &[u8], buf: &mut [u8]) -> Result<u8, Fault> {
        self.log.push(cmd);
        match cmd {
            Command::WriteEnable => {
                if !self.ignore_write_enable {
                    self.wel = true;
                }
                Ok(0)
            }
            Command::ReadStatus => {
                if self.fail_status_reads {
                    return Err(Fault(7));
                }
                let s = self.status();
                if self.busy_left > 0 {
                    self.busy_left -= 1;
                }
                Ok(s)
            }
            Command::Read { addr, len } => {
                assert_eq!(len, buf.len());
                let a = addr as usize;
                buf.copy_from_slice(&self.mem[a..a + len]);
                Ok(0)
            }
            Command::PageProgram { addr, start, len } => {
                assert!(self.wel);
                let a = addr as usize;
                for i in 0..len {
                    self.mem[a + i] &= data[start + i];
                }
                self.wel = false;
                self.busy_left = self.busy_per_op;
                Ok(0)
            }
            Command::SectorErase { addr } => {
                assert!(self.wel);
                let a = addr as usize;
                for b in &mut self.mem[a..a + 4096] {
                    *b = 0xFF;
                }
                self.wel = false;
                self.busy_left = self.busy_per_op;
                Ok(0)
            }
            Command::ChipErase => {
                assert!(self.wel);
                for b in self.mem.iter_mut() {
                    *b = 0xFF;
                }
                self.wel = false;
                self.busy_left = self.busy_per_op;
                Ok(0)
            }
        }
    }
}

fn drive(chip: &mut Chip, mut engine: Engine, data: &[u8], buf: &mut [u8]) -> Result<(), Error<Fault>> {
    let mut action = engine.start();
    loop {
        match action {
            Action::Finish(r) => {
                assert!(!engine.is_running());
                return r;
            }
            Action::Issue(cmd) => {
                let reply = chip.exchange(cmd, data, buf);
                action = engine.step(reply);
            }
        }
    }
}

fn cfg() -> Config {
    Config { page_size: 256, sector_size: 4096, address_bytes: 3, poll_limit: Some(1000), verify_latch: false }
}

fn program_cycle(addr: u32, start: usize, len: usize, polls: usize) -> Vec<Command> {
    let mut v = vec![Command::WriteEnable, Command::PageProgram { addr, start, len }];
    for _ in 0..polls {
        v.push(Command::ReadStatus);
    }
    v
}

#[test]
fn read_is_single_transaction_of_buffer_length() {
    let mut chip = Chip::new(0x10000);
    chip.mem[0x100..0x105].copy_from_slice(&[1, 2, 3, 4, 5]);
    let mut buf = [0u8; 5];
    let r = drive(&mut chip, Engine::read(cfg(), 0x100, 5), &[], &mut buf);
    assert_eq!(r, Ok(()));
    assert_eq!(buf, [1, 2, 3, 4, 5]);
    assert_eq!(chip.log, vec![Command::Read { addr: 0x100, len: 5 }]);
    assert_eq!(Command::Read { addr: 0x100, len: 5 }.data_len(), 5);
}

#[test]
fn read_of_empty_buffer_is_still_one_transaction() {
    let mut chip = Chip::new(0x100);
    let mut buf = [0u8; 0];
    let r = drive(&mut chip, Engine::read(cfg(), 0x10, 0), &[], &mut buf);
    assert_eq!(r, Ok(()));
    assert_eq!(chip.log, vec![Command::Read { addr: 0x10, len: 0 }]);
}

#[test]
fn write_across_page_boundary_splits_in_two() {
    let mut chip = Chip::new(0x2000);
    let data: Vec<u8> = (0u8..16).collect();
    let r = drive(&mut chip, Engine::write_bytes(cfg(), 0x0FF8, 16), &data, &mut []);
    assert_eq!(r, Ok(()));
    let mut expected = program_cycle(0x0FF8, 0, 8, 3);
    expected.extend(program_cycle(0x1000, 8, 8, 3));
    assert_eq!(chip.log, expected);
    assert_eq!(&chip.mem[0x0FF8..0x1008], &data[..]);
    assert_eq!(chip.mem[0x0FF7], 0xFF);
    assert_eq!(chip.mem[0x1008], 0xFF);
}

#[test]
fn write_over_several_pages_is_one_program_per_segment_in_order() {
    let mut chip = Chip::new(0x1000);
    chip.busy_per_op = 0;
    let data: Vec<u8> = (0..600).map(|i| (i % 251) as u8).collect();
    let r = drive(&mut chip, Engine::write_bytes(cfg(), 0x10, 600), &data, &mut []);
    assert_eq!(r, Ok(()));
    let mut expected = program_cycle(0x10, 0, 240, 1);
    expected.extend(program_cycle(0x100, 240, 256, 1));
    expected.extend(program_cycle(0x200, 496, 104, 1));
    assert_eq!(chip.log, expected);
    assert_eq!(&chip.mem[0x10..0x10 + 600], &data[..]);
}

#[test]
fn write_of_aligned_full_page_is_one_program() {
    let mut chip = Chip::new(0x1000);
    chip.busy_per_op = 0;
    let data = vec![0xA5u8; 256];
    let r = drive(&mut chip, Engine::write_bytes(cfg(), 0x300, 256), &data, &mut []);
    assert_eq!(r, Ok(()));
    assert_eq!(chip.log, program_cycle(0x300, 0, 256, 1));
}

#[test]
fn empty_write_issues_nothing() {
    let mut chip = Chip::new(0x100);
    let r = drive(&mut chip, Engine::write_bytes(cfg(), 0x20, 0), &[], &mut []);
    assert_eq!(r, Ok(()));
    assert!(chip.log.is_empty());
}

#[test]
fn erase_sectors_truncates_to_sector_boundary() {
    let mut chip = Chip::new(0x4000);
    chip.busy_per_op = 0;
    let r = drive(&mut chip, Engine::erase_sectors(cfg(), 0x1234, 2), &[], &mut []);
    assert_eq!(r, Ok(()));
    assert_eq!(
        chip.log,
        vec![
            Command::WriteEnable,
            Command::SectorErase { addr: 0x1000 },
            Command::ReadStatus,
            Command::WriteEnable,
            Command::SectorErase { addr: 0x2000 },
            Command::ReadStatus,
        ]
    );
}

#[test]
fn erase_of_zero_sectors_issues_nothing() {
    let mut chip = Chip::new(0x100);
    let r = drive(&mut chip, Engine::erase_sectors(cfg(), 0x80, 0), &[], &mut []);
    assert_eq!(r, Ok(()));
    assert!(chip.log.is_empty());
}

#[test]
fn erasing_an_erased_range_twice_succeeds_both_times() {
    let mut chip = Chip::new(0x4000);
    let first = drive(&mut chip, Engine::erase_sectors(cfg(), 0x1000, 2), &[], &mut []);
    let log_first = chip.log.clone();
    chip.log.clear();
    let second = drive(&mut chip, Engine::erase_sectors(cfg(), 0x1000, 2), &[], &mut []);
    assert_eq!(first, Ok(()));
    assert_eq!(second, Ok(()));
    assert_eq!(chip.log, log_first);
    assert!(chip.mem[0x1000..0x3000].iter().all(|b| *b == 0xFF));
}

#[test]
fn erase_all_returns_status_read_fault_without_retry() {
    let mut chip = Chip::new(0x100);
    chip.fail_status_reads = true;
    let r = drive(&mut chip, Engine::erase_all(cfg()), &[], &mut []);
    assert_eq!(r, Err(Error::Spi(Fault(7))));
    assert_eq!(chip.log, vec![Command::WriteEnable, Command::ChipErase, Command::ReadStatus]);
}

#[test]
fn erase_all_waits_for_completion() {
    let mut chip = Chip::new(0x100);
    chip.mem[5] = 0;
    chip.busy_per_op = 4;
    let r = drive(&mut chip, Engine::erase_all(cfg()), &[], &mut []);
    assert_eq!(r, Ok(()));
    assert_eq!(chip.log.len(), 2 + 5);
    assert_eq!(chip.mem[5], 0xFF);
}

#[test]
fn stuck_busy_gives_unexpected_status_after_the_bound() {
    let mut chip = Chip::new(0x2000);
    chip.stuck_busy = true;
    let c = Config { poll_limit: Some(3), ..cfg() };
    let data = [0u8; 16];
    let r = drive(&mut chip, Engine::write_bytes(c, 0x0FF8, 16), &data, &mut []);
    assert_eq!(r, Err(Error::UnexpectedStatus));
    assert_eq!(chip.log, program_cycle(0x0FF8, 0, 8, 3));
}

#[test]
fn stuck_busy_ends_every_mutating_operation() {
    let c = Config { poll_limit: Some(2), ..cfg() };
    let mut chip = Chip::new(0x4000);
    chip.stuck_busy = true;
    let r = drive(&mut chip, Engine::erase_sectors(c, 0, 3), &[], &mut []);
    assert_eq!(r, Err(Error::UnexpectedStatus));
    assert_eq!(chip.log.len(), 4);
    let mut chip = Chip::new(0x100);
    chip.stuck_busy = true;
    let r = drive(&mut chip, Engine::erase_all(c), &[], &mut []);
    assert_eq!(r, Err(Error::UnexpectedStatus));
    assert_eq!(chip.log.len(), 4);
}

#[test]
fn latch_check_reads_status_before_the_command() {
    let c = Config { verify_latch: true, ..cfg() };
    let mut chip = Chip::new(0x4000);
    chip.busy_per_op = 0;
    let r = drive(&mut chip, Engine::erase_sectors(c, 0x2fff, 1), &[], &mut []);
    assert_eq!(r, Ok(()));
    assert_eq!(
        chip.log,
        vec![
            Command::WriteEnable,
            Command::ReadStatus,
            Command::SectorErase { addr: 0x2000 },
            Command::ReadStatus,
        ]
    );
}

#[test]
fn latch_that_does_not_take_gives_unexpected_status() {
    let c = Config { verify_latch: true, ..cfg() };
    let mut chip = Chip::new(0x100);
    chip.ignore_write_enable = true;
    let r = drive(&mut chip, Engine::erase_all(c), &[], &mut []);
    assert_eq!(r, Err(Error::UnexpectedStatus));
    assert_eq!(chip.log, vec![Command::WriteEnable, Command::ReadStatus]);
}

#[test]
fn transport_fault_on_program_stops_the_write() {
    let mut engine = Engine::write_bytes(cfg(), 0x0FF8, 16);
    assert_eq!(engine.start::<Fault>(), Action::Issue(Command::WriteEnable));
    assert_eq!(
        engine.step(Ok::<u8, Fault>(0)),
        Action::Issue(Command::PageProgram { addr: 0x0FF8, start: 0, len: 8 })
    );
    assert_eq!(engine.step(Err(Fault(3))), Action::Finish(Err(Error::Spi(Fault(3)))));
    assert!(!engine.is_running());
}

#[test]
fn same_replies_give_same_transactions() {
    let data = [0x11u8; 40];
    let mut a = Chip::new(0x1000);
    let mut b = Chip::new(0x1000);
    let ra = drive(&mut a, Engine::write_bytes(cfg(), 0xF0, 40), &data, &mut []);
    let rb = drive(&mut b, Engine::write_bytes(cfg(), 0xF0, 40), &data, &mut []);
    assert_eq!(ra, rb);
    assert_eq!(a.log, b.log);
}

#[test]
fn headers_carry_opcode_and_big_endian_address() {
    let c = Command::Read { addr: 0x123456, len: 4 };
    assert_eq!(c.header(3), vec![0x03, 0x12, 0x34, 0x56]);
    let c = Command::SectorErase { addr: 0x0A0B0C0D };
    assert_eq!(c.header(4), vec![0x20, 0x0A, 0x0B, 0x0C, 0x0D]);
    let c = Command::PageProgram { addr: 0xFF00, start: 3, len: 9 };
    assert_eq!(c.header(3), vec![0x02, 0x00, 0xFF, 0x00]);
    assert_eq!(c.data_len(), 9);
    assert_eq!(Command::WriteEnable.header(3), vec![0x06]);
    assert_eq!(Command::ReadStatus.header(4), vec![0x05]);
    assert_eq!(Command::ReadStatus.data_len(), 1);
    assert_eq!(Command::ChipErase.header(3), vec![0xC7]);
    assert_eq!(Command::ChipErase.data_len(), 0);
}

#[test]
fn status_bits() {
    assert!(is_busy(0x01));
    assert!(!is_busy(0x02));
    assert!(is_latch_set(0x03));
    assert!(!is_latch_set(0x01));
    assert!(Command::ChipErase.is_mutating());
    assert!(!Command::Read { addr: 0, len: 1 }.is_mutating());
}

#[test]
fn config_validity() {
    assert!(cfg().is_valid());
    assert!(Config { poll_limit: None, address_bytes: 4, ..cfg() }.is_valid());
    assert!(!Config { page_size: 0, ..cfg() }.is_valid());
    assert!(!Config { sector_size: 0, ..cfg() }.is_valid());
    assert!(!Config { address_bytes: 2, ..cfg() }.is_valid());
    assert!(!Config { poll_limit: Some(0), ..cfg() }.is_valid());
}
