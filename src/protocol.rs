//! Op-codes, status bits, chip geometry and the framing of one transaction.
use vstd::prelude::*;
use crate::plan::{lemma_mod_below, sector_base};

verus! {

/// Op-code that sets the write-enable latch.
pub const OP_WRITE_ENABLE: u8 = 0x06;
/// Op-code that reads the status register.
pub const OP_READ_STATUS: u8 = 0x05;
/// Op-code that reads data.
pub const OP_READ: u8 = 0x03;
/// Op-code that programs bytes within one page.
pub const OP_PAGE_PROGRAM: u8 = 0x02;
/// Op-code that erases one sector.
pub const OP_SECTOR_ERASE: u8 = 0x20;
/// Op-code that erases the whole chip.
pub const OP_CHIP_ERASE: u8 = 0xC7;

/// Status bit: an erase or program operation is in progress.
pub const STATUS_BUSY: u8 = 0x01;
/// Status bit: the write-enable latch is set.
pub const STATUS_WEL: u8 = 0x02;

pub open spec fn busy(status: u8) -> bool {
    status & STATUS_BUSY != 0
}

pub open spec fn latch_set(status: u8) -> bool {
    status & STATUS_WEL != 0
}

/// Whether the busy bit is set in `status`.
pub fn is_busy(status: u8) -> (r: bool)
    ensures
        r == busy(status),
{
    status & STATUS_BUSY != 0
}

/// Whether the write-enable latch bit is set in `status`.
pub fn is_latch_set(status: u8) -> (r: bool)
    ensures
        r == latch_set(status),
{
    status & STATUS_WEL != 0
}

/// The geometry and protocol options of one chip.
#[derive(Clone, Copy, Debug)]
pub struct Config {
    /// Bytes per page: no program transaction crosses a page boundary.
    pub page_size: u32,
    /// Bytes per sector: the erase granularity.
    pub sector_size: u32,
    /// Address bytes sent after an op-code: 3 or 4.
    pub address_bytes: u8,
    /// The most status reads spent waiting for one operation to complete;
    /// `None` waits without bound.
    pub poll_limit: Option<u32>,
    /// Whether to read the status back after write-enable and require the
    /// latch bit.
    pub verify_latch: bool,
}

impl Config {
    pub open spec fn wf(self) -> bool {
        &&& self.page_size > 0
        &&& self.sector_size > 0
        &&& (self.address_bytes == 3 || self.address_bytes == 4)
        &&& self.poll_limit != Some(0u32)
    }

    /// The number of distinct addresses that the address width can express.
    pub open spec fn address_space(self) -> nat {
        if self.address_bytes == 3 {
            0x100_0000
        } else {
            0x1_0000_0000
        }
    }

    /// Whether `len` bytes from `addr` on stay within the address space.
    pub fn range_fits(&self, addr: u32, len: u64) -> (r: bool)
        requires
            self.wf(),
        ensures
            r == (addr + len <= self.address_space()),
    {
        let space: u64 = if self.address_bytes == 3 {
            0x100_0000
        } else {
            0x1_0000_0000
        };
        len <= space && addr as u64 <= space - len
    }

    /// Whether `amount` sectors, from the one that holds `addr` on, stay
    /// within the address space.
    pub fn sectors_fit(&self, addr: u32, amount: usize) -> (r: bool)
        requires
            self.wf(),
        ensures
            r == (sector_base(addr as nat, self.sector_size as nat) + amount * self.sector_size
                <= self.address_space()),
    {
        proof {
            lemma_mod_below(addr as nat, self.sector_size as nat);
        }
        let s: u64 = self.sector_size as u64;
        let base: u64 = addr as u64 - addr as u64 % s;
        let space: u64 = if self.address_bytes == 3 {
            0x100_0000
        } else {
            0x1_0000_0000
        };
        if base > space {
            return false;
        }
        let max_amount: u64 = (space - base) / s;
        proof {
            let q = (space - base) / (s as int);
            vstd::arithmetic::div_mod::lemma_fundamental_div_mod(space - base, s as int);
            lemma_mod_below((space - base) as nat, s as nat);
            assert(amount <= q <==> amount * s <= space - base) by (nonlinear_arith)
                requires
                    space - base == s * q + (space - base) % (s as int),
                    0 <= (space - base) % (s as int) < s,
                    s > 0,
                    amount >= 0,
            ;
        }
        amount as u64 <= max_amount
    }

    /// A configuration is accepted when both sizes are positive, the address
    /// width is 3 or 4 bytes and a poll bound, if any, allows at least one read.
    pub fn is_valid(&self) -> (r: bool)
        ensures
            r == self.wf(),
    {
        self.page_size > 0 && self.sector_size > 0 && (self.address_bytes == 3
            || self.address_bytes == 4) && match self.poll_limit {
            Some(b) => b > 0,
            None => true,
        }
    }
}

/// One chip-select-scoped transaction.
#[derive(Clone, Copy, Debug, PartialEq, Eq)]
pub enum Command {
    /// Set the write-enable latch.
    WriteEnable,
    /// Read the one-byte status register.
    ReadStatus,
    /// Read `len` bytes starting at `addr`.
    Read { addr: u32, len: usize },
    /// Program `len` bytes of the caller's data, from offset `start`, at `addr`.
    PageProgram { addr: u32, start: usize, len: usize },
    /// Erase the sector that starts at `addr`.
    SectorErase { addr: u32 },
    /// Erase the whole chip.
    ChipErase,
}

impl Command {
    pub open spec fn spec_opcode(self) -> u8 {
        match self {
            Command::WriteEnable => OP_WRITE_ENABLE,
            Command::ReadStatus => OP_READ_STATUS,
            Command::Read { .. } => OP_READ,
            Command::PageProgram { .. } => OP_PAGE_PROGRAM,
            Command::SectorErase { .. } => OP_SECTOR_ERASE,
            Command::ChipErase => OP_CHIP_ERASE,
        }
    }

    /// Whether the command changes the chip's contents: these need the
    /// write-enable latch before them and a wait for completion after.
    pub open spec fn mutating(self) -> bool {
        match self {
            Command::PageProgram { .. } | Command::SectorErase { .. } | Command::ChipErase => true,
            _ => false,
        }
    }

    /// The address the command carries, if any.
    pub open spec fn address(self) -> Option<u32> {
        match self {
            Command::Read { addr, .. } => Some(addr),
            Command::PageProgram { addr, .. } => Some(addr),
            Command::SectorErase { addr } => Some(addr),
            _ => None,
        }
    }

    /// The op-code byte.
    pub fn opcode(&self) -> (r: u8)
        ensures
            r == self.spec_opcode(),
    {
        match self {
            Command::WriteEnable => OP_WRITE_ENABLE,
            Command::ReadStatus => OP_READ_STATUS,
            Command::Read { .. } => OP_READ,
            Command::PageProgram { .. } => OP_PAGE_PROGRAM,
            Command::SectorErase { .. } => OP_SECTOR_ERASE,
            Command::ChipErase => OP_CHIP_ERASE,
        }
    }

    /// Whether the command changes the chip's contents.
    pub fn is_mutating(&self) -> (r: bool)
        ensures
            r == self.mutating(),
    {
        match self {
            Command::PageProgram { .. } | Command::SectorErase { .. } | Command::ChipErase => true,
            _ => false,
        }
    }

    /// The bytes that follow the header: read into the caller's buffer for
    /// `Read`, one status byte for `ReadStatus`, the caller's data for
    /// `PageProgram`, none otherwise.
    pub open spec fn spec_data_len(self) -> nat {
        match self {
            Command::ReadStatus => 1,
            Command::Read { len, .. } => len as nat,
            Command::PageProgram { len, .. } => len as nat,
            _ => 0,
        }
    }

    /// The number of data bytes exchanged after the header.
    pub fn data_len(&self) -> (r: usize)
        ensures
            r as nat == self.spec_data_len(),
    {
        match self {
            Command::ReadStatus => 1,
            Command::Read { len, .. } => *len,
            Command::PageProgram { len, .. } => *len,
            _ => 0,
        }
    }

    /// The op-code followed by the address, most significant byte first, in
    /// `address_bytes` bytes.
    pub open spec fn spec_header(self, address_bytes: u8) -> Seq<u8> {
        match self.address() {
            Some(a) => seq![self.spec_opcode()] + address_be(a, address_bytes),
            None => seq![self.spec_opcode()],
        }
    }

    /// The header bytes sent at the start of the transaction.
    pub fn header(&self, address_bytes: u8) -> (r: Vec<u8>)
        requires
            address_bytes == 3 || address_bytes == 4,
        ensures
            r@ == self.spec_header(address_bytes),
    {
        let mut h: Vec<u8> = Vec::new();
        h.push(self.opcode());
        let a: Option<u32> = match self {
            Command::Read { addr, .. } => Some(*addr),
            Command::PageProgram { addr, .. } => Some(*addr),
            Command::SectorErase { addr } => Some(*addr),
            _ => None,
        };
        if let Some(a) = a {
            if address_bytes == 4 {
                h.push((a / 0x100_0000) as u8);
            }
            h.push(((a / 0x1_0000) % 0x100) as u8);
            h.push(((a / 0x100) % 0x100) as u8);
            h.push((a % 0x100) as u8);
            assert(h@ =~= self.spec_header(address_bytes));
        } else {
            assert(h@ =~= self.spec_header(address_bytes));
        }
        h
    }
}

/// `a` in `n` bytes, most significant first (3 bytes drop the top byte).
pub open spec fn address_be(a: u32, n: u8) -> Seq<u8> {
    let low = seq![((a / 0x1_0000) % 0x100) as u8, ((a / 0x100) % 0x100) as u8, (a % 0x100) as u8];
    if n == 4 {
        seq![(a / 0x100_0000) as u8] + low
    } else {
        low
    }
}

} // verus!
