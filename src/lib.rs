//! A driver core for SPI flash chips of the 25-series command family.
//!
//! [`engine::Engine`] sequences the transactions of one operation: read,
//! page-split program, sector erase and chip erase, with write-enable before
//! every mutating command and status polling after it. A transport, blocking
//! or suspending, performs each transaction that the engine asks for and
//! hands back the reply, so both kinds issue the same transactions. The
//! traits below are the blocking operations that a chip driver offers.
use vstd::prelude::*;

pub mod engine;
pub mod error;
pub mod laws;
pub mod plan;
pub mod protocol;

pub use crate::error::{Error, Private};

verus! {

/// Reading from a memory chip.
pub trait Read<Addr, E> {
    /// Reads `buf.len()` bytes starting at `addr` into `buf`.
    fn read(&mut self, addr: Addr, buf: &mut [u8]) -> Result<(), Error<E>>;
}

/// Writing and erasing a memory chip.
pub trait BlockDevice<Addr, E> {
    /// Erases `amount` sectors, from the one that holds `addr` on: the bits of
    /// `addr` below the sector size are ignored.
    fn erase_sectors(&mut self, addr: Addr, amount: usize) -> Result<(), Error<E>>;

    /// Erases the whole chip. This can take a long time.
    fn erase_all(&mut self) -> Result<(), Error<E>>;

    /// Writes `data` at `addr`. The sectors written must have been erased
    /// already; this does not erase them.
    fn write_bytes(&mut self, addr: Addr, data: &mut [u8]) -> Result<(), Error<E>>;
}

} // verus!
