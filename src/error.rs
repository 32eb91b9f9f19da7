use vstd::prelude::*;

verus! {

/// A marker that only this crate can build: it keeps [`Error`] open to new
/// variants without letting callers construct or exhaustively match the
/// reserved one.
#[derive(Debug, Clone, Copy, PartialEq, Eq)]
pub enum Private {
    #[non_exhaustive]
    Reserved,
}

/// The error type used by this library.
///
/// `E` is the transport's own fault type, carried through unchanged.
#[derive(Debug, PartialEq, Eq)]
pub enum Error<E> {
    /// An SPI transfer failed.
    Spi(E),
    /// The status register held flags that the protocol did not expect: the
    /// write-enable latch did not take, or the chip stayed busy past the
    /// configured number of polls.
    UnexpectedStatus,
    /// Reserved; it cannot be constructed.
    #[allow(non_camel_case_types)]
    __NonExhaustive(Private),
}

} // verus!
