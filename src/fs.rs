//! The file-like interface that devices offer.

use vstd::prelude::*;

verus! {

/// The direction of an I/O readiness query.
#[derive(Clone, Copy, Debug, PartialEq, Eq, Structural)]
pub enum IO {
    Read,
    Write,
}

/// A device or file that reads and writes bytes.
pub trait FileIO {
    /// Reads into `buf`; `None` on failure, else the number of bytes read.
    fn read(&mut self, buf: &mut [u8]) -> Option<usize>;

    /// Writes `buf`; `None` on failure, else the number of bytes written.
    fn write(&mut self, buf: &[u8]) -> Option<usize>;

    fn close(&mut self);

    /// Whether an operation in direction `event` would proceed now.
    fn poll(&mut self, event: IO) -> bool;
}

} // verus!
