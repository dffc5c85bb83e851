//! Anonymous pipes: a one-way byte stream between a write end and a read
//! end. Once every write end is closed, reads return 0 bytes: the end of the
//! stream, not an error.

use vstd::prelude::*;

use crate::error::{kind_of_some_errno, lift, ErrorKind, Result};
use crate::fd::Descriptor;
use crate::sys;

verus! {

/// The read end of a pipe.
#[derive(Debug)]
pub struct ReadPipe {
    fd: Descriptor,
}

/// The write end of a pipe.
#[derive(Debug)]
pub struct WritePipe {
    fd: Descriptor,
}

/// Creates a pipe and returns its two ends, write end first.
pub fn pipe() -> (r: Result<(WritePipe, ReadPipe)>)
    ensures
        r matches Ok((w, rd)) ==> w.raw() != rd.raw(),
        r matches Err(e) ==> kind_of_some_errno(e),
{
    match sys::pipe() {
        Ok((rd, wr)) => Ok(ends_of(rd, wr)),
        Err(code) => Err(ErrorKind::from_errno(code)),
    }
}

/// The two ends of the pipe whose read end is `rd` and write end `wr`,
/// write end first.
fn ends_of(rd: i32, wr: i32) -> (r: (WritePipe, ReadPipe))
    requires
        rd >= 0,
        wr >= 0,
    ensures
        r.0.raw() == wr,
        r.1.raw() == rd,
{
    (WritePipe { fd: Descriptor::acquire(wr) }, ReadPipe { fd: Descriptor::acquire(rd) })
}

impl ReadPipe {
    /// The descriptor of this end.
    pub closed spec fn raw(&self) -> i32 {
        self.fd@
    }

    /// Reads at most `buf.len()` bytes and returns how many came; 0 once
    /// every write end is closed. Waits while the pipe is empty and a write
    /// end is open.
    pub fn read(&mut self, buf: &mut [u8]) -> (r: Result<usize>)
        ensures
            final(buf)@.len() == old(buf)@.len(),
            r matches Ok(n) ==> n <= old(buf)@.len(),
            r matches Err(e) ==> kind_of_some_errno(e),
    {
        lift(sys::read(self.fd.as_raw(), buf))
    }

    /// The raw descriptor, for poll/epoll/select.
    pub fn as_raw_fd(&self) -> (r: i32)
        ensures
            r == self.raw(),
            r >= 0,
    {
        self.fd.as_raw()
    }
}

impl WritePipe {
    /// The descriptor of this end.
    pub closed spec fn raw(&self) -> i32 {
        self.fd@
    }

    /// Writes at most `buf.len()` bytes and returns how many were taken,
    /// possibly fewer than asked; `BrokenPipe` once the read end is closed.
    pub fn write(&mut self, buf: &[u8]) -> (r: Result<usize>)
        ensures
            r matches Ok(n) ==> n <= buf@.len(),
            r matches Err(e) ==> kind_of_some_errno(e),
    {
        lift(sys::write(self.fd.as_raw(), buf))
    }

    /// Nothing is buffered in the process: always succeeds.
    pub fn flush(&mut self) -> (r: Result<()>)
        ensures
            r is Ok,
    {
        Ok(())
    }

    /// The raw descriptor, for poll/epoll/select.
    pub fn as_raw_fd(&self) -> (r: i32)
        ensures
            r == self.raw(),
            r >= 0,
    {
        self.fd.as_raw()
    }
}

} // verus!
