//! Linux event counters (eventfd): a 64-bit counter in the kernel that
//! writers add to and readers drain, as a plain counter or as a semaphore.

use vstd::prelude::*;

use crate::error::{kind_of_some_errno, kind_of_errno, ErrorKind, Result, EAGAIN, EINVAL};
use crate::fd::Descriptor;
use crate::sys;
use crate::sys::host_u64_of;

verus! {

// The `EFD_*` values below are the generic Linux ones; a few architectures,
// such as MIPS, number `EFD_NONBLOCK` and `EFD_CLOEXEC` otherwise.

/// The size in bytes of every read and write of a counter.
pub const EFD_VAL_SIZE: usize = 8;

/// `EFD_SEMAPHORE`: a read takes 1 from the counter instead of all of it.
pub const EFD_SEMAPHORE: i32 = 1;

/// `EFD_NONBLOCK`: operations that would wait fail with `WouldBlock`.
pub const EFD_NONBLOCK: i32 = 0o4000;

/// `EFD_CLOEXEC`: the descriptor is closed across `exec`.
pub const EFD_CLOEXEC: i32 = 0o2000000;

/// How an event counter is created.
#[derive(Clone, Copy, Debug, PartialEq, Eq, Structural)]
pub struct EfdFlags {
    /// Semaphore mode: each read returns 1 and takes 1 from the counter.
    pub semaphore: bool,
    /// Non-blocking mode.
    pub nonblock: bool,
    /// Close the descriptor across `exec`.
    pub cloexec: bool,
}

/// The kernel's flag word for `f`.
pub open spec fn efd_bits(f: EfdFlags) -> int {
    (if f.semaphore { EFD_SEMAPHORE as int } else { 0 }) + (if f.nonblock {
        EFD_NONBLOCK as int
    } else {
        0
    }) + (if f.cloexec { EFD_CLOEXEC as int } else { 0 })
}

impl EfdFlags {
    /// No flag: a plain, blocking counter.
    pub fn empty() -> (r: EfdFlags)
        ensures
            !r.semaphore && !r.nonblock && !r.cloexec,
    {
        EfdFlags { semaphore: false, nonblock: false, cloexec: false }
    }

    /// The kernel's flag word.
    pub fn bits(&self) -> (r: i32)
        ensures
            r == efd_bits(*self),
    {
        let s: i32 = if self.semaphore { EFD_SEMAPHORE } else { 0 };
        let n: i32 = if self.nonblock { EFD_NONBLOCK } else { 0 };
        let c: i32 = if self.cloexec { EFD_CLOEXEC } else { 0 };
        s + n + c
    }
}

/// What a read of a counter gives, from the kernel's outcome and the eight
/// bytes it filled: the value only when all eight bytes came.
pub open spec fn read_result(outcome: core::result::Result<usize, i32>, bytes: Seq<u8>) -> Result<
    u64,
> {
    match outcome {
        Ok(n) => if n == EFD_VAL_SIZE {
            Ok(host_u64_of(bytes))
        } else {
            Err(ErrorKind::Io)
        },
        Err(code) => Err(kind_of_errno(code)),
    }
}

/// What a write to a counter gives, from the kernel's outcome: success only
/// when all eight bytes were taken.
pub open spec fn write_result(outcome: core::result::Result<usize, i32>) -> Result<()> {
    match outcome {
        Ok(n) => if n == EFD_VAL_SIZE {
            Ok(())
        } else {
            Err(ErrorKind::Io)
        },
        Err(code) => Err(kind_of_errno(code)),
    }
}

/// A counter read never makes up a value: the kernel's `EAGAIN` (a
/// non-blocking read of an empty counter) is reported as `WouldBlock`, and a
/// value is returned only when the kernel delivered all eight bytes, decoded
/// from exactly those bytes.
pub proof fn lemma_read_reports_what_the_kernel_did(
    outcome: core::result::Result<usize, i32>,
    bytes: Seq<u8>,
)
    ensures
        outcome == Err::<usize, i32>(EAGAIN) ==> read_result(outcome, bytes) == Err::<
            u64,
            ErrorKind,
        >(ErrorKind::WouldBlock),
        read_result(outcome, bytes) is Ok <==> outcome == Ok::<usize, i32>(EFD_VAL_SIZE),
        read_result(outcome, bytes) is Ok ==> read_result(outcome, bytes) == Ok::<u64, ErrorKind>(
            host_u64_of(bytes),
        ),
{
}

/// The value of a counter read, from the kernel's outcome and the buffer it
/// filled.
pub fn counter_value(outcome: core::result::Result<usize, i32>, bytes: [u8; 8]) -> (r: Result<u64>)
    ensures
        r == read_result(outcome, bytes@),
{
    match outcome {
        Ok(n) => if n == EFD_VAL_SIZE {
            Ok(sys::from_ne_bytes(bytes))
        } else {
            Err(ErrorKind::Io)
        },
        Err(code) => Err(ErrorKind::from_errno(code)),
    }
}

/// The status of a counter write, from the kernel's outcome.
pub fn write_status(outcome: core::result::Result<usize, i32>) -> (r: Result<()>)
    ensures
        r == write_result(outcome),
{
    match outcome {
        Ok(n) => if n == EFD_VAL_SIZE {
            Ok(())
        } else {
            Err(ErrorKind::Io)
        },
        Err(code) => Err(ErrorKind::from_errno(code)),
    }
}

/// The eight bytes that a write of `val` hands to the kernel.
pub fn counter_bytes(val: u64) -> (r: [u8; 8])
    ensures
        r@ == sys::host_bytes_of(val),
        host_u64_of(r@) == val,
{
    sys::to_ne_bytes(val)
}

/// An event object: a kernel counter used to signal between threads or
/// processes, usable with poll/epoll/select like any other descriptor.
#[derive(Debug)]
pub struct EventFd {
    fd: Descriptor,
    flags: EfdFlags,
}

impl EventFd {
    /// The flags the counter was created with.
    pub closed spec fn mode(&self) -> EfdFlags {
        self.flags
    }

    /// The descriptor of the counter.
    pub closed spec fn raw(&self) -> i32 {
        self.fd@
    }

    /// A plain, blocking counter holding `initval`: a read returns the value
    /// and resets it to zero.
    pub fn new(initval: u64) -> (r: Result<EventFd>)
        ensures
            initval > u32::MAX ==> r == Err::<EventFd, ErrorKind>(ErrorKind::Os(EINVAL)),
            r matches Ok(e) ==> !e.mode().semaphore && !e.mode().nonblock && !e.mode().cloexec,
            r matches Err(e) ==> kind_of_some_errno(e),
    {
        EventFd::with_flags(initval, EfdFlags::empty())
    }

    /// A blocking counter in semaphore mode holding `initval`: a read returns
    /// 1 and takes 1 from the value.
    pub fn new_semaphore(initval: u64) -> (r: Result<EventFd>)
        ensures
            initval > u32::MAX ==> r == Err::<EventFd, ErrorKind>(ErrorKind::Os(EINVAL)),
            r matches Ok(e) ==> e.mode().semaphore && !e.mode().nonblock && !e.mode().cloexec,
            r matches Err(e) ==> kind_of_some_errno(e),
    {
        EventFd::with_flags(initval, EfdFlags { semaphore: true, nonblock: false, cloexec: false })
    }

    /// A counter holding `initval`, created with `flags`. The kernel takes a
    /// 32-bit initial value: a larger one is refused with `EINVAL`.
    pub fn with_flags(initval: u64, flags: EfdFlags) -> (r: Result<EventFd>)
        ensures
            initval > u32::MAX ==> r == Err::<EventFd, ErrorKind>(ErrorKind::Os(EINVAL)),
            r matches Ok(e) ==> e.mode() == flags,
            r matches Err(e) ==> kind_of_some_errno(e),
    {
        if initval > u32::MAX as u64 {
            assert(ErrorKind::Os(EINVAL) == kind_of_errno(EINVAL));
            return Err(ErrorKind::Os(EINVAL));
        }
        match sys::eventfd(initval as u32, flags.bits()) {
            Ok(fd) => Ok(EventFd { fd: Descriptor::acquire(fd), flags }),
            Err(code) => Err(ErrorKind::from_errno(code)),
        }
    }

    /// A second handle on the same kernel counter, through a duplicated
    /// descriptor that is closed independently.
    pub fn try_clone(&self) -> (r: Result<EventFd>)
        ensures
            r matches Ok(e) ==> e.mode() == self.mode() && e.raw() != self.raw(),
            r matches Err(e) ==> kind_of_some_errno(e),
    {
        match self.fd.try_clone() {
            Ok(fd) => Ok(EventFd { fd, flags: self.flags }),
            Err(e) => Err(e),
        }
    }

    /// Reads the counter: the whole value (reset to zero), or 1 in semaphore
    /// mode. A read of other than eight bytes is `Io`.
    pub fn read(&self) -> (r: Result<u64>)
        ensures
            exists|outcome: core::result::Result<usize, i32>, bytes: Seq<u8>|
                bytes.len() == EFD_VAL_SIZE && r == read_result(outcome, bytes),
    {
        let mut buf: [u8; 8] = [0u8; 8];
        let outcome = sys::read(self.fd.as_raw(), &mut buf);
        counter_value(outcome, buf)
    }

    /// Adds `val` to the counter. A write of other than eight bytes is `Io`.
    pub fn write(&self, val: u64) -> (r: Result<()>)
        ensures
            exists|outcome: core::result::Result<usize, i32>| r == write_result(outcome),
    {
        let buf = counter_bytes(val);
        let outcome = sys::write(self.fd.as_raw(), &buf);
        write_status(outcome)
    }

    /// The raw descriptor, for poll/epoll/select.
    pub fn as_raw_fd(&self) -> (r: i32)
        ensures
            r == self.raw(),
            r >= 0,
    {
        self.fd.as_raw()
    }
}

} // verus!
