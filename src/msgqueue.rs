//! POSIX message queues: named kernel queues of bounded messages, delivered
//! by descending priority and in send order within a priority.

use vstd::prelude::*;
use vstd::string::StringSliceAdditionalSpecFns;
use vstd::utf8::{decode_utf8, valid_utf8};

use crate::error::{kind_of_some_errno, kind_of_errno, lift, ErrorKind, Result, EINVAL};
use crate::sys;

verus! {

/// The priority of a message sent by `send`.
pub const DEFAULT_PRIO: u32 = 0;

/// The permission bits of a queue that `create` makes.
pub const DEFAULT_MODE: u32 = 0o660;

// The `O_*` values below are the generic Linux ones; a few architectures,
// such as MIPS, number `O_NONBLOCK` and some others otherwise.

/// `O_RDONLY`, `O_WRONLY`, `O_RDWR`: the access modes of the flag word.
pub const O_RDONLY: i32 = 0;
pub const O_WRONLY: i32 = 1;
pub const O_RDWR: i32 = 2;

/// `O_CREAT`: create the queue if it does not exist.
pub const O_CREAT: i32 = 0o100;

/// `O_EXCL`: with `O_CREAT`, fail if the queue exists.
pub const O_EXCL: i32 = 0o200;

/// `O_NONBLOCK`: sends on a full queue and receives on an empty one fail
/// with `WouldBlock` instead of waiting.
pub const O_NONBLOCK: i32 = 0o4000;

/// `O_CLOEXEC`: the descriptor is closed across `exec`.
pub const O_CLOEXEC: i32 = 0o2000000;

/// The ASCII codes that a queue name is checked for.
pub const SLASH: u8 = 0x2f;
pub const NUL: u8 = 0;

/// How a queue descriptor may be used.
#[derive(Clone, Copy, Debug, PartialEq, Eq, Structural)]
pub enum Access {
    ReadOnly,
    WriteOnly,
    ReadWrite,
}

/// How a queue is opened.
#[derive(Clone, Copy, Debug, PartialEq, Eq, Structural)]
pub struct OpenFlags {
    pub access: Access,
    /// Create the queue if it does not exist.
    pub create: bool,
    /// With `create`, fail with `AlreadyExists` if the queue exists.
    pub exclusive: bool,
    /// Non-blocking mode.
    pub nonblock: bool,
    /// Close the descriptor across `exec`.
    pub cloexec: bool,
}

/// The kernel's flag word for `f`.
pub open spec fn open_bits(f: OpenFlags) -> int {
    (match f.access {
        Access::ReadOnly => O_RDONLY as int,
        Access::WriteOnly => O_WRONLY as int,
        Access::ReadWrite => O_RDWR as int,
    }) + (if f.create { O_CREAT as int } else { 0 }) + (if f.exclusive {
        O_EXCL as int
    } else {
        0
    }) + (if f.nonblock { O_NONBLOCK as int } else { 0 }) + (if f.cloexec {
        O_CLOEXEC as int
    } else {
        0
    })
}

impl OpenFlags {
    /// Read-write access, nothing else.
    pub fn read_write() -> (r: OpenFlags)
        ensures
            r.access == Access::ReadWrite,
            !r.create && !r.exclusive && !r.nonblock && !r.cloexec,
    {
        OpenFlags {
            access: Access::ReadWrite,
            create: false,
            exclusive: false,
            nonblock: false,
            cloexec: false,
        }
    }

    /// The kernel's flag word.
    pub fn bits(&self) -> (r: i32)
        ensures
            r == open_bits(*self),
    {
        let a: i32 = match self.access {
            Access::ReadOnly => O_RDONLY,
            Access::WriteOnly => O_WRONLY,
            Access::ReadWrite => O_RDWR,
        };
        let c: i32 = if self.create { O_CREAT } else { 0 };
        let e: i32 = if self.exclusive { O_EXCL } else { 0 };
        let n: i32 = if self.nonblock { O_NONBLOCK } else { 0 };
        let x: i32 = if self.cloexec { O_CLOEXEC } else { 0 };
        a + c + e + n + x
    }
}

/// A snapshot of a queue's attributes.
#[derive(Clone, Copy, Debug, PartialEq, Eq, Structural)]
pub struct MqAttr {
    /// The flag word of the descriptor (`O_NONBLOCK` or 0).
    pub flags: i64,
    /// The most messages the queue holds.
    pub maxmsg: i64,
    /// The largest message the queue takes, in bytes.
    pub msgsize: i64,
    /// The messages in the queue at the time of the snapshot.
    pub curmsgs: i64,
}

impl MqAttr {
    pub fn flags(&self) -> (r: i64)
        ensures
            r == self.flags,
    {
        self.flags
    }

    pub fn maxmsg(&self) -> (r: i64)
        ensures
            r == self.maxmsg,
    {
        self.maxmsg
    }

    pub fn msgsize(&self) -> (r: i64)
        ensures
            r == self.msgsize,
    {
        self.msgsize
    }

    pub fn curmsgs(&self) -> (r: i64)
        ensures
            r == self.curmsgs,
    {
        self.curmsgs
    }
}

/// A well-formed queue name, as UTF-8 bytes: `/` followed by at least one
/// byte, none of them `/` or NUL.
pub open spec fn valid_queue_name(b: Seq<u8>) -> bool {
    &&& b.len() >= 2
    &&& b[0] == SLASH
    &&& forall|i: int| 1 <= i < b.len() ==> #[trigger] b[i] != SLASH && b[i] != NUL
}

/// Whether `name` is a well-formed queue name.
pub fn is_valid_name(name: &str) -> (r: bool)
    ensures
        r == valid_queue_name(name.spec_bytes()),
{
    let b = name.as_bytes();
    let n = b.len();
    if n < 2 || b[0] != SLASH {
        return false;
    }
    let mut i: usize = 1;
    while i < n
        invariant
            b@ == name.spec_bytes(),
            n == b@.len(),
            1 <= i <= n,
            forall|j: int| 1 <= j < i ==> #[trigger] b@[j] != SLASH && b@[j] != NUL,
        decreases n - i,
    {
        if b[i] == SLASH || b[i] == NUL {
            return false;
        }
        i = i + 1;
    }
    true
}

/// The geometry that attributes give: `(maxmsg, msgsize)` when both are
/// sizes, else `Io`.
pub open spec fn geometry_of(a: MqAttr) -> Result<(usize, usize)> {
    if 0 <= a.maxmsg <= usize::MAX && 0 <= a.msgsize <= usize::MAX {
        Ok((a.maxmsg as usize, a.msgsize as usize))
    } else {
        Err(ErrorKind::Io)
    }
}

/// The geometry of a queue, from the attributes the kernel reported.
pub fn queue_geometry(a: &MqAttr) -> (r: Result<(usize, usize)>)
    ensures
        r == geometry_of(*a),
{
    if 0 <= a.maxmsg && a.maxmsg as u64 <= usize::MAX as u64 && 0 <= a.msgsize && a.msgsize as u64
        <= usize::MAX as u64 {
        Ok((a.maxmsg as usize, a.msgsize as usize))
    } else {
        Err(ErrorKind::Io)
    }
}

/// What a received message reads as text: its UTF-8 decoding, or `EINVAL`.
pub open spec fn text_result(bytes: Seq<u8>) -> Result<Seq<char>> {
    if valid_utf8(bytes) {
        Ok(decode_utf8(bytes))
    } else {
        Err(ErrorKind::Os(EINVAL))
    }
}

/// The text of a received message.
pub fn message_text(bytes: Vec<u8>) -> (r: Result<String>)
    ensures
        r matches Ok(s) ==> text_result(bytes@) == Ok::<Seq<char>, ErrorKind>(s@),
        r matches Err(e) ==> text_result(bytes@) == Err::<Seq<char>, ErrorKind>(e),
{
    match sys::string_from_utf8(bytes) {
        Some(s) => Ok(s),
        None => Err(ErrorKind::Os(EINVAL)),
    }
}

/// The attributes handed to the kernel when a queue is created: the
/// geometry asked for, no flag, no message.
pub fn create_attr(max_msg: usize, msg_size: usize) -> (r: MqAttr)
    requires
        max_msg <= i64::MAX,
        msg_size <= i64::MAX,
    ensures
        r == (MqAttr { flags: 0, maxmsg: max_msg as i64, msgsize: msg_size as i64, curmsgs: 0 }),
{
    MqAttr { flags: 0, maxmsg: max_msg as i64, msgsize: msg_size as i64, curmsgs: 0 }
}

/// The first `n` bytes of `buf`: the message that a receive of length `n`
/// delivered into it.
pub fn message_prefix(buf: &[u8], n: usize) -> (r: Vec<u8>)
    requires
        n <= buf@.len(),
    ensures
        r@ == buf@.subrange(0, n as int),
{
    let mut msg: Vec<u8> = Vec::with_capacity(n);
    let mut i: usize = 0;
    while i < n
        invariant
            n <= buf@.len(),
            i <= n,
            msg@ == buf@.subrange(0, i as int),
        decreases n - i,
    {
        msg.push(buf[i]);
        i = i + 1;
    }
    msg
}

/// A handle on a POSIX message queue.
///
/// The queue's geometry (the most messages it holds, the largest message it
/// takes) is read from the kernel when the handle is made and kept; the
/// handle is open until `close` or drop, and every operation on a closed
/// handle fails with `NotFound`. Dropping or closing the handle does not
/// remove the queue's name from the system.
#[derive(Debug)]
pub struct MsgQueue {
    mq: Option<nix::mqueue::MqdT>,
    max_msg: usize,
    msg_size: usize,
}

impl MsgQueue {
    /// Whether the handle still holds its descriptor.
    pub closed spec fn spec_open(&self) -> bool {
        self.mq is Some
    }

    /// The most messages the queue holds, as read when the handle was made.
    pub closed spec fn spec_max_msg(&self) -> usize {
        self.max_msg
    }

    /// The largest message the queue takes, as read when the handle was made.
    pub closed spec fn spec_msg_size(&self) -> usize {
        self.msg_size
    }

    /// A handle on an opened queue descriptor that caches the geometry of
    /// the attributes `a` the kernel reported for it; the descriptor is
    /// closed when they give none.
    fn from_attributes(mqd: nix::mqueue::MqdT, a: &MqAttr) -> (r: Result<MsgQueue>)
        ensures
            geometry_of(*a) is Ok ==> r is Ok,
            r matches Ok(q) ==> q.spec_open() && geometry_of(*a) == Ok::<(usize, usize), ErrorKind>(
                (q.spec_max_msg(), q.spec_msg_size()),
            ),
            geometry_of(*a) is Err ==> r == Err::<MsgQueue, ErrorKind>(ErrorKind::Io),
    {
        match queue_geometry(a) {
            Ok((max_msg, msg_size)) => Ok(MsgQueue { mq: Some(mqd), max_msg, msg_size }),
            Err(e) => {
                let _ = sys::mq_close(mqd);
                Err(e)
            },
        }
    }

    /// A handle on an opened queue descriptor, with the geometry that the
    /// kernel reports for it; the descriptor is closed on failure.
    fn from_descriptor(mqd: nix::mqueue::MqdT) -> (r: Result<MsgQueue>)
        ensures
            r matches Ok(q) ==> q.spec_open() && q.spec_max_msg() <= i64::MAX
                && q.spec_msg_size() <= i64::MAX,
            r matches Err(e) ==> kind_of_some_errno(e),
    {
        match sys::mq_getattr(&mqd) {
            Ok(a) => {
                assert(ErrorKind::Io == kind_of_errno(crate::error::EIO));
                MsgQueue::from_attributes(mqd, &a)
            },
            Err(code) => {
                let _ = sys::mq_close(mqd);
                Err(ErrorKind::from_errno(code))
            },
        }
    }

    /// Opens an existing queue for reading and writing. The name is `/`
    /// followed by a name without `/`.
    pub fn open(name: &str) -> (r: Result<MsgQueue>)
        ensures
            !valid_queue_name(name.spec_bytes()) ==> r == Err::<MsgQueue, ErrorKind>(
                ErrorKind::InvalidName,
            ),
            r matches Ok(q) ==> q.spec_open() && q.spec_max_msg() <= i64::MAX
                && q.spec_msg_size() <= i64::MAX,
            r matches Err(e) ==> kind_of_some_errno(e),
    {
        MsgQueue::open_with_flags(name, OpenFlags::read_write())
    }

    /// Opens an existing queue (or creates it, with the kernel's default
    /// geometry, when `flags.create` is set).
    pub fn open_with_flags(name: &str, flags: OpenFlags) -> (r: Result<MsgQueue>)
        ensures
            !valid_queue_name(name.spec_bytes()) ==> r == Err::<MsgQueue, ErrorKind>(
                ErrorKind::InvalidName,
            ),
            r matches Ok(q) ==> q.spec_open() && q.spec_max_msg() <= i64::MAX
                && q.spec_msg_size() <= i64::MAX,
            r matches Err(e) ==> kind_of_some_errno(e),
    {
        if !is_valid_name(name) {
            assert(ErrorKind::InvalidName == kind_of_errno(crate::error::ENAMETOOLONG));
            return Err(ErrorKind::InvalidName);
        }
        match sys::mq_open(name, flags.bits(), 0, None) {
            Ok(mqd) => MsgQueue::from_descriptor(mqd),
            Err(code) => Err(ErrorKind::from_errno(code)),
        }
    }

    /// Creates the queue, or opens it if it exists, for reading and writing.
    /// A new queue gets the given geometry and the permissions `0o660`; the
    /// handle keeps the geometry the kernel reports, which for an existing
    /// queue may differ from the one asked for.
    pub fn create(name: &str, nmsg: usize, maxsz: usize) -> (r: Result<MsgQueue>)
        ensures
            !valid_queue_name(name.spec_bytes()) ==> r == Err::<MsgQueue, ErrorKind>(
                ErrorKind::InvalidName,
            ),
            valid_queue_name(name.spec_bytes()) && (nmsg > i64::MAX || maxsz > i64::MAX) ==> r
                == Err::<MsgQueue, ErrorKind>(ErrorKind::Os(EINVAL)),
            r matches Ok(q) ==> q.spec_open() && q.spec_max_msg() <= i64::MAX
                && q.spec_msg_size() <= i64::MAX,
            r matches Err(e) ==> kind_of_some_errno(e),
    {
        let flags = OpenFlags {
            access: Access::ReadWrite,
            create: true,
            exclusive: false,
            nonblock: false,
            cloexec: false,
        };
        MsgQueue::create_with_flags(name, flags, DEFAULT_MODE, nmsg, maxsz)
    }

    /// Creates the queue for reading and writing, failing with
    /// `AlreadyExists` if it exists.
    pub fn create_exclusive(name: &str, nmsg: usize, maxsz: usize) -> (r: Result<MsgQueue>)
        ensures
            !valid_queue_name(name.spec_bytes()) ==> r == Err::<MsgQueue, ErrorKind>(
                ErrorKind::InvalidName,
            ),
            valid_queue_name(name.spec_bytes()) && (nmsg > i64::MAX || maxsz > i64::MAX) ==> r
                == Err::<MsgQueue, ErrorKind>(ErrorKind::Os(EINVAL)),
            r matches Ok(q) ==> q.spec_open() && q.spec_max_msg() <= i64::MAX
                && q.spec_msg_size() <= i64::MAX,
            r matches Err(e) ==> kind_of_some_errno(e),
    {
        let flags = OpenFlags {
            access: Access::ReadWrite,
            create: true,
            exclusive: true,
            nonblock: false,
            cloexec: false,
        };
        MsgQueue::create_with_flags(name, flags, DEFAULT_MODE, nmsg, maxsz)
    }

    /// Creates or opens the queue with `flags` (to which `create` is always
    /// added) and permission bits `mode`. A new queue gets the geometry
    /// `max_msg` and `msg_size`; the handle keeps the geometry the kernel
    /// reports. Sizes beyond the kernel's attribute type are refused with
    /// `EINVAL`.
    pub fn create_with_flags(
        name: &str,
        flags: OpenFlags,
        mode: u32,
        max_msg: usize,
        msg_size: usize,
    ) -> (r: Result<MsgQueue>)
        ensures
            !valid_queue_name(name.spec_bytes()) ==> r == Err::<MsgQueue, ErrorKind>(
                ErrorKind::InvalidName,
            ),
            valid_queue_name(name.spec_bytes()) && (max_msg > i64::MAX || msg_size > i64::MAX)
                ==> r == Err::<MsgQueue, ErrorKind>(ErrorKind::Os(EINVAL)),
            r matches Ok(q) ==> q.spec_open() && q.spec_max_msg() <= i64::MAX
                && q.spec_msg_size() <= i64::MAX,
            r matches Err(e) ==> kind_of_some_errno(e),
    {
        if !is_valid_name(name) {
            assert(ErrorKind::InvalidName == kind_of_errno(crate::error::ENAMETOOLONG));
            return Err(ErrorKind::InvalidName);
        }
        if max_msg as u64 > i64::MAX as u64 || msg_size as u64 > i64::MAX as u64 {
            assert(ErrorKind::Os(EINVAL) == kind_of_errno(EINVAL));
            return Err(ErrorKind::Os(EINVAL));
        }
        let flags = OpenFlags { create: true, ..flags };
        match sys::mq_open(name, flags.bits(), mode, Some(create_attr(max_msg, msg_size))) {
            Ok(mqd) => MsgQueue::from_descriptor(mqd),
            Err(code) => Err(ErrorKind::from_errno(code)),
        }
    }

    /// The most messages the queue holds.
    pub fn max_msg(&self) -> (r: usize)
        ensures
            r == self.spec_max_msg(),
    {
        self.max_msg
    }

    /// The largest message the queue takes, in bytes.
    pub fn msg_size(&self) -> (r: usize)
        ensures
            r == self.spec_msg_size(),
    {
        self.msg_size
    }

    /// Whether the handle is still open.
    pub fn is_open(&self) -> (r: bool)
        ensures
            r == self.spec_open(),
    {
        self.mq.is_some()
    }

    /// Puts the queue descriptor in non-blocking mode; returns the attributes
    /// it had before.
    pub fn set_nonblock(&mut self) -> (r: Result<MqAttr>)
        ensures
            *final(self) == *old(self),
            !old(self).spec_open() ==> r == Err::<MqAttr, ErrorKind>(ErrorKind::NotFound),
            r matches Err(e) ==> kind_of_some_errno(e),
    {
        match &self.mq {
            Some(mq) => lift(sys::mq_set_nonblock(mq)),
            None => {
                assert(ErrorKind::NotFound == kind_of_errno(crate::error::ENOENT));
                Err(ErrorKind::NotFound)
            },
        }
    }

    /// Puts the queue descriptor back in blocking mode; returns the
    /// attributes it had before.
    pub fn remove_nonblock(&mut self) -> (r: Result<MqAttr>)
        ensures
            *final(self) == *old(self),
            !old(self).spec_open() ==> r == Err::<MqAttr, ErrorKind>(ErrorKind::NotFound),
            r matches Err(e) ==> kind_of_some_errno(e),
    {
        match &self.mq {
            Some(mq) => lift(sys::mq_remove_nonblock(mq)),
            None => {
                assert(ErrorKind::NotFound == kind_of_errno(crate::error::ENOENT));
                Err(ErrorKind::NotFound)
            },
        }
    }

    /// A snapshot of the queue's attributes, the current message count
    /// included.
    pub fn get_attr(&self) -> (r: Result<MqAttr>)
        ensures
            !self.spec_open() ==> r == Err::<MqAttr, ErrorKind>(ErrorKind::NotFound),
            r matches Err(e) ==> kind_of_some_errno(e),
    {
        match &self.mq {
            Some(mq) => lift(sys::mq_getattr(mq)),
            None => {
                assert(ErrorKind::NotFound == kind_of_errno(crate::error::ENOENT));
                Err(ErrorKind::NotFound)
            },
        }
    }

    /// Sends a message with the default priority.
    pub fn send(&self, msg: &[u8]) -> (r: Result<()>)
        ensures
            !self.spec_open() ==> r == Err::<(), ErrorKind>(ErrorKind::NotFound),
            self.spec_open() && msg@.len() > self.spec_msg_size() ==> r == Err::<(), ErrorKind>(
                ErrorKind::MessageTooLarge,
            ),
            r matches Err(e) ==> kind_of_some_errno(e),
    {
        self.send_with_priority(msg, DEFAULT_PRIO)
    }

    /// Sends a message with priority `prio`. A message longer than the
    /// queue's message size is refused before it reaches the kernel.
    pub fn send_with_priority(&self, msg: &[u8], prio: u32) -> (r: Result<()>)
        ensures
            !self.spec_open() ==> r == Err::<(), ErrorKind>(ErrorKind::NotFound),
            self.spec_open() && msg@.len() > self.spec_msg_size() ==> r == Err::<(), ErrorKind>(
                ErrorKind::MessageTooLarge,
            ),
            r matches Err(e) ==> kind_of_some_errno(e),
    {
        match &self.mq {
            Some(mq) => {
                if msg.len() > self.msg_size {
                    assert(ErrorKind::MessageTooLarge == kind_of_errno(crate::error::EMSGSIZE));
                    Err(ErrorKind::MessageTooLarge)
                } else {
                    lift(sys::mq_send(mq, msg, prio))
                }
            },
            None => {
                assert(ErrorKind::NotFound == kind_of_errno(crate::error::ENOENT));
                Err(ErrorKind::NotFound)
            },
        }
    }

    /// Receives the oldest message of the highest priority into `buf` and
    /// returns its length.
    pub fn receive(&self, buf: &mut [u8]) -> (r: Result<usize>)
        ensures
            final(buf)@.len() == old(buf)@.len(),
            !self.spec_open() ==> {
                &&& r == Err::<usize, ErrorKind>(ErrorKind::NotFound)
                &&& final(buf)@ == old(buf)@
            },
            self.spec_open() && old(buf)@.len() < self.spec_msg_size() ==> {
                &&& r == Err::<usize, ErrorKind>(ErrorKind::BufferTooSmall)
                &&& final(buf)@ == old(buf)@
            },
            r matches Ok(n) ==> n <= old(buf)@.len(),
            r matches Err(e) ==> kind_of_some_errno(e) || (e == ErrorKind::BufferTooSmall && old(buf)@.len()
                < self.spec_msg_size()),
    {
        let mut prio: u32 = 0;
        self.receive_with_priority(buf, &mut prio)
    }

    /// Receives the oldest message of the highest priority into `buf`,
    /// stores its priority in `prio` and returns its length. `buf` must be
    /// at least as long as the queue's message size.
    pub fn receive_with_priority(&self, buf: &mut [u8], prio: &mut u32) -> (r: Result<usize>)
        ensures
            final(buf)@.len() == old(buf)@.len(),
            !self.spec_open() ==> {
                &&& r == Err::<usize, ErrorKind>(ErrorKind::NotFound)
                &&& final(buf)@ == old(buf)@
                &&& *final(prio) == *old(prio)
            },
            self.spec_open() && old(buf)@.len() < self.spec_msg_size() ==> {
                &&& r == Err::<usize, ErrorKind>(ErrorKind::BufferTooSmall)
                &&& final(buf)@ == old(buf)@
                &&& *final(prio) == *old(prio)
            },
            r matches Ok(n) ==> n <= old(buf)@.len(),
            r matches Err(e) ==> kind_of_some_errno(e) || (e == ErrorKind::BufferTooSmall && old(buf)@.len()
                < self.spec_msg_size()),
    {
        match &self.mq {
            Some(mq) => {
                if buf.len() < self.msg_size {
                    Err(ErrorKind::BufferTooSmall)
                } else {
                    lift(sys::mq_receive(mq, buf, prio))
                }
            },
            None => {
                assert(ErrorKind::NotFound == kind_of_errno(crate::error::ENOENT));
                Err(ErrorKind::NotFound)
            },
        }
    }

    /// Receives the next message as a vector of its bytes.
    pub fn receive_bytes(&self) -> (r: Result<Vec<u8>>)
        ensures
            !self.spec_open() ==> r == Err::<Vec<u8>, ErrorKind>(ErrorKind::NotFound),
            r matches Ok(v) ==> v@.len() <= self.spec_msg_size(),
            r matches Err(e) ==> kind_of_some_errno(e),
    {
        let mut prio: u32 = 0;
        let mut buf: Vec<u8> = vec![0u8; self.msg_size];
        let n = match self.receive_with_priority(buf.as_mut_slice(), &mut prio) {
            Ok(n) => n,
            Err(e) => return Err(e),
        };
        Ok(message_prefix(buf.as_slice(), n))
    }

    /// Receives the next message as UTF-8 text; other bytes are refused
    /// with `EINVAL`.
    pub fn receive_string(&self) -> (r: Result<String>)
        ensures
            !self.spec_open() ==> r == Err::<String, ErrorKind>(ErrorKind::NotFound),
            r matches Ok(s) ==> exists|b: Seq<u8>|
                b.len() <= self.spec_msg_size() && #[trigger] text_result(b) == Ok::<
                    Seq<char>,
                    ErrorKind,
                >(s@),
            r matches Err(e) ==> kind_of_some_errno(e),
    {
        match self.receive_bytes() {
            Ok(v) => {
                let r = message_text(v);
                assert(ErrorKind::Os(EINVAL) == kind_of_errno(EINVAL));
                r
            },
            Err(e) => Err(e),
        }
    }

    /// Moves the descriptor out of the handle, leaving it closed.
    fn take_descriptor(&mut self) -> (r: Option<nix::mqueue::MqdT>)
        ensures
            r == old(self).mq,
            final(self).mq is None,
            final(self).max_msg == old(self).max_msg,
            final(self).msg_size == old(self).msg_size,
        opens_invariants none
        no_unwind
    {
        let mut taken: Option<nix::mqueue::MqdT> = None;
        core::mem::swap(&mut self.mq, &mut taken);
        taken
    }

    /// Closes the handle. The queue itself stays in the system.
    pub fn close(&mut self) -> (r: Result<()>)
        ensures
            !final(self).spec_open(),
            final(self).spec_max_msg() == old(self).spec_max_msg(),
            final(self).spec_msg_size() == old(self).spec_msg_size(),
            !old(self).spec_open() ==> r == Err::<(), ErrorKind>(ErrorKind::NotFound),
            r matches Err(e) ==> kind_of_some_errno(e),
    {
        match self.take_descriptor() {
            Some(mq) => lift(sys::mq_close(mq)),
            None => {
                assert(ErrorKind::NotFound == kind_of_errno(crate::error::ENOENT));
                Err(ErrorKind::NotFound)
            },
        }
    }
}

impl Drop for MsgQueue {
    fn drop(&mut self)
        opens_invariants none
        no_unwind
    {
        match self.take_descriptor() {
            Some(mq) => {
                let _ = sys::mq_close(mq);
            },
            None => {},
        }
    }
}

} // verus!
