//! The kernel calls of the crate, each made through the `nix` crate (or one
//! function of std) and given the contract that its documentation states.
//! Outcomes come back as `Ok(value)` or `Err(errno)`.

use vstd::prelude::*;
use vstd::utf8::{decode_utf8, valid_utf8};

use crate::msgqueue::MqAttr;

verus! {

/// Relies on `nix::unistd::close`: releases the descriptor; the outcome is
/// only reported.
#[verifier::external_body]
pub fn close(fd: i32) -> (r: core::result::Result<(), i32>)
    opens_invariants none
    no_unwind
{
    nix::unistd::close(fd).map_err(|e| e as i32)
}

/// Relies on `nix::unistd::dup`: on success, a new non-negative descriptor
/// for the same open file, other than `fd` (which stays open).
#[verifier::external_body]
pub fn dup(fd: i32) -> (r: core::result::Result<i32, i32>)
    ensures
        r matches Ok(n) ==> n >= 0 && n != fd,
{
    nix::unistd::dup(fd).map_err(|e| e as i32)
}

/// Relies on `nix::unistd::read`: fills at most `buf.len()` bytes and reports
/// how many.
#[verifier::external_body]
pub fn read(fd: i32, buf: &mut [u8]) -> (r: core::result::Result<usize, i32>)
    ensures
        final(buf)@.len() == old(buf)@.len(),
        r matches Ok(n) ==> n <= old(buf)@.len(),
{
    nix::unistd::read(fd, buf).map_err(|e| e as i32)
}

/// Relies on `nix::unistd::write`: takes at most `buf.len()` bytes and
/// reports how many.
#[verifier::external_body]
pub fn write(fd: i32, buf: &[u8]) -> (r: core::result::Result<usize, i32>)
    ensures
        r matches Ok(n) ==> n <= buf@.len(),
{
    nix::unistd::write(fd, buf).map_err(|e| e as i32)
}

/// Relies on `nix::unistd::pipe`: on success, the read end and the write
/// end of a new pipe, two distinct non-negative descriptors.
#[verifier::external_body]
pub fn pipe() -> (r: core::result::Result<(i32, i32), i32>)
    ensures
        r matches Ok((rd, wr)) ==> rd >= 0 && wr >= 0 && rd != wr,
{
    nix::unistd::pipe().map_err(|e| e as i32)
}

/// Relies on `nix::sys::eventfd::eventfd`: on success, a new non-negative
/// descriptor; `flags` is the `EFD_*` flag word.
#[verifier::external_body]
pub fn eventfd(initval: u32, flags: i32) -> (r: core::result::Result<i32, i32>)
    ensures
        r matches Ok(fd) ==> fd >= 0,
{
    let flags = nix::sys::eventfd::EfdFlags::from_bits_truncate(flags);
    nix::sys::eventfd::eventfd(initval, flags).map_err(|e| e as i32)
}

/// The bytes of `v` in the host's byte order.
pub uninterp spec fn host_bytes_of(v: u64) -> Seq<u8>;

/// The integer whose bytes in the host's byte order are `b`.
pub uninterp spec fn host_u64_of(b: Seq<u8>) -> u64;

/// Relies on `u64::to_ne_bytes`: the memory representation of `v`, which
/// `u64::from_ne_bytes` turns back into `v`.
#[verifier::external_body]
pub fn to_ne_bytes(v: u64) -> (r: [u8; 8])
    ensures
        r@ == host_bytes_of(v),
        host_u64_of(r@) == v,
{
    v.to_ne_bytes()
}

/// Relies on `u64::from_ne_bytes`: the integer of that memory representation.
#[verifier::external_body]
pub fn from_ne_bytes(b: [u8; 8]) -> (r: u64)
    ensures
        r == host_u64_of(b@),
{
    u64::from_ne_bytes(b)
}

#[verifier::external_type_specification]
#[verifier::external_body]
pub struct ExMqdT(nix::mqueue::MqdT);

/// Relies on `nix::mqueue::mq_open`, with the name turned into a C string by
/// `nix::NixPath::with_nix_path` (which refuses a NUL with `EINVAL`): on
/// success, a descriptor of the named queue. `oflag` is the `O_*` flag
/// word, `mode` the permission bits, `attr` the geometry of a queue that the
/// call creates.
#[verifier::external_body]
pub fn mq_open(name: &str, oflag: i32, mode: u32, attr: Option<MqAttr>) -> (r:
    core::result::Result<nix::mqueue::MqdT, i32>) {
    let oflag = nix::mqueue::MQ_OFlag::from_bits_truncate(oflag);
    let mode = nix::sys::stat::Mode::from_bits_truncate(mode);
    let attr = attr.map(|a| nix::mqueue::MqAttr::new(a.flags, a.maxmsg, a.msgsize, a.curmsgs));
    match nix::NixPath::with_nix_path(name, |c| nix::mqueue::mq_open(c, oflag, mode, attr.as_ref())) {
        Ok(opened) => opened.map_err(|e| e as i32),
        Err(e) => Err(e as i32),
    }
}

/// Relies on `nix::mqueue::mq_close`: releases the queue descriptor; the
/// outcome is only reported.
#[verifier::external_body]
pub fn mq_close(mqd: nix::mqueue::MqdT) -> (r: core::result::Result<(), i32>)
    opens_invariants none
    no_unwind
{
    nix::mqueue::mq_close(mqd).map_err(|e| e as i32)
}

/// Relies on `nix::mqueue::mq_send`: enqueues `msg` with priority `prio`.
#[verifier::external_body]
pub fn mq_send(mqd: &nix::mqueue::MqdT, msg: &[u8], prio: u32) -> (r: core::result::Result<
    (),
    i32,
>) {
    nix::mqueue::mq_send(mqd, msg, prio).map_err(|e| e as i32)
}

/// Relies on `nix::mqueue::mq_receive`: dequeues a message into `buf` and
/// reports its length, at most `buf.len()`.
#[verifier::external_body]
pub fn mq_receive(mqd: &nix::mqueue::MqdT, buf: &mut [u8], prio: &mut u32) -> (r:
    core::result::Result<usize, i32>)
    ensures
        final(buf)@.len() == old(buf)@.len(),
        r matches Ok(n) ==> n <= old(buf)@.len(),
{
    nix::mqueue::mq_receive(mqd, buf, prio).map_err(|e| e as i32)
}

/// Relies on `nix::mqueue::mq_getattr`: the queue's current attributes.
#[verifier::external_body]
pub fn mq_getattr(mqd: &nix::mqueue::MqdT) -> (r: core::result::Result<MqAttr, i32>) {
    match nix::mqueue::mq_getattr(mqd) {
        Ok(a) => Ok(MqAttr {
            flags: a.flags(),
            maxmsg: a.maxmsg(),
            msgsize: a.msgsize(),
            curmsgs: a.curmsgs(),
        }),
        Err(e) => Err(e as i32),
    }
}

/// Relies on `nix::mqueue::mq_set_nonblock`: sets `O_NONBLOCK` on the queue descriptor and reports the attributes it had.
#[verifier::external_body]
pub fn mq_set_nonblock(mqd: &nix::mqueue::MqdT) -> (r: core::result::Result<MqAttr, i32>) {
    match nix::mqueue::mq_set_nonblock(mqd) {
        Ok(a) => Ok(MqAttr {
            flags: a.flags(),
            maxmsg: a.maxmsg(),
            msgsize: a.msgsize(),
            curmsgs: a.curmsgs(),
        }),
        Err(e) => Err(e as i32),
    }
}

/// Relies on `nix::mqueue::mq_remove_nonblock`: clears `O_NONBLOCK` on the queue descriptor and reports the attributes it had.
#[verifier::external_body]
pub fn mq_remove_nonblock(mqd: &nix::mqueue::MqdT) -> (r: core::result::Result<MqAttr, i32>) {
    match nix::mqueue::mq_remove_nonblock(mqd) {
        Ok(a) => Ok(MqAttr {
            flags: a.flags(),
            maxmsg: a.maxmsg(),
            msgsize: a.msgsize(),
            curmsgs: a.curmsgs(),
        }),
        Err(e) => Err(e as i32),
    }
}

/// Relies on `String::from_utf8`: the text of `v` when it is valid UTF-8.
#[verifier::external_body]
pub fn string_from_utf8(v: Vec<u8>) -> (r: Option<String>)
    ensures
        r is Some <==> valid_utf8(v@),
        r matches Some(s) ==> s@ == decode_utf8(v@),
{
    String::from_utf8(v).ok()
}

} // verus!
