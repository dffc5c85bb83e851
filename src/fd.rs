//! Ownership of one kernel descriptor.

use vstd::prelude::*;

use crate::error::{kind_of_some_errno, ErrorKind, Result};
use crate::sys;

verus! {

/// Owns one open kernel descriptor and closes it, once, when dropped.
#[derive(Debug)]
pub struct Descriptor {
    fd: i32,
}

impl View for Descriptor {
    type V = i32;

    closed spec fn view(&self) -> i32 {
        self.fd
    }
}

impl Descriptor {
    #[verifier::type_invariant]
    spec fn inv(&self) -> bool {
        self.fd >= 0
    }

    /// Takes ownership of a descriptor that a successful kernel call returned.
    pub(crate) fn acquire(fd: i32) -> (r: Descriptor)
        requires
            fd >= 0,
        ensures
            r@ == fd,
    {
        Descriptor { fd }
    }

    /// The raw descriptor, to be handed to a kernel call without giving up
    /// ownership.
    pub fn as_raw(&self) -> (r: i32)
        ensures
            r == self@,
            r >= 0,
    {
        proof {
            use_type_invariant(self);
        }
        self.fd
    }

    /// A second owner of a duplicate of the descriptor, closable on its own.
    pub fn try_clone(&self) -> (r: Result<Descriptor>)
        ensures
            r matches Ok(d) ==> d@ != self@,
            r matches Err(e) ==> kind_of_some_errno(e),
    {
        match sys::dup(self.as_raw()) {
            Ok(fd) => Ok(Descriptor::acquire(fd)),
            Err(code) => Err(ErrorKind::from_errno(code)),
        }
    }
}

impl Drop for Descriptor {
    fn drop(&mut self)
        opens_invariants none
        no_unwind
    {
        let _ = sys::close(self.fd);
    }
}

} // verus!
