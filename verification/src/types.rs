//! Handles that libpd gives back for opened patches and for subscriptions.
//!
//! libpd hands out pointers; the library keeps them as the address they point to, and an
//! address of zero stands for the null pointer.

use vstd::prelude::*;
use vstd::std_specs::convert::FromSpecImpl;

verus! {

/// The handle which is returned from opening a patch.
///
/// It holds the address of the patch in libpd. Keep it for as long as the patch is open: it is
/// what closes the patch again.
#[derive(Debug, PartialEq, Eq)]
pub struct PatchFileHandle(usize);

impl View for PatchFileHandle {
    type V = usize;

    closed spec fn view(&self) -> usize {
        self.0
    }
}

impl PatchFileHandle {
    /// A handle for the patch at `address`.
    pub fn new(address: usize) -> (r: Self)
        ensures
            r@ == address,
    {
        PatchFileHandle(address)
    }

    /// The address of the patch, without giving up the handle.
    pub fn address(&self) -> (r: usize)
        ensures
            r == self@,
    {
        self.0
    }

    /// The address of the patch.
    pub fn into_inner(self) -> (r: usize)
        ensures
            r == self@,
    {
        self.0
    }
}

impl From<usize> for PatchFileHandle {
    fn from(address: usize) -> (r: Self) {
        PatchFileHandle(address)
    }
}

impl FromSpecImpl<usize> for PatchFileHandle {
    closed spec fn obeys_from_spec() -> bool {
        true
    }

    closed spec fn from_spec(address: usize) -> Self {
        PatchFileHandle(address)
    }
}

/// The handle which is returned from subscribing to a sender.
///
/// It holds the address of the receiver that libpd created; it unsubscribes again.
#[derive(Debug, PartialEq, Eq)]
pub struct ReceiverHandle(usize);

impl View for ReceiverHandle {
    type V = usize;

    closed spec fn view(&self) -> usize {
        self.0
    }
}

impl ReceiverHandle {
    /// A handle for the receiver at `address`.
    pub fn new(address: usize) -> (r: Self)
        ensures
            r@ == address,
    {
        ReceiverHandle(address)
    }

    /// The address of the receiver.
    pub fn into_inner(self) -> (r: usize)
        ensures
            r == self@,
    {
        self.0
    }
}

impl From<usize> for ReceiverHandle {
    fn from(address: usize) -> (r: Self) {
        ReceiverHandle(address)
    }
}

impl FromSpecImpl<usize> for ReceiverHandle {
    closed spec fn obeys_from_spec() -> bool {
        true
    }

    closed spec fn from_spec(address: usize) -> Self {
        ReceiverHandle(address)
    }
}

} // verus!
