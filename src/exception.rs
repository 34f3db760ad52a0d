use vstd::prelude::*;

verus! {

/// The faults and errors that device and memory accesses report to their caller.
#[derive(Clone, Copy, Debug, PartialEq, Eq, Structural)]
pub enum Exception {
    /// A read from an address or with a width that the target does not serve.
    LoadAccessFault,
    /// A write to an address or with a width that the target does not serve.
    StoreAMOAccessFault,
    /// An interrupt acknowledgement whose value does not have bit 0 set.
    InvalidInterruptAck,
    /// A transfer whose byte range falls outside the backing store.
    DiskOutOfBounds,
}

} // verus!
