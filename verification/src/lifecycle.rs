//! The lifecycle of one block of box storage: judge the allocator's reply,
//! record where the storage came from, and release it exactly once.
//!
//! A `StorageHandle` is created once, from either a successful allocation or
//! a sentinel address, and is consumed by `release`, so a second release of
//! the same handle is unwritable rather than checked for at run time. Its
//! contract pins the released address to the recorded one: exactly the block
//! that was allocated is freed, and a sentinel is never freed.

use vstd::prelude::*;

verus! {

/// Whether construction may proceed after the allocation primitive replied.
pub enum AllocVerdict {
    /// The primitive succeeded and returned a usable non-null address.
    Proceed,
    /// The primitive failed; allocation failure is unrecoverable by design,
    /// so the caller must abort with a diagnostic, not continue.
    Fatal,
}

/// The verdict on an allocation reply: usable exactly when the status
/// reports success and the address is non-null.
pub open spec fn allocation_verdict(status: i32, addr: usize) -> AllocVerdict {
    if status == 0 && addr != 0 {
        AllocVerdict::Proceed
    } else {
        AllocVerdict::Fatal
    }
}

/// Judges the reply of an allocation primitive that reports success as a
/// zero status and hands back the address of the new block: anything other
/// than a zero status with a non-null address is fatal.
pub fn judge_allocation(status: i32, addr: usize) -> (v: AllocVerdict)
    ensures
        v == allocation_verdict(status, addr),
{
    if status == 0 && addr != 0 {
        AllocVerdict::Proceed
    } else {
        AllocVerdict::Fatal
    }
}

/// Exclusive ownership of one box's storage: the address it lives at, and
/// whether that address came from the allocator (and so must go back to it)
/// or is a sentinel for a zero-sized payload (and must not).
pub struct StorageHandle {
    addr: usize,
    allocated: bool,
}

impl StorageHandle {
    /// The recorded storage address.
    pub closed spec fn address(self) -> usize {
        self.addr
    }

    /// Whether the address came from a successful allocation.
    pub closed spec fn is_allocated(self) -> bool {
        self.allocated
    }

    /// A handle is well-formed when its address is non-null; both
    /// constructors establish this and nothing ever changes it.
    pub open spec fn wf(self) -> bool {
        self.address() != 0
    }

    /// What releasing the handle frees: exactly the recorded address if it
    /// was allocated, nothing if it is a sentinel.
    pub open spec fn release_target(self) -> Option<usize> {
        if self.is_allocated() {
            Some(self.address())
        } else {
            None
        }
    }

    /// Records a sentinel address for a payload that needed no allocation.
    pub fn sentinel(addr: usize) -> (h: Self)
        requires
            addr != 0,
        ensures
            h.wf(),
            !h.is_allocated(),
            h.address() == addr,
    {
        StorageHandle { addr, allocated: false }
    }

    /// Records the address of the one block a successful allocation
    /// returned; releasing the handle will free exactly this block.
    pub fn from_allocation(addr: usize) -> (h: Self)
        requires
            addr != 0,
        ensures
            h.wf(),
            h.is_allocated(),
            h.address() == addr,
    {
        StorageHandle { addr, allocated: true }
    }

    /// The storage address, for handing out access to the value behind it.
    pub fn address_value(&self) -> (a: usize)
        ensures
            a == self.address(),
    {
        self.addr
    }

    /// Ends the lifecycle: says which address to give back to the
    /// deallocator, if any. Consuming the handle makes this the one and
    /// only release of what it owned.
    pub fn release(self) -> (r: Option<usize>)
        ensures
            r == self.release_target(),
    {
        if self.allocated {
            Some(self.addr)
        } else {
            None
        }
    }
}

/// Exactly-once deallocation: a lifecycle whose storage was allocated
/// releases precisely the address recorded at construction -- the handle is
/// consumed by `release`, so this happens at most once, and its target is
/// never any other block.
pub proof fn lemma_release_frees_exactly_the_allocation(h: StorageHandle)
    requires
        h.is_allocated(),
    ensures
        h.release_target() == Some(h.address()),
{
}

/// A sentinel lifecycle ends without any deallocation: no allocation was
/// made for it, and none is released.
pub proof fn lemma_sentinel_releases_nothing(h: StorageHandle)
    requires
        !h.is_allocated(),
    ensures
        h.release_target() is None,
{
}

} // verus!
