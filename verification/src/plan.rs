//! Storage planning: what to ask of the allocator for one value of a type.
//!
//! A zero-sized payload needs no storage at all, so its plan is a sentinel
//! address (non-null, aligned, never dereferenced and never freed). Any other
//! payload gets one allocation request of exactly the payload's size, aligned
//! to the larger of the payload's natural alignment and the pointer size:
//! the allocation primitive only guarantees pointer-sized alignment by
//! default, so over-aligned payloads need the explicit maximum.

use vstd::prelude::*;

use vstd::arithmetic::div_mod::lemma_mod_multiples_basic;
use vstd::arithmetic::power::lemma_pow_adds;
use vstd::arithmetic::power::lemma_pow_positive;
use vstd::arithmetic::power::lemma_pow_strictly_increases;
use vstd::arithmetic::power::pow;
use vstd::arithmetic::power2::is_pow2;
use vstd::layout::align_of;
use vstd::layout::layout_for_type_is_valid;
use vstd::layout::size_of;
use vstd::layout::usize_size_pow2;

verus! {

/// How storage for one value is to be obtained.
pub enum StoragePlan {
    /// No allocation: the payload is zero-sized, and this fixed, non-null,
    /// suitably aligned placeholder address stands in for storage. It is
    /// never dereferenced and never passed to the deallocator.
    Sentinel { addr: usize },
    /// One block of raw memory of exactly `size` bytes, aligned to `align`.
    Request { size: usize, align: usize },
}

/// The alignment actually requested for a payload of natural alignment
/// `natural`: at least `floor` (the pointer size), at least `natural`.
pub open spec fn alignment_floor(natural: nat, floor: nat) -> nat {
    if natural >= floor {
        natural
    } else {
        floor
    }
}

/// The storage plan for a payload of `size` bytes with natural alignment
/// `natural_align`, where `floor` is the pointer size. The sentinel address
/// of a zero-sized payload is its natural alignment, which is itself a
/// well-aligned non-null address for it.
pub open spec fn storage_plan(size: nat, natural_align: nat, floor: nat) -> StoragePlan {
    if size == 0 {
        StoragePlan::Sentinel { addr: natural_align as usize }
    } else {
        StoragePlan::Request {
            size: size as usize,
            align: alignment_floor(natural_align, floor) as usize,
        }
    }
}

/// Computes the storage plan for one value of `T`: a sentinel exactly when
/// `T` is zero-sized, otherwise a request for exactly `T`'s size at the
/// alignment floor.
pub fn plan_storage<T>() -> (p: StoragePlan)
    ensures
        p == storage_plan(size_of::<T>(), align_of::<T>(), size_of::<usize>()),
        p matches StoragePlan::Sentinel { addr } ==> addr != 0,
        p matches StoragePlan::Request { size, align } ==> is_pow2(align as int) && align as nat
            % size_of::<usize>() == 0,
{
    layout_for_type_is_valid::<T>();
    layout_for_type_is_valid::<usize>();
    proof {
        broadcast use vstd::layout::align_properties;

        usize_size_pow2();
        lemma_alignment_floor_pow2(align_of::<T>(), size_of::<usize>());
    }
    let size = core::mem::size_of::<T>();
    let natural_align = core::mem::align_of::<T>();
    let floor = core::mem::size_of::<usize>();
    if size == 0 {
        StoragePlan::Sentinel { addr: natural_align }
    } else if natural_align >= floor {
        StoragePlan::Request { size, align: natural_align }
    } else {
        StoragePlan::Request { size, align: floor }
    }
}

/// A zero-sized payload is planned as a sentinel: no allocation request is
/// ever emitted for it, whatever the alignments are.
pub proof fn lemma_zero_sized_plan_requests_nothing(natural_align: nat, floor: nat)
    ensures
        storage_plan(0, natural_align, floor) is Sentinel,
{
}

/// Alignment floor: the requested alignment is at least the payload's
/// natural alignment and at least the pointer size, and is no larger than
/// it has to be (it is one of the two).
pub proof fn lemma_alignment_floor_bounds(natural: nat, floor: nat)
    ensures
        alignment_floor(natural, floor) >= natural,
        alignment_floor(natural, floor) >= floor,
        alignment_floor(natural, floor) == natural || alignment_floor(natural, floor) == floor,
{
}

/// A power of two that is at least another power of two is a multiple of it.
proof fn lemma_pow2_divides(small: nat, large: nat)
    requires
        is_pow2(small as int),
        is_pow2(large as int),
        large >= small,
    ensures
        large % small == 0,
{
    broadcast use vstd::arithmetic::power2::is_pow2_equiv;

    let i = choose|i: nat| pow(2, i) == large as int;
    let j = choose|j: nat| pow(2, j) == small as int;
    lemma_pow_positive(2, i);
    lemma_pow_positive(2, j);
    if i < j {
        lemma_pow_strictly_increases(2, i, j);
    }
    assert(j + ((i - j) as nat) == i);
    lemma_pow_adds(2, j, (i - j) as nat);
    assert(large as int == pow(2, j) * pow(2, (i - j) as nat));
    assert(large as int == pow(2, (i - j) as nat) * (small as int));
    lemma_mod_multiples_basic(pow(2, (i - j) as nat), small as int);
}

/// The requested alignment meets the allocation primitive's own
/// precondition: the maximum of two powers of two (the payload's natural
/// alignment and the pointer size) is itself a power of two, and a multiple
/// of the pointer size.
pub proof fn lemma_alignment_floor_pow2(natural: nat, floor: nat)
    requires
        is_pow2(natural as int),
        is_pow2(floor as int),
    ensures
        is_pow2(alignment_floor(natural, floor) as int),
        alignment_floor(natural, floor) % floor == 0,
{
    if natural >= floor {
        lemma_pow2_divides(floor, natural);
    } else {
        broadcast use vstd::arithmetic::power2::is_pow2_equiv;

        let j = choose|j: nat| pow(2, j) == floor as int;
        lemma_pow_positive(2, j);
        lemma_mod_multiples_basic(1, floor as int);
    }
}

} // verus!
