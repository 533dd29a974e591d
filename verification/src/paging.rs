//! What the library takes on trust from the `aarch64_paging` crate: its
//! descriptor and region types, and the calls that read them.
//!
//! Both types keep their fields to themselves. What a value of them holds is
//! known here only by the names below, and each call is believed to return
//! what its name says.

use aarch64_paging::paging::{Descriptor, MemoryRegion};
use vstd::prelude::*;

verus! {

/// A page table entry of `aarch64_paging`, kept as the walker hands it over.
#[verifier::external_type_specification]
#[verifier::external_body]
pub struct ExDescriptor(Descriptor);

/// A range of virtual addresses of `aarch64_paging`.
#[verifier::external_type_specification]
#[verifier::external_body]
pub struct ExMemoryRegion(MemoryRegion);

/// The attribute bits that `Descriptor::flags` decodes from a descriptor, or
/// `None` where it finds no valid set of flags in it.
pub uninterp spec fn decoded_flags(desc: Descriptor) -> Option<usize>;

/// The first virtual address of a region, as `MemoryRegion::start` gives it.
pub uninterp spec fn region_start(region: MemoryRegion) -> usize;

/// The first virtual address after a region, as `MemoryRegion::end` gives it.
pub uninterp spec fn region_end(region: MemoryRegion) -> usize;

/// The number of bytes in a region: none where it ends before it starts.
pub open spec fn region_len(region: MemoryRegion) -> usize {
    if region_start(region) <= region_end(region) {
        (region_end(region) - region_start(region)) as usize
    } else {
        0
    }
}

/// Calls `Descriptor::flags` and hands out the bits of the attributes it
/// returns. Trusted: the result depends on the descriptor's value alone, and
/// is what `decoded_flags` names.
#[verifier::external_body]
pub(crate) fn descriptor_flags(desc: &Descriptor) -> (flags: Option<usize>)
    ensures
        flags == decoded_flags(*desc),
{
    match desc.flags() {
        Some(attributes) => Some(attributes.bits()),
        None => None,
    }
}

/// Calls `MemoryRegion::start`. Trusted: it returns the lower bound that the
/// region holds, which `region_start` names.
#[verifier::external_body]
pub(crate) fn start_of(region: &MemoryRegion) -> (start: usize)
    ensures
        start == region_start(*region),
{
    region.start().0
}

/// Calls `MemoryRegion::end`. Trusted: it returns the upper bound that the
/// region holds, which `region_end` names.
#[verifier::external_body]
pub(crate) fn end_of(region: &MemoryRegion) -> (end: usize)
    ensures
        end == region_end(*region),
{
    region.end().0
}

/// Calls `MemoryRegion::len`. Trusted: it returns the upper bound less the
/// lower. The subtraction overflows where the region ends before it starts,
/// so the call is made on no such region.
#[verifier::external_body]
pub(crate) fn len_of(region: &MemoryRegion) -> (len: usize)
    requires
        region_start(*region) <= region_end(*region),
    ensures
        len == region_end(*region) - region_start(*region),
{
    region.len()
}

/// The number of bytes in a region, for every region.
pub fn byte_len(region: &MemoryRegion) -> (len: usize)
    ensures
        len == region_len(*region),
{
    if start_of(region) <= end_of(region) {
        len_of(region)
    } else {
        0
    }
}

} // verus!
