//! The kernel's first decision: whether to go on with what the loader left.
//!
//! A handoff block that fails validation ends the start-up at once; there is
//! no substitute display and no made-up memory map. A valid one is taken as
//! it is, and of its memory map only the first few descriptors are reported
//! one by one.

use vstd::prelude::*;
use crate::boot_info::{boot_info_valid, validate_boot_info, BootInfo, FramebufferInfo};

verus! {

/// Largest number of descriptors that the kernel reports one by one.
pub const REPORTED_ENTRIES: u64 = 10;

/// How the kernel starts.
#[derive(Clone, Copy, Debug, PartialEq, Eq, Structural)]
pub enum KernelStart {
    /// The handoff block is not trusted: report it and panic.
    Refuse,
    /// Go on: keep the framebuffer for the panic path, report this many
    /// descriptors of the memory map and whether an ACPI root pointer came
    /// along, then install the trap table and enable interrupts.
    Proceed { framebuffer: FramebufferInfo, entries_reported: u64, rsdp_present: bool },
}

/// How the kernel starts on a given handoff block.
pub open spec fn start_of(info: BootInfo) -> KernelStart {
    if boot_info_valid(info) {
        KernelStart::Proceed {
            framebuffer: info.framebuffer,
            entries_reported: if info.memory_map.entry_count < REPORTED_ENTRIES {
                info.memory_map.entry_count
            } else {
                REPORTED_ENTRIES
            },
            rsdp_present: info.rsdp_addr is Some,
        }
    } else {
        KernelStart::Refuse
    }
}

/// Decides how the kernel starts.
pub fn kernel_main(boot_info: &BootInfo) -> (start: KernelStart)
    ensures
        start == start_of(*boot_info),
{
    if !validate_boot_info(boot_info) {
        return KernelStart::Refuse;
    }
    let count: u64 = boot_info.memory_map.entry_count;
    KernelStart::Proceed {
        framebuffer: boot_info.framebuffer,
        entries_reported: if count < REPORTED_ENTRIES {
            count
        } else {
            REPORTED_ENTRIES
        },
        rsdp_present: boot_info.rsdp_addr.is_some(),
    }
}

/// The kernel goes on exactly with the blocks that are valid, and then
/// reports no more descriptors than the map has, and never more than ten.
pub proof fn lemma_start_follows_validation(info: BootInfo)
    ensures
        start_of(info) == KernelStart::Refuse <==> !boot_info_valid(info),
        start_of(info) is Proceed ==> {
            &&& start_of(info)->entries_reported <= info.memory_map.entry_count
            &&& start_of(info)->entries_reported <= REPORTED_ENTRIES
            &&& start_of(info)->entries_reported >= 1
            &&& start_of(info)->framebuffer == info.framebuffer
        },
{
}

} // verus!
