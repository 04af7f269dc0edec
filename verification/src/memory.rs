//! Physical memory as the firmware accounts for it: pages, and the memory
//! map that is handed to the kernel.
//!
//! The firmware fills a buffer with descriptors and says how many it wrote
//! and how far apart they lie. Both numbers are taken from the firmware as
//! they are: the buffer is allocated larger than the map, so a count derived
//! from the buffer's size would reach into bytes that hold no descriptor.

use vstd::prelude::*;
use crate::boot_info::MemoryMapInfo;
use crate::wire::{le_u32, le_u64, read_u32, read_u64};

verus! {

/// Granularity of physical memory allocation.
pub const PAGE_SIZE: u64 = 0x1000;

/// Number of descriptor slots by which the buffer exceeds the size the
/// firmware asked for: the map may grow between the question and the fetch.
pub const PADDING_SLOTS: u64 = 8;

/// Number of bytes of a descriptor that are read.
pub const DESCRIPTOR_SIZE: usize = 40;

/// One region of physical memory.
///
/// In the buffer a descriptor is laid out as: type at offset 0 (4 bytes),
/// physical start at 8, virtual start at 16, number of pages at 24,
/// attributes at 32 (8 bytes each), all little-endian.
#[derive(Clone, Copy, Debug, PartialEq, Eq, Structural)]
pub struct MemoryDescriptor {
    pub ty: u32,
    pub physical_start: u64,
    pub virtual_start: u64,
    pub number_of_pages: u64,
    pub attribute: u64,
}

/// Why no memory map was reported.
#[derive(Clone, Copy, Debug, PartialEq, Eq, Structural)]
pub enum MemoryMapError {
    /// The firmware claims more descriptors than the buffer has room for.
    CountExceedsBuffer,
}

/// Number of whole pages needed to hold `bytes` bytes.
pub open spec fn pages_for(bytes: int) -> int {
    (bytes + 0xFFF) / 0x1000
}

/// Size of the buffer to allocate for a map of `required` bytes whose
/// descriptors lie `entry_size` bytes apart.
pub open spec fn padded_size(required: int, entry_size: int) -> int {
    required + PADDING_SLOTS * entry_size
}

/// The descriptor whose bytes start at `at`.
pub open spec fn descriptor_in(bytes: Seq<u8>, at: int) -> MemoryDescriptor {
    MemoryDescriptor {
        ty: le_u32(bytes, at) as u32,
        physical_start: le_u64(bytes, at + 8) as u64,
        virtual_start: le_u64(bytes, at + 16) as u64,
        number_of_pages: le_u64(bytes, at + 24) as u64,
        attribute: le_u64(bytes, at + 32) as u64,
    }
}

/// Whether descriptor `index` of a map exists and lies inside the buffer.
pub open spec fn descriptor_readable(buffer: Seq<u8>, info: MemoryMapInfo, index: int) -> bool {
    0 <= index < info.entry_count && index * info.entry_size + DESCRIPTOR_SIZE <= buffer.len()
}

/// What is reported of a fetch that wrote `entries_written` descriptors,
/// `entry_size` bytes apart, into a buffer of `buffer_size` bytes at
/// `buffer_addr`: the firmware's own count and stride, if that many
/// descriptors fit the buffer.
pub open spec fn map_report(buffer_addr: u64, buffer_size: u64, entry_size: u64, entries_written: u64)
    -> Result<MemoryMapInfo, MemoryMapError> {
    if entries_written * entry_size <= buffer_size {
        Ok(MemoryMapInfo { entries: buffer_addr, entry_count: entries_written, entry_size })
    } else {
        Err(MemoryMapError::CountExceedsBuffer)
    }
}

/// Number of pages to allocate for `bytes` bytes.
pub fn page_count(bytes: u64) -> (n: u64)
    ensures
        n == pages_for(bytes as int),
{
    let whole: u64 = bytes / PAGE_SIZE;
    if bytes % PAGE_SIZE != 0 {
        whole + 1
    } else {
        whole
    }
}

/// Size of the buffer to allocate before the map is fetched: the size the
/// firmware asked for and eight descriptors more. `None` where that size
/// cannot be expressed.
pub fn memory_map_buffer_size(required: u64, entry_size: u64) -> (size: Option<u64>)
    ensures
        size == if padded_size(required as int, entry_size as int) <= u64::MAX {
            Some(padded_size(required as int, entry_size as int) as u64)
        } else {
            None
        },
{
    if entry_size > (u64::MAX - required) / PADDING_SLOTS {
        None
    } else {
        Some(required + PADDING_SLOTS * entry_size)
    }
}

/// Reports the memory map that the firmware wrote.
///
/// `buffer_addr` and `buffer_size` describe the buffer that was handed to
/// the firmware, `entry_size` and `entries_written` are what its fetch
/// returned. The report carries exactly the firmware's count and stride; a
/// count that would not fit the buffer is refused.
pub fn get_memory_map(buffer_addr: u64, buffer_size: u64, entry_size: u64, entries_written: u64)
    -> (r: Result<MemoryMapInfo, MemoryMapError>)
    ensures
        r == map_report(buffer_addr, buffer_size, entry_size, entries_written),
{
    assert(0 <= entries_written * entry_size <= 0xFFFF_FFFF_FFFF_FFFF * 0xFFFF_FFFF_FFFF_FFFF)
        by (nonlinear_arith)
        requires
            0 <= entries_written <= 0xFFFF_FFFF_FFFF_FFFF,
            0 <= entry_size <= 0xFFFF_FFFF_FFFF_FFFF,
    ;
    let used: u128 = (entries_written as u128) * (entry_size as u128);
    if used <= buffer_size as u128 {
        Ok(MemoryMapInfo { entries: buffer_addr, entry_count: entries_written, entry_size })
    } else {
        Err(MemoryMapError::CountExceedsBuffer)
    }
}

/// Reads descriptor `index` of a map out of its buffer, stepping by the
/// map's own stride. `None` where the map has no such descriptor, or the
/// buffer does not hold it whole.
pub fn descriptor_at(buffer: &[u8], info: &MemoryMapInfo, index: u64) -> (d: Option<
    MemoryDescriptor,
>)
    ensures
        d == if descriptor_readable(buffer@, *info, index as int) {
            Some(descriptor_in(buffer@, index * info.entry_size))
        } else {
            None
        },
{
    if index >= info.entry_count {
        return None;
    }
    assert(0 <= index * info.entry_size <= 0xFFFF_FFFF_FFFF_FFFF * 0xFFFF_FFFF_FFFF_FFFF)
        by (nonlinear_arith)
        requires
            0 <= index <= 0xFFFF_FFFF_FFFF_FFFF,
            0 <= info.entry_size <= 0xFFFF_FFFF_FFFF_FFFF,
    ;
    let start: u128 = (index as u128) * (info.entry_size as u128);
    let len: usize = buffer.len();
    if len < DESCRIPTOR_SIZE || start > (len - DESCRIPTOR_SIZE) as u128 {
        return None;
    }
    let at: usize = start as usize;
    Some(
        MemoryDescriptor {
            ty: read_u32(buffer, at),
            physical_start: read_u64(buffer, at + 8),
            virtual_start: read_u64(buffer, at + 16),
            number_of_pages: read_u64(buffer, at + 24),
            attribute: read_u64(buffer, at + 32),
        },
    )
}

/// A reported map never claims more descriptors than the firmware wrote,
/// and every descriptor it claims lies inside the buffer, however much larger
/// than the map the buffer was made.
pub proof fn lemma_count_is_firmware_count(
    buffer_addr: u64,
    buffer_size: u64,
    entry_size: u64,
    entries_written: u64,
)
    ensures
        match map_report(buffer_addr, buffer_size, entry_size, entries_written) {
            Ok(info) => {
                &&& info.entry_count <= entries_written
                &&& info.entry_size == entry_size
                &&& info.entry_count * info.entry_size <= buffer_size
                &&& forall|i: int|
                    0 <= i < info.entry_count ==> (#[trigger] (i * info.entry_size))
                        + info.entry_size <= buffer_size
            },
            Err(_) => entries_written * entry_size > buffer_size,
        },
{
    if entries_written * entry_size <= buffer_size {
        assert forall|i: int| 0 <= i < entries_written implies (#[trigger] (i * entry_size))
            + entry_size <= buffer_size by {
            assert((i + 1) * entry_size <= entries_written * entry_size) by (nonlinear_arith)
                requires
                    0 <= i + 1 <= entries_written,
                    0 <= entry_size,
            ;
            assert((i + 1) * entry_size == i * entry_size + entry_size) by (nonlinear_arith);
        }
    }
}

} // verus!
