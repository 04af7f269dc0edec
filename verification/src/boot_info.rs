//! The handoff block: what the loader tells the kernel.
//!
//! The block crosses from one program to another as bytes in memory, with no
//! version tag and no checksum, so its layout is fixed here once, for both
//! sides:
//!
//! | offset | size | field                                   |
//! |-------:|-----:|-----------------------------------------|
//! |      0 |    8 | address of the memory-map descriptors   |
//! |      8 |    8 | number of descriptors                   |
//! |     16 |    8 | distance between descriptors, in bytes  |
//! |     24 |    8 | framebuffer address                     |
//! |     32 |    4 | width in pixels                         |
//! |     36 |    4 | height in pixels                        |
//! |     40 |    4 | bytes per row                           |
//! |     44 |    4 | bits per pixel                          |
//! |     48 |    4 | red mask                                |
//! |     52 |    4 | green mask                              |
//! |     56 |    4 | blue mask                               |
//! |     60 |    4 | padding                                 |
//! |     64 |    8 | 1 if an ACPI root pointer follows, or 0 |
//! |     72 |    8 | ACPI root pointer                       |
//!
//! All integers are little-endian.

use vstd::prelude::*;
use crate::wire::{le_u32, le_u64, read_u32, read_u64, u32_bytes, u64_bytes, write_u32, write_u64};
use crate::wire::{
    lemma_le_u32_joined, lemma_le_u64_joined, lemma_u32_round_trip, lemma_u64_round_trip,
};

verus! {

/// Size of the handoff block in bytes.
pub const BOOT_INFO_SIZE: usize = 80;

/// Where the firmware's memory map lies, and how to walk it.
#[derive(Clone, Copy, Debug, PartialEq, Eq, Structural)]
pub struct MemoryMapInfo {
    /// Physical address of the first descriptor.
    pub entries: u64,
    /// Number of descriptors the firmware wrote.
    pub entry_count: u64,
    /// Distance in bytes from one descriptor to the next.
    pub entry_size: u64,
}

/// The display the firmware left behind.
#[derive(Clone, Copy, Debug, PartialEq, Eq, Structural)]
pub struct FramebufferInfo {
    pub addr: u64,
    pub width: u32,
    pub height: u32,
    pub pitch: u32,
    pub bpp: u32,
    pub red_mask: u32,
    pub green_mask: u32,
    pub blue_mask: u32,
}

/// The handoff block.
#[derive(Clone, Copy, Debug, PartialEq, Eq, Structural)]
pub struct BootInfo {
    pub memory_map: MemoryMapInfo,
    pub framebuffer: FramebufferInfo,
    pub rsdp_addr: Option<u64>,
}

/// Why bytes were not accepted as a handoff block.
#[derive(Clone, Copy, Debug, PartialEq, Eq, Structural)]
pub enum LayoutError {
    /// Fewer bytes than a block has.
    TooShort,
    /// The field that says whether an ACPI root pointer follows holds neither
    /// 0 nor 1.
    BadPresenceFlag,
}

/// The conditions under which the kernel trusts a handoff block: the memory
/// map has descriptors and an address, the display has an extent, and its
/// pixel depth is one of 16, 24 and 32 bits.
pub open spec fn boot_info_valid(info: BootInfo) -> bool {
    &&& info.memory_map.entry_count != 0
    &&& info.memory_map.entries != 0
    &&& info.framebuffer.width != 0
    &&& info.framebuffer.height != 0
    &&& (info.framebuffer.bpp == 32 || info.framebuffer.bpp == 24 || info.framebuffer.bpp == 16)
}

/// The bytes of the memory-map part of a block: offsets 0 to 23.
pub open spec fn encoded_memory_map(map: MemoryMapInfo) -> Seq<u8> {
    u64_bytes(map.entries) + u64_bytes(map.entry_count) + u64_bytes(map.entry_size)
}

/// The bytes of the extent of a display: width, height, bytes per row and
/// bits per pixel.
pub open spec fn encoded_extent(fb: FramebufferInfo) -> Seq<u8> {
    u32_bytes(fb.width) + u32_bytes(fb.height) + u32_bytes(fb.pitch) + u32_bytes(fb.bpp)
}

/// The bytes of the channel masks of a display, with the padding that
/// follows them.
pub open spec fn encoded_masks(fb: FramebufferInfo) -> Seq<u8> {
    u32_bytes(fb.red_mask) + u32_bytes(fb.green_mask) + u32_bytes(fb.blue_mask) + u32_bytes(0)
}

/// The bytes of the framebuffer part of a block: offsets 24 to 63.
pub open spec fn encoded_framebuffer(fb: FramebufferInfo) -> Seq<u8> {
    u64_bytes(fb.addr) + encoded_extent(fb) + encoded_masks(fb)
}

/// The bytes of the ACPI part of a block: offsets 64 to 79. An absent
/// pointer is written as two zero fields.
pub open spec fn encoded_rsdp(rsdp_addr: Option<u64>) -> Seq<u8> {
    match rsdp_addr {
        Some(addr) => u64_bytes(1) + u64_bytes(addr),
        None => u64_bytes(0) + u64_bytes(0),
    }
}

/// The bytes of a handoff block.
pub open spec fn encoded(info: BootInfo) -> Seq<u8> {
    encoded_memory_map(info.memory_map) + encoded_framebuffer(info.framebuffer) + encoded_rsdp(
        info.rsdp_addr,
    )
}

/// The handoff block that the fields of `bytes` spell out, read at their
/// documented offsets.
pub open spec fn decoded(bytes: Seq<u8>) -> BootInfo {
    BootInfo {
        memory_map: MemoryMapInfo {
            entries: le_u64(bytes, 0) as u64,
            entry_count: le_u64(bytes, 8) as u64,
            entry_size: le_u64(bytes, 16) as u64,
        },
        framebuffer: FramebufferInfo {
            addr: le_u64(bytes, 24) as u64,
            width: le_u32(bytes, 32) as u32,
            height: le_u32(bytes, 36) as u32,
            pitch: le_u32(bytes, 40) as u32,
            bpp: le_u32(bytes, 44) as u32,
            red_mask: le_u32(bytes, 48) as u32,
            green_mask: le_u32(bytes, 52) as u32,
            blue_mask: le_u32(bytes, 56) as u32,
        },
        rsdp_addr: if le_u64(bytes, 64) == 1 {
            Some(le_u64(bytes, 72) as u64)
        } else {
            None
        },
    }
}

/// Whether bytes are accepted as a handoff block, and if not, why.
pub open spec fn layout_error(bytes: Seq<u8>) -> Option<LayoutError> {
    if bytes.len() < BOOT_INFO_SIZE {
        Some(LayoutError::TooShort)
    } else if le_u64(bytes, 64) > 1 {
        Some(LayoutError::BadPresenceFlag)
    } else {
        None
    }
}

/// Decides whether the kernel may trust a handoff block.
pub fn validate_boot_info(boot_info: &BootInfo) -> (ok: bool)
    ensures
        ok == boot_info_valid(*boot_info),
{
    if boot_info.memory_map.entry_count == 0 || boot_info.memory_map.entries == 0 {
        return false;
    }
    if boot_info.framebuffer.width == 0 || boot_info.framebuffer.height == 0 {
        return false;
    }
    if boot_info.framebuffer.bpp != 32 && boot_info.framebuffer.bpp != 24
        && boot_info.framebuffer.bpp != 16 {
        return false;
    }
    true
}

/// Appends the memory-map part of a block.
fn write_memory_map(out: &mut Vec<u8>, map: &MemoryMapInfo)
    ensures
        final(out)@ == old(out)@ + encoded_memory_map(*map),
{
    write_u64(out, map.entries);
    write_u64(out, map.entry_count);
    write_u64(out, map.entry_size);
    assert(out@ =~= old(out)@ + encoded_memory_map(*map));
}

/// Appends the framebuffer part of a block.
fn write_framebuffer(out: &mut Vec<u8>, fb: &FramebufferInfo)
    ensures
        final(out)@ == old(out)@ + encoded_framebuffer(*fb),
{
    write_u64(out, fb.addr);
    let ghost after_addr = out@;
    write_u32(out, fb.width);
    write_u32(out, fb.height);
    write_u32(out, fb.pitch);
    write_u32(out, fb.bpp);
    assert(out@ =~= after_addr + encoded_extent(*fb));
    let ghost after_extent = out@;
    write_u32(out, fb.red_mask);
    write_u32(out, fb.green_mask);
    write_u32(out, fb.blue_mask);
    write_u32(out, 0);
    assert(out@ =~= after_extent + encoded_masks(*fb));
    assert(out@ =~= old(out)@ + encoded_framebuffer(*fb));
}

/// Appends the ACPI part of a block.
fn write_rsdp(out: &mut Vec<u8>, rsdp_addr: Option<u64>)
    ensures
        final(out)@ == old(out)@ + encoded_rsdp(rsdp_addr),
{
    match rsdp_addr {
        Some(addr) => {
            write_u64(out, 1);
            write_u64(out, addr);
        },
        None => {
            write_u64(out, 0);
            write_u64(out, 0);
        },
    }
    assert(out@ =~= old(out)@ + encoded_rsdp(rsdp_addr));
}

impl BootInfo {
    /// Puts the three parts of a handoff block together.
    pub fn new(memory_map: MemoryMapInfo, framebuffer: FramebufferInfo, rsdp_addr: Option<u64>)
        -> (info: Self)
        ensures
            info == (BootInfo { memory_map, framebuffer, rsdp_addr }),
    {
        BootInfo { memory_map, framebuffer, rsdp_addr }
    }

    /// Writes the block as the bytes that are handed to the kernel.
    pub fn to_bytes(&self) -> (bytes: Vec<u8>)
        ensures
            bytes@ == encoded(*self),
            bytes@.len() == BOOT_INFO_SIZE,
    {
        let mut out: Vec<u8> = Vec::new();
        write_memory_map(&mut out, &self.memory_map);
        write_framebuffer(&mut out, &self.framebuffer);
        write_rsdp(&mut out, self.rsdp_addr);
        assert(out@ =~= encoded(*self));
        proof {
            lemma_boot_info_round_trip(*self);
        }
        out
    }

    /// Reads a block from the bytes that the loader left.
    ///
    /// Succeeds on any 80 bytes or more whose presence flag is 0 or 1; bytes
    /// beyond the block, and the padding, are not looked at.
    pub fn from_bytes(bytes: &[u8]) -> (r: Result<BootInfo, LayoutError>)
        ensures
            match r {
                Ok(info) => layout_error(bytes@) is None && info == decoded(bytes@),
                Err(e) => layout_error(bytes@) == Some(e),
            },
    {
        if bytes.len() < BOOT_INFO_SIZE {
            return Err(LayoutError::TooShort);
        }
        let flag: u64 = read_u64(bytes, 64);
        if flag > 1 {
            return Err(LayoutError::BadPresenceFlag);
        }
        let value: u64 = read_u64(bytes, 72);
        Ok(
            BootInfo {
                memory_map: MemoryMapInfo {
                    entries: read_u64(bytes, 0),
                    entry_count: read_u64(bytes, 8),
                    entry_size: read_u64(bytes, 16),
                },
                framebuffer: FramebufferInfo {
                    addr: read_u64(bytes, 24),
                    width: read_u32(bytes, 32),
                    height: read_u32(bytes, 36),
                    pitch: read_u32(bytes, 40),
                    bpp: read_u32(bytes, 44),
                    red_mask: read_u32(bytes, 48),
                    green_mask: read_u32(bytes, 52),
                    blue_mask: read_u32(bytes, 56),
                },
                rsdp_addr: if flag == 1 {
                    Some(value)
                } else {
                    None
                },
            },
        )
    }
}

/// Each defect is enough by itself: a block with no descriptors, with no
/// descriptor address, with no width, with no height, or with a pixel depth
/// other than 16, 24 and 32 is not valid, whatever its other fields hold;
/// and a block with none of these defects is valid.
pub proof fn lemma_each_defect_rejects(info: BootInfo)
    ensures
        info.memory_map.entry_count == 0 ==> !boot_info_valid(info),
        info.memory_map.entries == 0 ==> !boot_info_valid(info),
        info.framebuffer.width == 0 ==> !boot_info_valid(info),
        info.framebuffer.height == 0 ==> !boot_info_valid(info),
        info.framebuffer.bpp != 16 && info.framebuffer.bpp != 24 && info.framebuffer.bpp != 32
            ==> !boot_info_valid(info),
        !boot_info_valid(info) ==> {
            ||| info.memory_map.entry_count == 0
            ||| info.memory_map.entries == 0
            ||| info.framebuffer.width == 0
            ||| info.framebuffer.height == 0
            ||| (info.framebuffer.bpp != 16 && info.framebuffer.bpp != 24 && info.framebuffer.bpp
                != 32)
        },
{
}

/// Reading the memory-map part gives back its three fields.
pub proof fn lemma_memory_map_round_trip(map: MemoryMapInfo)
    ensures
        encoded_memory_map(map).len() == 24,
        le_u64(encoded_memory_map(map), 0) == map.entries,
        le_u64(encoded_memory_map(map), 8) == map.entry_count,
        le_u64(encoded_memory_map(map), 16) == map.entry_size,
{
    let s = encoded_memory_map(map);
    assert(s.subrange(0, 8) =~= u64_bytes(map.entries));
    assert(s.subrange(8, 16) =~= u64_bytes(map.entry_count));
    assert(s.subrange(16, 24) =~= u64_bytes(map.entry_size));
    lemma_u64_round_trip(s, 0, map.entries);
    lemma_u64_round_trip(s, 8, map.entry_count);
    lemma_u64_round_trip(s, 16, map.entry_size);
}

/// Reading the extent of a display gives back its four fields.
pub proof fn lemma_extent_round_trip(fb: FramebufferInfo)
    ensures
        encoded_extent(fb).len() == 16,
        le_u32(encoded_extent(fb), 0) == fb.width,
        le_u32(encoded_extent(fb), 4) == fb.height,
        le_u32(encoded_extent(fb), 8) == fb.pitch,
        le_u32(encoded_extent(fb), 12) == fb.bpp,
{
    let s = encoded_extent(fb);
    assert(s.subrange(0, 4) =~= u32_bytes(fb.width));
    assert(s.subrange(4, 8) =~= u32_bytes(fb.height));
    assert(s.subrange(8, 12) =~= u32_bytes(fb.pitch));
    assert(s.subrange(12, 16) =~= u32_bytes(fb.bpp));
    lemma_u32_round_trip(s, 0, fb.width);
    lemma_u32_round_trip(s, 4, fb.height);
    lemma_u32_round_trip(s, 8, fb.pitch);
    lemma_u32_round_trip(s, 12, fb.bpp);
}

/// Reading the channel masks of a display gives back its three fields.
pub proof fn lemma_masks_round_trip(fb: FramebufferInfo)
    ensures
        encoded_masks(fb).len() == 16,
        le_u32(encoded_masks(fb), 0) == fb.red_mask,
        le_u32(encoded_masks(fb), 4) == fb.green_mask,
        le_u32(encoded_masks(fb), 8) == fb.blue_mask,
{
    let s = encoded_masks(fb);
    assert(s.subrange(0, 4) =~= u32_bytes(fb.red_mask));
    assert(s.subrange(4, 8) =~= u32_bytes(fb.green_mask));
    assert(s.subrange(8, 12) =~= u32_bytes(fb.blue_mask));
    lemma_u32_round_trip(s, 0, fb.red_mask);
    lemma_u32_round_trip(s, 4, fb.green_mask);
    lemma_u32_round_trip(s, 8, fb.blue_mask);
}

/// Reading the framebuffer part gives back its eight fields.
pub proof fn lemma_framebuffer_round_trip(fb: FramebufferInfo)
    ensures
        encoded_framebuffer(fb).len() == 40,
        le_u64(encoded_framebuffer(fb), 0) == fb.addr,
        le_u32(encoded_framebuffer(fb), 8) == fb.width,
        le_u32(encoded_framebuffer(fb), 12) == fb.height,
        le_u32(encoded_framebuffer(fb), 16) == fb.pitch,
        le_u32(encoded_framebuffer(fb), 20) == fb.bpp,
        le_u32(encoded_framebuffer(fb), 24) == fb.red_mask,
        le_u32(encoded_framebuffer(fb), 28) == fb.green_mask,
        le_u32(encoded_framebuffer(fb), 32) == fb.blue_mask,
{
    let a = u64_bytes(fb.addr);
    let e = encoded_extent(fb);
    let m = encoded_masks(fb);
    lemma_extent_round_trip(fb);
    lemma_masks_round_trip(fb);
    assert(a.subrange(0, 8) =~= a);
    lemma_u64_round_trip(a, 0, fb.addr);
    lemma_le_u64_joined(a + e, m, 0);
    lemma_le_u64_joined(a, e, 0);
    lemma_le_u32_joined(a + e, m, 8);
    lemma_le_u32_joined(a + e, m, 12);
    lemma_le_u32_joined(a + e, m, 16);
    lemma_le_u32_joined(a + e, m, 20);
    lemma_le_u32_joined(a, e, 0);
    lemma_le_u32_joined(a, e, 4);
    lemma_le_u32_joined(a, e, 8);
    lemma_le_u32_joined(a, e, 12);
    lemma_le_u32_joined(a + e, m, 0);
    lemma_le_u32_joined(a + e, m, 4);
    lemma_le_u32_joined(a + e, m, 8);
}

/// Reading the ACPI part gives back the flag and, where there is one, the
/// pointer.
pub proof fn lemma_rsdp_round_trip(rsdp_addr: Option<u64>)
    ensures
        encoded_rsdp(rsdp_addr).len() == 16,
        le_u64(encoded_rsdp(rsdp_addr), 0) == if rsdp_addr is Some {
            1int
        } else {
            0int
        },
        rsdp_addr is Some ==> le_u64(encoded_rsdp(rsdp_addr), 8) == rsdp_addr->Some_0,
{
    let s = encoded_rsdp(rsdp_addr);
    match rsdp_addr {
        Some(addr) => {
            assert(s.subrange(0, 8) =~= u64_bytes(1));
            assert(s.subrange(8, 16) =~= u64_bytes(addr));
            lemma_u64_round_trip(s, 0, 1);
            lemma_u64_round_trip(s, 8, addr);
        },
        None => {
            assert(s.subrange(0, 8) =~= u64_bytes(0));
            lemma_u64_round_trip(s, 0, 0);
        },
    }
}

/// What one side writes, the other reads: the bytes of any block are accepted
/// as a block, and reading them at the documented offsets gives back every
/// field.
pub proof fn lemma_boot_info_round_trip(info: BootInfo)
    ensures
        encoded(info).len() == BOOT_INFO_SIZE,
        layout_error(encoded(info)) is None,
        decoded(encoded(info)) == info,
{
    let m = encoded_memory_map(info.memory_map);
    let f = encoded_framebuffer(info.framebuffer);
    let r = encoded_rsdp(info.rsdp_addr);
    lemma_memory_map_round_trip(info.memory_map);
    lemma_framebuffer_round_trip(info.framebuffer);
    lemma_rsdp_round_trip(info.rsdp_addr);
    lemma_le_u64_joined(m + f, r, 0);
    lemma_le_u64_joined(m + f, r, 8);
    lemma_le_u64_joined(m + f, r, 16);
    lemma_le_u64_joined(m + f, r, 24);
    lemma_le_u32_joined(m + f, r, 32);
    lemma_le_u32_joined(m + f, r, 36);
    lemma_le_u32_joined(m + f, r, 40);
    lemma_le_u32_joined(m + f, r, 44);
    lemma_le_u32_joined(m + f, r, 48);
    lemma_le_u32_joined(m + f, r, 52);
    lemma_le_u32_joined(m + f, r, 56);
    lemma_le_u64_joined(m, f, 0);
    lemma_le_u64_joined(m, f, 8);
    lemma_le_u64_joined(m, f, 16);
    lemma_le_u32_joined(m, f, 8);
    lemma_le_u32_joined(m, f, 12);
    lemma_le_u32_joined(m, f, 16);
    lemma_le_u32_joined(m, f, 20);
    lemma_le_u32_joined(m, f, 24);
    lemma_le_u32_joined(m, f, 28);
    lemma_le_u32_joined(m, f, 32);
}

} // verus!
