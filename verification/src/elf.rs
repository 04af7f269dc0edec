//! Reading a 64-bit little-endian ELF kernel image.
//!
//! This is a deliberately small reader: it looks at the identification bytes,
//! the entry point, the location of the program-header table, and, for each
//! loadable program header, where the segment lies in the file and in memory.
//! An image is checked as a whole before anything is placed: a defect anywhere
//! in it is reported by kind, and no load plan exists for a defective image.

use vstd::prelude::*;
use crate::memory::{page_count, pages_for};
use crate::wire::{le_u16, le_u32, le_u64, read_u16, read_u32, read_u64};

verus! {

/// Size of the file header of a 64-bit image.
pub const ELF_HEADER_SIZE: usize = 64;

/// Number of bytes read from each program header.
pub const PROGRAM_HEADER_SIZE: usize = 56;

/// Program-header type of a segment that has to be placed in memory.
pub const PT_LOAD: u32 = 1;

/// Why an image, or an attempt to place it, was refused.
#[derive(Clone, Copy, Debug, PartialEq, Eq, Structural)]
pub enum ElfError {
    /// The buffer is shorter than a file header.
    TooSmall,
    /// The first four bytes are not `0x7f 'E' 'L' 'F'`.
    BadMagic,
    /// The class byte does not say 64-bit.
    Not64Bit,
    /// A program header announced by the file header lies partly or wholly
    /// outside the buffer.
    TruncatedProgramHeader,
    /// A loadable segment claims file bytes that the buffer does not hold.
    SegmentDataOutOfRange,
    /// A loadable segment holds more file bytes than it reserves memory for.
    SegmentLargerThanMemory,
    /// The firmware had no memory for a segment, neither at its linked
    /// address nor anywhere else.
    AllocationFailed,
    /// A segment sits at another address than the one its code was linked
    /// for, so the image cannot be run.
    SegmentNotAtLinkedAddress,
}

/// One loadable segment, as its program header describes it.
#[derive(Clone, Copy, Debug, PartialEq, Eq, Structural)]
pub struct Segment {
    /// Offset of the segment's first byte in the image.
    pub file_offset: u64,
    /// Address the segment was linked for.
    pub vaddr: u64,
    /// Number of bytes the image holds for the segment.
    pub filesz: u64,
    /// Number of bytes the segment occupies in memory.
    pub memsz: u64,
}

/// What has to be placed in memory to run an image, and where execution
/// starts.
#[derive(Clone, Debug, PartialEq, Eq)]
pub struct LoadPlan {
    /// Address of the first instruction.
    pub entry_point: u64,
    /// The loadable segments, in program-header order.
    pub segments: Vec<Segment>,
}

/// The buffer starts with the four identification bytes.
pub open spec fn has_magic(data: Seq<u8>) -> bool {
    data.len() >= 4 && data[0] == 0x7f && data[1] == 0x45 && data[2] == 0x4c && data[3] == 0x46
}

/// Entry point stored in the file header.
pub open spec fn entry_point_of(data: Seq<u8>) -> int {
    le_u64(data, 24)
}

/// Number of program headers announced by the file header.
pub open spec fn header_count(data: Seq<u8>) -> int {
    le_u16(data, 56)
}

/// Offset in the buffer of program header `i`.
pub open spec fn header_start(data: Seq<u8>, i: int) -> int {
    le_u64(data, 32) + i * le_u16(data, 54)
}

/// Program header `i` lies wholly inside the buffer.
pub open spec fn header_in_range(data: Seq<u8>, i: int) -> bool {
    header_start(data, i) + PROGRAM_HEADER_SIZE <= data.len()
}

/// Program header `i` describes a segment to load.
pub open spec fn is_loadable(data: Seq<u8>, i: int) -> bool {
    le_u32(data, header_start(data, i)) == PT_LOAD
}

/// The segment that program header `i` describes.
pub open spec fn segment_at(data: Seq<u8>, i: int) -> Segment {
    let at = header_start(data, i);
    Segment {
        file_offset: le_u64(data, at + 8) as u64,
        vaddr: le_u64(data, at + 16) as u64,
        filesz: le_u64(data, at + 32) as u64,
        memsz: le_u64(data, at + 40) as u64,
    }
}

/// The image holds every file byte of the segment, and the segment reserves
/// room for all of them.
pub open spec fn segment_fits(data: Seq<u8>, seg: Segment) -> bool {
    seg.file_offset + seg.filesz <= data.len() && seg.filesz <= seg.memsz
}

/// The defect of program header `i`, if it has one.
pub open spec fn header_error(data: Seq<u8>, i: int) -> Option<ElfError> {
    if !header_in_range(data, i) {
        Some(ElfError::TruncatedProgramHeader)
    } else if !is_loadable(data, i) {
        None
    } else if segment_at(data, i).file_offset + segment_at(data, i).filesz > data.len() {
        Some(ElfError::SegmentDataOutOfRange)
    } else if segment_at(data, i).filesz > segment_at(data, i).memsz {
        Some(ElfError::SegmentLargerThanMemory)
    } else {
        None
    }
}

/// The defect of the first defective program header among those numbered
/// `from` up to, but not including, `to`.
pub open spec fn headers_error(data: Seq<u8>, from: int, to: int) -> Option<ElfError>
    decreases to - from,
{
    if from >= to {
        None
    } else if header_error(data, from) is Some {
        header_error(data, from)
    } else {
        headers_error(data, from + 1, to)
    }
}

/// The defect for which an image is refused: of the file header first, then of
/// the first defective program header. `None` for an image that can be loaded.
pub open spec fn image_error(data: Seq<u8>) -> Option<ElfError> {
    if data.len() < ELF_HEADER_SIZE {
        Some(ElfError::TooSmall)
    } else if !has_magic(data) {
        Some(ElfError::BadMagic)
    } else if data[4] != 2 {
        Some(ElfError::Not64Bit)
    } else {
        headers_error(data, 0, header_count(data))
    }
}

/// The segments described by the loadable ones among the first `n` program
/// headers, in header order.
pub open spec fn loadable_segments(data: Seq<u8>, n: int) -> Seq<Segment>
    decreases n,
{
    if n <= 0 {
        Seq::empty()
    } else if is_loadable(data, n - 1) {
        loadable_segments(data, n - 1).push(segment_at(data, n - 1))
    } else {
        loadable_segments(data, n - 1)
    }
}

/// What a memory region holds once a segment has been loaded at its start:
/// the segment's file bytes, then zeroes up to its memory size, then whatever
/// the region held before.
pub open spec fn loaded_region(before: Seq<u8>, data: Seq<u8>, seg: Segment) -> Seq<u8> {
    Seq::new(
        before.len(),
        |i: int|
            if i < seg.filesz {
                data[seg.file_offset + i]
            } else if i < seg.memsz {
                0u8
            } else {
                before[i]
            },
    )
}

/// The bytes a loaded segment consists of: `filesz` bytes taken from the image
/// at the segment's file offset, followed by `memsz - filesz` zero bytes.
pub open spec fn segment_image(data: Seq<u8>, seg: Segment) -> Seq<u8> {
    data.subrange(seg.file_offset as int, seg.file_offset + seg.filesz) + Seq::new(
        (seg.memsz - seg.filesz) as nat,
        |i: int| 0u8,
    )
}

impl Segment {
    /// Number of pages to allocate for the segment.
    pub fn pages(&self) -> (n: u64)
        ensures
            n == pages_for(self.memsz as int),
    {
        page_count(self.memsz)
    }
}

/// Checks an image and lists what has to be loaded from it.
///
/// Succeeds exactly on the images without a defect, and then gives the entry
/// point of the file header and one segment per loadable program header, in
/// order. A defective image is refused with the kind of its first defect.
pub fn parse_elf_and_load(elf_data: &[u8]) -> (r: Result<LoadPlan, ElfError>)
    ensures
        match r {
            Ok(plan) => {
                &&& image_error(elf_data@) is None
                &&& plan.entry_point == entry_point_of(elf_data@)
                &&& plan.segments@ == loadable_segments(elf_data@, header_count(elf_data@))
                &&& forall|k: int|
                    0 <= k < plan.segments@.len() ==> segment_fits(
                        elf_data@,
                        #[trigger] plan.segments@[k],
                    )
            },
            Err(e) => image_error(elf_data@) == Some(e),
        },
{
    let len: usize = elf_data.len();
    if len < ELF_HEADER_SIZE {
        return Err(ElfError::TooSmall);
    }
    if elf_data[0] != 0x7f || elf_data[1] != 0x45 || elf_data[2] != 0x4c || elf_data[3] != 0x46 {
        return Err(ElfError::BadMagic);
    }
    if elf_data[4] != 2 {
        return Err(ElfError::Not64Bit);
    }
    let entry_point: u64 = read_u64(elf_data, 24);
    let table: u64 = read_u64(elf_data, 32);
    let stride: u16 = read_u16(elf_data, 54);
    let count: u16 = read_u16(elf_data, 56);
    let len64: u64 = len as u64;
    let mut segments: Vec<Segment> = Vec::new();
    let mut i: u16 = 0;
    while i < count
        invariant
            len == elf_data@.len(),
            len64 == len,
            len >= ELF_HEADER_SIZE,
            has_magic(elf_data@),
            elf_data@[4] == 2,
            table == le_u64(elf_data@, 32),
            stride == le_u16(elf_data@, 54),
            count == header_count(elf_data@),
            i <= count,
            headers_error(elf_data@, 0, count as int) == headers_error(
                elf_data@,
                i as int,
                count as int,
            ),
            segments@ == loadable_segments(elf_data@, i as int),
            forall|k: int|
                0 <= k < segments@.len() ==> segment_fits(elf_data@, #[trigger] segments@[k]),
        decreases count - i,
    {
        assert(i as int * stride as int <= 0xFFFF * 0xFFFF) by (nonlinear_arith)
            requires
                0 <= i <= 0xFFFF,
                0 <= stride <= 0xFFFF,
        ;
        assert(i as int * stride as int >= 0) by (nonlinear_arith)
            requires
                0 <= i,
                0 <= stride,
        ;
        let rel: u64 = (i as u64) * (stride as u64);
        if table > len64 || rel > len64 - table || len64 - table - rel < 56 {
            return Err(ElfError::TruncatedProgramHeader);
        }
        let at: usize = (table + rel) as usize;
        assert(at == header_start(elf_data@, i as int));
        let p_type: u32 = read_u32(elf_data, at);
        if p_type == PT_LOAD {
            let seg = Segment {
                file_offset: read_u64(elf_data, at + 8),
                vaddr: read_u64(elf_data, at + 16),
                filesz: read_u64(elf_data, at + 32),
                memsz: read_u64(elf_data, at + 40),
            };
            assert(seg == segment_at(elf_data@, i as int));
            if seg.file_offset > len64 || seg.filesz > len64 - seg.file_offset {
                return Err(ElfError::SegmentDataOutOfRange);
            }
            if seg.filesz > seg.memsz {
                return Err(ElfError::SegmentLargerThanMemory);
            }
            segments.push(seg);
        }
        i += 1;
    }
    Ok(LoadPlan { entry_point, segments })
}

/// Loads a segment at the start of `region`: copies its file bytes from the
/// image and clears the rest of its memory. Bytes of the region beyond the
/// segment's memory size are left alone.
pub fn load_segment(elf_data: &[u8], seg: &Segment, region: &mut [u8])
    requires
        segment_fits(elf_data@, *seg),
        seg.memsz <= old(region)@.len(),
    ensures
        final(region)@ == loaded_region(old(region)@, elf_data@, *seg),
{
    let image_len: usize = elf_data.len();
    let region_len: usize = region.len();
    let filesz: usize = seg.filesz as usize;
    let memsz: usize = seg.memsz as usize;
    let offset: usize = seg.file_offset as usize;
    let mut i: usize = 0;
    while i < filesz
        invariant
            segment_fits(elf_data@, *seg),
            image_len == elf_data@.len(),
            filesz == seg.filesz,
            memsz == seg.memsz,
            offset == seg.file_offset,
            memsz <= region@.len(),
            region@.len() == old(region)@.len(),
            i <= filesz,
            forall|k: int| 0 <= k < i ==> region@[k] == elf_data@[offset + k],
            forall|k: int| i <= k < region@.len() ==> region@[k] == old(region)@[k],
        decreases filesz - i,
    {
        region[i] = elf_data[offset + i];
        i += 1;
    }
    while i < memsz
        invariant
            segment_fits(elf_data@, *seg),
            filesz == seg.filesz,
            memsz == seg.memsz,
            offset == seg.file_offset,
            filesz <= memsz,
            memsz <= region@.len(),
            region@.len() == old(region)@.len(),
            filesz <= i <= memsz,
            forall|k: int| 0 <= k < filesz ==> region@[k] == elf_data@[offset + k],
            forall|k: int| filesz <= k < i ==> region@[k] == 0u8,
            forall|k: int| i <= k < region@.len() ==> region@[k] == old(region)@[k],
        decreases memsz - i,
    {
        region[i] = 0;
        i += 1;
    }
    assert(region@ =~= loaded_region(old(region)@, elf_data@, *seg));
}

/// The first `memsz` bytes of a region into which a segment was loaded are the
/// segment's image: its file bytes followed by zeroes.
pub proof fn lemma_loaded_region_holds_image(before: Seq<u8>, data: Seq<u8>, seg: Segment)
    requires
        segment_fits(data, seg),
        seg.memsz <= before.len(),
    ensures
        loaded_region(before, data, seg).subrange(0, seg.memsz as int) == segment_image(data, seg),
        loaded_region(before, data, seg).subrange(seg.memsz as int, before.len() as int)
            == before.subrange(seg.memsz as int, before.len() as int),
{
    assert(loaded_region(before, data, seg).subrange(0, seg.memsz as int) =~= segment_image(
        data,
        seg,
    ));
    assert(loaded_region(before, data, seg).subrange(seg.memsz as int, before.len() as int)
        =~= before.subrange(seg.memsz as int, before.len() as int));
}

/// A buffer is refused for its file header alone, whatever follows: one
/// shorter than a file header as too small, one without the identification
/// bytes for its magic, one of another class (such as 32-bit) as not 64-bit.
pub proof fn lemma_bad_file_header_refused(data: Seq<u8>)
    ensures
        data.len() < ELF_HEADER_SIZE ==> image_error(data) == Some(ElfError::TooSmall),
        data.len() >= ELF_HEADER_SIZE && !has_magic(data) ==> image_error(data) == Some(
            ElfError::BadMagic,
        ),
        data.len() >= ELF_HEADER_SIZE && has_magic(data) && data[4] != 2 ==> image_error(data)
            == Some(ElfError::Not64Bit),
{
}

/// The program headers from `from` to `to` are without defect exactly if
/// each of them is; otherwise the defect reported is that of the first
/// defective one.
pub proof fn lemma_headers_error(data: Seq<u8>, from: int, to: int)
    requires
        0 <= from <= to,
    ensures
        headers_error(data, from, to) is None <==> forall|i: int|
            from <= i < to ==> #[trigger] header_error(data, i) is None,
        headers_error(data, from, to) is Some ==> exists|i: int|
            {
                &&& from <= i < to
                &&& #[trigger] header_error(data, i) == headers_error(data, from, to)
                &&& forall|j: int| from <= j < i ==> #[trigger] header_error(data, j) is None
            },
    decreases to - from,
{
    if from < to {
        if header_error(data, from) is Some {
            assert(header_error(data, from) == headers_error(data, from, to));
        } else {
            lemma_headers_error(data, from + 1, to);
            if headers_error(data, from + 1, to) is Some {
                let i = choose|i: int|
                    {
                        &&& from + 1 <= i < to
                        &&& #[trigger] header_error(data, i) == headers_error(data, from + 1, to)
                        &&& forall|j: int|
                            from + 1 <= j < i ==> #[trigger] header_error(data, j) is None
                    };
                assert(header_error(data, i) == headers_error(data, from, to));
            }
        }
    }
}

/// An image whose file header is sound is refused exactly if one of its
/// program headers is defective: cut short by the end of the buffer, or
/// describing a loadable segment that does not fit.
pub proof fn lemma_image_accepted(data: Seq<u8>)
    requires
        data.len() >= ELF_HEADER_SIZE,
        has_magic(data),
        data[4] == 2,
    ensures
        image_error(data) is None <==> forall|i: int|
            0 <= i < header_count(data) ==> #[trigger] header_in_range(data, i) && (is_loadable(
                data,
                i,
            ) ==> segment_fits(data, segment_at(data, i))),
{
    lemma_headers_error(data, 0, header_count(data));
    if image_error(data) is None {
        assert forall|i: int| 0 <= i < header_count(data) implies #[trigger] header_in_range(
            data,
            i,
        ) && (is_loadable(data, i) ==> segment_fits(data, segment_at(data, i))) by {
            assert(header_error(data, i) is None);
        }
    } else {
        let i = choose|i: int|
            {
                &&& 0 <= i < header_count(data)
                &&& #[trigger] header_error(data, i) == headers_error(
                    data,
                    0,
                    header_count(data),
                )
                &&& forall|j: int| 0 <= j < i ==> #[trigger] header_error(data, j) is None
            };
        assert(header_error(data, i) is Some);
        if header_in_range(data, i) {
            assert(is_loadable(data, i) && !segment_fits(data, segment_at(data, i)));
        }
    }
}

/// The segments of the first `i` program headers open the list of the
/// segments of the first `n`, for `i` up to `n`.
pub proof fn lemma_segments_grow(data: Seq<u8>, i: int, n: int)
    requires
        0 <= i <= n,
    ensures
        loadable_segments(data, i).len() <= loadable_segments(data, n).len(),
        loadable_segments(data, n).len() <= n,
        loadable_segments(data, n).subrange(0, loadable_segments(data, i).len() as int)
            == loadable_segments(data, i),
    decreases n,
{
    if i < n {
        lemma_segments_grow(data, i, n - 1);
        let before = loadable_segments(data, n - 1);
        let k = loadable_segments(data, i).len() as int;
        if is_loadable(data, n - 1) {
            assert(before.push(segment_at(data, n - 1)).subrange(0, k) =~= before.subrange(0, k));
        }
    } else {
        lemma_segments_grow_bound(data, n);
        assert(loadable_segments(data, n).subrange(0, loadable_segments(data, n).len() as int)
            =~= loadable_segments(data, n));
    }
}

/// The first `n` program headers give at most `n` segments.
pub proof fn lemma_segments_grow_bound(data: Seq<u8>, n: int)
    requires
        0 <= n,
    ensures
        loadable_segments(data, n).len() <= n,
    decreases n,
{
    if n > 0 {
        lemma_segments_grow_bound(data, n - 1);
    }
}

/// The plan follows the program headers: the segment of a loadable header
/// stands in the plan at the place given by the number of loadable headers
/// before it.
pub proof fn lemma_segment_of_header(data: Seq<u8>, n: int, i: int)
    requires
        0 <= i < n,
        is_loadable(data, i),
    ensures
        loadable_segments(data, i).len() < loadable_segments(data, n).len(),
        loadable_segments(data, n)[loadable_segments(data, i).len() as int] == segment_at(data, i),
{
    lemma_segments_grow(data, i + 1, n);
    let upto = loadable_segments(data, i + 1);
    assert(upto == loadable_segments(data, i).push(segment_at(data, i)));
    let k = loadable_segments(data, i).len() as int;
    assert(loadable_segments(data, n).subrange(0, upto.len() as int)[k] == upto[k]);
}

/// The plan holds nothing else: each of its segments is that of a loadable
/// program header, the one with as many loadable headers before it as the
/// segment has segments before it.
pub proof fn lemma_header_of_segment(data: Seq<u8>, n: int, k: int) -> (i: int)
    requires
        0 <= n,
        0 <= k < loadable_segments(data, n).len(),
    ensures
        0 <= i < n,
        is_loadable(data, i),
        loadable_segments(data, i).len() == k,
        loadable_segments(data, n)[k] == segment_at(data, i),
    decreases n,
{
    if is_loadable(data, n - 1) && k == loadable_segments(data, n - 1).len() {
        n - 1
    } else {
        lemma_header_of_segment(data, n - 1, k)
    }
}

/// Loading follows the image: in an image without defect, every loadable
/// program header has its segment in the plan, and a region into which that
/// segment is loaded starts with exactly `filesz` bytes taken from the
/// image at the segment's file offset, followed by exactly `memsz - filesz`
/// zero bytes; what lies beyond in the region is as it was.
pub proof fn lemma_loaded_image(data: Seq<u8>, i: int, before: Seq<u8>)
    requires
        image_error(data) is None,
        0 <= i < header_count(data),
        is_loadable(data, i),
        segment_at(data, i).memsz <= before.len(),
    ensures
        segment_fits(data, segment_at(data, i)),
        loadable_segments(data, header_count(data)).contains(segment_at(data, i)),
        ({
            let seg = segment_at(data, i);
            let after = loaded_region(before, data, seg);
            &&& after.len() == before.len()
            &&& after.subrange(0, seg.filesz as int) == data.subrange(
                seg.file_offset as int,
                seg.file_offset + seg.filesz,
            )
            &&& forall|k: int| seg.filesz <= k < seg.memsz ==> #[trigger] after[k] == 0
            &&& forall|k: int| seg.memsz <= k < before.len() ==> #[trigger] after[k] == before[k]
        }),
{
    let seg = segment_at(data, i);
    lemma_headers_error(data, 0, header_count(data));
    assert(header_error(data, i) is None);
    lemma_segment_of_header(data, header_count(data), i);
    let after = loaded_region(before, data, seg);
    assert(after.subrange(0, seg.filesz as int) =~= data.subrange(
        seg.file_offset as int,
        seg.file_offset + seg.filesz,
    ));
}

/// A request to the firmware's page allocator.
#[derive(Clone, Copy, Debug, PartialEq, Eq, Structural)]
pub enum AllocationRequest {
    /// Exactly these pages, starting at `address`.
    AtAddress { address: u64, pages: u64 },
    /// Any free pages.
    Anywhere { pages: u64 },
}

/// What to do next about a segment's memory.
#[derive(Clone, Copy, Debug, PartialEq, Eq, Structural)]
pub enum PlacementStep {
    /// Put this request to the allocator and come back with its answer.
    Ask(AllocationRequest),
    /// The segment has its memory at `address`; `at_linked_address` records
    /// whether that is where its code expects to run.
    Placed { address: u64, at_linked_address: bool },
    /// The segment cannot be placed.
    Failed(ElfError),
}

/// The request that is made first for a segment: its own pages, at the
/// address it was linked for.
pub open spec fn first_request_of(seg: Segment) -> AllocationRequest {
    AllocationRequest::AtAddress { address: seg.vaddr, pages: pages_for(seg.memsz as int) as u64 }
}

/// The step that follows the allocator's answer to `asked`.
///
/// Granted memory places the segment and records whether it is at the linked
/// address. A refusal of the linked address is followed by one request for
/// memory anywhere; a refusal of that one fails the load.
pub open spec fn step_after(seg: Segment, asked: AllocationRequest, granted: Option<u64>)
    -> PlacementStep {
    match granted {
        Some(address) => PlacementStep::Placed {
            address,
            at_linked_address: address == seg.vaddr,
        },
        None => match asked {
            AllocationRequest::AtAddress { .. } => PlacementStep::Ask(
                AllocationRequest::Anywhere { pages: pages_for(seg.memsz as int) as u64 },
            ),
            AllocationRequest::Anywhere { .. } => PlacementStep::Failed(
                ElfError::AllocationFailed,
            ),
        },
    }
}

/// Every segment has an address, and each address is the one its segment was
/// linked for.
pub open spec fn all_at_linked_addresses(segments: Seq<Segment>, addresses: Seq<u64>) -> bool {
    &&& addresses.len() == segments.len()
    &&& forall|k: int| 0 <= k < segments.len() ==> addresses[k] == (#[trigger] segments[k]).vaddr
}

/// The first request to make for a segment.
pub fn first_request(seg: &Segment) -> (request: AllocationRequest)
    ensures
        request == first_request_of(*seg),
{
    AllocationRequest::AtAddress { address: seg.vaddr, pages: seg.pages() }
}

/// Decides what follows the allocator's answer: `granted` holds the address it
/// gave, or nothing if it refused.
pub fn after_allocation(seg: &Segment, asked: AllocationRequest, granted: Option<u64>) -> (step:
    PlacementStep)
    ensures
        step == step_after(*seg, asked, granted),
{
    match granted {
        Some(address) => PlacementStep::Placed {
            address,
            at_linked_address: address == seg.vaddr,
        },
        None => match asked {
            AllocationRequest::AtAddress { .. } => PlacementStep::Ask(
                AllocationRequest::Anywhere { pages: seg.pages() },
            ),
            AllocationRequest::Anywhere { .. } => PlacementStep::Failed(
                ElfError::AllocationFailed,
            ),
        },
    }
}

/// Closes a load: hands out the entry point if every segment of the plan was
/// placed at its linked address.
///
/// `addresses` holds, in plan order, where each segment was placed. An image
/// with a segment elsewhere, or without an address, is not run.
pub fn finish_load(plan: &LoadPlan, addresses: &[u64]) -> (r: Result<u64, ElfError>)
    ensures
        r == if all_at_linked_addresses(plan.segments@, addresses@) {
            Ok::<u64, ElfError>(plan.entry_point)
        } else {
            Err::<u64, ElfError>(ElfError::SegmentNotAtLinkedAddress)
        },
{
    let n: usize = plan.segments.len();
    if addresses.len() != n {
        return Err(ElfError::SegmentNotAtLinkedAddress);
    }
    let mut k: usize = 0;
    while k < n
        invariant
            n == plan.segments@.len(),
            n == addresses@.len(),
            k <= n,
            forall|j: int| 0 <= j < k ==> addresses@[j] == (#[trigger] plan.segments@[j]).vaddr,
        decreases n - k,
    {
        if addresses[k] != plan.segments[k].vaddr {
            return Err(ElfError::SegmentNotAtLinkedAddress);
        }
        k += 1;
    }
    Ok(plan.entry_point)
}

} // verus!
