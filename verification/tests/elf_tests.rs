use rustos_boot::elf::{
    after_allocation, finish_load, first_request, load_segment, parse_elf_and_load,
    AllocationRequest, ElfError, LoadPlan, PlacementStep, Segment,
};

struct Header {
    p_type: u32,
    offset: u64,
    vaddr: u64,
    filesz: u64,
    memsz: u64,
}

fn image(entry: u64, stride: u16, headers: &[Header], len: usize) -> Vec<u8> {
    let mut data = vec![0u8; len];
    data[0] = 0x7f;
    data[1] = b'E';
    data[2] = b'L';
    data[3] = b'F';
    data[4] = 2;
    data[5] = 1;
    data[24..32].copy_from_slice(&entry.to_le_bytes());
    data[32..40].copy_from_slice(&64u64.to_le_bytes());
    data[54..56].copy_from_slice(&stride.to_le_bytes());
    data[56..58].copy_from_slice(&(headers.len() as u16).to_le_bytes());
    for (i, h) in headers.iter().enumerate() {
        let at = 64 + i * stride as usize;
        data[at..at + 4].copy_from_slice(&h.p_type.to_le_bytes());
        data[at + 8..at + 16].copy_from_slice(&h.offset.to_le_bytes());
        data[at + 16..at + 24].copy_from_slice(&h.vaddr.to_le_bytes());
        data[at + 24..at + 32].copy_from_slice(&h.vaddr.to_le_bytes());
        data[at + 32..at + 40].copy_from_slice(&h.filesz.to_le_bytes());
        data[at + 40..at + 48].copy_from_slice(&h.memsz.to_le_bytes());
    }
    data
}

fn two_segment_image() -> Vec<u8> {
    let headers = [
        Header { p_type: 1, offset: 0x100, vaddr: 0x10_0000, filesz: 0x20, memsz: 0x20 },
        Header { p_type: 4, offset: 0x120, vaddr: 0, filesz: 0x10, memsz: 0x10 },
        Header { p_type: 1, offset: 0x130, vaddr: 0x20_0000, filesz: 0x10, memsz: 0x1800 },
    ];
    let mut data = image(0x10_0040, 56, &headers, 0x140);
    for i in 0..0x40 {
        data[0x100 + i] = (i as u8).wrapping_mul(3).wrapping_add(1);
    }
    data
}

#[test]
fn plan_lists_entry_point_and_loadable_segments() {
    let data = two_segment_image();
    let plan = parse_elf_and_load(&data).unwrap();
    assert_eq!(plan.entry_point, 0x10_0040);
    assert_eq!(
        plan.segments,
        vec![
            Segment { file_offset: 0x100, vaddr: 0x10_0000, filesz: 0x20, memsz: 0x20 },
            Segment { file_offset: 0x130, vaddr: 0x20_0000, filesz: 0x10, memsz: 0x1800 },
        ]
    );
}

#[test]
fn image_without_program_headers_has_empty_plan() {
    let data = image(0xdead_beef, 56, &[], 64);
    let plan = parse_elf_and_load(&data).unwrap();
    assert_eq!(plan.entry_point, 0xdead_beef);
    assert!(plan.segments.is_empty());
}

#[test]
fn header_stride_is_taken_from_the_file_header() {
    let headers = [
        Header { p_type: 1, offset: 0, vaddr: 0x1000, filesz: 4, memsz: 8 },
        Header { p_type: 1, offset: 4, vaddr: 0x3000, filesz: 0, memsz: 16 },
    ];
    let data = image(0x1000, 72, &headers, 64 + 2 * 72);
    let plan = parse_elf_and_load(&data).unwrap();
    assert_eq!(plan.segments.len(), 2);
    assert_eq!(plan.segments[1], Segment { file_offset: 4, vaddr: 0x3000, filesz: 0, memsz: 16 });
}

#[test]
fn short_buffer_is_too_small() {
    assert_eq!(parse_elf_and_load(&[]), Err(ElfError::TooSmall));
    let data = two_segment_image();
    assert_eq!(parse_elf_and_load(&data[..63]), Err(ElfError::TooSmall));
}

#[test]
fn wrong_identification_is_bad_magic() {
    for at in 0..4 {
        let mut data = two_segment_image();
        data[at] ^= 0x01;
        assert_eq!(parse_elf_and_load(&data), Err(ElfError::BadMagic));
    }
}

#[test]
fn class_32_is_not_64_bit() {
    let mut data = two_segment_image();
    data[4] = 1;
    assert_eq!(parse_elf_and_load(&data), Err(ElfError::Not64Bit));
    data[4] = 0;
    assert_eq!(parse_elf_and_load(&data), Err(ElfError::Not64Bit));
}

#[test]
fn bad_magic_is_reported_before_class() {
    let mut data = two_segment_image();
    data[1] = b'X';
    data[4] = 1;
    assert_eq!(parse_elf_and_load(&data), Err(ElfError::BadMagic));
}

#[test]
fn program_header_beyond_the_buffer_is_truncated() {
    let headers = [Header { p_type: 1, offset: 0, vaddr: 0x1000, filesz: 0, memsz: 0 }];
    let data = image(0x1000, 56, &headers, 64 + 56);
    assert!(parse_elf_and_load(&data).is_ok());
    assert_eq!(parse_elf_and_load(&data[..64 + 55]), Err(ElfError::TruncatedProgramHeader));

    let mut far = data.clone();
    far[32..40].copy_from_slice(&u64::MAX.to_le_bytes());
    assert_eq!(parse_elf_and_load(&far), Err(ElfError::TruncatedProgramHeader));
}

#[test]
fn truncated_header_is_reported_even_if_not_loadable() {
    let headers = [Header { p_type: 6, offset: 0, vaddr: 0, filesz: 0, memsz: 0 }];
    let data = image(0x1000, 56, &headers, 64 + 56);
    assert_eq!(parse_elf_and_load(&data[..100]), Err(ElfError::TruncatedProgramHeader));
}

#[test]
fn segment_beyond_the_image_is_out_of_range() {
    let headers = [Header { p_type: 1, offset: 0x70, vaddr: 0x1000, filesz: 0x11, memsz: 0x20 }];
    let data = image(0x1000, 56, &headers, 0x80);
    assert_eq!(parse_elf_and_load(&data), Err(ElfError::SegmentDataOutOfRange));

    let headers = [Header { p_type: 1, offset: u64::MAX, vaddr: 0x1000, filesz: 2, memsz: 2 }];
    let data = image(0x1000, 56, &headers, 0x80);
    assert_eq!(parse_elf_and_load(&data), Err(ElfError::SegmentDataOutOfRange));
}

#[test]
fn segment_with_more_file_bytes_than_memory_is_refused() {
    let headers = [Header { p_type: 1, offset: 0x78, vaddr: 0x1000, filesz: 8, memsz: 7 }];
    let data = image(0x1000, 56, &headers, 0x80);
    assert_eq!(parse_elf_and_load(&data), Err(ElfError::SegmentLargerThanMemory));
}

#[test]
fn first_defective_header_decides() {
    let headers = [
        Header { p_type: 1, offset: 0x100, vaddr: 0x1000, filesz: 8, memsz: 7 },
        Header { p_type: 1, offset: 0x1000, vaddr: 0x2000, filesz: 8, memsz: 8 },
    ];
    let data = image(0x1000, 56, &headers, 0x110);
    assert_eq!(parse_elf_and_load(&data), Err(ElfError::SegmentLargerThanMemory));
}

#[test]
fn pages_round_up() {
    let seg = |memsz: u64| Segment { file_offset: 0, vaddr: 0, filesz: 0, memsz };
    assert_eq!(seg(0).pages(), 0);
    assert_eq!(seg(1).pages(), 1);
    assert_eq!(seg(0x1000).pages(), 1);
    assert_eq!(seg(0x1001).pages(), 2);
    assert_eq!(seg(0x1800).pages(), 2);
    assert_eq!(seg(u64::MAX).pages(), 0x10_0000_0000_0000);
}

#[test]
fn segment_is_copied_then_zero_filled() {
    let data = two_segment_image();
    let plan = parse_elf_and_load(&data).unwrap();
    let seg = plan.segments[1];
    let mut region = vec![0xaau8; 0x2000];
    load_segment(&data, &seg, &mut region);
    assert_eq!(&region[..0x10], &data[0x130..0x140]);
    assert!(region[0x10..0x1800].iter().all(|b| *b == 0));
    assert!(region[0x1800..].iter().all(|b| *b == 0xaa));
}

#[test]
fn segment_without_tail_is_copied_whole() {
    let data = two_segment_image();
    let plan = parse_elf_and_load(&data).unwrap();
    let seg = plan.segments[0];
    let mut region = vec![0x55u8; 0x1000];
    load_segment(&data, &seg, &mut region);
    assert_eq!(&region[..0x20], &data[0x100..0x120]);
    assert!(region[0x20..].iter().all(|b| *b == 0x55));
}

#[test]
fn segment_without_file_bytes_is_all_zero() {
    let data = two_segment_image();
    let seg = Segment { file_offset: 0x140, vaddr: 0x5000, filesz: 0, memsz: 3 };
    let mut region = vec![0x11u8; 4];
    load_segment(&data, &seg, &mut region);
    assert_eq!(region, vec![0, 0, 0, 0x11]);
}

#[test]
fn linked_address_is_asked_for_first() {
    let seg = Segment { file_offset: 0, vaddr: 0x20_0000, filesz: 0x10, memsz: 0x1800 };
    assert_eq!(
        first_request(&seg),
        AllocationRequest::AtAddress { address: 0x20_0000, pages: 2 }
    );
}

#[test]
fn granted_linked_address_places_the_segment() {
    let seg = Segment { file_offset: 0, vaddr: 0x20_0000, filesz: 0x10, memsz: 0x1800 };
    let asked = first_request(&seg);
    assert_eq!(
        after_allocation(&seg, asked, Some(0x20_0000)),
        PlacementStep::Placed { address: 0x20_0000, at_linked_address: true }
    );
}

#[test]
fn refused_linked_address_falls_back_and_is_recorded() {
    let seg = Segment { file_offset: 0, vaddr: 0x20_0000, filesz: 0x10, memsz: 0x1800 };
    let asked = first_request(&seg);
    let step = after_allocation(&seg, asked, None);
    assert_eq!(step, PlacementStep::Ask(AllocationRequest::Anywhere { pages: 2 }));
    let anywhere = AllocationRequest::Anywhere { pages: 2 };
    assert_eq!(
        after_allocation(&seg, anywhere, Some(0x7000_0000)),
        PlacementStep::Placed { address: 0x7000_0000, at_linked_address: false }
    );
    assert_eq!(
        after_allocation(&seg, anywhere, None),
        PlacementStep::Failed(ElfError::AllocationFailed)
    );
}

#[test]
fn entry_point_is_handed_out_only_for_linked_addresses() {
    let data = two_segment_image();
    let plan = parse_elf_and_load(&data).unwrap();
    assert_eq!(finish_load(&plan, &[0x10_0000, 0x20_0000]), Ok(0x10_0040));
    assert_eq!(
        finish_load(&plan, &[0x10_0000, 0x7000_0000]),
        Err(ElfError::SegmentNotAtLinkedAddress)
    );
    assert_eq!(finish_load(&plan, &[0x10_0000]), Err(ElfError::SegmentNotAtLinkedAddress));
    assert_eq!(
        finish_load(&plan, &[0x10_0000, 0x20_0000, 0x30_0000]),
        Err(ElfError::SegmentNotAtLinkedAddress)
    );
    let empty = LoadPlan { entry_point: 7, segments: Vec::new() };
    assert_eq!(finish_load(&empty, &[]), Ok(7));
}
