use rustos_boot::paging::{
    build_leaf, setup_identity_mapping, PageTable, PagingError, PAGE_HUGE, PAGE_PRESENT,
    PAGE_WRITABLE,
};

#[test]
fn new_table_is_empty() {
    let t = PageTable::new();
    assert_eq!(t.entries.len(), 512);
    assert!(t.entries.iter().all(|e| *e == 0));
}

#[test]
fn set_entry_combines_address_and_flags() {
    let mut t = PageTable::new();
    t.set_entry(5, 0x1234_5000, PAGE_PRESENT | PAGE_WRITABLE);
    t.set_entry(511, 0x4000_0000, PAGE_PRESENT | PAGE_WRITABLE | PAGE_HUGE);
    assert_eq!(t.entries[5], 0x1234_5003);
    assert_eq!(t.entries[511], 0x4000_0083);
    for (i, e) in t.entries.iter().enumerate() {
        if i != 5 && i != 511 {
            assert_eq!(*e, 0);
        }
    }
}

#[test]
fn leaf_entries_map_their_own_address() {
    let t = build_leaf(0);
    assert_eq!(t.entries[0], 0x83);
    assert_eq!(t.entries[1], 0x20_0083);
    assert_eq!(t.entries[511], 0x3fe0_0083);
    let t = build_leaf(3);
    assert_eq!(t.entries[0], 0xc000_0083);
    assert_eq!(t.entries[2], 0xc040_0083);
    assert_eq!(t.entries[511], 0xffe0_0083);
    let t = build_leaf(511);
    assert_eq!(t.entries[511], 0x7f_ffe0_0083);
}

#[test]
fn one_gigabyte_mapping_has_the_documented_shape() {
    let m = setup_identity_mapping(0x1000, 0x2000, &[0x3000]).unwrap();
    assert_eq!(m.root, 0x1000);
    assert_eq!(m.top.entries[0], 0x2003);
    assert_eq!(m.top.entries.iter().filter(|e| **e != 0).count(), 1);
    assert_eq!(m.second.entries[0], 0x3003);
    assert_eq!(m.second.entries.iter().filter(|e| **e != 0).count(), 1);
    assert_eq!(m.leaves.len(), 1);
    for i in 0..512u64 {
        let e = m.leaves[0].entries[i as usize];
        assert_eq!(e & 0x83, 0x83);
        assert_eq!(e & 0x000f_ffff_ffe0_0000, i * 0x20_0000);
        assert_eq!(e, i * 0x20_0000 + 0x83);
    }
}

#[test]
fn four_gigabyte_mapping_offsets_each_leaf_table() {
    let leaves = [0x10_3000u64, 0x10_4000, 0x10_5000, 0x10_6000];
    let m = setup_identity_mapping(0x10_1000, 0x10_2000, &leaves).unwrap();
    assert_eq!(m.root, 0x10_1000);
    assert_eq!(m.top.entries[0], 0x10_2003);
    assert!(m.top.entries[1..].iter().all(|e| *e == 0));
    for g in 0..4 {
        assert_eq!(m.second.entries[g], leaves[g] | 3);
    }
    assert!(m.second.entries[4..].iter().all(|e| *e == 0));
    assert_eq!(m.leaves.len(), 4);
    for g in 0..4u64 {
        for i in 0..512u64 {
            let e = m.leaves[g as usize].entries[i as usize];
            assert_eq!(e, (g * 0x4000_0000 + i * 0x20_0000) | 0x83);
        }
    }
}

#[test]
fn empty_span_is_refused() {
    assert_eq!(setup_identity_mapping(0x1000, 0x2000, &[]), Err(PagingError::EmptySpan));
}

#[test]
fn span_beyond_one_second_level_table_is_refused() {
    let leaves = vec![0x5000u64; 513];
    assert_eq!(setup_identity_mapping(0x1000, 0x2000, &leaves), Err(PagingError::SpanTooLarge));
    let leaves = vec![0x5000u64; 512];
    let m = setup_identity_mapping(0x1000, 0x2000, &leaves).unwrap();
    assert_eq!(m.leaves.len(), 512);
    assert!(m.second.entries.iter().all(|e| *e == 0x5003));
}

#[test]
fn table_is_stored_as_little_endian_words() {
    let mut t = PageTable::new();
    t.set_entry(0, 0x0102_0304_0506_0000, 0x83);
    t.set_entry(511, 0xffff_ffff_ffff_f000, 0);
    let bytes = t.to_bytes();
    assert_eq!(bytes.len(), 4096);
    assert_eq!(&bytes[..8], &[0x83, 0x00, 0x06, 0x05, 0x04, 0x03, 0x02, 0x01]);
    assert!(bytes[8..4088].iter().all(|b| *b == 0));
    assert_eq!(&bytes[4088..], &[0x00, 0xf0, 0xff, 0xff, 0xff, 0xff, 0xff, 0xff]);
}

#[test]
fn stored_leaf_table_reads_back_entry_by_entry() {
    let t = build_leaf(2);
    let bytes = t.to_bytes();
    for i in 0..512 {
        let mut word = [0u8; 8];
        word.copy_from_slice(&bytes[8 * i..8 * i + 8]);
        assert_eq!(u64::from_le_bytes(word), t.entries[i]);
    }
}
