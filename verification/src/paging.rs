//! Identity mapping of low physical memory with 2 MiB pages.
//!
//! The mapping is a three-level tree: one top-level table whose entry 0 points
//! to one second-level table, whose entry `g` points to the leaf table of
//! gigabyte `g`. Entry `i` of that leaf table maps the 2 MiB that start at
//! `g` GiB + `i` * 2 MiB onto themselves. The tables are built here as values;
//! the caller stores them at the addresses it allocated and loads the root.

use vstd::prelude::*;
use crate::wire::{le_u64, lemma_u64_round_trip, u64_bytes, write_u64};

verus! {

/// Number of entries in a table of any level.
pub const ENTRY_COUNT: usize = 512;

/// Entry flag: the entry is in use.
pub const PAGE_PRESENT: u64 = 0x1;

/// Entry flag: the mapped memory may be written.
pub const PAGE_WRITABLE: u64 = 0x2;

/// Entry flag: the entry maps a large page itself and points to no table.
pub const PAGE_HUGE: u64 = 0x80;

/// Bytes mapped by one leaf entry.
pub const HUGE_PAGE_SIZE: u64 = 0x20_0000;

/// Bytes mapped by one leaf table.
pub const GIGABYTE: u64 = 0x4000_0000;

/// Largest number of gigabytes one second-level table can cover.
pub const MAX_GIGABYTES: usize = 512;

/// Size of a table in memory, in bytes.
pub const TABLE_SIZE: usize = 4096;

/// Bits of an entry that hold the physical address of a 2 MiB page.
pub const HUGE_ADDRESS_MASK: u64 = 0x000F_FFFF_FFE0_0000;

/// One table of the tree: 512 entries of 64 bits.
#[derive(Clone, Debug, PartialEq, Eq)]
pub struct PageTable {
    pub entries: [u64; 512],
}

/// Why no mapping was built.
#[derive(Clone, Copy, Debug, PartialEq, Eq, Structural)]
pub enum PagingError {
    /// No leaf table was given: the mapping would cover nothing.
    EmptySpan,
    /// More leaf tables were given than one second-level table can point to.
    SpanTooLarge,
}

/// The tables of an identity mapping.
#[derive(Clone, Debug, PartialEq, Eq)]
pub struct IdentityMapping {
    /// Physical address of the top-level table: the value for the paging-root
    /// register.
    pub root: u64,
    /// The top-level table.
    pub top: PageTable,
    /// The second-level table.
    pub second: PageTable,
    /// The leaf tables, one per covered gigabyte, lowest first.
    pub leaves: Vec<PageTable>,
}

/// Physical address at which leaf entry `i` of gigabyte `g` starts.
pub open spec fn leaf_base(g: int, i: int) -> int {
    g * GIGABYTE + i * HUGE_PAGE_SIZE
}

/// Leaf entry `i` of gigabyte `g`: its base address, present, writable, huge.
pub open spec fn leaf_entry(g: int, i: int) -> u64 {
    (leaf_base(g, i) as u64) | (PAGE_PRESENT | PAGE_WRITABLE | PAGE_HUGE)
}

/// An entry that points to the table at `table`: present and writable.
pub open spec fn link_entry(table: u64) -> u64 {
    table | (PAGE_PRESENT | PAGE_WRITABLE)
}

/// Whether the entry refers to anything.
pub open spec fn populated(entry: u64) -> bool {
    entry != 0
}

/// A table as it lies in memory: its entries one after the other, eight
/// bytes each, least significant byte first.
pub open spec fn table_image(entries: Seq<u64>) -> Seq<u8> {
    Seq::new(8 * entries.len(), |k: int| u64_bytes(entries[k / 8])[k % 8])
}

/// The top-level table of a mapping whose second-level table is at `second`.
pub open spec fn top_table(second: u64) -> Seq<u64> {
    Seq::new(512, |i: int| if i == 0 { link_entry(second) } else { 0u64 })
}

/// The second-level table of a mapping whose leaf tables are at `leaves`.
pub open spec fn second_table(leaves: Seq<u64>) -> Seq<u64> {
    Seq::new(512, |g: int| if g < leaves.len() { link_entry(leaves[g]) } else { 0u64 })
}

/// The leaf table of gigabyte `g`.
pub open spec fn leaf_table(g: int) -> Seq<u64> {
    Seq::new(512, |i: int| leaf_entry(g, i))
}

/// The identity mapping of the first `leaves.len()` gigabytes whose tables
/// are stored at the given addresses.
pub open spec fn is_identity_mapping(m: IdentityMapping, top: u64, second: u64, leaves: Seq<u64>)
    -> bool {
    &&& m.root == top
    &&& m.top.entries@ == top_table(second)
    &&& m.second.entries@ == second_table(leaves)
    &&& m.leaves@.len() == leaves.len()
    &&& forall|g: int| 0 <= g < leaves.len() ==> (#[trigger] m.leaves@[g]).entries@ == leaf_table(g)
}

impl PageTable {
    /// A table of which no entry is in use.
    pub fn new() -> (t: Self)
        ensures
            t.entries@ == Seq::new(512, |i: int| 0u64),
    {
        let t = Self { entries: [0u64; 512] };
        assert(t.entries@ =~= Seq::new(512, |i: int| 0u64));
        t
    }

    /// Stores `addr` combined with `flags` at `index`.
    pub fn set_entry(&mut self, index: usize, addr: u64, flags: u64)
        requires
            index < 512,
        ensures
            final(self).entries@ == old(self).entries@.update(index as int, addr | flags),
    {
        self.entries[index] = addr | flags;
    }
}

impl PageTable {
    /// The table as the 4096 bytes that are stored in its page.
    pub fn to_bytes(&self) -> (bytes: Vec<u8>)
        ensures
            bytes@ == table_image(self.entries@),
            bytes@.len() == TABLE_SIZE,
    {
        let mut out: Vec<u8> = Vec::new();
        let mut i: usize = 0;
        while i < 512
            invariant
                i <= 512,
                self.entries@.len() == 512,
                out@ == table_image(self.entries@.subrange(0, i as int)),
            decreases 512 - i,
        {
            let ghost before = out@;
            write_u64(&mut out, self.entries[i]);
            assert(out@ =~= table_image(self.entries@.subrange(0, i + 1))) by {
                let next = table_image(self.entries@.subrange(0, i + 1));
                assert(out@.len() == next.len());
                assert forall|k: int| 0 <= k < next.len() implies out@[k] == next[k] by {
                    if k < 8 * i {
                        assert(out@[k] == before[k]);
                    } else {
                        assert(k / 8 == i && k % 8 == k - 8 * i);
                        assert(out@[k] == u64_bytes(self.entries@[i as int])[k - 8 * i]);
                    }
                }
            }
            i += 1;
        }
        assert(self.entries@.subrange(0, 512) =~= self.entries@);
        out
    }
}

/// Builds the leaf table of gigabyte `g`.
pub fn build_leaf(g: usize) -> (t: PageTable)
    requires
        g < MAX_GIGABYTES,
    ensures
        t.entries@ == leaf_table(g as int),
{
    let mut t = PageTable::new();
    let mut i: usize = 0;
    while i < 512
        invariant
            g < MAX_GIGABYTES,
            i <= 512,
            t.entries@.len() == 512,
            forall|k: int| 0 <= k < i ==> t.entries@[k] == leaf_entry(g as int, k),
        decreases 512 - i,
    {
        let addr: u64 = (g as u64) * GIGABYTE + (i as u64) * HUGE_PAGE_SIZE;
        t.set_entry(i, addr, PAGE_PRESENT | PAGE_WRITABLE | PAGE_HUGE);
        i += 1;
    }
    assert(t.entries@ =~= leaf_table(g as int));
    t
}

/// Builds the identity mapping of the first `leaf_addrs.len()` gigabytes.
///
/// `top_addr`, `second_addr` and `leaf_addrs` are the physical addresses at
/// which the caller will store the tables. A span of 1 to 512 gigabytes is
/// accepted; the result then holds every table in full.
pub fn setup_identity_mapping(top_addr: u64, second_addr: u64, leaf_addrs: &[u64]) -> (r: Result<
    IdentityMapping,
    PagingError,
>)
    ensures
        leaf_addrs@.len() == 0 ==> r == Err::<IdentityMapping, PagingError>(
            PagingError::EmptySpan,
        ),
        leaf_addrs@.len() > MAX_GIGABYTES ==> r == Err::<IdentityMapping, PagingError>(
            PagingError::SpanTooLarge,
        ),
        1 <= leaf_addrs@.len() <= MAX_GIGABYTES ==> r is Ok && is_identity_mapping(
            r->Ok_0,
            top_addr,
            second_addr,
            leaf_addrs@,
        ),
{
    let n: usize = leaf_addrs.len();
    if n == 0 {
        return Err(PagingError::EmptySpan);
    }
    if n > MAX_GIGABYTES {
        return Err(PagingError::SpanTooLarge);
    }
    let mut top = PageTable::new();
    top.set_entry(0, second_addr, PAGE_PRESENT | PAGE_WRITABLE);
    assert(top.entries@ =~= top_table(second_addr));
    let mut second = PageTable::new();
    let mut leaves: Vec<PageTable> = Vec::new();
    let mut g: usize = 0;
    while g < n
        invariant
            n == leaf_addrs@.len(),
            n <= MAX_GIGABYTES,
            g <= n,
            second.entries@.len() == 512,
            forall|k: int| 0 <= k < g ==> second.entries@[k] == link_entry(leaf_addrs@[k]),
            forall|k: int| g <= k < 512 ==> second.entries@[k] == 0,
            leaves@.len() == g,
            forall|k: int| 0 <= k < g ==> (#[trigger] leaves@[k]).entries@ == leaf_table(k),
        decreases n - g,
    {
        second.set_entry(g, leaf_addrs[g], PAGE_PRESENT | PAGE_WRITABLE);
        leaves.push(build_leaf(g));
        g += 1;
    }
    assert(second.entries@ =~= second_table(leaf_addrs@));
    Ok(IdentityMapping { root: top_addr, top, second, leaves })
}

/// In memory, entry `i` of a table is the 64-bit field at offset 8 `i`.
pub proof fn lemma_table_image_holds_entries(entries: Seq<u64>, i: int)
    requires
        0 <= i < entries.len(),
    ensures
        table_image(entries).len() == 8 * entries.len(),
        le_u64(table_image(entries), 8 * i) == entries[i],
{
    let image = table_image(entries);
    assert(image.subrange(8 * i, 8 * i + 8) =~= u64_bytes(entries[i])) by {
        assert forall|k: int| 0 <= k < 8 implies image.subrange(8 * i, 8 * i + 8)[k] == u64_bytes(
            entries[i],
        )[k] by {
            assert((8 * i + k) / 8 == i && (8 * i + k) % 8 == k);
        }
    }
    lemma_u64_round_trip(image, 8 * i, entries[i]);
}

/// An entry that points to a table is in use, whatever the table's address.
pub proof fn lemma_link_entry_populated(table: u64)
    ensures
        populated(link_entry(table)),
        link_entry(table) & PAGE_PRESENT == PAGE_PRESENT,
        link_entry(table) & PAGE_WRITABLE == PAGE_WRITABLE,
{
    assert((table | 3) != 0 && (table | 3) & 1 == 1 && (table | 3) & 2 == 2) by (bit_vector);
    assert(PAGE_PRESENT | PAGE_WRITABLE == 3) by (bit_vector);
}

/// An entry that points to a page-aligned table below 2^52 holds exactly that
/// address in its address bits.
pub proof fn lemma_link_entry_address(table: u64)
    requires
        table % 0x1000 == 0,
        table < 0x10_0000_0000_0000,
    ensures
        link_entry(table) & 0x000F_FFFF_FFFF_F000 == table,
{
    assert(PAGE_PRESENT | PAGE_WRITABLE == 3) by (bit_vector);
    assert((table | 3) & 0x000F_FFFF_FFFF_F000 == table) by (bit_vector)
        requires
            table % 0x1000 == 0,
            table < 0x10_0000_0000_0000,
    ;
}

/// Every leaf entry of a covered gigabyte is present, writable and huge, and
/// its address bits hold the start of the 2 MiB it stands for: entry `i` of
/// gigabyte `g` maps offset `i` * 2 MiB within that gigabyte.
pub proof fn lemma_leaf_entry_maps_identity(g: int, i: int)
    requires
        0 <= g < MAX_GIGABYTES,
        0 <= i < ENTRY_COUNT,
    ensures
        leaf_entry(g, i) & PAGE_PRESENT == PAGE_PRESENT,
        leaf_entry(g, i) & PAGE_WRITABLE == PAGE_WRITABLE,
        leaf_entry(g, i) & PAGE_HUGE == PAGE_HUGE,
        leaf_entry(g, i) & HUGE_ADDRESS_MASK == leaf_base(g, i),
        leaf_base(g, i) - g * GIGABYTE == i * HUGE_PAGE_SIZE,
        leaf_base(g, i) + HUGE_PAGE_SIZE <= (g + 1) * GIGABYTE,
{
    let gu = g as u64;
    let iu = i as u64;
    let base = (gu * 0x4000_0000 + iu * 0x20_0000) as u64;
    assert(base == leaf_base(g, i));
    assert(PAGE_PRESENT | PAGE_WRITABLE | PAGE_HUGE == 0x83) by (bit_vector);
    assert({
        &&& (base | 0x83) & 0x1 == 0x1
        &&& (base | 0x83) & 0x2 == 0x2
        &&& (base | 0x83) & 0x80 == 0x80
        &&& (base | 0x83) & 0x000F_FFFF_FFE0_0000 == base
    }) by (bit_vector)
        requires
            gu < 512,
            iu < 512,
            base == (gu * 0x4000_0000 + iu * 0x20_0000) as u64,
    ;
}

/// Shape of an identity mapping: the top-level table has exactly one entry in
/// use, the second-level table exactly one per covered gigabyte, and every
/// entry of every leaf table is in use.
pub proof fn lemma_mapping_shape(m: IdentityMapping, top: u64, second: u64, leaves: Seq<u64>)
    requires
        1 <= leaves.len() <= MAX_GIGABYTES,
        is_identity_mapping(m, top, second, leaves),
    ensures
        forall|i: int| 0 <= i < 512 ==> (populated(#[trigger] m.top.entries@[i]) <==> i == 0),
        forall|g: int|
            0 <= g < 512 ==> (populated(#[trigger] m.second.entries@[g]) <==> g < leaves.len()),
        forall|g: int, i: int|
            0 <= g < leaves.len() && 0 <= i < 512 ==> populated(
                #[trigger] m.leaves@[g].entries@[i],
            ),
{
    lemma_link_entry_populated(second);
    assert forall|g: int| 0 <= g < 512 implies (populated(#[trigger] m.second.entries@[g]) <==> g
        < leaves.len()) by {
        if g < leaves.len() {
            lemma_link_entry_populated(leaves[g]);
        }
    }
    assert forall|g: int, i: int| 0 <= g < leaves.len() && 0 <= i < 512 implies populated(
        #[trigger] m.leaves@[g].entries@[i],
    ) by {
        lemma_leaf_entry_maps_identity(g, i);
        assert(m.leaves@[g].entries@[i] == leaf_entry(g, i));
        let e = leaf_entry(g, i);
        assert(e & 1 == 1 ==> e != 0) by (bit_vector);
    }
}

} // verus!
