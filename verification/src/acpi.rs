//! Finding the ACPI root pointer in the firmware's configuration table.
//!
//! The table is a list of identifiers, each with an address. The root
//! pointer may be listed under the ACPI 2.0 identifier, under the older
//! ACPI 1.0 identifier, under both or under neither. Where both are listed
//! the 2.0 entry is taken, wherever in the list it stands. The structure the
//! address points to is not looked at.

use vstd::prelude::*;

verus! {

/// One entry of the configuration table: a 16-byte identifier, and the
/// address of the table it identifies.
#[derive(Clone, Copy, Debug, PartialEq, Eq)]
pub struct ConfigTableEntry {
    pub guid: [u8; 16],
    pub address: u64,
}

/// The bytes of the identifier `8868e871-e4f1-11d3-bc22-0080c73c8881`, under
/// which an ACPI 2.0 root pointer is listed.
pub open spec fn acpi2_guid_bytes() -> Seq<u8> {
    seq![
        0x71u8, 0xe8u8, 0x68u8, 0x88u8, 0xf1u8, 0xe4u8, 0xd3u8, 0x11u8,
        0xbcu8, 0x22u8, 0x00u8, 0x80u8, 0xc7u8, 0x3cu8, 0x88u8, 0x81u8,
    ]
}

/// The bytes of the identifier `eb9d2d30-2d88-11d3-9a16-0090273fc14d`, under
/// which an ACPI 1.0 root pointer is listed.
pub open spec fn acpi1_guid_bytes() -> Seq<u8> {
    seq![
        0x30u8, 0x2du8, 0x9du8, 0xebu8, 0x88u8, 0x2du8, 0xd3u8, 0x11u8,
        0x9au8, 0x16u8, 0x00u8, 0x90u8, 0x27u8, 0x3fu8, 0xc1u8, 0x4du8,
    ]
}

/// The address of the first entry, from `from` on, that carries `guid`.
pub open spec fn first_with(entries: Seq<ConfigTableEntry>, guid: Seq<u8>, from: int) -> Option<
    u64,
>
    decreases entries.len() - from,
{
    if from < 0 || from >= entries.len() {
        None
    } else if entries[from].guid@ == guid {
        Some(entries[from].address)
    } else {
        first_with(entries, guid, from + 1)
    }
}

/// The root pointer that a configuration table gives: that of its first
/// ACPI 2.0 entry; without one, that of its first ACPI 1.0 entry; without
/// either, none.
pub open spec fn rsdp_of(entries: Seq<ConfigTableEntry>) -> Option<u64> {
    if first_with(entries, acpi2_guid_bytes(), 0) is Some {
        first_with(entries, acpi2_guid_bytes(), 0)
    } else {
        first_with(entries, acpi1_guid_bytes(), 0)
    }
}

/// The ACPI 2.0 identifier: the constant `uefi::table::cfg::ACPI2_GUID`,
/// turned into bytes by `Guid::to_bytes`. Trusted: that the constant spells
/// `8868e871-e4f1-11d3-bc22-0080c73c8881`, and that `to_bytes` gives the
/// first three groups least significant byte first and the rest in order.
#[verifier::external_body]
fn acpi2_guid() -> (bytes: [u8; 16])
    ensures
        bytes@ == acpi2_guid_bytes(),
{
    uefi::table::cfg::ACPI2_GUID.to_bytes()
}

/// The ACPI 1.0 identifier: the constant `uefi::table::cfg::ACPI_GUID`,
/// turned into bytes by `Guid::to_bytes`. Trusted: that the constant spells
/// `eb9d2d30-2d88-11d3-9a16-0090273fc14d`, and that `to_bytes` gives the
/// first three groups least significant byte first and the rest in order.
#[verifier::external_body]
fn acpi1_guid() -> (bytes: [u8; 16])
    ensures
        bytes@ == acpi1_guid_bytes(),
{
    uefi::table::cfg::ACPI_GUID.to_bytes()
}

/// Whether two identifiers are the same.
fn same_guid(a: &[u8; 16], b: &[u8; 16]) -> (same: bool)
    ensures
        same == (a@ == b@),
{
    let mut i: usize = 0;
    while i < 16
        invariant
            i <= 16,
            forall|k: int| 0 <= k < i ==> a@[k] == b@[k],
        decreases 16 - i,
    {
        if a[i] != b[i] {
            return false;
        }
        i += 1;
    }
    assert(a@ =~= b@);
    true
}

/// The address of the first entry that carries `guid`.
fn find_entry(entries: &[ConfigTableEntry], guid: &[u8; 16]) -> (address: Option<u64>)
    ensures
        address == first_with(entries@, guid@, 0),
{
    let n: usize = entries.len();
    let mut i: usize = 0;
    while i < n
        invariant
            n == entries@.len(),
            i <= n,
            first_with(entries@, guid@, 0) == first_with(entries@, guid@, i as int),
        decreases n - i,
    {
        if same_guid(&entries[i].guid, guid) {
            return Some(entries[i].address);
        }
        i += 1;
    }
    None
}

/// Looks the ACPI root pointer up in the configuration table.
pub fn find_rsdp(entries: &[ConfigTableEntry]) -> (rsdp: Option<u64>)
    ensures
        rsdp == rsdp_of(entries@),
{
    let acpi2 = acpi2_guid();
    match find_entry(entries, &acpi2) {
        Some(address) => Some(address),
        None => {
            let acpi1 = acpi1_guid();
            find_entry(entries, &acpi1)
        },
    }
}

/// A search finds the first entry with the identifier it looks for, and
/// finds nothing exactly where no entry carries it.
pub proof fn lemma_first_with(entries: Seq<ConfigTableEntry>, guid: Seq<u8>, from: int)
    requires
        0 <= from <= entries.len(),
    ensures
        first_with(entries, guid, from) is None <==> forall|k: int|
            from <= k < entries.len() ==> (#[trigger] entries[k]).guid@ != guid,
        first_with(entries, guid, from) is Some ==> exists|k: int|
            {
                &&& from <= k < entries.len()
                &&& (#[trigger] entries[k]).guid@ == guid
                &&& first_with(entries, guid, from) == Some(entries[k].address)
                &&& forall|j: int| from <= j < k ==> (#[trigger] entries[j]).guid@ != guid
            },
    decreases entries.len() - from,
{
    if from < entries.len() {
        if entries[from].guid@ == guid {
            assert(from <= from < entries.len() && entries[from].guid@ == guid);
        } else {
            lemma_first_with(entries, guid, from + 1);
            if first_with(entries, guid, from + 1) is Some {
                let k = choose|k: int|
                    {
                        &&& from + 1 <= k < entries.len()
                        &&& (#[trigger] entries[k]).guid@ == guid
                        &&& first_with(entries, guid, from + 1) == Some(entries[k].address)
                        &&& forall|j: int|
                            from + 1 <= j < k ==> (#[trigger] entries[j]).guid@ != guid
                    };
                assert(from <= k < entries.len() && entries[k].guid@ == guid);
            }
        }
    }
}

/// Where the table lists an ACPI 2.0 entry, the root pointer is the address
/// of the first such entry, whatever ACPI 1.0 entries stand before or after
/// it.
pub proof fn lemma_acpi2_preferred(entries: Seq<ConfigTableEntry>, i: int)
    requires
        0 <= i < entries.len(),
        entries[i].guid@ == acpi2_guid_bytes(),
        forall|j: int| 0 <= j < i ==> (#[trigger] entries[j]).guid@ != acpi2_guid_bytes(),
    ensures
        rsdp_of(entries) == Some(entries[i].address),
{
    lemma_first_with(entries, acpi2_guid_bytes(), 0);
}

/// Where the table lists no ACPI 2.0 entry, the root pointer is the address
/// of the first ACPI 1.0 entry.
pub proof fn lemma_acpi1_fallback(entries: Seq<ConfigTableEntry>, i: int)
    requires
        0 <= i < entries.len(),
        entries[i].guid@ == acpi1_guid_bytes(),
        forall|j: int| 0 <= j < i ==> (#[trigger] entries[j]).guid@ != acpi1_guid_bytes(),
        forall|j: int| 0 <= j < entries.len() ==> (#[trigger] entries[j]).guid@ != acpi2_guid_bytes(),
    ensures
        rsdp_of(entries) == Some(entries[i].address),
{
    lemma_first_with(entries, acpi2_guid_bytes(), 0);
    lemma_first_with(entries, acpi1_guid_bytes(), 0);
}

/// Where the table lists neither identifier, there is no root pointer.
pub proof fn lemma_no_acpi_entry(entries: Seq<ConfigTableEntry>)
    requires
        forall|j: int|
            0 <= j < entries.len() ==> (#[trigger] entries[j]).guid@ != acpi2_guid_bytes()
                && entries[j].guid@ != acpi1_guid_bytes(),
    ensures
        rsdp_of(entries) is None,
{
    lemma_first_with(entries, acpi2_guid_bytes(), 0);
    lemma_first_with(entries, acpi1_guid_bytes(), 0);
}

} // verus!
