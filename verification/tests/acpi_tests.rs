use rustos_boot::acpi::{find_rsdp, ConfigTableEntry};
use uefi::table::cfg::{ACPI2_GUID, ACPI_GUID, SMBIOS3_GUID, SMBIOS_GUID};

fn entry(guid: uefi::Guid, address: u64) -> ConfigTableEntry {
    ConfigTableEntry { guid: guid.to_bytes(), address }
}

#[test]
fn acpi2_is_taken_when_both_are_listed() {
    let table = [
        entry(SMBIOS_GUID, 0x1000),
        entry(ACPI_GUID, 0x2000),
        entry(ACPI2_GUID, 0x3000),
        entry(SMBIOS3_GUID, 0x4000),
    ];
    assert_eq!(find_rsdp(&table), Some(0x3000));
    let table = [entry(ACPI2_GUID, 0x3000), entry(ACPI_GUID, 0x2000)];
    assert_eq!(find_rsdp(&table), Some(0x3000));
}

#[test]
fn acpi1_is_the_fallback() {
    let table = [entry(SMBIOS_GUID, 0x1000), entry(ACPI_GUID, 0x2000)];
    assert_eq!(find_rsdp(&table), Some(0x2000));
}

#[test]
fn none_without_either_identifier() {
    let table = [entry(SMBIOS_GUID, 0x1000), entry(SMBIOS3_GUID, 0x4000)];
    assert_eq!(find_rsdp(&table), None);
    assert_eq!(find_rsdp(&[]), None);
}

#[test]
fn first_of_several_matches_is_taken() {
    let table = [entry(ACPI2_GUID, 0x3000), entry(ACPI2_GUID, 0x5000)];
    assert_eq!(find_rsdp(&table), Some(0x3000));
    let table = [entry(ACPI_GUID, 0x2000), entry(ACPI_GUID, 0x6000)];
    assert_eq!(find_rsdp(&table), Some(0x2000));
}

#[test]
fn identifiers_are_matched_byte_for_byte() {
    let acpi2 = [
        0x71, 0xe8, 0x68, 0x88, 0xf1, 0xe4, 0xd3, 0x11, 0xbc, 0x22, 0x00, 0x80, 0xc7, 0x3c, 0x88,
        0x81,
    ];
    let acpi1 = [
        0x30, 0x2d, 0x9d, 0xeb, 0x88, 0x2d, 0xd3, 0x11, 0x9a, 0x16, 0x00, 0x90, 0x27, 0x3f, 0xc1,
        0x4d,
    ];
    assert_eq!(acpi2, ACPI2_GUID.to_bytes());
    assert_eq!(acpi1, ACPI_GUID.to_bytes());
    assert_eq!(find_rsdp(&[ConfigTableEntry { guid: acpi2, address: 0xe_0000 }]), Some(0xe_0000));
    assert_eq!(find_rsdp(&[ConfigTableEntry { guid: acpi1, address: 0xf_0000 }]), Some(0xf_0000));
    for at in 0..16 {
        let mut near = acpi2;
        near[at] ^= 0x80;
        assert_eq!(find_rsdp(&[ConfigTableEntry { guid: near, address: 0xe_0000 }]), None);
        let mut near = acpi1;
        near[at] ^= 0x01;
        assert_eq!(find_rsdp(&[ConfigTableEntry { guid: near, address: 0xf_0000 }]), None);
    }
}

#[test]
fn null_address_is_still_an_address() {
    assert_eq!(find_rsdp(&[entry(ACPI2_GUID, 0)]), Some(0));
}
