use rustos_boot::boot_info::{BootInfo, FramebufferInfo, MemoryMapInfo};
use rustos_boot::kernel::{kernel_main, KernelStart};

fn info(entry_count: u64, rsdp_addr: Option<u64>) -> BootInfo {
    BootInfo {
        memory_map: MemoryMapInfo { entries: 0x7000_0000, entry_count, entry_size: 48 },
        framebuffer: FramebufferInfo {
            addr: 0x8000_0000,
            width: 1024,
            height: 768,
            pitch: 4096,
            bpp: 32,
            red_mask: 0xff_0000,
            green_mask: 0xff00,
            blue_mask: 0xff,
        },
        rsdp_addr,
    }
}

#[test]
fn valid_block_lets_the_kernel_proceed() {
    let b = info(3, Some(0xe_0000));
    assert_eq!(
        kernel_main(&b),
        KernelStart::Proceed { framebuffer: b.framebuffer, entries_reported: 3, rsdp_present: true }
    );
}

#[test]
fn at_most_ten_descriptors_are_reported() {
    for (count, reported) in [(1u64, 1u64), (9, 9), (10, 10), (11, 10), (u64::MAX, 10)] {
        let b = info(count, None);
        assert_eq!(
            kernel_main(&b),
            KernelStart::Proceed {
                framebuffer: b.framebuffer,
                entries_reported: reported,
                rsdp_present: false,
            }
        );
    }
}

#[test]
fn invalid_block_is_refused() {
    assert_eq!(kernel_main(&info(0, Some(0xe_0000))), KernelStart::Refuse);
    let mut b = info(5, None);
    b.memory_map.entries = 0;
    assert_eq!(kernel_main(&b), KernelStart::Refuse);
    let mut b = info(5, None);
    b.framebuffer.width = 0;
    assert_eq!(kernel_main(&b), KernelStart::Refuse);
    let mut b = info(5, None);
    b.framebuffer.height = 0;
    assert_eq!(kernel_main(&b), KernelStart::Refuse);
    let mut b = info(5, None);
    b.framebuffer.bpp = 8;
    assert_eq!(kernel_main(&b), KernelStart::Refuse);
}
