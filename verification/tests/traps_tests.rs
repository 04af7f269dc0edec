use rustos_boot::traps::{
    dispatch, idt_descriptor, init_idt, trap_for_vector, Disposition, IdtEntry, Severity,
    StubTable, Trap,
};

fn stubs() -> StubTable {
    let mut exceptions = [0u64; 32];
    for (v, slot) in exceptions.iter_mut().enumerate() {
        *slot = 0xffff_8000_0010_0000 + 0x40 * v as u64;
    }
    StubTable { exceptions, generic: 0xffff_8000_0020_0000, syscall: 0xffff_8000_0030_0000 }
}

#[test]
fn new_gate_is_all_zero() {
    let e = IdtEntry::new();
    assert_eq!(
        e,
        IdtEntry {
            offset_low: 0,
            selector: 0,
            ist: 0,
            type_attr: 0,
            offset_mid: 0,
            offset_high: 0,
            reserved: 0,
        }
    );
}

#[test]
fn set_handler_splits_the_address() {
    let mut e = IdtEntry::new();
    e.set_handler(0x1122_3344_5566_7788, 0x08);
    assert_eq!(e.offset_low, 0x7788);
    assert_eq!(e.offset_mid, 0x5566);
    assert_eq!(e.offset_high, 0x1122_3344);
    assert_eq!(e.selector, 0x08);
    assert_eq!(e.type_attr, 0x8e);
    assert_eq!(e.ist, 0);
    assert_eq!(e.reserved, 0);
    assert_eq!(e.handler(), 0x1122_3344_5566_7788);
}

#[test]
fn set_handler_overwrites_every_field() {
    let mut e = IdtEntry {
        offset_low: 0xffff,
        selector: 0xffff,
        ist: 7,
        type_attr: 0xff,
        offset_mid: 0xffff,
        offset_high: 0xffff_ffff,
        reserved: 0xffff_ffff,
    };
    e.set_handler(0, 0x10);
    assert_eq!(
        e,
        IdtEntry {
            offset_low: 0,
            selector: 0x10,
            ist: 0,
            type_attr: 0x8e,
            offset_mid: 0,
            offset_high: 0,
            reserved: 0,
        }
    );
    e.set_handler(u64::MAX, 0x08);
    assert_eq!(e.handler(), u64::MAX);
}

#[test]
fn table_leaves_no_vector_unbound() {
    let s = stubs();
    let idt = init_idt(&s);
    assert_eq!(idt.entries.len(), 256);
    for (v, e) in idt.entries.iter().enumerate() {
        assert_eq!(e.type_attr, 0x8e, "vector {}", v);
        assert_eq!(e.selector, 0x08);
        assert_eq!(e.ist, 0);
        assert_eq!(e.reserved, 0);
        let expected = if v < 32 {
            s.exceptions[v]
        } else if v == 0x80 {
            s.syscall
        } else {
            s.generic
        };
        assert_eq!(e.handler(), expected, "vector {}", v);
    }
}

#[test]
fn syscall_vector_differs_from_the_catch_all() {
    let idt = init_idt(&stubs());
    for v in 32..256 {
        if v != 0x80 {
            assert_ne!(idt.entries[v], idt.entries[0x80]);
            assert_eq!(idt.entries[v], idt.entries[32]);
        }
    }
}

#[test]
fn exception_vectors_have_distinct_gates() {
    let idt = init_idt(&stubs());
    for a in 0..32 {
        for b in 0..32 {
            if a != b {
                assert_ne!(idt.entries[a], idt.entries[b]);
            }
        }
    }
}

#[test]
fn descriptor_covers_the_whole_table() {
    let d = idt_descriptor(0xffff_8000_0040_0000);
    assert_eq!(d.limit, 4095);
    assert_eq!(d.base, 0xffff_8000_0040_0000);
}

#[test]
fn vectors_are_classified() {
    assert_eq!(trap_for_vector(0), Trap::DivideError);
    assert_eq!(trap_for_vector(1), Trap::Debug);
    assert_eq!(trap_for_vector(2), Trap::NonMaskableInterrupt);
    assert_eq!(trap_for_vector(3), Trap::Breakpoint);
    assert_eq!(trap_for_vector(4), Trap::Overflow);
    assert_eq!(trap_for_vector(5), Trap::BoundRangeExceeded);
    assert_eq!(trap_for_vector(6), Trap::InvalidOpcode);
    assert_eq!(trap_for_vector(7), Trap::DeviceNotAvailable);
    assert_eq!(trap_for_vector(8), Trap::DoubleFault);
    assert_eq!(trap_for_vector(10), Trap::InvalidTss);
    assert_eq!(trap_for_vector(11), Trap::SegmentNotPresent);
    assert_eq!(trap_for_vector(12), Trap::StackSegmentFault);
    assert_eq!(trap_for_vector(13), Trap::GeneralProtectionFault);
    assert_eq!(trap_for_vector(14), Trap::PageFault);
    assert_eq!(trap_for_vector(16), Trap::X87FloatingPoint);
    assert_eq!(trap_for_vector(17), Trap::AlignmentCheck);
    assert_eq!(trap_for_vector(18), Trap::MachineCheck);
    assert_eq!(trap_for_vector(19), Trap::SimdFloatingPoint);
    assert_eq!(trap_for_vector(20), Trap::Virtualization);
    assert_eq!(trap_for_vector(21), Trap::ControlProtection);
    assert_eq!(trap_for_vector(28), Trap::HypervisorInjection);
    assert_eq!(trap_for_vector(29), Trap::VmmCommunication);
    assert_eq!(trap_for_vector(30), Trap::Security);
    for v in [9u8, 15, 22, 23, 24, 25, 26, 27, 31] {
        assert_eq!(trap_for_vector(v), Trap::Reserved);
    }
    assert_eq!(trap_for_vector(0x80), Trap::Syscall);
    for v in 32..=255u8 {
        if v != 0x80 {
            assert_eq!(trap_for_vector(v), Trap::Interrupt);
        }
    }
}

#[test]
fn error_codes_come_with_nine_exceptions() {
    let with_code: Vec<u8> =
        (0..=255u8).filter(|v| trap_for_vector(*v).takes_error_code()).collect();
    assert_eq!(with_code, vec![10, 11, 12, 13, 14, 17, 21, 29, 30]);
}

#[test]
fn only_breakpoint_resumes_among_the_named_exceptions() {
    for v in 0..32u8 {
        let trap = trap_for_vector(v);
        let d = dispatch(trap);
        match trap {
            Trap::Breakpoint | Trap::Reserved => {
                assert!(!trap.is_fatal());
                assert_eq!(d.disposition, Disposition::Resume);
                assert_eq!(d.severity, Severity::Info);
            }
            Trap::DoubleFault | Trap::MachineCheck => {
                assert!(trap.is_fatal());
                assert_eq!(d.disposition, Disposition::Abort);
                assert_eq!(d.severity, Severity::Error);
            }
            _ => {
                assert!(trap.is_fatal());
                assert_eq!(d.disposition, Disposition::Halt);
                assert_eq!(d.severity, Severity::Error);
            }
        }
    }
    for v in 32..=255u8 {
        let trap = trap_for_vector(v);
        assert!(!trap.is_fatal());
        assert_eq!(dispatch(trap).disposition, Disposition::Resume);
    }
}

#[test]
fn handlers_report_their_classification() {
    assert_eq!(dispatch(Trap::DivideError).message, "EXCEPTION: Divide Error");
    assert_eq!(dispatch(Trap::Debug).message, "EXCEPTION: Debug");
    assert_eq!(dispatch(Trap::NonMaskableInterrupt).message, "EXCEPTION: Non-Maskable Interrupt");
    assert_eq!(dispatch(Trap::Breakpoint).message, "EXCEPTION: Breakpoint");
    assert_eq!(dispatch(Trap::Overflow).message, "EXCEPTION: Overflow");
    assert_eq!(dispatch(Trap::BoundRangeExceeded).message, "EXCEPTION: Bound Range Exceeded");
    assert_eq!(dispatch(Trap::InvalidOpcode).message, "EXCEPTION: Invalid Opcode");
    assert_eq!(dispatch(Trap::DeviceNotAvailable).message, "EXCEPTION: Device Not Available");
    assert_eq!(dispatch(Trap::DoubleFault).message, "EXCEPTION: Double Fault");
    assert_eq!(dispatch(Trap::InvalidTss).message, "EXCEPTION: Invalid TSS");
    assert_eq!(dispatch(Trap::SegmentNotPresent).message, "EXCEPTION: Segment Not Present");
    assert_eq!(dispatch(Trap::StackSegmentFault).message, "EXCEPTION: Stack Segment Fault");
    assert_eq!(
        dispatch(Trap::GeneralProtectionFault).message,
        "EXCEPTION: General Protection Fault"
    );
    assert_eq!(dispatch(Trap::PageFault).message, "EXCEPTION: Page Fault");
    assert_eq!(dispatch(Trap::X87FloatingPoint).message, "EXCEPTION: x87 Floating Point");
    assert_eq!(dispatch(Trap::AlignmentCheck).message, "EXCEPTION: Alignment Check");
    assert_eq!(dispatch(Trap::MachineCheck).message, "EXCEPTION: Machine Check");
    assert_eq!(dispatch(Trap::SimdFloatingPoint).message, "EXCEPTION: SIMD Floating Point");
    assert_eq!(dispatch(Trap::Virtualization).message, "EXCEPTION: Virtualization");
    assert_eq!(dispatch(Trap::ControlProtection).message, "EXCEPTION: Control Protection");
    assert_eq!(dispatch(Trap::HypervisorInjection).message, "EXCEPTION: Hypervisor Injection");
    assert_eq!(dispatch(Trap::VmmCommunication).message, "EXCEPTION: VMM Communication");
    assert_eq!(dispatch(Trap::Security).message, "EXCEPTION: Security");
    assert_eq!(dispatch(Trap::Reserved).message, "Generic interrupt received");
    assert_eq!(dispatch(Trap::Interrupt).message, "Generic interrupt received");
    assert_eq!(dispatch(Trap::Syscall).message, "System call received");
}

#[test]
fn table_is_stored_gate_by_gate() {
    let s = stubs();
    let idt = init_idt(&s);
    let bytes = idt.to_bytes();
    assert_eq!(bytes.len(), 4096);
    for v in 0..256 {
        let g = &bytes[16 * v..16 * v + 16];
        let e = idt.entries[v];
        assert_eq!(u16::from_le_bytes([g[0], g[1]]), e.offset_low);
        assert_eq!(u16::from_le_bytes([g[2], g[3]]), e.selector);
        assert_eq!(g[4], e.ist);
        assert_eq!(g[5], e.type_attr);
        assert_eq!(u16::from_le_bytes([g[6], g[7]]), e.offset_mid);
        assert_eq!(u32::from_le_bytes([g[8], g[9], g[10], g[11]]), e.offset_high);
        assert_eq!(u32::from_le_bytes([g[12], g[13], g[14], g[15]]), e.reserved);
    }
}

#[test]
fn stored_gate_bytes_are_exact() {
    let mut exceptions = [0u64; 32];
    exceptions[0] = 0x1122_3344_5566_7788;
    let idt = init_idt(&StubTable { exceptions, generic: 0, syscall: 0 });
    let bytes = idt.to_bytes();
    assert_eq!(
        &bytes[..16],
        &[
            0x88, 0x77, 0x08, 0x00, 0x00, 0x8e, 0x66, 0x55, 0x44, 0x33, 0x22, 0x11, 0x00, 0x00,
            0x00, 0x00
        ]
    );
}
