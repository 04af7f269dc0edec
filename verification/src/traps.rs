//! The trap vector table: 256 gate descriptors, and what each vector's
//! handler does.
//!
//! Vectors 0 to 31 belong to the processor's own exceptions, each with an
//! entry stub of its own. Of the vectors above them one is reserved for
//! software system calls; all others share a catch-all stub. The table is
//! built as a value from the stubs' addresses; the caller stores it and loads
//! its descriptor into the processor.

use vstd::prelude::*;
use crate::wire::{
    le_u16, le_u32, lemma_u16_round_trip, lemma_u32_round_trip, u16_bytes, u32_bytes, write_u16,
    write_u32,
};

verus! {

/// Number of vectors.
pub const IDT_ENTRIES: usize = 256;

/// Number of vectors that belong to processor exceptions.
pub const EXCEPTION_VECTORS: usize = 32;

/// The vector reserved for software system calls.
pub const SYSCALL_VECTOR: usize = 0x80;

/// Selector of the kernel's code segment.
pub const KERNEL_CODE_SELECTOR: u16 = 0x08;

/// Type and attributes of a present interrupt gate of privilege level 0.
pub const INTERRUPT_GATE: u8 = 0x8E;

/// Size in bytes of one gate descriptor in memory.
pub const GATE_SIZE: usize = 16;

/// One gate descriptor. The handler's address is split over three fields.
#[derive(Clone, Copy, Debug, PartialEq, Eq, Structural)]
pub struct IdtEntry {
    pub offset_low: u16,
    pub selector: u16,
    pub ist: u8,
    pub type_attr: u8,
    pub offset_mid: u16,
    pub offset_high: u32,
    pub reserved: u32,
}

/// The addresses of the entry stubs.
#[derive(Clone, Copy, Debug, PartialEq, Eq)]
pub struct StubTable {
    /// The stub of each exception vector, by vector.
    pub exceptions: [u64; 32],
    /// The catch-all stub of the vectors from 32 on.
    pub generic: u64,
    /// The stub of the system-call vector.
    pub syscall: u64,
}

/// The table of all 256 gates.
#[derive(Clone, Copy, Debug, PartialEq, Eq)]
pub struct Idt {
    pub entries: [IdtEntry; 256],
}

/// What the processor's table register is loaded with.
#[derive(Clone, Copy, Debug, PartialEq, Eq, Structural)]
pub struct IdtDescriptor {
    /// Size of the table in bytes, less one.
    pub limit: u16,
    /// Address of the table.
    pub base: u64,
}

/// A gate that is not in use: every field zero.
pub open spec fn empty_gate() -> IdtEntry {
    IdtEntry {
        offset_low: 0,
        selector: 0,
        ist: 0,
        type_attr: 0,
        offset_mid: 0,
        offset_high: 0,
        reserved: 0,
    }
}

/// The interrupt gate that sends a vector to the code at `handler` in the
/// segment `selector`: bits 0 to 15 of the address in `offset_low`, bits 16
/// to 31 in `offset_mid`, bits 32 to 63 in `offset_high`.
pub open spec fn gate(handler: u64, selector: u16) -> IdtEntry {
    IdtEntry {
        offset_low: (handler % 0x1_0000) as u16,
        selector,
        ist: 0,
        type_attr: INTERRUPT_GATE,
        offset_mid: ((handler / 0x1_0000) % 0x1_0000) as u16,
        offset_high: (handler / 0x1_0000_0000) as u32,
        reserved: 0,
    }
}

/// The address a gate sends its vector to.
pub open spec fn handler_of(entry: IdtEntry) -> int {
    entry.offset_low + 0x1_0000 * entry.offset_mid + 0x1_0000_0000 * entry.offset_high
}

/// Whether the processor will accept a gate: its present bit is set.
pub open spec fn gate_present(entry: IdtEntry) -> bool {
    entry.type_attr >= 0x80
}

/// A gate as it lies in memory, sixteen bytes: the low offset at 0 and the
/// selector at 2 (two bytes each), the stack-table index at 4 and the type
/// at 5 (one byte each), the middle offset at 6 (two bytes), the high offset
/// at 8 and the reserved field at 12 (four bytes each), all little-endian.
pub open spec fn gate_image(entry: IdtEntry) -> Seq<u8> {
    u16_bytes(entry.offset_low) + u16_bytes(entry.selector) + seq![entry.ist, entry.type_attr]
        + u16_bytes(entry.offset_mid) + u32_bytes(entry.offset_high) + u32_bytes(entry.reserved)
}

/// A table as it lies in memory: its gates one after the other.
pub open spec fn idt_image(entries: Seq<IdtEntry>) -> Seq<u8> {
    Seq::new(16 * entries.len(), |k: int| gate_image(entries[k / 16])[k % 16])
}

/// The stub that `vector` is bound to.
pub open spec fn stub_for_vector(stubs: StubTable, vector: int) -> u64 {
    if vector < EXCEPTION_VECTORS {
        stubs.exceptions@[vector]
    } else if vector == SYSCALL_VECTOR {
        stubs.syscall
    } else {
        stubs.generic
    }
}

impl IdtEntry {
    /// A gate that is not in use.
    pub fn new() -> (entry: Self)
        ensures
            entry == empty_gate(),
    {
        Self {
            offset_low: 0,
            selector: 0,
            ist: 0,
            type_attr: 0,
            offset_mid: 0,
            offset_high: 0,
            reserved: 0,
        }
    }

    /// Makes this gate send its vector to `handler` in segment `selector`.
    pub fn set_handler(&mut self, handler: u64, selector: u16)
        ensures
            *final(self) == gate(handler, selector),
    {
        assert(handler & 0xFFFF == handler % 0x1_0000) by (bit_vector);
        assert((handler >> 16) & 0xFFFF == (handler / 0x1_0000) % 0x1_0000) by (bit_vector);
        assert((handler >> 32) & 0xFFFF_FFFF == handler / 0x1_0000_0000) by (bit_vector);
        self.offset_low = (handler & 0xFFFF) as u16;
        self.offset_mid = ((handler >> 16) & 0xFFFF) as u16;
        self.offset_high = ((handler >> 32) & 0xFFFF_FFFF) as u32;
        self.selector = selector;
        self.type_attr = INTERRUPT_GATE;
        self.ist = 0;
        self.reserved = 0;
    }

    /// The address this gate sends its vector to.
    pub fn handler(&self) -> (address: u64)
        ensures
            address == handler_of(*self),
    {
        let low: u64 = self.offset_low as u64;
        let mid: u64 = self.offset_mid as u64;
        let high: u64 = self.offset_high as u64;
        low + 0x1_0000 * mid + 0x1_0000_0000 * high
    }
}

/// Appends a gate as it lies in memory.
fn write_gate(out: &mut Vec<u8>, entry: &IdtEntry)
    ensures
        final(out)@ == old(out)@ + gate_image(*entry),
{
    write_u16(out, entry.offset_low);
    write_u16(out, entry.selector);
    out.push(entry.ist);
    out.push(entry.type_attr);
    write_u16(out, entry.offset_mid);
    write_u32(out, entry.offset_high);
    write_u32(out, entry.reserved);
    assert(out@ =~= old(out)@ + gate_image(*entry));
}

impl Idt {
    /// The table as the 4096 bytes that the processor reads.
    pub fn to_bytes(&self) -> (bytes: Vec<u8>)
        ensures
            bytes@ == idt_image(self.entries@),
            bytes@.len() == IDT_ENTRIES * GATE_SIZE,
    {
        let mut out: Vec<u8> = Vec::new();
        let mut v: usize = 0;
        while v < 256
            invariant
                v <= 256,
                self.entries@.len() == 256,
                out@ == idt_image(self.entries@.subrange(0, v as int)),
            decreases 256 - v,
        {
            let ghost before = out@;
            write_gate(&mut out, &self.entries[v]);
            assert(out@ =~= idt_image(self.entries@.subrange(0, v + 1))) by {
                let next = idt_image(self.entries@.subrange(0, v + 1));
                assert(gate_image(self.entries@[v as int]).len() == 16);
                assert(out@.len() == next.len());
                assert forall|k: int| 0 <= k < next.len() implies out@[k] == next[k] by {
                    if k < 16 * v {
                        assert(out@[k] == before[k]);
                    } else {
                        assert(k / 16 == v && k % 16 == k - 16 * v);
                        assert(out@[k] == gate_image(self.entries@[v as int])[k - 16 * v]);
                    }
                }
            }
            v += 1;
        }
        assert(self.entries@.subrange(0, 256) =~= self.entries@);
        out
    }
}

/// Builds the table: every exception vector bound to its own stub, the
/// system-call vector to the system-call stub, every other vector to the
/// catch-all stub, all in the kernel's code segment.
pub fn init_idt(stubs: &StubTable) -> (idt: Idt)
    ensures
        forall|v: int|
            0 <= v < IDT_ENTRIES ==> #[trigger] idt.entries@[v] == gate(
                stub_for_vector(*stubs, v),
                KERNEL_CODE_SELECTOR,
            ),
{
    let blank = IdtEntry::new();
    let mut idt = Idt { entries: [blank; 256] };
    let mut v: usize = 0;
    while v < 256
        invariant
            v <= 256,
            idt.entries@.len() == 256,
            forall|k: int|
                0 <= k < v ==> #[trigger] idt.entries@[k] == gate(
                    stub_for_vector(*stubs, k),
                    KERNEL_CODE_SELECTOR,
                ),
        decreases 256 - v,
    {
        let stub: u64 = if v < EXCEPTION_VECTORS {
            stubs.exceptions[v]
        } else if v == SYSCALL_VECTOR {
            stubs.syscall
        } else {
            stubs.generic
        };
        let mut entry = IdtEntry::new();
        entry.set_handler(stub, KERNEL_CODE_SELECTOR);
        idt.entries[v] = entry;
        v += 1;
    }
    idt
}

/// The value for the processor's table register, for a table stored at `base`.
pub fn idt_descriptor(base: u64) -> (d: IdtDescriptor)
    ensures
        d.base == base,
        d.limit == IDT_ENTRIES * GATE_SIZE - 1,
{
    IdtDescriptor { limit: 4095, base }
}

/// What a vector stands for.
#[derive(Clone, Copy, Debug, PartialEq, Eq, Structural)]
pub enum Trap {
    /// Vector 0.
    DivideError,
    /// Vector 1.
    Debug,
    /// Vector 2.
    NonMaskableInterrupt,
    /// Vector 3.
    Breakpoint,
    /// Vector 4.
    Overflow,
    /// Vector 5.
    BoundRangeExceeded,
    /// Vector 6.
    InvalidOpcode,
    /// Vector 7.
    DeviceNotAvailable,
    /// Vector 8.
    DoubleFault,
    /// Vector 10.
    InvalidTss,
    /// Vector 11.
    SegmentNotPresent,
    /// Vector 12.
    StackSegmentFault,
    /// Vector 13.
    GeneralProtectionFault,
    /// Vector 14.
    PageFault,
    /// Vector 16.
    X87FloatingPoint,
    /// Vector 17.
    AlignmentCheck,
    /// Vector 18.
    MachineCheck,
    /// Vector 19.
    SimdFloatingPoint,
    /// Vector 20.
    Virtualization,
    /// Vector 21.
    ControlProtection,
    /// Vector 28.
    HypervisorInjection,
    /// Vector 29.
    VmmCommunication,
    /// Vector 30.
    Security,
    /// An exception vector that the architecture keeps in reserve.
    Reserved,
    /// A device or software interrupt without a handler of its own.
    Interrupt,
    /// The system-call vector.
    Syscall,
}

/// What a handler does once it has reported.
#[derive(Clone, Copy, Debug, PartialEq, Eq, Structural)]
pub enum Disposition {
    /// Return to the interrupted code.
    Resume,
    /// Stop the processor for good; the handler's stub could still return.
    Halt,
    /// Stop the processor for good; the handler is defined never to return,
    /// and its stub holds no way back.
    Abort,
}

/// How a report is marked in the diagnostic sink.
#[derive(Clone, Copy, Debug, PartialEq, Eq, Structural)]
pub enum Severity {
    Info,
    Error,
}

/// What the handler of a trap does: one report, then its disposition.
#[derive(Clone, Copy, Debug)]
pub struct Dispatch {
    pub severity: Severity,
    pub message: &'static str,
    pub disposition: Disposition,
}

/// What `vector` stands for.
pub open spec fn trap_of(vector: int) -> Trap {
    if vector == 0 {
        Trap::DivideError
    } else if vector == 1 {
        Trap::Debug
    } else if vector == 2 {
        Trap::NonMaskableInterrupt
    } else if vector == 3 {
        Trap::Breakpoint
    } else if vector == 4 {
        Trap::Overflow
    } else if vector == 5 {
        Trap::BoundRangeExceeded
    } else if vector == 6 {
        Trap::InvalidOpcode
    } else if vector == 7 {
        Trap::DeviceNotAvailable
    } else if vector == 8 {
        Trap::DoubleFault
    } else if vector == 10 {
        Trap::InvalidTss
    } else if vector == 11 {
        Trap::SegmentNotPresent
    } else if vector == 12 {
        Trap::StackSegmentFault
    } else if vector == 13 {
        Trap::GeneralProtectionFault
    } else if vector == 14 {
        Trap::PageFault
    } else if vector == 16 {
        Trap::X87FloatingPoint
    } else if vector == 17 {
        Trap::AlignmentCheck
    } else if vector == 18 {
        Trap::MachineCheck
    } else if vector == 19 {
        Trap::SimdFloatingPoint
    } else if vector == 20 {
        Trap::Virtualization
    } else if vector == 21 {
        Trap::ControlProtection
    } else if vector == 28 {
        Trap::HypervisorInjection
    } else if vector == 29 {
        Trap::VmmCommunication
    } else if vector == 30 {
        Trap::Security
    } else if vector < EXCEPTION_VECTORS {
        Trap::Reserved
    } else if vector == SYSCALL_VECTOR {
        Trap::Syscall
    } else {
        Trap::Interrupt
    }
}

/// Whether the handler of `trap` is handed an error code, which its stub has
/// to take off the stack before it restores the registers. The double-fault
/// stub never restores them and leaves the code where it is.
pub open spec fn takes_error_code_of(trap: Trap) -> bool {
    trap == Trap::InvalidTss || trap == Trap::SegmentNotPresent || trap == Trap::StackSegmentFault
        || trap == Trap::GeneralProtectionFault || trap == Trap::PageFault || trap
        == Trap::AlignmentCheck || trap == Trap::ControlProtection || trap
        == Trap::VmmCommunication || trap == Trap::Security
}

/// What the handler of `trap` does after its report: a breakpoint and the
/// interrupts return, a double fault and a machine check never do, every
/// other exception halts.
pub open spec fn disposition_of(trap: Trap) -> Disposition {
    if trap == Trap::Breakpoint || trap == Trap::Reserved || trap == Trap::Interrupt || trap
        == Trap::Syscall {
        Disposition::Resume
    } else if trap == Trap::DoubleFault || trap == Trap::MachineCheck {
        Disposition::Abort
    } else {
        Disposition::Halt
    }
}

/// Whether the interrupted code is given up.
pub open spec fn is_fatal_of(trap: Trap) -> bool {
    disposition_of(trap) != Disposition::Resume
}

/// How the report of `trap` is marked: what ends execution is an error.
pub open spec fn severity_of(trap: Trap) -> Severity {
    if is_fatal_of(trap) {
        Severity::Error
    } else {
        Severity::Info
    }
}

/// The classification that the handler of `trap` writes to the diagnostic
/// sink.
pub open spec fn message_of(trap: Trap) -> Seq<char> {
    match trap {
        Trap::DivideError => "EXCEPTION: Divide Error"@,
        Trap::Debug => "EXCEPTION: Debug"@,
        Trap::NonMaskableInterrupt => "EXCEPTION: Non-Maskable Interrupt"@,
        Trap::Breakpoint => "EXCEPTION: Breakpoint"@,
        Trap::Overflow => "EXCEPTION: Overflow"@,
        Trap::BoundRangeExceeded => "EXCEPTION: Bound Range Exceeded"@,
        Trap::InvalidOpcode => "EXCEPTION: Invalid Opcode"@,
        Trap::DeviceNotAvailable => "EXCEPTION: Device Not Available"@,
        Trap::DoubleFault => "EXCEPTION: Double Fault"@,
        Trap::InvalidTss => "EXCEPTION: Invalid TSS"@,
        Trap::SegmentNotPresent => "EXCEPTION: Segment Not Present"@,
        Trap::StackSegmentFault => "EXCEPTION: Stack Segment Fault"@,
        Trap::GeneralProtectionFault => "EXCEPTION: General Protection Fault"@,
        Trap::PageFault => "EXCEPTION: Page Fault"@,
        Trap::X87FloatingPoint => "EXCEPTION: x87 Floating Point"@,
        Trap::AlignmentCheck => "EXCEPTION: Alignment Check"@,
        Trap::MachineCheck => "EXCEPTION: Machine Check"@,
        Trap::SimdFloatingPoint => "EXCEPTION: SIMD Floating Point"@,
        Trap::Virtualization => "EXCEPTION: Virtualization"@,
        Trap::ControlProtection => "EXCEPTION: Control Protection"@,
        Trap::HypervisorInjection => "EXCEPTION: Hypervisor Injection"@,
        Trap::VmmCommunication => "EXCEPTION: VMM Communication"@,
        Trap::Security => "EXCEPTION: Security"@,
        Trap::Reserved => "Generic interrupt received"@,
        Trap::Interrupt => "Generic interrupt received"@,
        Trap::Syscall => "System call received"@,
    }
}

/// Classifies a vector.
pub fn trap_for_vector(vector: u8) -> (trap: Trap)
    ensures
        trap == trap_of(vector as int),
{
    match vector {
        0 => Trap::DivideError,
        1 => Trap::Debug,
        2 => Trap::NonMaskableInterrupt,
        3 => Trap::Breakpoint,
        4 => Trap::Overflow,
        5 => Trap::BoundRangeExceeded,
        6 => Trap::InvalidOpcode,
        7 => Trap::DeviceNotAvailable,
        8 => Trap::DoubleFault,
        10 => Trap::InvalidTss,
        11 => Trap::SegmentNotPresent,
        12 => Trap::StackSegmentFault,
        13 => Trap::GeneralProtectionFault,
        14 => Trap::PageFault,
        16 => Trap::X87FloatingPoint,
        17 => Trap::AlignmentCheck,
        18 => Trap::MachineCheck,
        19 => Trap::SimdFloatingPoint,
        20 => Trap::Virtualization,
        21 => Trap::ControlProtection,
        28 => Trap::HypervisorInjection,
        29 => Trap::VmmCommunication,
        30 => Trap::Security,
        9 | 15 | 22 | 23 | 24 | 25 | 26 | 27 | 31 => Trap::Reserved,
        0x80 => Trap::Syscall,
        _ => Trap::Interrupt,
    }
}

impl Trap {
    /// Whether the handler is handed an error code.
    pub fn takes_error_code(&self) -> (b: bool)
        ensures
            b == takes_error_code_of(*self),
    {
        match self {
            Trap::InvalidTss
            | Trap::SegmentNotPresent
            | Trap::StackSegmentFault
            | Trap::GeneralProtectionFault
            | Trap::PageFault
            | Trap::AlignmentCheck
            | Trap::ControlProtection
            | Trap::VmmCommunication
            | Trap::Security => true,
            _ => false,
        }
    }

    /// Whether the interrupted code is given up.
    pub fn is_fatal(&self) -> (b: bool)
        ensures
            b == is_fatal_of(*self),
    {
        match self {
            Trap::Breakpoint | Trap::Reserved | Trap::Interrupt | Trap::Syscall => false,
            _ => true,
        }
    }
}

/// The one dispatch routine behind every stub: what to report for `trap`, and
/// what to do then.
pub fn dispatch(trap: Trap) -> (d: Dispatch)
    ensures
        d.severity == severity_of(trap),
        d.message@ == message_of(trap),
        d.disposition == disposition_of(trap),
{
    let disposition = match trap {
        Trap::Breakpoint | Trap::Reserved | Trap::Interrupt | Trap::Syscall => Disposition::Resume,
        Trap::DoubleFault | Trap::MachineCheck => Disposition::Abort,
        _ => Disposition::Halt,
    };
    let severity = match disposition {
        Disposition::Resume => Severity::Info,
        _ => Severity::Error,
    };
    let message: &'static str =
    match trap {
        Trap::DivideError => "EXCEPTION: Divide Error",
        Trap::Debug => "EXCEPTION: Debug",
        Trap::NonMaskableInterrupt => "EXCEPTION: Non-Maskable Interrupt",
        Trap::Breakpoint => "EXCEPTION: Breakpoint",
        Trap::Overflow => "EXCEPTION: Overflow",
        Trap::BoundRangeExceeded => "EXCEPTION: Bound Range Exceeded",
        Trap::InvalidOpcode => "EXCEPTION: Invalid Opcode",
        Trap::DeviceNotAvailable => "EXCEPTION: Device Not Available",
        Trap::DoubleFault => "EXCEPTION: Double Fault",
        Trap::InvalidTss => "EXCEPTION: Invalid TSS",
        Trap::SegmentNotPresent => "EXCEPTION: Segment Not Present",
        Trap::StackSegmentFault => "EXCEPTION: Stack Segment Fault",
        Trap::GeneralProtectionFault => "EXCEPTION: General Protection Fault",
        Trap::PageFault => "EXCEPTION: Page Fault",
        Trap::X87FloatingPoint => "EXCEPTION: x87 Floating Point",
        Trap::AlignmentCheck => "EXCEPTION: Alignment Check",
        Trap::MachineCheck => "EXCEPTION: Machine Check",
        Trap::SimdFloatingPoint => "EXCEPTION: SIMD Floating Point",
        Trap::Virtualization => "EXCEPTION: Virtualization",
        Trap::ControlProtection => "EXCEPTION: Control Protection",
        Trap::HypervisorInjection => "EXCEPTION: Hypervisor Injection",
        Trap::VmmCommunication => "EXCEPTION: VMM Communication",
        Trap::Security => "EXCEPTION: Security",
        Trap::Reserved => "Generic interrupt received",
        Trap::Interrupt => "Generic interrupt received",
        Trap::Syscall => "System call received",
    };
    Dispatch { severity, message, disposition }
}

/// Only exceptions end execution, and only exceptions carry an error code:
/// a vector from 32 on always returns to the interrupted code, and of the
/// exceptions the breakpoint alone does.
pub proof fn lemma_interrupts_resume(vector: int)
    requires
        0 <= vector < IDT_ENTRIES,
    ensures
        vector >= EXCEPTION_VECTORS ==> !is_fatal_of(trap_of(vector)) && !takes_error_code_of(
            trap_of(vector),
        ),
        vector == SYSCALL_VECTOR <==> trap_of(vector) == Trap::Syscall,
        is_fatal_of(trap_of(vector)) ==> vector < EXCEPTION_VECTORS && vector != 3,
        disposition_of(trap_of(vector)) == Disposition::Abort <==> vector == 8 || vector == 18,
{
}

/// In memory, each field of a gate is read back at its documented offset.
pub proof fn lemma_gate_image_fields(entry: IdtEntry)
    ensures
        gate_image(entry).len() == GATE_SIZE,
        le_u16(gate_image(entry), 0) == entry.offset_low,
        le_u16(gate_image(entry), 2) == entry.selector,
        gate_image(entry)[4] == entry.ist,
        gate_image(entry)[5] == entry.type_attr,
        le_u16(gate_image(entry), 6) == entry.offset_mid,
        le_u32(gate_image(entry), 8) == entry.offset_high,
        le_u32(gate_image(entry), 12) == entry.reserved,
{
    let image = gate_image(entry);
    assert(image.subrange(0, 2) =~= u16_bytes(entry.offset_low));
    assert(image.subrange(2, 4) =~= u16_bytes(entry.selector));
    assert(image.subrange(6, 8) =~= u16_bytes(entry.offset_mid));
    assert(image.subrange(8, 12) =~= u32_bytes(entry.offset_high));
    assert(image.subrange(12, 16) =~= u32_bytes(entry.reserved));
    lemma_u16_round_trip(image, 0, entry.offset_low);
    lemma_u16_round_trip(image, 2, entry.selector);
    lemma_u16_round_trip(image, 6, entry.offset_mid);
    lemma_u32_round_trip(image, 8, entry.offset_high);
    lemma_u32_round_trip(image, 12, entry.reserved);
}

/// In memory, vector `v` has its gate in the sixteen bytes from offset
/// 16 `v` on.
pub proof fn lemma_idt_image_holds_gates(entries: Seq<IdtEntry>, v: int)
    requires
        0 <= v < entries.len(),
    ensures
        idt_image(entries).len() == 16 * entries.len(),
        idt_image(entries).subrange(16 * v, 16 * v + 16) == gate_image(entries[v]),
{
    let image = idt_image(entries);
    assert(gate_image(entries[v]).len() == 16);
    assert(image.subrange(16 * v, 16 * v + 16) =~= gate_image(entries[v])) by {
        assert forall|k: int| 0 <= k < 16 implies image.subrange(16 * v, 16 * v + 16)[k]
            == gate_image(entries[v])[k] by {
            assert((16 * v + k) / 16 == v && (16 * v + k) % 16 == k);
        }
    }
}

/// A gate holds the whole address it was made for: taking the three offset
/// fields together gives the handler back.
pub proof fn lemma_gate_holds_handler(handler: u64, selector: u16)
    ensures
        handler_of(gate(handler, selector)) == handler,
        gate(handler, selector).selector == selector,
        gate_present(gate(handler, selector)),
{
}

/// Gates made for different handlers differ.
pub proof fn lemma_gates_differ(a: u64, b: u64, selector: u16)
    requires
        a != b,
    ensures
        gate(a, selector) != gate(b, selector),
{
    lemma_gate_holds_handler(a, selector);
    lemma_gate_holds_handler(b, selector);
}

/// The table leaves no vector unbound. Where the stubs' addresses differ, so
/// do the gates: the system-call gate is not the catch-all gate, and no two
/// exception vectors share a gate.
pub proof fn lemma_table_complete(idt: Idt, stubs: StubTable)
    requires
        forall|v: int|
            0 <= v < IDT_ENTRIES ==> #[trigger] idt.entries@[v] == gate(
                stub_for_vector(stubs, v),
                KERNEL_CODE_SELECTOR,
            ),
    ensures
        forall|v: int| 0 <= v < IDT_ENTRIES ==> gate_present(#[trigger] idt.entries@[v]),
        forall|v: int|
            0 <= v < IDT_ENTRIES ==> handler_of(#[trigger] idt.entries@[v]) == stub_for_vector(
                stubs,
                v,
            ),
        stubs.syscall != stubs.generic ==> forall|v: int|
            EXCEPTION_VECTORS <= v < IDT_ENTRIES && v != SYSCALL_VECTOR ==> #[trigger] idt.entries@[v]
                != idt.entries@[SYSCALL_VECTOR as int],
        forall|a: int, b: int|
            0 <= a < EXCEPTION_VECTORS && 0 <= b < EXCEPTION_VECTORS && stubs.exceptions@[a]
                != stubs.exceptions@[b] ==> #[trigger] idt.entries@[a] != #[trigger] idt.entries@[b],
{
    assert forall|v: int| 0 <= v < IDT_ENTRIES implies gate_present(#[trigger] idt.entries@[v])
        && handler_of(idt.entries@[v]) == stub_for_vector(stubs, v) by {
        lemma_gate_holds_handler(stub_for_vector(stubs, v), KERNEL_CODE_SELECTOR);
    }
    assert(idt.entries@[SYSCALL_VECTOR as int] == gate(stubs.syscall, KERNEL_CODE_SELECTOR));
    if stubs.syscall != stubs.generic {
        lemma_gates_differ(stubs.syscall, stubs.generic, KERNEL_CODE_SELECTOR);
    }
    assert forall|a: int, b: int|
        0 <= a < EXCEPTION_VECTORS && 0 <= b < EXCEPTION_VECTORS && stubs.exceptions@[a]
            != stubs.exceptions@[b] implies #[trigger] idt.entries@[a] != #[trigger] idt.entries@[b] by {
        lemma_gates_differ(stubs.exceptions@[a], stubs.exceptions@[b], KERNEL_CODE_SELECTOR);
    }
}

} // verus!
