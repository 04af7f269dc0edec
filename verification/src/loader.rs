//! The loader's course from firmware start to the jump into the kernel.
//!
//! The loader runs its stages in a fixed order and gives up at the first
//! that fails. All stages but the last lean on the firmware's boot
//! services; leaving those services is one-way, so everything the kernel
//! needs is in place before. The jump itself takes three numbers: where to
//! start, where the handoff block lies, and the top of a fresh stack.

use vstd::prelude::*;
use crate::boot_info::{encoded, BootInfo, BOOT_INFO_SIZE};
use crate::memory::PAGE_SIZE;

verus! {

/// Number of pages of the stack the kernel starts on.
pub const KERNEL_STACK_PAGES: u64 = 16;

/// Number of pages allocated for the handoff block.
pub const BOOT_INFO_PAGES: u64 = 1;

/// Number of stages.
pub const STAGE_COUNT: u64 = 10;

/// The stages of the loader, in the order in which they run.
#[derive(Clone, Copy, Debug, PartialEq, Eq, Structural)]
pub enum Stage {
    /// Choose and apply a display mode.
    SetupGraphics,
    /// Read the kernel file into memory.
    LoadKernel,
    /// Check the image and place its segments.
    LoadSegments,
    /// Build the identity mapping and load its root.
    MapMemory,
    /// Allocate the kernel's stack.
    AllocateStack,
    /// Fetch the memory map.
    CollectMemoryMap,
    /// Look up the ACPI root pointer.
    FindRsdp,
    /// Allocate a page for the handoff block and write the block into it.
    PlaceBootInfo,
    /// Leave the firmware's boot services.
    ExitBootServices,
    /// Jump to the kernel's entry point.
    EnterKernel,
}

/// What the loader does next.
#[derive(Clone, Copy, Debug, PartialEq, Eq, Structural)]
pub enum Step {
    /// Run this stage.
    Run(Stage),
    /// Give up: this stage failed.
    Abort(Stage),
    /// Nothing: control went to the kernel.
    Finished,
}

/// Why the kernel file was not accepted.
#[derive(Clone, Copy, Debug, PartialEq, Eq, Structural)]
pub enum LoadError {
    /// The boot volume, or the file `kernel.elf` at its root, could not be
    /// opened.
    ImageNotFound,
    /// The file's size could not be learnt, or the file could not be read in
    /// full.
    ReadError,
}

/// What to do next to get the kernel file into memory.
#[derive(Clone, Copy, Debug, PartialEq, Eq, Structural)]
pub enum ReadStep {
    /// Open the file `kernel.elf` at the root of the volume the loader was
    /// started from.
    OpenFile,
    /// Ask the file's metadata for its size.
    QuerySize,
    /// Allocate a buffer of exactly `len` bytes and read the file into it
    /// with one call.
    ReadInto { len: u64 },
    /// The whole file is in memory, `len` bytes.
    Loaded { len: u64 },
    /// The load has failed.
    Failed(LoadError),
}

/// What the firmware answered to a step.
#[derive(Clone, Copy, Debug, PartialEq, Eq, Structural)]
pub enum ReadEvent {
    /// The file is open.
    Opened,
    /// The file has this many bytes.
    Size(u64),
    /// The read returned this many bytes.
    Read(u64),
    /// The step failed.
    Failed,
}

/// Why no jump was prepared.
#[derive(Clone, Copy, Debug, PartialEq, Eq, Structural)]
pub enum HandoffError {
    /// The stack would end beyond the last address.
    StackOutOfRange,
}

/// What the jump into the kernel takes.
#[derive(Clone, Debug, PartialEq, Eq)]
pub struct Handoff {
    /// Address of the kernel's first instruction.
    pub entry_point: u64,
    /// Address of the handoff block: the kernel's one argument.
    pub boot_info_addr: u64,
    /// The stack pointer at entry: one past the last byte of the stack.
    pub stack_top: u64,
    /// The bytes of the handoff block, to be stored at `boot_info_addr`.
    pub block: Vec<u8>,
}

/// Place of a stage in the loader's course, from 0.
pub open spec fn position(stage: Stage) -> int {
    match stage {
        Stage::SetupGraphics => 0,
        Stage::LoadKernel => 1,
        Stage::LoadSegments => 2,
        Stage::MapMemory => 3,
        Stage::AllocateStack => 4,
        Stage::CollectMemoryMap => 5,
        Stage::FindRsdp => 6,
        Stage::PlaceBootInfo => 7,
        Stage::ExitBootServices => 8,
        Stage::EnterKernel => 9,
    }
}

/// Whether a stage calls the firmware's boot services.
pub open spec fn uses_boot_services(stage: Stage) -> bool {
    stage != Stage::EnterKernel
}

/// What follows a stage that ended well (`ok`) or failed.
pub open spec fn step_after(stage: Stage, ok: bool) -> Step {
    if !ok {
        Step::Abort(stage)
    } else {
        match stage {
            Stage::SetupGraphics => Step::Run(Stage::LoadKernel),
            Stage::LoadKernel => Step::Run(Stage::LoadSegments),
            Stage::LoadSegments => Step::Run(Stage::MapMemory),
            Stage::MapMemory => Step::Run(Stage::AllocateStack),
            Stage::AllocateStack => Step::Run(Stage::CollectMemoryMap),
            Stage::CollectMemoryMap => Step::Run(Stage::FindRsdp),
            Stage::FindRsdp => Step::Run(Stage::PlaceBootInfo),
            Stage::PlaceBootInfo => Step::Run(Stage::ExitBootServices),
            Stage::ExitBootServices => Step::Run(Stage::EnterKernel),
            Stage::EnterKernel => Step::Finished,
        }
    }
}

/// The step that follows the firmware's answer to `step`.
///
/// A file that cannot be opened is not found. From then on every failure is
/// a read error: a size that cannot be learnt, a read that fails, and a read
/// that returns another number of bytes than the file has, for a partial
/// read is not continued. An answer that does not belong to the step is a
/// read error too, and a load that is over stays as it is.
pub open spec fn read_step_after(step: ReadStep, event: ReadEvent) -> ReadStep {
    match step {
        ReadStep::OpenFile => match event {
            ReadEvent::Opened => ReadStep::QuerySize,
            ReadEvent::Failed => ReadStep::Failed(LoadError::ImageNotFound),
            _ => ReadStep::Failed(LoadError::ReadError),
        },
        ReadStep::QuerySize => match event {
            ReadEvent::Size(len) => ReadStep::ReadInto { len },
            _ => ReadStep::Failed(LoadError::ReadError),
        },
        ReadStep::ReadInto { len } => match event {
            ReadEvent::Read(n) => if n == len {
                ReadStep::Loaded { len }
            } else {
                ReadStep::Failed(LoadError::ReadError)
            },
            _ => ReadStep::Failed(LoadError::ReadError),
        },
        ReadStep::Loaded { len } => ReadStep::Loaded { len },
        ReadStep::Failed(e) => ReadStep::Failed(e),
    }
}

/// The top of a stack of `KERNEL_STACK_PAGES` pages that starts at `base`.
pub open spec fn stack_top_of(base: int) -> int {
    base + KERNEL_STACK_PAGES * PAGE_SIZE
}

/// The stage the loader starts with.
pub fn first_stage() -> (stage: Stage)
    ensures
        position(stage) == 0,
{
    Stage::SetupGraphics
}

/// Decides what follows a stage.
pub fn next_step(stage: Stage, ok: bool) -> (step: Step)
    ensures
        step == step_after(stage, ok),
{
    if !ok {
        return Step::Abort(stage);
    }
    match stage {
        Stage::SetupGraphics => Step::Run(Stage::LoadKernel),
        Stage::LoadKernel => Step::Run(Stage::LoadSegments),
        Stage::LoadSegments => Step::Run(Stage::MapMemory),
        Stage::MapMemory => Step::Run(Stage::AllocateStack),
        Stage::AllocateStack => Step::Run(Stage::CollectMemoryMap),
        Stage::CollectMemoryMap => Step::Run(Stage::FindRsdp),
        Stage::FindRsdp => Step::Run(Stage::PlaceBootInfo),
        Stage::PlaceBootInfo => Step::Run(Stage::ExitBootServices),
        Stage::ExitBootServices => Step::Run(Stage::EnterKernel),
        Stage::EnterKernel => Step::Finished,
    }
}

/// Decides what follows the firmware's answer to a step of reading the
/// kernel file. The first step is `ReadStep::OpenFile`.
pub fn load_kernel(step: ReadStep, event: ReadEvent) -> (next: ReadStep)
    ensures
        next == read_step_after(step, event),
{
    match step {
        ReadStep::OpenFile => match event {
            ReadEvent::Opened => ReadStep::QuerySize,
            ReadEvent::Failed => ReadStep::Failed(LoadError::ImageNotFound),
            _ => ReadStep::Failed(LoadError::ReadError),
        },
        ReadStep::QuerySize => match event {
            ReadEvent::Size(len) => ReadStep::ReadInto { len },
            _ => ReadStep::Failed(LoadError::ReadError),
        },
        ReadStep::ReadInto { len } => match event {
            ReadEvent::Read(n) => {
                if n == len {
                    ReadStep::Loaded { len }
                } else {
                    ReadStep::Failed(LoadError::ReadError)
                }
            },
            _ => ReadStep::Failed(LoadError::ReadError),
        },
        ReadStep::Loaded { len } => ReadStep::Loaded { len },
        ReadStep::Failed(e) => ReadStep::Failed(e),
    }
}

/// Prepares the jump into the kernel.
///
/// `stack_base` is the address of the lowest of the stack's pages. The stack
/// pointer is set to the end of the stack, which grows downwards; a stack
/// that would end beyond the last address is refused.
pub fn prepare_handoff(entry_point: u64, boot_info: &BootInfo, boot_info_addr: u64, stack_base: u64)
    -> (r: Result<Handoff, HandoffError>)
    ensures
        stack_top_of(stack_base as int) > u64::MAX ==> r == Err::<Handoff, HandoffError>(
            HandoffError::StackOutOfRange,
        ),
        stack_top_of(stack_base as int) <= u64::MAX ==> {
            &&& r is Ok
            &&& r->Ok_0.entry_point == entry_point
            &&& r->Ok_0.boot_info_addr == boot_info_addr
            &&& r->Ok_0.stack_top == stack_top_of(stack_base as int)
            &&& r->Ok_0.block@ == encoded(*boot_info)
            &&& r->Ok_0.block@.len() == BOOT_INFO_SIZE
            &&& r->Ok_0.block@.len() <= BOOT_INFO_PAGES * PAGE_SIZE
        },
{
    if stack_base > u64::MAX - KERNEL_STACK_PAGES * PAGE_SIZE {
        return Err(HandoffError::StackOutOfRange);
    }
    Ok(
        Handoff {
            entry_point,
            boot_info_addr,
            stack_top: stack_base + KERNEL_STACK_PAGES * PAGE_SIZE,
            block: boot_info.to_bytes(),
        },
    )
}

/// The kernel file counts as loaded only after it was opened, its size was
/// learnt, and one read returned exactly that many bytes.
pub proof fn lemma_loaded_means_read_in_full(first: ReadEvent, second: ReadEvent, third: ReadEvent)
    ensures
        ({
            let opened = read_step_after(ReadStep::OpenFile, first);
            let sized = read_step_after(opened, second);
            let read = read_step_after(sized, third);
            &&& !(opened is Loaded) && !(sized is Loaded)
            &&& read is Loaded <==> first == ReadEvent::Opened && second is Size && third
                == ReadEvent::Read(second->Size_0)
            &&& read is Loaded ==> read == (ReadStep::Loaded { len: second->Size_0 })
            &&& opened == ReadStep::Failed(LoadError::ImageNotFound) <==> first
                == ReadEvent::Failed
        }),
{
}

/// The loader's course is a straight line: a stage that ends well is
/// followed by the stage one place further, and the boot services are left
/// only when every stage that needs them is over.
pub proof fn lemma_course_is_ordered(stage: Stage)
    ensures
        0 <= position(stage) < STAGE_COUNT,
        stage != Stage::EnterKernel ==> step_after(stage, true) is Run && position(
            step_after(stage, true)->Run_0,
        ) == position(stage) + 1,
        step_after(stage, false) == Step::Abort(stage),
        uses_boot_services(stage) <==> position(stage) <= position(Stage::ExitBootServices),
        stage == Stage::PlaceBootInfo || stage == Stage::CollectMemoryMap ==> position(stage)
            < position(Stage::ExitBootServices),
{
}

} // verus!
