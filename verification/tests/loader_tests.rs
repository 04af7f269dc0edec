use rustos_boot::boot_info::{BootInfo, FramebufferInfo, MemoryMapInfo};
use rustos_boot::loader::{
    first_stage, load_kernel, next_step, prepare_handoff, HandoffError, LoadError, ReadEvent,
    ReadStep, Stage, Step,
};

fn info() -> BootInfo {
    BootInfo {
        memory_map: MemoryMapInfo { entries: 0x7000_0000, entry_count: 12, entry_size: 48 },
        framebuffer: FramebufferInfo {
            addr: 0x8000_0000,
            width: 1024,
            height: 768,
            pitch: 4096,
            bpp: 32,
            red_mask: 0xff_0000,
            green_mask: 0xff00,
            blue_mask: 0xff,
        },
        rsdp_addr: Some(0xe_0000),
    }
}

#[test]
fn stages_run_in_their_order() {
    let expected = [
        Stage::SetupGraphics,
        Stage::LoadKernel,
        Stage::LoadSegments,
        Stage::MapMemory,
        Stage::AllocateStack,
        Stage::CollectMemoryMap,
        Stage::FindRsdp,
        Stage::PlaceBootInfo,
        Stage::ExitBootServices,
        Stage::EnterKernel,
    ];
    let mut stage = first_stage();
    let mut seen = vec![stage];
    loop {
        match next_step(stage, true) {
            Step::Run(next) => {
                seen.push(next);
                stage = next;
            }
            Step::Finished => break,
            Step::Abort(_) => panic!("a stage that ended well aborted the course"),
        }
    }
    assert_eq!(seen, expected.to_vec());
}

#[test]
fn failed_stage_aborts_and_is_named() {
    for stage in [
        Stage::SetupGraphics,
        Stage::LoadKernel,
        Stage::LoadSegments,
        Stage::MapMemory,
        Stage::AllocateStack,
        Stage::CollectMemoryMap,
        Stage::FindRsdp,
        Stage::PlaceBootInfo,
        Stage::ExitBootServices,
        Stage::EnterKernel,
    ] {
        assert_eq!(next_step(stage, false), Step::Abort(stage));
    }
}

#[test]
fn whole_read_loads_the_file() {
    let step = load_kernel(ReadStep::OpenFile, ReadEvent::Opened);
    assert_eq!(step, ReadStep::QuerySize);
    let step = load_kernel(step, ReadEvent::Size(123_456));
    assert_eq!(step, ReadStep::ReadInto { len: 123_456 });
    let step = load_kernel(step, ReadEvent::Read(123_456));
    assert_eq!(step, ReadStep::Loaded { len: 123_456 });
}

#[test]
fn empty_file_is_loaded_too() {
    let step = load_kernel(ReadStep::ReadInto { len: 0 }, ReadEvent::Read(0));
    assert_eq!(step, ReadStep::Loaded { len: 0 });
}

#[test]
fn file_that_cannot_be_opened_is_not_found() {
    assert_eq!(
        load_kernel(ReadStep::OpenFile, ReadEvent::Failed),
        ReadStep::Failed(LoadError::ImageNotFound)
    );
}

#[test]
fn unknown_size_is_a_read_error() {
    assert_eq!(
        load_kernel(ReadStep::QuerySize, ReadEvent::Failed),
        ReadStep::Failed(LoadError::ReadError)
    );
}

#[test]
fn partial_read_is_an_error() {
    let reading = ReadStep::ReadInto { len: 123_456 };
    assert_eq!(load_kernel(reading, ReadEvent::Read(123_455)), ReadStep::Failed(LoadError::ReadError));
    assert_eq!(load_kernel(reading, ReadEvent::Read(0)), ReadStep::Failed(LoadError::ReadError));
    assert_eq!(load_kernel(reading, ReadEvent::Read(123_457)), ReadStep::Failed(LoadError::ReadError));
    assert_eq!(load_kernel(reading, ReadEvent::Failed), ReadStep::Failed(LoadError::ReadError));
}

#[test]
fn answer_to_another_step_is_a_read_error() {
    assert_eq!(
        load_kernel(ReadStep::OpenFile, ReadEvent::Size(5)),
        ReadStep::Failed(LoadError::ReadError)
    );
    assert_eq!(
        load_kernel(ReadStep::QuerySize, ReadEvent::Opened),
        ReadStep::Failed(LoadError::ReadError)
    );
    assert_eq!(
        load_kernel(ReadStep::ReadInto { len: 5 }, ReadEvent::Size(5)),
        ReadStep::Failed(LoadError::ReadError)
    );
}

#[test]
fn finished_load_stays_as_it_is() {
    for event in [ReadEvent::Opened, ReadEvent::Size(1), ReadEvent::Read(1), ReadEvent::Failed] {
        assert_eq!(load_kernel(ReadStep::Loaded { len: 9 }, event), ReadStep::Loaded { len: 9 });
        assert_eq!(
            load_kernel(ReadStep::Failed(LoadError::ImageNotFound), event),
            ReadStep::Failed(LoadError::ImageNotFound)
        );
    }
}

#[test]
fn handoff_sets_the_stack_pointer_past_sixteen_pages() {
    let h = prepare_handoff(0x10_0040, &info(), 0x7fff_0000, 0x7ffe_0000).unwrap();
    assert_eq!(h.entry_point, 0x10_0040);
    assert_eq!(h.boot_info_addr, 0x7fff_0000);
    assert_eq!(h.stack_top, 0x7ffe_0000 + 0x1_0000);
    assert_eq!(h.block, info().to_bytes());
    assert_eq!(h.block.len(), 80);
    assert_eq!(BootInfo::from_bytes(&h.block), Ok(info()));
}

#[test]
fn stack_beyond_the_last_address_is_refused() {
    assert_eq!(
        prepare_handoff(0x10_0040, &info(), 0x7fff_0000, u64::MAX - 0xffff),
        Err(HandoffError::StackOutOfRange)
    );
    let h = prepare_handoff(0x10_0040, &info(), 0x7fff_0000, u64::MAX - 0x1_0000).unwrap();
    assert_eq!(h.stack_top, u64::MAX);
}
