use oxideos::frame_allocator::{PhysicalFrameAllocator, MAX_FRAMES, SAFE_START_FRAME};
use oxideos::memory_map::{MemoryMap, MemoryRegion, MemoryRegionType};

fn map_of(regions: &[(u64, u64, MemoryRegionType)]) -> MemoryMap {
    let mut map = MemoryMap::new();
    for (base, length, kind) in regions {
        assert!(map.add_region(MemoryRegion::new(*base, *length, *kind)).is_ok());
    }
    map
}

#[test]
fn single_usable_region_is_tracked() {
    let map = map_of(&[(0x900000, 0x200000, MemoryRegionType::Usable)]);
    let mut frames = PhysicalFrameAllocator::new();
    frames.init(&map);
    assert_eq!(frames.total_frames(), 512);
    assert_eq!(frames.allocate_frame(), Some(0x900000));
    assert_eq!(frames.allocate_frame(), Some(0x901000));
    assert_eq!(frames.allocated_frames(), 2);
}

#[test]
fn fresh_allocator_counts_every_frame_as_free() {
    let mut frames = PhysicalFrameAllocator::new();
    assert!(frames.is_free(0));
    assert!(frames.is_free(MAX_FRAMES - 1));
    assert!(!frames.is_free(MAX_FRAMES));
    assert_eq!(frames.allocate_frame(), Some(0));
    assert_eq!(frames.allocate_frame(), Some(4096));
    assert!(!frames.is_free(0));
}

#[test]
fn frames_below_the_safe_start_are_never_tracked() {
    let map = map_of(&[(0, 0x1000000, MemoryRegionType::Usable)]);
    let mut frames = PhysicalFrameAllocator::new();
    frames.init(&map);
    assert_eq!(frames.total_frames(), 4096 - SAFE_START_FRAME);
    assert!(!frames.is_free(0));
    assert!(!frames.is_free(SAFE_START_FRAME - 1));
    assert!(frames.is_free(SAFE_START_FRAME));
    assert!(frames.is_free(4095));
    assert!(!frames.is_free(4096));
    assert_eq!(frames.allocate_frame(), Some(0x800000));
}

#[test]
fn unusable_and_short_regions_track_nothing() {
    let map = map_of(&[
        (0x900000, 0x200000, MemoryRegionType::Reserved),
        (0xC00000, 0xFFF, MemoryRegionType::Usable),
        (0xC00800, 0x17FF, MemoryRegionType::Usable),
        (0x100000, 0x700FFF, MemoryRegionType::Usable),
        (0xD00000, 0x100000, MemoryRegionType::Acpi),
        (0xE00000, 0x100000, MemoryRegionType::Nvs),
        (0xF00000, 0x100000, MemoryRegionType::Bad),
    ]);
    assert!(!PhysicalFrameAllocator::has_usable_frame(&map));
    assert!(!PhysicalFrameAllocator::has_usable_frame(&MemoryMap::new()));
    let with_one = map_of(&[
        (0x900000, 0x200000, MemoryRegionType::Reserved),
        (0xC00800, 0x1800, MemoryRegionType::Usable),
    ]);
    assert!(PhysicalFrameAllocator::has_usable_frame(&with_one));
    let mut frames = PhysicalFrameAllocator::new();
    frames.init(&with_one);
    assert_eq!(frames.total_frames(), 1);
    assert_eq!(frames.allocate_frame(), Some(0xC01000));
    assert_eq!(frames.allocate_frame(), None);
    assert_eq!(frames.allocated_frames(), 1);
}

#[test]
fn only_whole_frames_inside_an_entry_are_tracked() {
    let region = MemoryRegion::new(0x900800, 0x1800, MemoryRegionType::Usable);
    assert_eq!(PhysicalFrameAllocator::tracked_range(&region), (0x901, 0x902));
    let mut frames = PhysicalFrameAllocator::new();
    frames.init(&map_of(&[(0x900800, 0x1800, MemoryRegionType::Usable)]));
    assert!(!frames.is_free(0x900));
    assert!(frames.is_free(0x901));
    assert!(!frames.is_free(0x902));
    assert_eq!(frames.total_frames(), 1);

    let aligned = MemoryRegion::new(0x900000, 0x2FFF, MemoryRegionType::Usable);
    assert_eq!(PhysicalFrameAllocator::tracked_range(&aligned), (0x900, 0x902));
    let low = MemoryRegion::new(0x1000, 0x900000, MemoryRegionType::Usable);
    assert_eq!(PhysicalFrameAllocator::tracked_range(&low), (2048, 0x901));
    let high = MemoryRegion::new(0xFFFF000, u64::MAX, MemoryRegionType::Usable);
    assert_eq!(PhysicalFrameAllocator::tracked_range(&high), (0xFFFF, 65536));
    let beyond = MemoryRegion::new(u64::MAX, 0x1000, MemoryRegionType::Usable);
    let (first, end) = PhysicalFrameAllocator::tracked_range(&beyond);
    assert!(first >= end);
}

#[test]
fn frames_of_overlapping_entries_count_once() {
    let map = map_of(&[
        (0x900000, 0x4000, MemoryRegionType::Usable),
        (0x902000, 0x4000, MemoryRegionType::Usable),
        (0x900000, 0x1000, MemoryRegionType::Usable),
    ]);
    let mut frames = PhysicalFrameAllocator::new();
    frames.init(&map);
    assert_eq!(frames.total_frames(), 6);
    let free = (0..MAX_FRAMES).filter(|f| frames.is_free(*f)).count();
    assert_eq!(free, 6);
}

#[test]
fn init_starts_the_count_anew() {
    let map = map_of(&[(0x900000, 0x4000, MemoryRegionType::Usable)]);
    let mut frames = PhysicalFrameAllocator::new();
    frames.init(&map);
    frames.allocate_frame().unwrap();
    frames.allocate_frame().unwrap();
    frames.init(&map);
    assert_eq!(frames.allocated_frames(), 0);
    assert_eq!(frames.total_frames(), 4);
    let used = (0..MAX_FRAMES).filter(|f| !frames.is_free(*f)).count();
    assert_eq!(frames.allocated_frames() + (MAX_FRAMES - frames.total_frames()), used);
}

#[test]
fn regions_beyond_the_bitmap_are_cut_off() {
    let map = map_of(&[(0xFFFF000, 0x10000, MemoryRegionType::Usable)]);
    let mut frames = PhysicalFrameAllocator::new();
    frames.init(&map);
    assert_eq!(frames.total_frames(), 1);
    assert_eq!(frames.allocate_frame(), Some(0xFFFF000));
    assert_eq!(frames.allocate_frame(), None);
}

#[test]
fn total_frames_adds_up_region_by_region() {
    let map = map_of(&[
        (0x900000, 0x3000, MemoryRegionType::Usable),
        (0xA00000, 0x2000, MemoryRegionType::Usable),
    ]);
    let mut frames = PhysicalFrameAllocator::new();
    frames.init(&map);
    assert_eq!(frames.total_frames(), 5);
    let mut got = Vec::new();
    while let Some(addr) = frames.allocate_frame() {
        got.push(addr);
    }
    assert_eq!(got, vec![0x900000, 0x901000, 0x902000, 0xA00000, 0xA01000]);
}

#[test]
fn counter_follows_the_bitmap() {
    let map = map_of(&[(0x900000, 0x8000, MemoryRegionType::Usable)]);
    let mut frames = PhysicalFrameAllocator::new();
    frames.init(&map);
    let used = |f: &PhysicalFrameAllocator| (0x900..0x908).filter(|i| !f.is_free(*i)).count();
    assert_eq!(used(&frames), 0);
    let a = frames.allocate_frame().unwrap();
    let b = frames.allocate_frame().unwrap();
    let c = frames.allocate_frame().unwrap();
    assert_eq!(frames.allocated_frames(), used(&frames));
    frames.free_frame(b);
    assert_eq!(frames.allocated_frames(), 2);
    assert_eq!(frames.allocated_frames(), used(&frames));
    frames.free_frame(a);
    frames.free_frame(c);
    assert_eq!(frames.allocated_frames(), 0);
    assert_eq!(used(&frames), 0);
}

#[test]
fn consecutive_allocations_differ() {
    let map = map_of(&[(0x900000, 0x4000, MemoryRegionType::Usable)]);
    let mut frames = PhysicalFrameAllocator::new();
    frames.init(&map);
    let mut last = None;
    for _ in 0..4 {
        let got = frames.allocate_frame();
        assert!(got.is_some());
        assert_ne!(got, last);
        last = got;
    }
    assert_eq!(frames.allocate_frame(), None);
}

#[test]
fn cursor_moves_on_past_a_freed_frame() {
    let map = map_of(&[(0x900000, 0x4000, MemoryRegionType::Usable)]);
    let mut frames = PhysicalFrameAllocator::new();
    frames.init(&map);
    assert_eq!(frames.allocate_frame(), Some(0x900000));
    assert_eq!(frames.allocate_frame(), Some(0x901000));
    frames.free_frame(0x900000);
    assert_eq!(frames.allocate_frame(), Some(0x902000));
    assert_eq!(frames.allocate_frame(), Some(0x903000));
    assert_eq!(frames.allocate_frame(), Some(0x900000));
    assert_eq!(frames.allocate_frame(), None);
}

#[test]
fn double_free_changes_nothing() {
    let map = map_of(&[(0x900000, 0x2000, MemoryRegionType::Usable)]);
    let mut frames = PhysicalFrameAllocator::new();
    frames.init(&map);
    let a = frames.allocate_frame().unwrap();
    let b = frames.allocate_frame().unwrap();
    frames.free_frame(a);
    assert!(frames.is_free(0x900));
    assert_eq!(frames.allocated_frames(), 1);
    frames.free_frame(a);
    assert!(frames.is_free(0x900));
    assert!(!frames.is_free(0x901));
    assert_eq!(frames.allocated_frames(), 1);
    frames.free_frame(b);
    frames.free_frame(b);
    assert_eq!(frames.allocated_frames(), 0);
    let used = (0..MAX_FRAMES).filter(|f| !frames.is_free(*f)).count();
    assert_eq!(used, MAX_FRAMES - frames.total_frames());
}

#[test]
fn free_frame_ignores_what_was_never_handed_out() {
    let mut frames = PhysicalFrameAllocator::new();
    frames.free_frame(0x1000_0000);
    assert_eq!(frames.allocated_frames(), 0);
    frames.free_frame(0);
    assert_eq!(frames.allocated_frames(), 0);
    frames.free_frame(0x0FFF_FFFF);
    assert_eq!(frames.allocated_frames(), 0);

    // With nothing handed out, the frames in use are not there to be
    // handed out: they stay in use.
    frames.init(&map_of(&[(0x900000, 0x2000, MemoryRegionType::Usable)]));
    frames.free_frame(0x700000);
    assert!(!frames.is_free(0x700));
    assert_eq!(frames.allocated_frames(), 0);
    assert_eq!(frames.total_frames(), 2);
}

#[test]
fn mark_used_and_mark_free_toggle_one_frame() {
    let mut frames = PhysicalFrameAllocator::new();
    frames.mark_used(70);
    assert!(!frames.is_free(70));
    assert!(frames.is_free(69));
    assert!(frames.is_free(71));
    frames.mark_free(70);
    assert!(frames.is_free(70));
    frames.mark_used(MAX_FRAMES);
    frames.mark_free(MAX_FRAMES);
    assert!(!frames.is_free(MAX_FRAMES));
}

#[test]
fn misaligned_address_frees_its_frame() {
    let map = map_of(&[(0x900000, 0x2000, MemoryRegionType::Usable)]);
    let mut frames = PhysicalFrameAllocator::new();
    frames.init(&map);
    assert_eq!(frames.allocate_frame(), Some(0x900000));
    frames.free_frame(0x900FFF);
    assert!(frames.is_free(0x900));
}
