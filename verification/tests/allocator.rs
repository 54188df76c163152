use oxideos::allocator::{
    has_heap_region, heap_region_of, heap_stats, init_heap, BumpAllocator, HeapInitError,
    MemoryRegion as HeapRegion,
};
use oxideos::memory_map::{from_entries,
    MemoryMap, MemoryMapError, MemoryRegion, MemoryRegionType, MAX_REGIONS,
};
use oxideos::page_allocator::{
    allocate_page, allocate_pages, free_page, free_pages, init_page_allocator,
    page_allocator_stats, PageAllocator, PageAllocatorStats, PageError, MAX_PAGES,
};
use oxideos::paging::{map_page, map_range, setup_identity_paging};

fn map_of(regions: &[(u64, u64, MemoryRegionType)]) -> MemoryMap {
    let mut map = MemoryMap::new();
    for (base, length, kind) in regions {
        assert!(map.add_region(MemoryRegion::new(*base, *length, *kind)).is_ok());
    }
    map
}

#[test]
fn memory_map_keeps_regions_in_order() {
    let mut map = MemoryMap::new();
    assert_eq!(map.len(), 0);
    assert!(map.get(0).is_none());
    assert!(map.add_region(MemoryRegion::new(1, 2, MemoryRegionType::Usable)).is_ok());
    assert!(map.add_region(MemoryRegion::new(3, 4, MemoryRegionType::Bad)).is_ok());
    assert_eq!(map.len(), 2);
    assert_eq!(map.region(1).base, 3);
    assert_eq!(map.get(1).unwrap().region_type, MemoryRegionType::Bad);
    assert!(map.get(2).is_none());
    let mut iter = map.iter();
    let first = iter.next().unwrap();
    assert_eq!((first.base, first.length, first.region_type), (1, 2, MemoryRegionType::Usable));
    assert_eq!(iter.next().unwrap().base, 3);
    assert!(iter.next().is_none());
    assert!(iter.next().is_none());
}

#[test]
fn memory_map_refuses_the_thirty_third_region() {
    let mut map = MemoryMap::new();
    for i in 0..MAX_REGIONS as u64 {
        assert_eq!(map.add_region(MemoryRegion::new(i, 1, MemoryRegionType::Reserved)), Ok(()));
    }
    assert_eq!(
        map.add_region(MemoryRegion::new(99, 1, MemoryRegionType::Usable)),
        Err(MemoryMapError::Full)
    );
    assert_eq!(map.len(), 32);
    assert_eq!(map.region(31).base, 31);
    assert_eq!(MemoryMapError::Full.message(), "memory map full");
}

#[test]
fn region_allocates_front_to_back() {
    let mut region = HeapRegion::new(0x1000, 0x100);
    assert_eq!(region.available(), 0x100);
    assert_eq!(region.size(), 0x100);
    assert_eq!(region.allocate(0x10, 1), Some(0x1000));
    assert_eq!(region.used, 0x10);
    assert_eq!(region.allocate(1, 0x20), Some(0x1020));
    assert_eq!(region.used, 0x21);
    assert_eq!(region.allocate(0xDF, 1), Some(0x1021));
    assert_eq!(region.available(), 0);
    assert_eq!(region.allocate(1, 1), None);
    assert_eq!(region.allocate(0, 1), Some(0x1100));
}

#[test]
fn region_turns_down_what_does_not_fit() {
    let mut region = HeapRegion::new(0x1001, 0x20);
    assert_eq!(region.allocate(0x20, 0x10), None);
    assert_eq!(region.used, 0);
    assert_eq!(region.allocate(0x11, 0x10), Some(0x1010));
    assert_eq!(region.used, 0x20);
    assert_eq!(region.allocate(u64::MAX, 1), None);
    let mut high = HeapRegion::new(u64::MAX - 4, 4);
    assert_eq!(high.allocate(1, 0x1000), None);
    assert_eq!(high.used, 0);
}

#[test]
fn block_at_address_zero_is_taken_but_not_handed_out() {
    let mut region = HeapRegion::new(0, 0x100);
    assert_eq!(region.allocate(0x10, 8), None);
    assert_eq!(region.used, 0x10);
    assert_eq!(region.allocate(0x10, 8), Some(0x10));
}

#[test]
fn heap_region_is_cut_and_aligned() {
    let region = |base, length| heap_region_of(&MemoryRegion::new(base, length, MemoryRegionType::Usable));
    assert_eq!(region(0x900000, 0x200000), Some(HeapRegion { start: 0x900000, end: 0xB00000, used: 0 }));
    assert_eq!(region(0x100000, 0x900000), Some(HeapRegion { start: 0x800000, end: 0xA00000, used: 0 }));
    assert_eq!(region(0x900001, 0x200000), Some(HeapRegion { start: 0x901000, end: 0xB00000, used: 0 }));
    assert_eq!(region(0x900000, 0x200FFF), Some(HeapRegion { start: 0x900000, end: 0xB00000, used: 0 }));
    assert_eq!(region(0x800800, 0x200000), Some(HeapRegion { start: 0x801000, end: 0xA00000, used: 0 }));
    assert_eq!(region(0x700800, 0x200000), Some(HeapRegion { start: 0x800000, end: 0x900000, used: 0 }));
    assert_eq!(region(0x100000, 0x700000), None);
    assert_eq!(
        region(u64::MAX - 0x100000, 0x200000),
        Some(HeapRegion { start: 0xFFFF_FFFF_FFF0_0000, end: 0xFFFF_FFFF_FFFF_F000, used: 0 })
    );
    assert_eq!(region(u64::MAX - 0x800, 0x800), None);
    assert_eq!(
        heap_region_of(&MemoryRegion::new(0x900000, 0x200000, MemoryRegionType::Reserved)),
        None
    );
}

#[test]
fn heap_region_needs_one_whole_page() {
    let region = |base, length| heap_region_of(&MemoryRegion::new(base, length, MemoryRegionType::Usable));
    assert_eq!(region(0x900000, 0xFFFFF), Some(HeapRegion { start: 0x900000, end: 0x9FF000, used: 0 }));
    assert_eq!(region(0x100000, 0x7FFFFF), Some(HeapRegion { start: 0x800000, end: 0x8FF000, used: 0 }));
    assert_eq!(region(0x900000, 0x1000), Some(HeapRegion { start: 0x900000, end: 0x901000, used: 0 }));
    assert_eq!(region(0x900000, 0xFFF), None);
    assert_eq!(region(0x900800, 0x17FF), None);
    assert_eq!(region(0x900800, 0x1800), Some(HeapRegion { start: 0x901000, end: 0x902000, used: 0 }));
    assert_eq!(region(0x7FF000, 0x1FFF), None);
    assert_eq!(region(0x7FF000, 0x2000), Some(HeapRegion { start: 0x800000, end: 0x801000, used: 0 }));
}

#[test]
fn bump_heap_without_usable_memory_fails() {
    let mut heap = BumpAllocator::new();
    assert!(!has_heap_region(&MemoryMap::new()));
    assert_eq!(init_heap(&mut heap, &MemoryMap::new()), Err(HeapInitError::NoUsableMemory));
    let map = map_of(&[
        (0x900000, 0x200000, MemoryRegionType::Reserved),
        (0, 0x800000, MemoryRegionType::Usable),
    ]);
    assert!(!has_heap_region(&map));
    assert_eq!(init_heap(&mut heap, &map), Err(HeapInitError::NoUsableMemory));
    assert_eq!(heap.allocate(16, 8), None);
    assert_eq!(heap.stats(), (0, 0, 0));
    assert_eq!(HeapInitError::NoUsableMemory.message(), "No usable memory for heap allocator");
    let map = map_of(&[
        (0, 0x800000, MemoryRegionType::Usable),
        (0x900000, 0x200000, MemoryRegionType::Usable),
    ]);
    assert!(has_heap_region(&map));
    assert_eq!(init_heap(&mut heap, &map), Ok(1));
    assert_eq!(heap.region(0), Some(HeapRegion { start: 0x900000, end: 0xB00000, used: 0 }));
}

#[test]
fn bump_heap_picks_the_first_region_with_room() {
    let mut heap = BumpAllocator::new();
    let map = map_of(&[
        (0x900000, 0x100000, MemoryRegionType::Usable),
        (0x2000000, 0x400000, MemoryRegionType::Usable),
    ]);
    assert_eq!(heap.init(&map), 2);
    assert_eq!(heap.stats(), (0, 0x500000, 0x500000));
    assert_eq!(heap_stats(&heap), (0, 0x500000, 0x500000));
    assert_eq!(heap.allocate(0x1000, 0x1000), Some(0x900000));
    assert_eq!(heap.allocate(3, 1), Some(0x901000));
    assert_eq!(heap.allocate(8, 8), Some(0x901008));
    // Too large for the first region: the second serves it.
    assert_eq!(heap.allocate(0x200000, 16), Some(0x2000000));
    assert_eq!(heap.region(0).unwrap().used, 0x1010);
    // The first region has room again for what follows, and comes first.
    assert_eq!(heap.allocate(0x10, 16), Some(0x901010));
    assert_eq!(heap.region(1).unwrap().used, 0x200000);
    // No region has room: nothing changes.
    assert_eq!(heap.allocate(0x300000, 16), None);
    assert_eq!(heap.region(0).unwrap().used, 0x1020);
    assert_eq!(heap.region(1).unwrap().used, 0x200000);
    assert_eq!(heap.allocate(0x80000, 0x1000), Some(0x902000));
    assert_eq!(heap.stats(), (0x1000 + 3 + 8 + 0x200000 + 0x10 + 0x80000, 0x500000 - 0x28101B, 0x500000));
    assert_eq!(heap.region(0).unwrap().used, 0x82000);
    assert_eq!(heap.region(1).unwrap().start, 0x2000000);
    assert_eq!(heap.region(1).unwrap().used, 0x200000);
    assert_eq!(heap.region(2), None);
    assert_eq!(heap.region(8), None);
    heap.dealloc(0x900000, 0x1000, 0x1000);
    assert_eq!(heap.region(0).unwrap().used, 0x82000);
}

#[test]
fn region_tells_whether_a_request_fits() {
    let mut region = HeapRegion::new(0x900000, 0x2000);
    assert!(region.fits(0x2000, 0x1000));
    assert!(!region.fits(0x2001, 1));
    assert_eq!(region.allocate(1, 1), Some(0x900000));
    assert!(region.fits(0x1000, 0x1000));
    assert!(!region.fits(0x1001, 0x1000));
    assert!(region.fits(0x1FFF, 1));
    assert!(!region.fits(u64::MAX, 1));
    assert_eq!(region.used, 1);
}

#[test]
fn bump_heap_keeps_at_most_eight_regions() {
    let mut regions = Vec::new();
    for i in 0..10u64 {
        regions.push((0x1000000 + i * 0x1000000, 0x100000, MemoryRegionType::Usable));
    }
    let mut heap = BumpAllocator::new();
    assert_eq!(heap.init(&map_of(&regions)), 8);
    assert_eq!(heap.stats().2, 0x800000);
    assert_eq!(heap.region(7).unwrap().start, 0x8000000);
}

#[test]
fn page_allocator_before_init() {
    let mut pages = PageAllocator::new();
    assert_eq!(pages.allocate_page(), None);
    assert_eq!(pages.allocate_pages(1), None);
    assert_eq!(pages.free_page(0), Err(PageError::NotInitialized));
    assert_eq!(pages.free_pages(0, 1), Err(PageError::NotInitialized));
    assert_eq!(pages.free_pages(0, 0), Err(PageError::ZeroCount));
    assert_eq!(pages.stats(), PageAllocatorStats { total_pages: 0, free_pages: 0 });
    assert_eq!(PageError::NotInitialized.message(), "allocator not initialized");
    assert_eq!(PageError::BelowBase.message(), "address below base");
    assert_eq!(PageError::OutOfRange.message(), "address out of range");
    assert_eq!(PageError::AlreadyFree.message(), "page already free");
    assert_eq!(PageError::ZeroCount.message(), "count is zero");
    assert_eq!(PageError::RangeOutOfBounds.message(), "range out of bounds");
}

#[test]
fn page_allocator_hands_out_the_lowest_free_page() {
    let mut pages = PageAllocator::new();
    pages.init(0x100000, 4);
    assert_eq!(pages.stats(), PageAllocatorStats { total_pages: 4, free_pages: 4 });
    assert_eq!(pages.allocate_page(), Some(0x100000));
    assert_eq!(pages.allocate_page(), Some(0x101000));
    assert_eq!(pages.free_page(0x100000), Ok(()));
    assert_eq!(pages.free_page(0x100000), Err(PageError::AlreadyFree));
    assert_eq!(pages.free_page(0xFFFFF), Err(PageError::BelowBase));
    assert_eq!(pages.free_page(0x104000), Err(PageError::OutOfRange));
    assert_eq!(pages.allocate_page(), Some(0x100000));
    assert_eq!(pages.allocate_page(), Some(0x102000));
    assert_eq!(pages.allocate_page(), Some(0x103000));
    assert_eq!(pages.allocate_page(), None);
    assert_eq!(pages.stats().free_pages, 0);
    assert_eq!(pages.free_page(0x102FFF), Ok(()));
    assert_eq!(pages.stats().free_pages, 1);
}

#[test]
fn page_allocator_finds_the_lowest_run() {
    let mut pages = PageAllocator::new();
    pages.init(0, 8);
    assert_eq!(pages.allocate_pages(3), Some(0));
    assert_eq!(pages.allocate_pages(2), Some(0x3000));
    assert_eq!(pages.free_page(0x1000), Ok(()));
    assert_eq!(pages.free_page(0x3000), Ok(()));
    assert_eq!(pages.allocate_pages(2), Some(0x5000));
    assert_eq!(pages.allocate_pages(2), None);
    assert_eq!(pages.allocate_pages(0), None);
    assert_eq!(pages.allocate_pages(9), None);
    assert_eq!(pages.stats().free_pages, 3);
    assert_eq!(pages.allocate_pages(1), Some(0x1000));
    assert_eq!(pages.free_pages(0, 8), Ok(()));
    assert_eq!(pages.stats().free_pages, 8);
    assert_eq!(pages.allocate_pages(8), Some(0));
    assert_eq!(pages.free_pages(0x2000, 7), Err(PageError::RangeOutOfBounds));
    assert_eq!(pages.free_pages(0x2000, 6), Ok(()));
    assert_eq!(pages.stats().free_pages, 6);
    assert_eq!(pages.allocate_page(), Some(0x2000));
}

#[test]
fn page_allocator_is_capped() {
    let mut pages = PageAllocator::new();
    init_page_allocator(&mut pages, 0x1000, MAX_PAGES + 5);
    assert_eq!(
        page_allocator_stats(&pages),
        PageAllocatorStats { total_pages: MAX_PAGES, free_pages: MAX_PAGES }
    );
    assert_eq!(allocate_pages(&mut pages, MAX_PAGES), Some(0x1000));
    assert_eq!(allocate_page(&mut pages), None);
    assert_eq!(free_page(&mut pages, 0x1000 + 4096 * (MAX_PAGES as u64 - 1)), Ok(()));
    assert_eq!(free_page(&mut pages, 0x1000 + 4096 * MAX_PAGES as u64), Err(PageError::OutOfRange));
    assert_eq!(free_pages(&mut pages, 0x1000, 2), Ok(()));
    assert_eq!(page_allocator_stats(&pages).free_pages, 3);
    assert_eq!(allocate_page(&mut pages), Some(0x1000));
}

#[test]
fn early_paging_always_succeeds() {
    assert_eq!(map_page(0x1000, 0x2000, 3), Ok(()));
    assert_eq!(map_range(0x1000, 0x2000, 0, 3), Ok(()));
    assert_eq!(map_range(0x1000, 0xFFFF_FFFF_FFFF_0000, 16, 3), Ok(()));
    assert_eq!(setup_identity_paging(), Ok(()));
}

#[test]
fn usable_entries_come_first_in_the_map() {
    let entries = [
        MemoryRegion::new(0, 0x1000, MemoryRegionType::Reserved),
        MemoryRegion::new(0x1000, 0x2000, MemoryRegionType::Usable),
        MemoryRegion::new(0x3000, 0x1000, MemoryRegionType::Acpi),
        MemoryRegion::new(0x4000, 0x8000, MemoryRegionType::Usable),
    ];
    let map = from_entries(&entries);
    let bases: Vec<u64> = (0..map.len()).map(|i| map.region(i).base).collect();
    assert_eq!(bases, vec![0x1000, 0x4000, 0, 0x3000]);
    assert_eq!(map.region(0).region_type, MemoryRegionType::Usable);
    assert_eq!(map.region(3).region_type, MemoryRegionType::Acpi);
    assert_eq!(from_entries(&[]).len(), 0);
}

#[test]
fn map_of_many_entries_keeps_the_usable_ones() {
    let mut entries = Vec::new();
    for i in 0..40u64 {
        let kind = if i % 4 == 3 { MemoryRegionType::Usable } else { MemoryRegionType::Reserved };
        entries.push(MemoryRegion::new(i * 0x1000, 0x1000, kind));
    }
    let map = from_entries(&entries);
    assert_eq!(map.len(), 32);
    for i in 0..10 {
        assert_eq!(map.region(i).base, (4 * i as u64 + 3) * 0x1000);
        assert_eq!(map.region(i).region_type, MemoryRegionType::Usable);
    }
    let others: Vec<u64> = (10..32).map(|i| map.region(i).base / 0x1000).collect();
    let expected: Vec<u64> = (0..40u64).filter(|i| i % 4 != 3).take(22).collect();
    assert_eq!(others, expected);

    let usable: Vec<MemoryRegion> =
        (0..35u64).map(|i| MemoryRegion::new(i * 0x1000, 0x1000, MemoryRegionType::Usable)).collect();
    let map = from_entries(&usable);
    assert_eq!(map.len(), 32);
    assert_eq!(map.region(31).base, 31 * 0x1000);
}
