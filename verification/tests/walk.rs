use aarch64_paging::idmap::IdMap;
use aarch64_paging::paging::{Attributes, Descriptor, MemoryRegion};
use aarch64_paging::MapError;
use dbm::paging::byte_len;
use dbm::{flush_dirty_range, FlushRange};
use std::cell::RefCell;

const ASID: usize = 1;

/// What `flush_dirty_range` said of one descriptor, with the place where the
/// walk found it and whether the call left the descriptor as it was.
#[derive(Debug, PartialEq)]
struct Visit {
    start: usize,
    level: usize,
    owed: Result<Option<FlushRange>, ()>,
    untouched: bool,
}

/// Walks `range` and asks about every descriptor on the way.
fn visits(idmap: &IdMap, range: &MemoryRegion) -> Vec<Visit> {
    let mut seen = Vec::new();
    idmap
        .walk_range(range, &mut |va_range: &MemoryRegion, desc: &Descriptor, level: usize| {
            let mut copy = *desc;
            let owed = flush_dirty_range(va_range, &mut copy, level);
            seen.push(Visit { start: va_range.start().0, level, owed, untouched: copy == *desc });
            Ok(())
        })
        .unwrap();
    seen
}

#[test]
fn walk_flushes_writable_page() {
    let mut idmap = IdMap::new(ASID, 1);
    let page = MemoryRegion::new(0x4000_0000, 0x4000_1000);
    idmap.map_range(&page, Attributes::NORMAL | Attributes::VALID).unwrap();
    assert_eq!(
        visits(&idmap, &page),
        vec![Visit {
            start: 0x4000_0000,
            level: 3,
            owed: Ok(Some(FlushRange { start: 0x4000_0000, len: 4096 })),
            untouched: true,
        }]
    );
}

#[test]
fn walk_skips_read_only_page() {
    let mut idmap = IdMap::new(ASID, 1);
    let page = MemoryRegion::new(0x4000_0000, 0x4000_1000);
    idmap
        .map_range(&page, Attributes::NORMAL | Attributes::VALID | Attributes::READ_ONLY)
        .unwrap();
    assert_eq!(
        visits(&idmap, &page),
        vec![Visit { start: 0x4000_0000, level: 3, owed: Ok(None), untouched: true }]
    );
}

#[test]
fn walk_skips_read_only_block() {
    let mut idmap = IdMap::new(ASID, 1);
    let block = MemoryRegion::new(0x4020_0000, 0x4040_0000);
    idmap
        .map_range(&block, Attributes::NORMAL | Attributes::VALID | Attributes::READ_ONLY)
        .unwrap();
    assert_eq!(
        visits(&idmap, &block),
        vec![Visit { start: 0x4020_0000, level: 2, owed: Ok(None), untouched: true }]
    );
}

#[test]
fn walk_flushes_writable_block() {
    let mut idmap = IdMap::new(ASID, 1);
    let block = MemoryRegion::new(0x4020_0000, 0x4040_0000);
    idmap.map_range(&block, Attributes::NORMAL | Attributes::VALID).unwrap();
    assert_eq!(
        visits(&idmap, &block),
        vec![Visit {
            start: 0x4020_0000,
            level: 2,
            owed: Ok(Some(FlushRange { start: 0x4020_0000, len: 0x20_0000 })),
            untouched: true,
        }]
    );
}

#[test]
fn walk_skips_entry_that_is_no_leaf() {
    // A fresh table of the last level holds zero entries: neither pages nor,
    // at that level, blocks.
    let idmap = IdMap::new(ASID, 3);
    let page = MemoryRegion::new(0x1000, 0x2000);
    assert_eq!(
        visits(&idmap, &page),
        vec![Visit { start: 0x1000, level: 3, owed: Ok(None), untouched: true }]
    );
}

#[test]
fn walk_reports_malformed_descriptor() {
    let mut idmap = IdMap::new(ASID, 1);
    let block = MemoryRegion::new(0x4020_0000, 0x4040_0000);
    // Bit 52 is no attribute that the paging crate knows.
    let flags = Attributes::from_bits_retain(Attributes::VALID.bits() | 1 << 52);
    idmap.map_range(&block, flags).unwrap();
    assert_eq!(
        visits(&idmap, &block),
        vec![Visit { start: 0x4020_0000, level: 2, owed: Err(()), untouched: true }]
    );
}

#[test]
fn walk_visits_each_page_with_its_own_range() {
    let mut idmap = IdMap::new(ASID, 1);
    let writable = MemoryRegion::new(0x4000_0000, 0x4000_2000);
    let read_only = MemoryRegion::new(0x4000_2000, 0x4000_3000);
    idmap.map_range(&writable, Attributes::NORMAL | Attributes::VALID).unwrap();
    idmap
        .map_range(&read_only, Attributes::NORMAL | Attributes::VALID | Attributes::READ_ONLY)
        .unwrap();
    assert_eq!(
        visits(&idmap, &MemoryRegion::new(0x4000_0000, 0x4000_3000)),
        vec![
            Visit {
                start: 0x4000_0000,
                level: 3,
                owed: Ok(Some(FlushRange { start: 0x4000_0000, len: 0x1000 })),
                untouched: true,
            },
            Visit {
                start: 0x4000_1000,
                level: 3,
                owed: Ok(Some(FlushRange { start: 0x4000_1000, len: 0x1000 })),
                untouched: true,
            },
            Visit { start: 0x4000_2000, level: 3, owed: Ok(None), untouched: true },
        ]
    );
}

#[test]
fn modify_range_takes_the_callback_and_keeps_the_table() {
    let mut idmap = IdMap::new(ASID, 1);
    let pages = MemoryRegion::new(0x4000_0000, 0x4000_2000);
    idmap.map_range(&pages, Attributes::NORMAL | Attributes::VALID).unwrap();
    let before = format!("{:?}", idmap);
    let owed = RefCell::new(Vec::new());
    idmap
        .modify_range(&pages, &|va_range: &MemoryRegion, desc: &mut Descriptor, level: usize| {
            match flush_dirty_range(va_range, desc, level) {
                Ok(range) => {
                    owed.borrow_mut().push(range);
                    Ok(())
                }
                Err(()) => Err(()),
            }
        })
        .unwrap();
    assert_eq!(
        owed.into_inner(),
        vec![
            Some(FlushRange { start: 0x4000_0000, len: 0x1000 }),
            Some(FlushRange { start: 0x4000_1000, len: 0x1000 }),
        ]
    );
    assert_eq!(format!("{:?}", idmap), before);
}

#[test]
fn modify_range_stops_at_malformed_descriptor() {
    let mut idmap = IdMap::new(ASID, 1);
    let block = MemoryRegion::new(0x4020_0000, 0x4040_0000);
    let flags = Attributes::from_bits_retain(Attributes::VALID.bits() | 1 << 52);
    idmap.map_range(&block, flags).unwrap();
    let outcome = idmap.modify_range(
        &block,
        &|va_range: &MemoryRegion, desc: &mut Descriptor, level: usize| {
            match flush_dirty_range(va_range, desc, level) {
                Ok(_) => Ok(()),
                Err(()) => Err(()),
            }
        },
    );
    assert!(matches!(outcome, Err(MapError::PteUpdateFault(_))));
}

#[test]
fn region_that_ends_before_it_starts_has_no_bytes() {
    let mut idmap = IdMap::new(ASID, 1);
    let page = MemoryRegion::new(0x4000_0000, 0x4000_1000);
    idmap.map_range(&page, Attributes::NORMAL | Attributes::VALID).unwrap();
    let backwards = MemoryRegion::new(0x2000, 0x1000);
    assert_eq!(byte_len(&backwards), 0);
    let mut owed = Vec::new();
    idmap
        .walk_range(&page, &mut |_: &MemoryRegion, desc: &Descriptor, level: usize| {
            let mut copy = *desc;
            owed.push(flush_dirty_range(&backwards, &mut copy, level));
            Ok(())
        })
        .unwrap();
    assert_eq!(owed, vec![Ok(Some(FlushRange { start: 0x2000, len: 0 }))]);
}

#[test]
fn byte_len_is_the_distance_between_the_bounds() {
    assert_eq!(byte_len(&MemoryRegion::new(0x4000_0000, 0x4000_1000)), 0x1000);
    assert_eq!(byte_len(&MemoryRegion::new(0x4020_0000, 0x4040_0000)), 0x20_0000);
    assert_eq!(byte_len(&MemoryRegion::new(0x3000, 0x3000)), 0);
    // The bounds are those of whole pages.
    assert_eq!(byte_len(&MemoryRegion::new(0x1234, 0x5678)), 0x5000);
}
