use std::cell::RefCell;
use std::rc::Rc;

use memory::paging::mock_page_table::{MockPageTable, PageFaultHandler};
use memory::paging::{Entry, PageTable, MEMORY_SIZE, PAGE_COUNT};
use memory::PAGE_SIZE;

/// Maps each faulting page to the frame of the same address, and counts.
struct Repair {
    count: Rc<RefCell<usize>>,
}

impl PageFaultHandler for Repair {
    fn handle(&mut self, pt: &mut MockPageTable<Repair>, addr: usize) {
        *self.count.borrow_mut() += 1;
        if pt.get_entry(addr).present() {
            pt.get_entry(addr).set_writable(true);
        } else {
            pt.map(addr, addr);
        }
    }
}

/// Counts the faults it is given and repairs nothing.
struct Ignore {
    count: Rc<RefCell<usize>>,
}

impl PageFaultHandler for Ignore {
    fn handle(&mut self, _pt: &mut MockPageTable<Ignore>, _addr: usize) {
        *self.count.borrow_mut() += 1;
    }
}

fn repairing() -> (MockPageTable<Repair>, Rc<RefCell<usize>>) {
    let count = Rc::new(RefCell::new(0usize));
    let mut pt = MockPageTable::new();
    pt.set_handler(Repair { count: count.clone() });
    (pt, count)
}

#[test]
fn fresh_table_has_no_mapping() {
    let mut pt: MockPageTable<Repair> = MockPageTable::new();
    assert!(!pt.has_handler());
    assert_eq!(MEMORY_SIZE, PAGE_SIZE * PAGE_COUNT);
    for page in 0..PAGE_COUNT {
        let e = pt.get_entry(page * PAGE_SIZE);
        assert!(!e.present());
        assert!(!e.writable());
        assert!(!e.accessed());
        assert!(!e.dirty());
    }
}

#[test]
fn map_sets_present_writable_and_masks_target() {
    let mut pt: MockPageTable<Repair> = MockPageTable::new();
    let e = pt.map(0x3456, 0x5abc);
    assert!(e.present());
    assert!(e.writable());
    assert!(!e.accessed());
    assert!(!e.dirty());
    assert_eq!(e.target(), 0x5000);
    assert_eq!(pt.get_entry(0x3000).target(), 0x5000);
    assert!(pt.get_entry(0x3fff).present());
    assert!(!pt.get_entry(0x4000).present());
}

#[test]
fn map_returns_entry_for_adjustment() {
    let (mut pt, count) = repairing();
    pt.map(0x1000, 0x2000).set_writable(false);
    assert!(!pt.get_entry(0x1000).writable());
    assert_eq!(pt.read(0x1000), Some(0));
    assert_eq!(*count.borrow(), 0);
}

#[test]
fn write_then_read_round_trip() {
    let mut pt: MockPageTable<Repair> = MockPageTable::new();
    pt.map(0x7000, 0x2000);
    for (i, b) in [0u8, 1, 0x7f, 0x80, 0xff].iter().enumerate() {
        let addr = 0x7000 + 0x123 * i;
        assert!(pt.write(addr, *b));
        assert_eq!(pt.read(addr), Some(*b));
    }
}

#[test]
fn last_byte_of_address_space() {
    let mut pt: MockPageTable<Repair> = MockPageTable::new();
    let last = PAGE_COUNT * PAGE_SIZE - 1;
    pt.map(last, MEMORY_SIZE - PAGE_SIZE);
    assert!(pt.write(last, 0x5a));
    assert_eq!(pt.read(last), Some(0x5a));
    assert_eq!(pt.read(last - 1), Some(0));
}

#[test]
fn shared_frame_is_seen_through_both_pages() {
    let mut pt: MockPageTable<Repair> = MockPageTable::new();
    pt.map(0x4000, 0x9000);
    pt.map(0xa000, 0x9000);
    assert!(pt.write(0x4321, 0x42));
    assert_eq!(pt.read(0xa321), Some(0x42));
    assert!(pt.write(0xa322, 0x43));
    assert_eq!(pt.read(0x4322), Some(0x43));
    assert_eq!(pt.read(0xa320), Some(0));
}

#[test]
fn accessed_and_dirty_bits() {
    let mut pt: MockPageTable<Repair> = MockPageTable::new();
    pt.map(0x2000, 0x2000);
    assert!(!pt.get_entry(0x2000).accessed());
    assert!(!pt.get_entry(0x2000).dirty());

    pt.read(0x2010);
    assert!(pt.get_entry(0x2000).accessed());
    assert!(!pt.get_entry(0x2000).dirty());

    pt.write(0x2010, 9);
    assert!(pt.get_entry(0x2000).accessed());
    assert!(pt.get_entry(0x2000).dirty());

    pt.get_entry(0x2000).clear_accessed();
    assert!(!pt.get_entry(0x2000).accessed());
    assert!(pt.get_entry(0x2000).dirty());

    pt.read(0x2000);
    pt.get_entry(0x2000).clear_dirty();
    assert!(pt.get_entry(0x2000).accessed());
    assert!(!pt.get_entry(0x2000).dirty());
}

#[test]
fn unmap_clears_only_present() {
    let mut pt: MockPageTable<Repair> = MockPageTable::new();
    pt.map(0x1000, 0x6000);
    pt.write(0x1000, 1);
    pt.unmap(0x1fff);
    let e = pt.get_entry(0x1000);
    assert!(!e.present());
    assert!(e.writable());
    assert!(e.accessed());
    assert!(e.dirty());
    assert_eq!(e.target(), 0x6000);
}

#[test]
fn permitted_access_does_not_fault() {
    let (mut pt, count) = repairing();
    pt.map(0x0, 0x0);
    assert_eq!(pt.read(0x10), Some(0));
    assert!(pt.write(0x10, 7));
    assert_eq!(pt.read(0x10), Some(7));
    pt.get_entry(0).set_writable(false);
    assert_eq!(pt.read(0x10), Some(7));
    assert_eq!(*count.borrow(), 0);
}

#[test]
fn read_of_absent_page_faults_once_then_succeeds() {
    let (mut pt, count) = repairing();
    assert_eq!(pt.read(0x3000), None);
    assert_eq!(*count.borrow(), 1);
    assert!(pt.get_entry(0x3000).present());
    assert_eq!(pt.read(0x3000), Some(0));
    assert_eq!(*count.borrow(), 1);
}

#[test]
fn write_to_read_only_page_faults() {
    let (mut pt, count) = repairing();
    pt.map(0x5000, 0x5000);
    pt.get_entry(0x5000).set_writable(false);
    assert!(!pt.write(0x5000, 1));
    assert_eq!(*count.borrow(), 1);
    assert!(!pt.get_entry(0x5000).dirty());
    assert!(pt.write(0x5000, 1));
    assert_eq!(*count.borrow(), 1);
    assert_eq!(pt.read(0x5000), Some(1));
}

#[test]
fn unrepaired_fault_is_dispatched_on_every_attempt() {
    let count = Rc::new(RefCell::new(0usize));
    let mut pt = MockPageTable::new();
    pt.set_handler(Ignore { count: count.clone() });
    for attempt in 1..=3 {
        assert_eq!(pt.read(0x8000), None);
        assert_eq!(*count.borrow(), attempt);
    }
    assert!(!pt.write(0x8000, 1));
    assert_eq!(*count.borrow(), 4);
    assert!(pt.has_handler());
}

#[test]
fn aliased_pages_scenario() {
    let mut pt: MockPageTable<Repair> = MockPageTable::new();
    pt.map(0x0, 0x0);
    pt.map(0x1000, 0x1000);
    pt.map(0x2000, 0x1000);
    assert!(pt.write(0x0, 1));
    assert!(pt.write(0x1, 2));
    assert!(pt.write(0x1000, 3));
    assert_eq!(pt.read(0x0), Some(1));
    assert_eq!(pt.read(0x1), Some(2));
    assert_eq!(pt.read(0x1000), Some(3));
    assert_eq!(pt.read(0x2000), Some(3));
}

#[test]
fn write_fault_maps_page_scenario() {
    let (mut pt, count) = repairing();
    while !pt.write(0x1000, 0xff) {}
    assert_eq!(*count.borrow(), 1);
    let e = pt.get_entry(0x1000);
    assert!(e.present());
    assert!(e.writable());
    assert_eq!(pt.read(0x1000), Some(0xff));
}
