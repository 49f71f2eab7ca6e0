//! A page table simulated in software: an array of entries, an array of bytes
//! standing for physical memory, and a page-fault handler that repairs mappings
//! on demand.
use vstd::prelude::*;

use crate::paging::{page_base, Entry, EntryState, PageTable, PageTableState, MEMORY_SIZE, PAGE_COUNT};
use crate::PAGE_SIZE;

verus! {

/// One simulated page-table entry.
#[derive(Default, Copy, Clone)]
pub struct MockEntry {
    target: usize,
    present: bool,
    writable: bool,
    accessed: bool,
    dirty: bool,
}

impl View for MockEntry {
    type V = EntryState;

    closed spec fn view(&self) -> EntryState {
        EntryState {
            target: self.target,
            present: self.present,
            writable: self.writable,
            accessed: self.accessed,
            dirty: self.dirty,
        }
    }
}

impl MockEntry {
    /// An entry that maps nothing, with every bit clear.
    fn empty() -> (r: MockEntry)
        ensures
            r@ == (EntryState {
                target: 0,
                present: false,
                writable: false,
                accessed: false,
                dirty: false,
            }),
    {
        MockEntry { target: 0, present: false, writable: false, accessed: false, dirty: false }
    }
}

impl Entry for MockEntry {
    fn accessed(&self) -> bool {
        self.accessed
    }

    fn dirty(&self) -> bool {
        self.dirty
    }

    fn writable(&self) -> bool {
        self.writable
    }

    fn present(&self) -> bool {
        self.present
    }

    fn clear_accessed(&mut self) {
        self.accessed = false;
    }

    fn clear_dirty(&mut self) {
        self.dirty = false;
    }

    fn set_writable(&mut self, value: bool) {
        self.writable = value;
    }

    fn set_present(&mut self, value: bool) {
        self.present = value;
    }

    fn target(&self) -> usize {
        self.target
    }
}

/// Code run when an access cannot proceed: the page is absent, or a write meets
/// a read-only page. It gets the table itself, to repair the mapping.
///
/// Each implementation says in `handles` what one call does. The table it is
/// given holds no handler while it runs: a fault raised from inside the
/// handler reaches no handler.
pub trait PageFaultHandler: Sized {
    /// One call for a fault at `addr` may turn this handler into `next` and
    /// the table's state from `before` into `after`. By default any outcome
    /// may come of a call.
    open spec fn handles(
        &self,
        next: Self,
        addr: usize,
        before: PageTableState,
        after: PageTableState,
    ) -> bool {
        true
    }

    fn handle(&mut self, table: &mut MockPageTable<Self>, addr: usize)
        requires
            old(table).handler() is None,
        ensures
            old(self).handles(*final(self), addr, old(table)@, final(table)@),
    ;
}

/// A fixed-size simulated address space.
pub struct MockPageTable<H> {
    entries: [MockEntry; PAGE_COUNT],
    data: [u8; MEMORY_SIZE],
    page_fault_handler: Option<H>,
}

impl<H> View for MockPageTable<H> {
    type V = PageTableState;

    closed spec fn view(&self) -> PageTableState {
        PageTableState { entries: self.entries@.map_values(|e: MockEntry| e@), memory: self.data@ }
    }
}

/// Clearing the low bits of an address gives the start of its page.
proof fn lemma_clear_offset(a: usize)
    ensures
        (a & !((PAGE_SIZE - 1) as usize)) as int == page_base(a as int),
{
    assert((a & !4095usize) == a - a % 4096) by (bit_vector);
}

/// Joining the start of a frame with the offset of an address in its page
/// gives their sum.
proof fn lemma_compose(t: usize, a: usize)
    ensures
        ((t & !((PAGE_SIZE - 1) as usize)) | (a & ((PAGE_SIZE - 1) as usize))) as int
            == page_base(t as int) + (a as int) % (PAGE_SIZE as int),
{
    assert(((t & !4095usize) | (a & 4095usize)) == (t - t % 4096) + a % 4096) by (bit_vector);
}

impl<H> MockPageTable<H> {
    /// The installed page-fault handler, if any.
    pub closed spec fn handler(&self) -> Option<H> {
        self.page_fault_handler
    }

    /// A table with every entry absent and clear, physical memory filled with
    /// zeros, and no handler.
    pub fn new() -> (r: Self)
        ensures
            r@.entries.len() == PAGE_COUNT,
            forall|i: int|
                0 <= i < PAGE_COUNT ==> (#[trigger] r@.entries[i]) == (EntryState {
                    target: 0,
                    present: false,
                    writable: false,
                    accessed: false,
                    dirty: false,
                }),
            r@.memory == Seq::new(MEMORY_SIZE as nat, |i: int| 0u8),
            r.handler() is None,
    {
        let r = MockPageTable {
            entries: [MockEntry::empty(); PAGE_COUNT],
            data: [0u8; MEMORY_SIZE],
            page_fault_handler: None,
        };
        assert(r@.memory =~= Seq::new(MEMORY_SIZE as nat, |i: int| 0u8));
        r
    }

    /// Every table has one entry per page slot and `MEMORY_SIZE` bytes of
    /// physical memory.
    pub proof fn lemma_size(&self)
        ensures
            self@.entries.len() == PAGE_COUNT,
            self@.memory.len() == MEMORY_SIZE,
    {
    }

    /// Whether a page-fault handler is installed.
    pub fn has_handler(&self) -> (r: bool)
        ensures
            r == self.handler() is Some,
    {
        self.page_fault_handler.is_some()
    }

    /// Installs `page_fault_handler`, replacing any earlier one.
    pub fn set_handler(&mut self, page_fault_handler: H)
        ensures
            final(self)@ == old(self)@,
            final(self).handler() == Some(page_fault_handler),
    {
        self.page_fault_handler = Some(page_fault_handler);
    }

    /// The entry of the page that holds `addr`; the handler stays as it is.
    fn entry_mut(&mut self, addr: usize) -> (r: &mut MockEntry)
        requires
            old(self)@.in_range(addr as int),
        ensures
            r@ == old(self)@.entry(addr as int),
            final(self)@ == old(self)@.with_entry(addr as int, final(r)@),
            final(self).handler() == old(self).handler(),
    {
        let i = addr / PAGE_SIZE;
        let entry = &mut self.entries[i];
        proof {
            assert(after_borrow(*self)@.entries =~= old(self)@.entries.update(i as int, final(entry)@));
        }
        entry
    }

    /// The physical address of `addr` through its present entry: the frame of
    /// the entry with the offset of `addr` inside its page.
    pub fn translate(&self, addr: usize) -> (r: usize)
        requires
            self@.in_range(addr as int),
            self@.readable(addr as int),
        ensures
            r == self@.translate(addr as int),
    {
        let entry = &self.entries[addr / PAGE_SIZE];
        proof {
            lemma_compose(entry.target, addr);
        }
        (entry.target & !(PAGE_SIZE - 1)) | (addr & (PAGE_SIZE - 1))
    }

    /// The byte of physical memory that `addr` translates to.
    fn get_data_mut(&mut self, addr: usize) -> (r: &mut u8)
        requires
            old(self)@.in_range(addr as int),
            old(self)@.readable(addr as int),
            old(self)@.backed(addr as int),
        ensures
            *r == old(self)@.byte_at(addr as int),
            final(self)@ == (PageTableState {
                memory: old(self)@.memory.update(old(self)@.translate(addr as int), *final(r)),
                ..old(self)@
            }),
            final(self).handler() == old(self).handler(),
    {
        let pa = self.translate(addr);
        &mut self.data[pa]
    }
}

impl<H> PageTable for MockPageTable<H> {
    type Entry = MockEntry;

    fn map(&mut self, addr: usize, target: usize) -> (r: &mut MockEntry)
        ensures
            final(self).handler() == old(self).handler(),
    {
        let entry = self.entry_mut(addr);
        entry.present = true;
        entry.writable = true;
        entry.target = target & !(PAGE_SIZE - 1);
        proof {
            lemma_clear_offset(target);
        }
        entry
    }

    fn unmap(&mut self, addr: usize)
        ensures
            final(self).handler() == old(self).handler(),
    {
        let entry = self.entry_mut(addr);
        entry.present = false;
    }

    fn get_entry(&mut self, addr: usize) -> (r: &mut MockEntry)
        ensures
            final(self).handler() == old(self).handler(),
    {
        self.entry_mut(addr)
    }
}

impl<H: PageFaultHandler> MockPageTable<H> {
    /// Hands a fault at `addr` to the installed handler, together with the
    /// table itself. The handler is taken out of the table while it runs and
    /// put back afterwards.
    fn trigger_page_fault(&mut self, addr: usize)
        requires
            old(self).handler() is Some,
        ensures
            ({
                let h = old(self).handler().unwrap();
                &&& final(self).handler() is Some
                &&& h.handles(final(self).handler().unwrap(), addr, old(self)@, final(self)@)
            }),
    {
        match self.page_fault_handler.take() {
            Some(mut handler) => {
                handler.handle(self, addr);
                self.page_fault_handler = Some(handler);
            },
            None => {},
        }
    }

    /// Reads the byte at `addr` and marks its page accessed. Where the page is
    /// absent, the read does not proceed: the installed handler is called
    /// once to repair the mapping and `None` is returned, so that the caller
    /// retries the read.
    pub fn read(&mut self, addr: usize) -> (r: Option<u8>)
        requires
            old(self)@.in_range(addr as int),
            old(self)@.readable(addr as int) ==> old(self)@.backed(addr as int),
            !old(self)@.readable(addr as int) ==> old(self).handler() is Some,
        ensures
            old(self)@.readable(addr as int) ==> {
                &&& r == Some(old(self)@.byte_at(addr as int))
                &&& final(self)@ == old(self)@.after_read(addr as int)
                &&& final(self).handler() == old(self).handler()
            },
            !old(self)@.readable(addr as int) ==> {
                let h = old(self).handler().unwrap();
                &&& r is None
                &&& final(self).handler() is Some
                &&& h.handles(final(self).handler().unwrap(), addr, old(self)@, final(self)@)
            },
    {
        let i = addr / PAGE_SIZE;
        if !self.entries[i].present {
            self.trigger_page_fault(addr);
            return None;
        }
        self.entry_mut(addr).accessed = true;
        let byte = *self.get_data_mut(addr);
        assert(self@.memory =~= old(self)@.memory);
        Some(byte)
    }

    /// Writes `data` to `addr` and marks its page accessed and dirty. Where the
    /// page is absent or read-only, the write does not proceed: the installed
    /// handler is called once to repair the mapping and `false` is returned,
    /// so that the caller retries the write.
    pub fn write(&mut self, addr: usize, data: u8) -> (r: bool)
        requires
            old(self)@.in_range(addr as int),
            old(self)@.writable(addr as int) ==> old(self)@.backed(addr as int),
            !old(self)@.writable(addr as int) ==> old(self).handler() is Some,
        ensures
            r == old(self)@.writable(addr as int),
            r ==> final(self)@ == old(self)@.after_write(addr as int, data) && final(self).handler()
                == old(self).handler(),
            !r ==> {
                let h = old(self).handler().unwrap();
                &&& final(self).handler() is Some
                &&& h.handles(final(self).handler().unwrap(), addr, old(self)@, final(self)@)
            },
    {
        let i = addr / PAGE_SIZE;
        if !(self.entries[i].present && self.entries[i].writable) {
            self.trigger_page_fault(addr);
            return false;
        }
        let entry = self.entry_mut(addr);
        entry.accessed = true;
        entry.dirty = true;
        *self.get_data_mut(addr) = data;
        true
    }
}

} // verus!
