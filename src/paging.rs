//! The abstract state of a page table, and its simulated implementation.
use vstd::prelude::*;

use crate::PAGE_SIZE;

pub mod laws;
pub mod mock_page_table;

verus! {

/// Number of page slots in a simulated address space.
pub const PAGE_COUNT: usize = 16;

/// Size in bytes of the simulated physical memory.
pub const MEMORY_SIZE: usize = PAGE_SIZE * PAGE_COUNT;

/// The observable state of one page-table entry.
pub ghost struct EntryState {
    pub target: usize,
    pub present: bool,
    pub writable: bool,
    pub accessed: bool,
    pub dirty: bool,
}

/// Read and change the bits of one page-table entry, however it is stored.
pub trait Entry: View<V = EntryState> {
    fn accessed(&self) -> (r: bool)
        ensures
            r == self@.accessed,
    ;

    fn dirty(&self) -> (r: bool)
        ensures
            r == self@.dirty,
    ;

    fn writable(&self) -> (r: bool)
        ensures
            r == self@.writable,
    ;

    fn present(&self) -> (r: bool)
        ensures
            r == self@.present,
    ;

    fn clear_accessed(&mut self)
        ensures
            final(self)@ == (EntryState { accessed: false, ..old(self)@ }),
    ;

    fn clear_dirty(&mut self)
        ensures
            final(self)@ == (EntryState { dirty: false, ..old(self)@ }),
    ;

    fn set_writable(&mut self, value: bool)
        ensures
            final(self)@ == (EntryState { writable: value, ..old(self)@ }),
    ;

    fn set_present(&mut self, value: bool)
        ensures
            final(self)@ == (EntryState { present: value, ..old(self)@ }),
    ;

    /// The physical frame this entry maps to; meaningful only while present.
    fn target(&self) -> (r: usize)
        ensures
            r == self@.target,
    ;
}

/// Map and unmap virtual pages, and reach the entry of any page.
pub trait PageTable: View<V = PageTableState> {
    type Entry: Entry;

    /// Maps the page of `addr` to the frame that holds `target`: the entry
    /// becomes present and writable, with the low bits of `target` cleared.
    /// Its accessed and dirty bits are left as they were. The returned
    /// reference lets the caller adjust the entry further.
    fn map(&mut self, addr: usize, target: usize) -> (r: &mut Self::Entry)
        requires
            old(self)@.in_range(addr as int),
            !old(self)@.readable(addr as int),
        ensures
            r@ == old(self)@.after_map(addr as int, target).entry(addr as int),
            final(self)@ == old(self)@.with_entry(addr as int, final(r)@),
    ;

    /// Unmaps the page of `addr`: only its present bit changes.
    fn unmap(&mut self, addr: usize)
        requires
            old(self)@.in_range(addr as int),
            old(self)@.readable(addr as int),
        ensures
            final(self)@ == old(self)@.after_unmap(addr as int),
    ;

    /// The entry of the page that holds `addr`, present or not, for direct
    /// inspection and change of its bits.
    fn get_entry(&mut self, addr: usize) -> (r: &mut Self::Entry)
        requires
            old(self)@.in_range(addr as int),
        ensures
            r@ == old(self)@.entry(addr as int),
            final(self)@ == old(self)@.with_entry(addr as int, final(r)@),
    ;
}

/// The start of the page that holds `addr`.
pub open spec fn page_base(addr: int) -> int {
    addr - addr % (PAGE_SIZE as int)
}

/// Index of the page slot that holds virtual address `addr`.
pub open spec fn page_index(addr: int) -> int {
    addr / (PAGE_SIZE as int)
}

/// Physical address that `addr` translates to through entry `e`.
pub open spec fn translate_through(e: EntryState, addr: int) -> int {
    page_base(e.target as int) + addr % (PAGE_SIZE as int)
}

/// The observable state of a simulated address space: one entry per page slot,
/// and the bytes of physical memory.
pub ghost struct PageTableState {
    pub entries: Seq<EntryState>,
    pub memory: Seq<u8>,
}

impl PageTableState {
    /// The entry of the page that holds `addr`.
    pub open spec fn entry(self, addr: int) -> EntryState {
        self.entries[page_index(addr)]
    }

    /// `addr` lies inside the simulated virtual address space.
    pub open spec fn in_range(self, addr: int) -> bool {
        0 <= addr < self.entries.len() * (PAGE_SIZE as int)
    }

    /// Physical address of `addr` under the current mapping.
    pub open spec fn translate(self, addr: int) -> int {
        translate_through(self.entry(addr), addr)
    }

    /// A read of `addr` can proceed without a page fault.
    pub open spec fn readable(self, addr: int) -> bool {
        self.entry(addr).present
    }

    /// A write to `addr` can proceed without a page fault.
    pub open spec fn writable(self, addr: int) -> bool {
        self.entry(addr).present && self.entry(addr).writable
    }

    /// The translation of `addr` falls inside physical memory.
    pub open spec fn backed(self, addr: int) -> bool {
        0 <= self.translate(addr) < self.memory.len()
    }

    /// The byte that a read of `addr` returns.
    pub open spec fn byte_at(self, addr: int) -> u8 {
        self.memory[self.translate(addr)]
    }

    /// The state with the entry of `addr` replaced by `e`.
    pub open spec fn with_entry(self, addr: int, e: EntryState) -> Self {
        PageTableState { entries: self.entries.update(page_index(addr), e), ..self }
    }

    /// The state after mapping the page of `addr` to the frame of `target`.
    pub open spec fn after_map(self, addr: int, target: usize) -> Self {
        self.with_entry(
            addr,
            EntryState {
                present: true,
                writable: true,
                target: page_base(target as int) as usize,
                ..self.entry(addr)
            },
        )
    }

    /// The state after unmapping the page of `addr`.
    pub open spec fn after_unmap(self, addr: int) -> Self {
        self.with_entry(addr, EntryState { present: false, ..self.entry(addr) })
    }

    /// The state after a read of `addr` that did not fault.
    pub open spec fn after_read(self, addr: int) -> Self {
        self.with_entry(addr, EntryState { accessed: true, ..self.entry(addr) })
    }

    /// The state after a write of `byte` to `addr` that did not fault.
    pub open spec fn after_write(self, addr: int, byte: u8) -> Self {
        PageTableState {
            entries: self.entries.update(
                page_index(addr),
                EntryState { accessed: true, dirty: true, ..self.entry(addr) },
            ),
            memory: self.memory.update(self.translate(addr), byte),
        }
    }
}

} // verus!
