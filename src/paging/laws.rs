//! Laws that relate the operations of a page table, stated over its abstract
//! state.
use vstd::prelude::*;

use crate::paging::{page_base, page_index, PageTableState};
use crate::PAGE_SIZE;

verus! {

/// The page slot of an address inside the address space is a valid index.
proof fn lemma_page_index_in_bounds(s: PageTableState, addr: int)
    requires
        s.in_range(addr),
    ensures
        0 <= page_index(addr) < s.entries.len(),
{
}

/// Right after `map(addr, target)` the entry of `addr` is present and
/// writable, and maps the frame of `target` with its offset bits cleared.
pub proof fn lemma_map_then_entry(s: PageTableState, addr: int, target: usize)
    requires
        s.in_range(addr),
    ensures
        s.after_map(addr, target).entry(addr).present,
        s.after_map(addr, target).entry(addr).writable,
        s.after_map(addr, target).entry(addr).target == page_base(target as int),
        s.after_map(addr, target).readable(addr),
        s.after_map(addr, target).writable(addr),
{
    lemma_page_index_in_bounds(s, addr);
}

/// A write of `byte` to a writable address is followed by a read of the same
/// address that returns `byte`.
pub proof fn lemma_write_then_read(s: PageTableState, addr: int, byte: u8)
    requires
        s.in_range(addr),
        s.writable(addr),
        s.backed(addr),
    ensures
        s.after_write(addr, byte).readable(addr),
        s.after_write(addr, byte).backed(addr),
        s.after_write(addr, byte).byte_at(addr) == byte,
{
    lemma_page_index_in_bounds(s, addr);
}

/// Two distinct pages mapped to one frame share its bytes: a write through
/// one page is seen by a read through the other at the same offset.
pub proof fn lemma_shared_frame(
    s: PageTableState,
    page1: int,
    page2: int,
    frame: usize,
    offset: int,
    byte: u8,
)
    requires
        s.in_range(page1),
        s.in_range(page2),
        page_index(page1) != page_index(page2),
        0 <= offset < PAGE_SIZE,
        page_base(page1) + offset < s.entries.len() * (PAGE_SIZE as int),
        page_base(page2) + offset < s.entries.len() * (PAGE_SIZE as int),
        page_base(frame as int) + offset < s.memory.len(),
    ensures
        ({
            let t = s.after_map(page1, frame).after_map(page2, frame);
            let a1 = page_base(page1) + offset;
            let a2 = page_base(page2) + offset;
            &&& t.writable(a1)
            &&& t.backed(a1)
            &&& t.after_write(a1, byte).readable(a2)
            &&& t.after_write(a1, byte).byte_at(a2) == byte
        }),
{
    let t = s.after_map(page1, frame).after_map(page2, frame);
    let a1 = page_base(page1) + offset;
    let a2 = page_base(page2) + offset;
    lemma_page_index_in_bounds(s, page1);
    lemma_page_index_in_bounds(s, page2);
    assert(page_index(a1) == page_index(page1));
    assert(page_index(a2) == page_index(page2));
    assert(a1 % (PAGE_SIZE as int) == offset);
    assert(a2 % (PAGE_SIZE as int) == offset);
    assert(t.translate(a1) == t.translate(a2));
}

/// Accessed and dirty bits: mapping a clear entry leaves both clear; a read
/// sets the accessed bit and leaves the dirty bit; a write sets both. (That
/// each clear resets its own bit alone is the contract of `Entry`.)
pub proof fn lemma_accessed_dirty(s: PageTableState, addr: int, target: usize, byte: u8)
    requires
        s.in_range(addr),
    ensures
        !s.entry(addr).accessed && !s.entry(addr).dirty ==> {
            &&& !s.after_map(addr, target).entry(addr).accessed
            &&& !s.after_map(addr, target).entry(addr).dirty
        },
        s.after_read(addr).entry(addr).accessed,
        s.after_read(addr).entry(addr).dirty == s.entry(addr).dirty,
        s.after_write(addr, byte).entry(addr).accessed,
        s.after_write(addr, byte).entry(addr).dirty,
{
    lemma_page_index_in_bounds(s, addr);
}

} // verus!
