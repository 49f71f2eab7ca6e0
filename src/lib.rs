//! Page-table abstraction with a software-simulated backend.
use vstd::prelude::*;

pub mod paging;

verus! {

/// Size of one page, and of one physical frame, in bytes.
pub const PAGE_SIZE: usize = 4096;

} // verus!
