use vstd::prelude::*;

pub mod attrs;
pub mod session;
pub mod sink;
pub mod types;

verus! {

/// Allocator statistics, in bytes, for diagnostics.
pub struct Memory {
    pub resident: usize,
    pub allocated: usize,
}

} // verus!
