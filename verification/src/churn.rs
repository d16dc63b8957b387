//! The heap benchmark: repeated allocation and release of fixed-size blocks.
//!
//! Each round allocates one boxed block on the heap and drops it at the end
//! of the round, so the allocator serves and reclaims the same amount over
//! and over. Nothing is kept; the returned count lets a caller confirm how
//! many rounds ran.

use vstd::prelude::*;

verus! {

/// The size in bytes of each block the heap benchmark allocates.
pub const BLOCK_BYTES: usize = 128;

/// Allocate and release `rounds` heap blocks of `BLOCK_BYTES` bytes each,
/// one at a time. Returns the number of rounds performed.
pub fn heap_churn(rounds: usize) -> (n: usize)
    ensures
        n == rounds,
{
    let mut done: usize = 0;
    while done < rounds
        invariant
            done <= rounds,
        decreases rounds - done,
    {
        let block: Box<[u8; BLOCK_BYTES]> = Box::new([0u8; BLOCK_BYTES]);
        let _ = block;
        done = done + 1;
    }
    done
}

} // verus!
