//! Memory-layout arithmetic of the memory probe.
//!
//! The probe reads the stack pointer and the linker-placed section bounds on
//! the board, then derives how the fixed RAM is divided: how many bytes lie
//! between the start of RAM and the stack pointer, how many the stack side
//! has consumed, how many the static sections occupy, and what is left for a
//! heap. The reads are hardware work; the derivation is here.

use vstd::prelude::*;

verus! {

/// How the board's RAM is divided, in bytes.
#[derive(Clone, Copy, Debug, PartialEq, Eq, Structural)]
pub struct MemoryReport {
    /// Bytes between the start of RAM and the current stack pointer.
    pub stack_space: usize,
    /// Bytes of RAM above the current stack pointer.
    pub used_by_stack: usize,
    /// Bytes occupied by the zero-initialised and initialised data sections.
    pub static_usage: usize,
    /// Bytes below the stack pointer not occupied by the static sections.
    pub available_for_heap: usize,
}

/// Derive the division of RAM from the current stack pointer, the bounds of
/// RAM, and the linker-placed bounds of the static data sections. All
/// arguments are byte addresses or byte counts.
pub fn memory_report(
    stack_pointer: usize,
    ram_start: usize,
    total_ram: usize,
    bss_start: usize,
    bss_end: usize,
    data_start: usize,
    data_end: usize,
) -> (r: MemoryReport)
    requires
        ram_start <= stack_pointer,
        stack_pointer - ram_start <= total_ram,
        bss_start <= bss_end,
        data_start <= data_end,
        (bss_end - bss_start) + (data_end - data_start) <= stack_pointer - ram_start,
    ensures
        r.stack_space == stack_pointer - ram_start,
        r.used_by_stack == total_ram - (stack_pointer - ram_start),
        r.static_usage == (bss_end - bss_start) + (data_end - data_start),
        r.available_for_heap == (stack_pointer - ram_start) - r.static_usage,
{
    let stack_space = stack_pointer - ram_start;
    let used_by_stack = total_ram - stack_space;
    let bss_size = bss_end - bss_start;
    let data_size = data_end - data_start;
    let static_usage = bss_size + data_size;
    let available_for_heap = stack_space - static_usage;
    MemoryReport { stack_space, used_by_stack, static_usage, available_for_heap }
}

} // verus!
