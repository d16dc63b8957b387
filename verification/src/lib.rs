//! Core logic of a set of micro-benchmark firmware programs: a worst-case
//! bubble sort with its correctness self-check, the GPIO handshake state
//! machine that sequences the benchmark stages, heap-churn accounting, and
//! the memory-layout arithmetic of the memory probe.

pub mod churn;
pub mod handshake;
pub mod memory;
pub mod sort;
