//! An instruction-level simulator for a 16-bit educational ISA: a register
//! file, a flat 16-bit address space with memory-mapped device registers,
//! trap-based system calls, selective execution tracing, and pluggable byte
//! sources and sinks.

pub mod simulator;
