//! Bare-metal bring-up primitives: a spinlock, a mutex built on it, a
//! lazily initialised cell, and construction of the descriptor table and
//! task state segment that give double faults a stack of their own.

pub mod spinlock;
pub mod mutex;
pub mod lazy;
pub mod descriptors;
