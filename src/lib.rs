//! Tiny seccomp
//! ------------
//!
//! Building blocks for a system call filter that needs no allocator:
//! classic BPF instructions are appended to a fixed-capacity buffer, whose
//! contents are then handed to the kernel through a program descriptor.
//!
//! The encoders in [`bpf`] build single instructions, [`ProgramBuffer`]
//! accumulates them with the jump distances of conditional blocks computed
//! for the caller, and [`seccomp`] holds the descriptor and the reading of
//! the kernel's answer.

pub mod abi;
pub mod bpf;
pub mod buffer;
pub mod seccomp;

pub use buffer::ProgramBuffer;
pub use buffer::BufferError;
