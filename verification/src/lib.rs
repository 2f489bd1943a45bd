//! The inspection and system-call core of an interactive emulator for an
//! assembly language that is used in teaching: it services the system calls
//! of the emulated program, answers its reads from the terminal, traces a
//! breakpoint or a watchpoint back to the source, and prints registers and
//! memory in several representations.
//!
//! The core computes; it does not print, read, or call the host. It hands
//! out what is to be shown as [`output::Output`] values and says what is to
//! be read or called; whoever owns the terminal does the rest.

pub mod debug;
pub mod error;
pub mod host;
pub mod input;
pub mod item;
pub mod output;
pub mod print;
pub mod printer;
pub mod register;
pub mod state;
pub mod stream;
pub mod syscall;
pub mod text;
