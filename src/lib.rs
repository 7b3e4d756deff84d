//! Core privileged structures of a small x86 kernel: segment selectors,
//! interrupt gate descriptors, the interrupt descriptor table, a spinning
//! mutual-exclusion lock, and the text console and I/O port numbers that
//! the kernel shares between contexts.

mod bits;
pub mod gate;
pub mod idt;
pub mod mutex;
pub mod port;
pub mod selector;
pub mod vga;

pub use gate::{DescriptorPrivilageLevel, Entry, GateType, TypeAttribute};
pub use idt::{DescriptorTablePointer, InterruptDescriptorTable};
pub use mutex::{Mutex, MutexGuard};
pub use port::Port;
pub use selector::{Selector, TableIndex};
pub use vga::{Color, Monitor};
