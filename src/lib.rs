//! A unified task context for a coroutine kernel: the fixed in-memory layout
//! of a saved execution flow, a per-CPU slot naming the installed context, and
//! the trap entry and resume paths, stated and proved over a simulated hart.
pub mod context;
pub mod current;
pub mod machine;
pub mod trampoline;

pub use context::TaskContext;
pub use trampoline::trap_entry;
