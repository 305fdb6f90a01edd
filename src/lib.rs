//! Record values from active stack frames so that a failure handler can print them.
//!
//! The library keeps the logic: a value stack that mirrors the call stack, a scope token
//! whose release pops exactly one entry, and the rendering of a dump. Keeping the stack in
//! thread-local storage and hooking abnormal termination is left to the host.
pub mod guard;
pub mod report;
pub mod stack;

pub use guard::{record, Guard, Release, UNDERFLOW_MESSAGE};
pub use report::{decimal_string, dump_lines, entry_line, line_from_quoted, HEADER};
pub use stack::{Frame, ValueStack};
