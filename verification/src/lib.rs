//! Setting up JavaScript isolates: starting the engine, creating isolates,
//! handing them the tasks that the engine posts, and giving back the memory that
//! only the start needed.
//!
//! This library takes the decisions. The calls into the engine and the kernel,
//! the locks and the runtime are the caller's: it passes in what they say and
//! does what it is told.
//!
//! - [`engine`]: the engine is started once per process, with the right flags.
//! - [`isolate`]: how an isolate is built, and which memory is given back then.
//! - [`registry`]: the way of a task into the queue of its isolate.
//! - [`elf`]: where the executable keeps its code and its relocation table.
//! - [`pages`]: which pages of a range of memory may be dropped.
//! - [`outside`]: what comes from other crates.

pub mod elf;
pub mod engine;
pub mod isolate;
pub mod outside;
pub mod pages;
pub mod registry;
