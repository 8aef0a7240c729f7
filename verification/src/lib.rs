//! A runtime function-hooking core.
//!
//! The core redirects calls of a function in the running process to a
//! replacement and keeps the replaced code reachable through a trampoline.
//! It never touches the process itself. Reading and writing memory and
//! calling the patching primitive are the business of a host; every decision
//! is taken here, on plain values, and is proved.
//!
//! - [`bypass`] neutralizes the interception that an anti-tamper layer puts
//!   over the protection-change primitive of the operating system.
//! - [`adapter`] gives the answers of the patching primitive their type.
//! - [`lifecycle`] is the public surface, `hook` and `unhook`: it checks the
//!   addresses and says in which order the bypass and the primitive run.
//! - [`host`] states what whole runs of `hook` and `unhook` come to.
//! - [`bootstrap`] decides where the loader starts and in which order it is
//!   brought up.
//! - [`error`] holds the failures.

pub mod adapter;
pub mod bootstrap;
pub mod bypass;
pub mod error;
pub mod host;
pub mod lifecycle;
