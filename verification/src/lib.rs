//! Startup decisions of a desktop application shell.
//!
//! The shell exposes a fixed set of native capabilities to its embedded web
//! content. Which of them are switched on depends only on the platform the
//! instance is built for, and what happens after the runtime hands control
//! back depends only on whether it managed to start. Both decisions are
//! stated here as contracts over plain values; the caller performs the
//! registrations and owns the event loop.

pub mod capability;
pub mod platform;
pub mod startup;
