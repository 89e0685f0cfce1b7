//! A verified model of a minimal freestanding program skeleton.
//!
//! A freestanding binary has exactly two routines: an entry point that the
//! execution environment invokes directly, and a fault handler that the
//! language runtime invokes when it detects an irrecoverable error. Both are
//! diverging, so the observable behaviour of the whole program is a small
//! state machine, and the only other contracts live at link time: the entry
//! point's exported symbol name, the single fault-handler registration, and
//! the absence of any implicit runtime. This crate states and proves those
//! contracts over an explicit model.
//!
//! - [`lifecycle`] models the whole-program state machine and proves that
//!   both termination paths are final: once halted, the program never yields
//!   control again, and a fault is never followed by a return to normal
//!   execution.
//! - [`link`] models the link step and proves the conditions under which an
//!   image links: the entry symbol matches the platform's start symbol,
//!   exactly one fault handler is registered, and no excluded runtime symbol
//!   is referenced.

pub mod lifecycle;
pub mod link;
