//! Validation layer of a personal-messaging backup format reader.
//!
//! Raw, untrusted message values decoded by an outer frame reader are
//! converted into strongly validated domain values. Each converter checks
//! the structural invariants of one message kind, resolves cross references
//! through a read-only resolution context, and reports the first violated
//! invariant as a typed error. A validated value can only be obtained
//! through a conversion entry point, never built directly.

pub mod chat;
pub mod convert;
pub mod file;
pub mod frame;
pub mod method;
pub mod proto;
pub mod quote;
pub mod serialize;
pub mod sticker;
pub mod sticker_message;
pub mod voice_message;
