//! A fixed-size, move-only container for sensitive bytes.
//!
//! [`Secret`] takes a key or a password out of the caller's buffer, leaving
//! that buffer zeroed, lends the bytes out read-only while it lives, and
//! overwrites them with zeros when it is dropped.
//!
//! # Limits
//!
//! The protection is best effort. Nothing here locks pages, keeps the bytes
//! out of swap or out of a core dump, or defends against cache and timing
//! side channels. The final overwrite is shown to the optimizer as a write
//! that is read afterwards, which is the strongest request safe code can make;
//! it is not a volatile store.

pub mod container;
pub mod erase;

pub use container::Secret;
pub use erase::wipe;
pub use erase::zeros;
