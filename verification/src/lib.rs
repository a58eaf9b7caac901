//! Launcher descriptors for the Linux desktop.
//!
//! A [`Generator`] holds what a user entered about an application: the
//! executable, a display name, an optional icon and a comment. From these the
//! library decides whether a descriptor may be written and what its text is.
//! It touches no file: the caller reports what exists on disk and what became
//! of the write, and the library says what follows from that.

pub mod destination;
pub mod document;
pub mod error;
pub mod fields;
pub mod generate;
pub mod laws;
pub mod outcome;
pub mod reader;

pub use error::{Failure, GenerationError};
pub use fields::{Fields, Generator};
