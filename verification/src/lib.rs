//! Patching of the flags byte in an Android vbmeta image header.
//!
//! The crate holds the rules of the tool: how command-line tokens become an
//! invocation, which bits a request sets, what a valid image looks like, and
//! the sequence of file operations that a patch consists of. It performs no
//! I/O itself; a driver carries out the operations it asks for.

pub mod flags;
pub mod args;
pub mod image;
pub mod patcher;
pub mod report;
pub mod run;
