//! Core pipeline of a Linux-distribution installer: a staged, cancellable
//! state machine that downloads an image in parts, verifies its content
//! hash, plans decompression, bounds-checks a partition resize, and flashes
//! the finished image onto a target, reporting progress as it goes.
//!
//! All I/O (network, files, privileged opens, shell primitives) lives with
//! the embedding program; this crate holds the decisions and bookkeeping,
//! with contracts verified by Verus.

pub mod authopen;
pub mod cancel;
pub mod decompress;
pub mod disk;
pub mod diskutil;
pub mod distro;
pub mod download;
pub mod error;
pub mod flash;
pub mod hashing;
pub mod install;
pub mod ui;
