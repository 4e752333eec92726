//! HAVAL message digests and the Hotline protocol data model.
//!
//! The core of the crate is a verified implementation of the HAVAL hash
//! family: a configurable number of passes (3, 4 or 5) over 128-byte blocks
//! and a configurable digest width (128, 160, 192, 224 or 256 bits).
//! Around it stand the Hotline data structures that consume such digests.

pub mod accounts;
pub mod api;
pub mod compress;
pub mod datetime;
pub mod files;
pub mod hope;
pub mod news;
pub mod round;
pub mod sessions;
pub mod state;
pub mod tables;
pub mod tailor;
pub mod words;
