//! Unlocking and mounting an encrypted partition with a passphrase composed
//! from several secret fragments.
//!
//! The modules hold the configuration record and its file selection, the
//! hardware secret store, the passphrase composer, the volume key slots and
//! mapper table, the mount table, and the laws that relate their operations.
use vstd::prelude::*;

pub mod cli;
pub mod compose;
pub mod laws;
pub mod logging;
pub mod mount;
pub mod options;
pub mod secret;
pub mod text;
pub mod volume;
pub mod workflow;

verus! {

} // verus!
