//! Build orchestration for a runnable application image.
//!
//! The library plans and drives a single linear pipeline: a precondition
//! check, a batch of downloads, a batch of extractions, a set of file
//! relocations, the materialization of loader scripts, and two interpreter
//! script batches. Every decision the pipeline takes — what to fetch, where
//! to put it, which script body a loader variant selects, when a run must
//! abort — is verified here; the disk, network and interpreter work itself
//! is performed by a thin unverified driver around the library.

pub mod checker;
pub mod error;
pub mod loader;
pub mod options;
pub mod pipeline;
pub mod scripts;
pub mod tasks;
pub mod text;
