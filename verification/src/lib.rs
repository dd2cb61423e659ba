//! A minimal package manager core: packages are identified by an
//! `<owner>/<repo>` reference, fetched into a per-package directory under a
//! common store root, configured by a small line-oriented `config.flash`
//! file, and installed by running the command that file declares.
//!
//! This crate holds the verified logic: the reference parser, the config
//! parser, the model of the on-disk package store, the install state
//! machine, and the batch-update bookkeeping. The surrounding binary
//! performs the actual cloning, prompting and process spawning, and drives
//! the state machine with the outcomes.

pub mod config;
pub mod errors;
pub mod installer;
pub mod pkgref;
pub mod store;
pub mod text;
pub mod update;
