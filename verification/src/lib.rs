//! Scheduled directory backup: the decisions behind it.
//!
//! A backup run writes a source directory into one new archive file in a
//! destination directory, then removes the archives there that have
//! outlived the retention window. This library names the archive, tells
//! archives from other files, decides which of them have expired, and
//! directs both operations step by step. It touches no file itself: a
//! driver does what the [`archiver::Archiver`] and the [`pruner::Pruner`]
//! ask for and reports back what came of it.

pub mod archiver;
pub mod config;
pub mod decimal;
pub mod extension;
pub mod naming;
pub mod pruner;
pub mod retention;
