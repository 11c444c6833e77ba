//! Tracking of download jobs that an external process carries out.
//!
//! The external process reports what it does as lines of text. This library
//! keeps one record per job, classifies each reported line, and reduces the
//! classified events to the state of the record.
//!
//! - [`download`], [`status`], [`progress`]: the record of a job.
//! - [`event`], [`classifier`], [`pattern`]: the events of a job and how
//!   they are read off the lines of the process.
//! - [`reducer`]: how an event changes a record.
//! - [`manager`], [`pump`]: the registry of jobs and what it does with the
//!   output of a process.
//! - [`laws`]: what holds of all of these whatever happens.
//! - [`settings`], [`launch`], [`cleanup`], [`crypto`], [`oauth`]: what is
//!   decided around a job: its arguments, the files it leaves behind, the
//!   sealing of stored secrets and the sign-in with the streaming service.
//!
//! Reading from the process, publishing to observers and storing are left
//! to the caller.

pub mod classifier;
pub mod cleanup;
pub mod crypto;
pub mod download;
pub mod event;
pub mod launch;
pub mod laws;
pub mod manager;
pub mod oauth;
pub mod pattern;
pub mod progress;
pub mod pump;
pub mod reducer;
pub mod settings;
pub mod status;
pub mod text;
