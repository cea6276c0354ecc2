//! Provisioning of the fetch and transcode tools, the command line handed to
//! the fetch tool, and the bookkeeping of download jobs and transfers.
//!
//! Everything here decides; nothing here performs I/O. Callers carry out
//! provisioning steps, run processes and stream transfers, and hand what they
//! observe (existence of files, exit codes, chunk sizes, elapsed time) back
//! as plain values.
pub mod archive;
pub mod args;
pub mod info;
pub mod job;
pub mod paths;
pub mod platform;
pub mod progress;
pub mod provision;
pub mod request;
pub mod text;
