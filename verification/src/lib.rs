//! Translate a pod description into systemd "quadlet" unit-file text.
//!
//! The crate normalizes the heterogeneous inputs of a quadlet generator — a
//! manifest locator that may be a URL or a local path, common `[Unit]`
//! section options, and Compose-style dependency lists — into one canonical
//! model, and renders that model as ordered, section-based `Key=Value` text.
//!
//! Reading command-line arguments and writing the rendered text to disk or
//! stdout are left to the surrounding program; every function here is a
//! total computation over plain values.

pub mod cli;
pub mod file;
pub mod quadlet;
pub mod text;
