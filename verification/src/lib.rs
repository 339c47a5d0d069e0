//! A process-memory patching engine: signature scanning with single-byte
//! wildcards, code-cave discovery next to a matched instruction, reversible
//! patches that restore the original bytes on release, and the per-feature
//! tweak state machines built from them.
//!
//! All remote-process reads and writes, as well as configuration files and
//! the control surface, live outside this crate; the functions here work on
//! plain values (snapshots of memory regions, byte images, write requests)
//! and state exactly what they compute.

pub mod attach;
pub mod cave;
pub mod config;
pub mod logger;
pub mod patch;
pub mod pattern;
pub mod scan;
pub mod tweaks;
