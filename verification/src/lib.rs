//! Run-time loader for independently built shared-library modules.
//!
//! A host process exposes optional components ("modules") as separately
//! compiled shared libraries that are located, built on demand, and loaded
//! at run time.  This crate holds the loader's logic: resolving the ordered
//! list of directories a module binary may live in, constructing the build
//! invocation when the binary is missing, keeping the per-module load slots
//! that make loading at-most-once, and classifying every failure.  The
//! unverifiable edges (environment reading, process spawning, `dlopen`) live
//! in a thin shell around this crate and only carry plain values in and out.

pub mod cli;
pub mod errors;
mod fsio;
pub mod loader;
pub mod platform;
pub mod registry;
pub mod sample_mod;
pub mod search;
pub mod trigger;
