//! A supervisor for long-running application processes that are started through
//! a compatibility runtime.
//!
//! The library decides and the caller acts. From a launch descriptor it builds
//! the command and the environment of a launch, layer on layer; it keeps the
//! registry of supervised processes; it runs the rule by which the monitor of a
//! launch announces the end of that launch exactly once; and it plans what a
//! kill has to end. Looking at the disk, spawning and signalling processes,
//! sleeping and delivering notifications are the caller's part: the caller
//! hands in what it found and carries out what comes back.
//!
//! Every function is verified against its contract, but for the two in `health`
//! that hand a value to `serde_json`: their contracts are taken on trust and
//! say so. The contracts speak of the views of the data: a text is its sequence
//! of characters, an environment is a sequence of key and value, the registry
//! is a map from names to handles.

pub mod catalog;
pub mod command;
pub mod config;
pub mod descriptor;
pub mod environment;
pub mod error;
pub mod health;
pub mod host;
pub mod keyed;
pub mod launch;
pub mod monitor;
pub mod path;
pub mod runs;
pub mod supervisor;
pub mod text;
