//! A typed dataflow program builder with a staged lifecycle.
//!
//! A [`program::Program`] is built from constant sources, asked to hand
//! selected streams back as collections, initialised and run. The engine
//! that executes the graph is not part of this crate: the program records
//! what the engine has to run, and takes the engine's report of what
//! happened as ordinary values.
//!
//! A caller goes through these steps:
//!
//! 1. [`program::Program::constant`] registers a source and hands out the
//!    handle of the stream that it feeds.
//! 2. [`program::Program::stage_outputs`] consumes the handles of the
//!    streams that are to be collected, and hands out an extractor for each.
//! 3. The caller gives the program's graph to the engine and gets an
//!    [`engine::EngineReport`] back.
//! 4. [`program::Program::run`] takes the report in, moves the program to
//!    its final state and reads every output.
//!
//! An operation that fails leaves the program as it was. A program is never
//! met in the placeholder state, and its graph is always well formed: every
//! end of a channel is held by one node at most.
//!
//! The modules, leaves first:
//!
//! - [`elem`]: the element types, and collections of elements;
//! - [`host`]: what the host language passes in, as plain values;
//! - [`graph`]: channels, source nodes, and the builder that records them;
//! - [`stream`]: stream handles, collectors and their result cells;
//! - [`engine`]: the engine's report, and the graph's later stages;
//! - [`program`]: the lifecycle and its operations;
//! - [`laws`]: what is proved of the lifecycle as a whole.

pub mod elem;
pub mod engine;
pub mod graph;
pub mod host;
pub mod laws;
pub mod program;
pub mod stream;
