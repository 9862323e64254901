//! Builds a loadable parser artifact from a grammar definition: an external
//! generator produces parser sources, and a native toolchain compiles them
//! into a dynamic library.
//!
//! The library holds the decision logic of that pipeline: resolving which
//! scanner source to compile, constructing the compiler command line for a
//! platform convention, and sequencing the stages as a state machine. The
//! caller performs the filesystem and subprocess work and reports each
//! outcome back as an event.

pub mod command;
pub mod errors;
pub mod pipeline;
pub mod request;
pub mod sources;
pub mod toolchain;
