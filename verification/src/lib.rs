//! An integrated C/C++/assembly build frontend for build scripts.
//!
//! A [`builder::Config`] collects the input file patterns, the library name
//! and the hooks that tune the backends.  [`builder::Config::build`] turns it
//! into a run of the orchestrator, which decides step by step what the
//! backends have to do and what the build finally reports.

pub mod backend;
pub mod builder;
pub mod error;
pub mod hello_world;
pub mod hooks;
pub mod imported;
pub mod path;

pub use error::Error as KusabiraError;
