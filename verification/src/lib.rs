//! Self-describing WASI test artifacts.
//!
//! A test artifact is a WebAssembly module that carries, in a custom section
//! named `.test.data`, a TOML document with what its run is to be given and
//! what is expected of it. This library reads that environment out of the
//! module and judges a finished run against it:
//!
//! - [`section`] finds the custom section, walking the module with
//!   `wasmparser`;
//! - [`document`] and [`codec`] decode the TOML text, parsed by `toml`, into
//!   an [`Environment`], and spell an environment out as a document;
//! - [`engine`] compares how a run ended and what it wrote with what the
//!   environment declares;
//! - [`driver`] tells which artifacts the build provides and names their runs;
//! - [`text`] compares byte strings and texts.
//!
//! Running the program is left to the caller.

pub mod codec;
pub mod document;
pub mod driver;
pub mod engine;
pub mod environment;
pub mod section;
pub mod text;

pub use codec::MetadataError;
pub use driver::{artifact_name, trial_name};
pub use engine::{check_exit, check_output, judge, Failure, Outcome, Stream};
pub use environment::Environment;
pub use section::{extract, turn, ExtractError, Step, Turn};
