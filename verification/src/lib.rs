//! Deciding whether, and how, to open freshly generated documentation.
//!
//! After an external pipeline has produced documentation artifacts, this
//! library computes the path of the generated index file, resolves which
//! viewer program should display it (configured browser, then the `BROWSER`
//! environment variable, then the platform default), and dictates how a
//! failed launch is downgraded to a warning. All input/output — compiling,
//! probing the filesystem, spawning processes — is performed by the caller,
//! which drives the command one decision step at a time.

pub mod command;
pub mod laws;
pub mod paths;
pub mod pipeline;
pub mod viewer;
