//! Verified core of a thin wrapper around an external line-tailing utility.
//!
//! The wrapper spawns the external process, captures its standard output
//! through a pipe, and hands lines back one bounded read at a time. The
//! process spawning, the asynchronous pipe reads, and the kill-on-drop
//! teardown are operating-system work and live in the unverified front end;
//! this crate holds everything that can be stated and proved about the
//! wrapper: the configuration value and its builder, the exact argument list
//! handed to the external command, the byte-level model of the bounded
//! line reader, the classification of read and pipe-acquisition outcomes,
//! and the teardown state that guarantees cleanup runs at most once.

pub mod command;
pub mod error;
pub mod lifecycle;
pub mod options;
pub mod reader;

pub use command::decimal_string;
pub use error::pipe_outcome;
pub use error::TailError;
pub use lifecycle::ProcessOwnership;
pub use options::Options;
pub use options::OptionsBuilder;
pub use options::DEFAULT_MAX_CHUNK_SIZE;
pub use reader::read_outcome;
pub use reader::split_chunks;
pub use reader::NEWLINE;
