//! The decisions of a command-line file downloader, separated from its
//! input and output.
//!
//! The crate holds no socket, no terminal and no file. It derives the name of
//! the output file from the target, reads the response headers, chooses how
//! progress is presented, words the lines shown to the user, and drives the
//! exchange as a state machine whose caller performs each requested action.

pub mod decimal;
pub mod download;
pub mod error;
pub mod metadata;
pub mod output;
pub mod progress;
pub mod report;
pub mod status;
pub mod target;
pub mod text;

