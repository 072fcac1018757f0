//! Generation and inspection of unique identifiers: UUID (versions 1, 3, 4
//! and 5), NanoID, CUID (versions 1 and 2), ULID and MongoDB ObjectId.
//!
//! `id` holds the format model and the dispatcher, which validates a request
//! and hands it to the generator of the chosen family. `inspector`
//! classifies an arbitrary string by an ordered cascade of recognizers.
//! `uuid_bytes` is the model of a UUID that both share, and `chars` the
//! alphabets. `cli`, `args`, `processor` and `exit_codes` hold what a command
//! line front end decides between reading its arguments and writing its
//! output.
//!
//! The generators, the UUID and ULID parsers and the calendar live in other
//! crates. Each call into one of them is a small function of its own whose
//! documentation says what is relied on; everything else is verified.

pub mod args;
pub mod chars;
pub mod cli;
pub mod exit_codes;
pub mod id;
pub mod inspector;
pub mod processor;
pub mod uuid_bytes;
