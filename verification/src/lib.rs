//! Two small, unrelated utilities.
//!
//! The first is a renderer that exists in two variants, one printing a fixed
//! integer through `itoa` and one returning a fixed word: [`with_itoa`],
//! [`without_itoa`], and [`variant`] for the choice between them.
//!
//! The second is the logic of a command-line tool that reads a TOML document
//! and writes it out as compact JSON: [`args`] reads the command line,
//! [`transcode`] converts a text, and [`failure`] is what either of them, or
//! the reading and writing around them, can end in.

pub mod args;
pub mod failure;
pub mod run;
pub mod transcode;
pub mod variant;
pub mod with_itoa;
pub mod without_itoa;
