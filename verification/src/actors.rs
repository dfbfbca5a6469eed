//! Actors for common tasks.
pub mod line_reader;
pub mod lines;
pub mod logger;
pub mod process;
pub mod stdin;
