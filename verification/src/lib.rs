//! Argument construction for a thin command-line wrapper around an external
//! media downloader. The library classifies the requested medium, rejects
//! contradictory flag combinations, and builds the exact, order-stable
//! argument vector handed to the downloader process.

pub mod builder;
pub mod options;
