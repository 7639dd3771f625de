//! The decisions of a browser command line tool: which resource an Open Target names, and what
//! goes into the tool's own files.
//!
//! What is said of paths here, and of what is a path, holds on Unix hosts. Windows has other ones,
//! and is not a host of this library.

use vstd::prelude::*;

pub mod clean;
pub mod config;
pub mod config_files;
pub mod config_laws;
pub mod file_laws;
pub mod log_file;
pub mod open_target;
pub mod outcome_laws;
pub mod path;
pub mod path_laws;
pub mod resolution;
pub mod shape_laws;
pub mod target_laws;
pub mod text;
pub mod text_laws;
pub mod token;
pub mod urls;
pub mod view_laws;

verus! {

} // verus!
