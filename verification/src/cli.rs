//! Plain data types for the command line surface.
//!
//! The argument-parsing shell converts what it reads on the command line
//! into these types; the library itself never touches the command line.

use vstd::prelude::*;

verus! {

/// The broad kind of a file named on the command line.
#[derive(Debug, Clone)]
pub enum FileType {
    Text,
    Image,
}

/// The files named on the command line, as plain paths.
#[derive(Debug, Clone)]
pub struct Cli {
    pub files: Vec<String>,
}

/// The two optional paths the editor is started with: a text file for the
/// left pane and an image for the right pane.
pub struct Args {
    pub file: Option<String>,
    pub image: Option<String>,
}

} // verus!
