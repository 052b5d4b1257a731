//! What the command line can say.

use vstd::prelude::*;

verus! {

/// The arguments of the program.
#[derive(Debug)]
pub struct CliArguments {
    /// The file to open; without one the viewer shows its welcome line.
    pub file: Option<String>,
}

impl CliArguments {
    /// The arguments that name the given file, or none.
    pub fn new(file: Option<String>) -> (arguments: CliArguments)
        ensures
            arguments.file == file,
    {
        CliArguments { file }
    }
}

} // verus!
