//! The arguments that the program is called with

use vstd::prelude::*;

verus! {

/// The arguments of a preprocessing run: which Typst to ask, where the
/// project lies, and which document to preprocess.
#[derive(Debug, Clone, PartialEq, Eq)]
pub struct CliArguments {
    /// Configures the Typst executable to use
    pub typst: String,
    /// Configures the project root (for absolute paths)
    pub root: Option<String>,
    /// Path to the input Typst file. The `typst.toml` file that determines the
    /// jobs is looked for in directories upwards from that file.
    pub input: String,
}

impl CliArguments {
    /// The root path: the explicitly given root, or else the directory in
    /// which the input file is located, or else, where the input file path
    /// names no directory, the current directory (`"."`).
    pub open spec fn spec_resolve_root(self, parent: Option<Seq<char>>) -> Seq<char> {
        match self.root {
            Some(root) => root@,
            None => match parent {
                Some(parent) => parent,
                None => "."@,
            },
        }
    }

    /// Returns the root path, given the directory that the input file path
    /// names, if it names one. In general, this function does not return an
    /// absolute path.
    pub fn resolve_root(&self, parent: Option<&str>) -> (root: String)
        ensures
            root@ == self.spec_resolve_root(
                match parent {
                    Some(parent) => Some(parent@),
                    None => None,
                },
            ),
    {
        match &self.root {
            Some(root) => root.clone(),
            None => match parent {
                Some(parent) => parent.to_owned(),
                None => ".".to_owned(),
            },
        }
    }
}

} // verus!
