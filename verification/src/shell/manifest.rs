//! The settings of a `shell` job.

use vstd::prelude::*;
use vstd::string::StringExecFns;
use crate::text::lines_of;
pub use crate::web_resource::manifest::IndexSetting;

verus! {

/// Command and arguments to run: the program first, then its arguments.
#[derive(Debug, Clone, PartialEq, Eq)]
pub struct Command(pub Vec<String>);

/// What a job's configuration says under `command`: a string or an array of strings.
#[derive(Debug, Clone, PartialEq, Eq)]
pub enum CommandSetting {
    /// A single string was given: the program, without arguments.
    Line(String),
    /// An array of strings was given: the program and its arguments.
    Words(Vec<String>),
}

/// Words in a row, with a blank between each two.
pub open spec fn spec_spaced(words: Seq<Seq<char>>) -> Seq<char>
    decreases words.len(),
{
    if words.len() == 0 {
        Seq::empty()
    } else if words.len() == 1 {
        words[0]
    } else {
        spec_spaced(words.drop_last()) + " "@ + words.last()
    }
}

impl Command {
    /// Reads a `command` setting: a string is the program alone, an array is
    /// the program with its arguments.
    pub fn read(setting: CommandSetting) -> (command: Self)
        ensures
            lines_of(command.0@) == match setting {
                CommandSetting::Line(line) => seq![line@],
                CommandSetting::Words(words) => lines_of(words@),
            },
    {
        match setting {
            CommandSetting::Line(line) => {
                let mut words: Vec<String> = Vec::new();
                words.push(line);
                assert(lines_of(words@) =~= seq![line@]);
                Command(words)
            },
            CommandSetting::Words(words) => Command(words),
        }
    }

    /// The command as it is shown: its words with a blank between each two.
    pub fn display(&self) -> (text: String)
        ensures
            text@ == spec_spaced(lines_of(self.0@)),
    {
        let mut text = String::new();
        let mut i: usize = 0;
        assert(lines_of(self.0@).subrange(0, 0) =~= Seq::<Seq<char>>::empty());
        while i < self.0.len()
            invariant
                i <= self.0.len(),
                text@ == spec_spaced(lines_of(self.0@).subrange(0, i as int)),
            decreases self.0.len() - i,
        {
            let ghost before = lines_of(self.0@).subrange(0, i as int);
            let ghost after = lines_of(self.0@).subrange(0, i + 1);
            proof {
                assert(after.drop_last() =~= before);
                assert(after.last() == self.0@[i as int]@);
            }
            if i > 0 {
                text.append(" ");
            } else {
                assert(after[0] == self.0@[0]@);
                assert(text@ + self.0@[0]@ =~= self.0@[0]@);
            }
            text.append(self.0[i].as_str());
            i = i + 1;
        }
        assert(lines_of(self.0@).subrange(0, i as int) =~= lines_of(self.0@));
        text
    }
}

/// Auxiliary configuration for the preprocessor
#[derive(Debug, Clone, PartialEq, Eq)]
pub struct Manifest {
    /// command and arguments to run with this shell preprocessor job
    pub command: Command,
    /// Whether each input should be process by its own command invocation, or all inputs should be
    /// joined and processed by a single command invocation.
    pub joined: bool,
    /// Whether command invocation can be run concurrently to each other. This only has an effect if
    /// inputs are not joined together for a single command invocation.
    pub concurrent: bool,
    /// The path of the index file, where an index is kept; note that if multiple shell jobs are
    /// using the same index file, this will lead to problems!
    pub index: Option<String>,
}

/// The index file that a setting asks for: none where nothing or `false` is
/// given, the default file for `true`, and otherwise the given path.
pub open spec fn spec_index_path(setting: Option<IndexSetting>) -> Option<Seq<char>> {
    match setting {
        None => None,
        Some(IndexSetting::Flag(false)) => None,
        Some(IndexSetting::Flag(true)) => Some("shell-index.toml"@),
        Some(IndexSetting::Path(path)) => Some(path@),
    }
}

impl Manifest {
    /// Reads the `index` setting of a job: where the index is kept, if at all.
    pub fn index_path(setting: Option<IndexSetting>) -> (path: Option<String>)
        ensures
            path is Some <==> spec_index_path(setting) is Some,
            path matches Some(p) ==> Some(p@) == spec_index_path(setting),
    {
        match setting {
            None => None,
            Some(IndexSetting::Flag(flag)) => if flag {
                Some("shell-index.toml".to_owned())
            } else {
                None
            },
            Some(IndexSetting::Path(path)) => Some(path),
        }
    }

    /// The settings of a job from what its configuration gives: whatever is
    /// not given is off.
    pub fn new(
        command: CommandSetting,
        joined: Option<bool>,
        concurrent: Option<bool>,
        index: Option<IndexSetting>,
    ) -> (manifest: Self)
        ensures
            lines_of(manifest.command.0@) == match command {
                CommandSetting::Line(line) => seq![line@],
                CommandSetting::Words(words) => lines_of(words@),
            },
            manifest.joined == (joined == Some(true)),
            manifest.concurrent == (concurrent == Some(true)),
            manifest.index is Some <==> spec_index_path(index) is Some,
            manifest.index matches Some(p) ==> Some(p@) == spec_index_path(index),
    {
        let joined = match joined {
            Some(flag) => flag,
            None => false,
        };
        let concurrent = match concurrent {
            Some(flag) => flag,
            None => false,
        };
        Manifest { command: Command::read(command), joined, concurrent, index: Self::index_path(index) }
    }
}

} // verus!
