//! The verdict on one resource: whether it has to be downloaded, and why.

use vstd::prelude::*;
use vstd::string::StringExecFns;

verus! {

/// The state of the file: if and how the existing file corresponds to the desired web resource.
#[derive(Debug, Clone, Copy, PartialEq, Eq, Structural)]
pub enum ResourceState {
    /// No local file exists.
    Missing,
    /// A re-download is forced despite the file existing.
    Forced,
    /// The file seems to be up-to-date: the URL hasn't changed, or no index is kept.
    Existing,
    /// The file is stale: the URL has changed according to the index.
    ChangedResource,
}

impl ResourceState {
    /// The verdict for a file, from whether it exists, whether overwriting is
    /// forced, and what the index says: `None` where no index is kept,
    /// otherwise whether the index holds the file's path with the wanted URL.
    pub open spec fn spec_of(exists: bool, overwrite: bool, indexed: Option<bool>) -> Self {
        if !exists {
            ResourceState::Missing
        } else if overwrite {
            ResourceState::Forced
        } else if indexed == Some(false) {
            ResourceState::ChangedResource
        } else {
            ResourceState::Existing
        }
    }

    /// Decides the state of a file. Looks at nothing but its arguments.
    pub fn of(exists: bool, overwrite: bool, indexed: Option<bool>) -> (state: Self)
        ensures
            state == Self::spec_of(exists, overwrite, indexed),
            !exists ==> state == ResourceState::Missing,
            exists && overwrite ==> state == ResourceState::Forced,
            exists && !overwrite && (indexed is None || indexed == Some(true)) ==> state
                == ResourceState::Existing,
            exists && !overwrite && indexed == Some(false) ==> state
                == ResourceState::ChangedResource,
    {
        if !exists {
            ResourceState::Missing
        } else if overwrite {
            ResourceState::Forced
        } else {
            match indexed {
                Some(false) => ResourceState::ChangedResource,
                _ => ResourceState::Existing,
            }
        }
    }

    /// Whether a file in this state is downloaded: every state but `Existing`.
    pub open spec fn spec_download(self) -> bool {
        self != ResourceState::Existing
    }

    /// Whether a file in this state is downloaded.
    #[verifier::when_used_as_spec(spec_download)]
    pub fn download(self) -> (act: bool)
        ensures
            act == self.spec_download(),
    {
        match self {
            Self::Missing | Self::Forced | Self::ChangedResource => true,
            Self::Existing => false,
        }
    }

    /// The reason given with a state, where there is one to give.
    pub open spec fn spec_reason(self) -> Option<&'static str> {
        match self {
            ResourceState::Missing => None,
            ResourceState::Forced => Some("overwrite of existing files was forced"),
            ResourceState::ChangedResource => Some("URL has changed"),
            ResourceState::Existing => Some("file exists"),
        }
    }

    /// Why the file is or is not downloaded. A missing file needs no reason.
    pub fn reason(self) -> (reason: Option<&'static str>)
        ensures
            reason == self.spec_reason(),
    {
        match self {
            Self::Missing => None,
            Self::Forced => Some("overwrite of existing files was forced"),
            Self::ChangedResource => Some("URL has changed"),
            Self::Existing => Some("file exists"),
        }
    }

    /// The reason in parentheses after a blank, or nothing.
    pub open spec fn spec_reason_suffix(self) -> Seq<char> {
        match self.spec_reason() {
            Some(msg) => " ("@ + msg@ + ")"@,
            None => Seq::empty(),
        }
    }

    /// The line that announces what happens to a resource.
    pub open spec fn spec_announcement(
        self,
        name: Seq<char>,
        url: Seq<char>,
        path: Seq<char>,
    ) -> Seq<char> {
        if self.spec_download() {
            "["@ + name + "] Downloading "@ + url + " to "@ + path + self.spec_reason_suffix()
                + "..."@
        } else {
            "["@ + name + "] Downloading of "@ + url + " to "@ + path + " skipped"@
                + self.spec_reason_suffix()
        }
    }

    /// The line that announces, for the job `name`, what happens to the
    /// resource at `url` that belongs at `path`.
    pub fn announcement(self, name: &str, url: &str, path: &str) -> (line: String)
        ensures
            line@ == self.spec_announcement(name@, url@, path@),
    {
        let mut line = String::new();
        line.append("[");
        line.append(name);
        if self.download() {
            line.append("] Downloading ");
        } else {
            line.append("] Downloading of ");
        }
        line.append(url);
        line.append(" to ");
        line.append(path);
        if !self.download() {
            line.append(" skipped");
        }
        let ghost stem = line@;
        match self.reason() {
            Some(msg) => {
                line.append(" (");
                line.append(msg);
                line.append(")");
                assert(line@ =~= stem + (" ("@ + msg@ + ")"@));
            },
            None => {
                assert(line@ =~= stem + Seq::<char>::empty());
            },
        }
        if self.download() {
            line.append("...");
        }
        assert(line@ =~= self.spec_announcement(name@, url@, path@));
        line
    }
}

} // verus!
