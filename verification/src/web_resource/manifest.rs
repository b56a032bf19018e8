//! The settings of a `web-resource` job.

use vstd::prelude::*;

verus! {

/// Auxilliary configuration for the preprocessor
#[derive(Debug, Clone, PartialEq, Eq)]
pub struct Manifest {
    /// Always downloads and overwrites all files. It is not recommended to permanently set this
    /// option, but temporarily enabling it can make sense to check for changed resources.
    pub overwrite: bool,
    /// The path of the index file, where an index is kept; note that if multiple web-resource
    /// jobs are using the same index file, this will lead to problems!
    pub index: Option<String>,
    /// Whether files no longer needed by the document are to be deleted; this requires the index
    /// to be enabled. Nothing acts on this setting.
    pub evict: bool,
}

/// What a job's configuration says under `index`: a boolean or a file path.
#[derive(Debug, Clone, PartialEq, Eq)]
pub enum IndexSetting {
    /// A boolean was given.
    Flag(bool),
    /// A file path was given.
    Path(String),
}

/// The name of the index file where the configuration only says `true`.
pub open spec fn spec_default_index() -> &'static str {
    "web-resource-index.toml"
}

/// The index file that a setting asks for: none where nothing or `false` is
/// given, the default file for `true`, and otherwise the given path.
pub open spec fn spec_index_path(setting: Option<IndexSetting>) -> Option<Seq<char>> {
    match setting {
        None => None,
        Some(IndexSetting::Flag(false)) => None,
        Some(IndexSetting::Flag(true)) => Some(spec_default_index()@),
        Some(IndexSetting::Path(path)) => Some(path@),
    }
}

impl Manifest {
    /// Reads the `index` setting of a job: where the index is kept, if at all.
    pub fn index_path(setting: Option<IndexSetting>) -> (path: Option<String>)
        ensures
            path is Some <==> spec_index_path(setting) is Some,
            path matches Some(p) ==> Some(p@) == spec_index_path(setting),
    {
        match setting {
            None => None,
            Some(IndexSetting::Flag(flag)) => if flag {
                Some("web-resource-index.toml".to_owned())
            } else {
                None
            },
            Some(IndexSetting::Path(path)) => Some(path),
        }
    }

    /// The settings of a job from what its configuration gives: whatever is
    /// not given is off.
    pub fn new(overwrite: Option<bool>, index: Option<IndexSetting>, evict: Option<bool>) -> (manifest:
        Self)
        ensures
            manifest.overwrite == (overwrite == Some(true)),
            manifest.evict == (evict == Some(true)),
            manifest.index is Some <==> spec_index_path(index) is Some,
            manifest.index matches Some(p) ==> Some(p@) == spec_index_path(index),
    {
        let overwrite = match overwrite {
            Some(flag) => flag,
            None => false,
        };
        let evict = match evict {
            Some(flag) => flag,
            None => false,
        };
        Manifest { overwrite, index: Self::index_path(index), evict }
    }
}

} // verus!
