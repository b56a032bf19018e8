//! Making `shell` jobs from their configuration.

use vstd::prelude::*;
use crate::manifest;
use crate::query::{Query, QueryBuilderError};
use super::error::{ManifestError, ManifestResult, QueryConfigError};
use super::manifest::Manifest;
use super::Shell;

verus! {

/// The `shell` preprocessor factory
#[derive(Debug, Clone, Copy, PartialEq, Eq, Structural)]
pub struct ShellFactory {}

/// Whether `configured` is what configuring a job gives: unreadable settings
/// are refused first, then a missing selector, then a query for a single
/// element; otherwise the job has the given name and settings, no index yet,
/// and the query that the configuration and the defaults give.
pub open spec fn spec_configured(
    name: Seq<char>,
    manifest: Result<Manifest, String>,
    query: manifest::Query,
    configured: ManifestResult<Shell>,
) -> bool {
    match manifest {
        Err(why) => configured == Err::<Shell, ManifestError>(ManifestError::Manifest(why)),
        Ok(settings) => if query.selector is None {
            configured == Err::<Shell, ManifestError>(
                ManifestError::Query(QueryConfigError::Builder(QueryBuilderError::Selector)),
            )
        } else if query.one == Some(true) {
            configured == Err::<Shell, ManifestError>(ManifestError::Query(QueryConfigError::One))
        } else {
            &&& configured matches Ok(job)
            &&& job.spec_name() == name
            &&& job.spec_manifest() == settings
            &&& job.spec_index() is None
            &&& job.spec_query().one == false
            &&& job.spec_query().inputs == query.inputs
            &&& Some(job.spec_query().selector) == query.selector
            &&& match query.field {
                Some(field) => job.spec_query().field == field,
                None => job.spec_query().field matches Some(field) && field@ == "value"@,
            }
        },
    }
}

impl ShellFactory {
    /// Creates a factory.
    pub fn new() -> (factory: Self)
        ensures
            factory == (ShellFactory {  }),
    {
        ShellFactory {  }
    }

    /// The identifier of the preprocessor, referenced by a job's `kind`.
    pub fn name(&self) -> (name: &'static str)
        ensures
            name == "shell",
    {
        "shell"
    }

    /// Builds the job's query from its configuration. The selector has to be
    /// configured; what else the configuration leaves open is taken from the
    /// defaults: the field `value` of all elements. A query for a single
    /// element is refused.
    pub fn build_query(config: manifest::Query) -> (built: ManifestResult<Query>)
        ensures
            match config.selector {
                None => built == Err::<Query, ManifestError>(
                    ManifestError::Query(QueryConfigError::Builder(QueryBuilderError::Selector)),
                ),
                Some(selector) => if config.one == Some(true) {
                    built == Err::<Query, ManifestError>(ManifestError::Query(QueryConfigError::One))
                } else {
                    &&& built matches Ok(query)
                    &&& query.selector == selector
                    &&& query.one == false
                    &&& query.inputs == config.inputs
                    &&& match config.field {
                        Some(field) => query.field == field,
                        None => query.field matches Some(name) && name@ == "value"@,
                    }
                },
            },
    {
        let built = Query::builder().default_field(Some("value".to_owned())).default_one(false).build(
            config,
        );
        match built {
            Ok(query) => {
                if query.one {
                    Err(ManifestError::Query(QueryConfigError::One))
                } else {
                    Ok(query)
                }
            },
            Err(error) => Err(ManifestError::Query(QueryConfigError::Builder(error))),
        }
    }

    /// Creates the job. The settings are those read from the job's
    /// configuration, or the parser's account of why they could not be read.
    /// The job's index begins as `None` and is populated when the job runs.
    pub fn configure(
        &self,
        name: String,
        manifest: Result<Manifest, String>,
        query: manifest::Query,
    ) -> (configured: ManifestResult<Shell>)
        ensures
            spec_configured(name@, manifest, query, configured),
    {
        let settings = match manifest {
            Ok(settings) => settings,
            Err(why) => {
                return Err(ManifestError::Manifest(why));
            },
        };
        let query = match Self::build_query(query) {
            Ok(query) => query,
            Err(error) => {
                return Err(error);
            },
        };
        Ok(Shell::new(name, settings, None, query))
    }
}

} // verus!
