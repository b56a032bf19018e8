//! Making `web-resource` jobs from their configuration.

use vstd::prelude::*;
use crate::manifest;
use crate::query::Query;
use super::error::{ManifestError, ManifestResult, QueryConfigError};
use super::manifest::Manifest;
use super::WebResource;

verus! {

/// The `web-resource` preprocessor factory
#[derive(Debug, Clone, Copy, PartialEq, Eq, Structural)]
pub struct WebResourceFactory {}

/// Whether `configured` is what configuring a job gives: unreadable settings
/// are refused first, then a query for a single element; otherwise the job
/// has the given name and settings, no index yet, and the query that the
/// configuration and the defaults give.
pub open spec fn spec_configured(
    name: Seq<char>,
    manifest: Result<Manifest, String>,
    query: manifest::Query,
    configured: ManifestResult<WebResource>,
) -> bool {
    match manifest {
        Err(why) => configured == Err::<WebResource, ManifestError>(ManifestError::Manifest(why)),
        Ok(settings) => if query.one == Some(true) {
            configured == Err::<WebResource, ManifestError>(
                ManifestError::Query(QueryConfigError::One),
            )
        } else {
            &&& configured matches Ok(job)
            &&& job.spec_name() == name
            &&& job.spec_manifest() == settings
            &&& job.spec_index() is None
            &&& job.spec_query().one == false
            &&& job.spec_query().inputs == query.inputs
            &&& job.spec_query().selector@ == match query.selector {
                Some(selector) => selector@,
                None => "<web-resource>"@,
            }
            &&& match query.field {
                Some(field) => job.spec_query().field == field,
                None => job.spec_query().field matches Some(field) && field@ == "value"@,
            }
        },
    }
}

impl WebResourceFactory {
    /// Creates a factory.
    pub fn new() -> (factory: Self)
        ensures
            factory == (WebResourceFactory {  }),
    {
        WebResourceFactory {  }
    }

    /// The identifier of the preprocessor, referenced by a job's `kind`.
    pub fn name(&self) -> (name: &'static str)
        ensures
            name == "web-resource",
    {
        "web-resource"
    }

    /// Builds the job's query from its configuration. What the configuration
    /// leaves open is taken from the defaults: the field `value` of all
    /// elements labelled `<web-resource>`. A query for a single element is
    /// refused.
    pub fn build_query(config: manifest::Query) -> (built: ManifestResult<Query>)
        ensures
            built matches Ok(query) ==> {
                &&& config.one != Some(true)
                &&& query.one == false
                &&& query.inputs == config.inputs
                &&& query.selector@ == match config.selector {
                    Some(selector) => selector@,
                    None => "<web-resource>"@,
                }
                &&& match config.field {
                    Some(field) => query.field == field,
                    None => query.field matches Some(name) && name@ == "value"@,
                }
            },
            built is Err <==> config.one == Some(true),
            built is Err ==> built == Err::<Query, ManifestError>(
                ManifestError::Query(QueryConfigError::One),
            ),
    {
        let built = Query::builder().default_field(Some("value".to_owned())).default_one(
            false,
        ).default_selector("<web-resource>".to_owned()).build(config);
        match built {
            Ok(query) => {
                if query.one {
                    Err(ManifestError::Query(QueryConfigError::One))
                } else {
                    Ok(query)
                }
            },
            Err(error) => Err(ManifestError::Query(QueryConfigError::Builder(error))),
        }
    }

    /// Creates the job. The settings are those read from the job's
    /// configuration, or the parser's account of why they could not be read.
    /// The job's index begins as `None` and is populated when the job runs.
    pub fn configure(
        &self,
        name: String,
        manifest: Result<Manifest, String>,
        query: manifest::Query,
    ) -> (configured: ManifestResult<WebResource>)
        ensures
            spec_configured(name@, manifest, query, configured),
    {
        let settings = match manifest {
            Ok(settings) => settings,
            Err(why) => {
                return Err(ManifestError::Manifest(why));
            },
        };
        let query = match Self::build_query(query) {
            Ok(query) => query,
            Err(error) => {
                return Err(error);
            },
        };
        Ok(WebResource::new(name, settings, None, query))
    }
}

} // verus!
