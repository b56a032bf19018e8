//! The `web-resource` job: downloads resources named by a document into files.

use vstd::prelude::*;
use crate::preprocessor::{DynError, Preprocessor, PreprocessorDefinition};
use crate::query::Query;
use crate::reporting::{describes, handed_on};
use crate::text::chain;
use vstd::string::StringExecFns;
use crate::world::{descent, resolve, spec_resolve};

pub mod error;
pub mod factory;
pub mod index;
pub mod manifest;
pub mod query_data;
pub mod state;
pub mod world;

pub use error::{
    DownloadError, ExecutionError, ExecutionResult, IndexError, ManifestError, ManifestResult,
    MultipleDownloadError, QueryConfigError,
};
pub use factory::WebResourceFactory;
pub use index::{Document, Index, Resource, ResourceView, Stored};
pub use manifest::Manifest;
pub use query_data::QueryData;
pub use state::ResourceState;
pub use world::World;

verus! {

/// What the index says of a resource: nothing where no index is kept,
/// otherwise whether it holds the resource's path with the resource's URL.
pub open spec fn indexed(
    entries: Option<Map<Seq<char>, Seq<char>>>,
    resource: ResourceView,
) -> Option<bool> {
    match entries {
        Some(entries) => Some(
            entries.contains_key(resource.path) && entries[resource.path] == resource.url,
        ),
        None => None,
    }
}

/// The entries of the index after a resource was downloaded: the resource's
/// path now has the resource's URL. Without an index there is nothing to keep.
pub open spec fn noted(
    entries: Option<Map<Seq<char>, Seq<char>>>,
    resource: ResourceView,
) -> Option<Map<Seq<char>, Seq<char>>> {
    match entries {
        Some(entries) => Some(entries.insert(resource.path, resource.url)),
        None => None,
    }
}

/// The `web-resource` preprocessor
#[derive(Debug)]
pub struct WebResource {
    name: String,
    manifest: Manifest,
    index: Option<Index>,
    query: Query,
}

impl WebResource {
    /// The job's name.
    pub open spec fn spec_name(&self) -> Seq<char> {
        self.job_named()@
    }

    /// The job's name, as the text that holds it.
    pub closed spec fn job_named(&self) -> String {
        self.name
    }

    /// The job's settings.
    pub closed spec fn spec_manifest(&self) -> Manifest {
        self.manifest
    }

    /// The job's query.
    pub closed spec fn spec_query(&self) -> Query {
        self.query
    }

    /// The job's index, where one is in use.
    pub closed spec fn spec_index(&self) -> Option<Index> {
        self.index
    }

    /// The entries of the job's index, where one is in use.
    pub open spec fn entries(&self) -> Option<Map<Seq<char>, Seq<char>>> {
        match self.spec_index() {
            Some(index) => Some(index@),
            None => None,
        }
    }

    /// Whether `other` is this job but for what its index holds.
    pub open spec fn same_job(&self, other: &Self) -> bool {
        &&& other.spec_name() == self.spec_name()
        &&& other.spec_manifest() == self.spec_manifest()
        &&& other.spec_query() == self.spec_query()
    }

    /// Creates the job. The index usually begins as `None` and is populated
    /// when the job runs.
    pub fn new(name: String, manifest: Manifest, index: Option<Index>, query: Query) -> (job: Self)
        ensures
            job.spec_name() == name@,
            job.spec_manifest() == manifest,
            job.spec_index() == index,
            job.spec_query() == query,
    {
        Self { name, manifest, index, query }
    }

    /// The job's name.
    pub fn job_name(&self) -> (name: &str)
        ensures
            name@ == self.spec_name(),
    {
        self.name.as_str()
    }

    /// The job's settings.
    pub fn manifest(&self) -> (manifest: &Manifest)
        ensures
            *manifest == self.spec_manifest(),
    {
        &self.manifest
    }

    /// The job's query.
    pub fn query(&self) -> (query: &Query)
        ensures
            *query == self.spec_query(),
    {
        &self.query
    }

    /// The job's index, where one is in use.
    pub fn index(&self) -> (index: Option<&Index>)
        ensures
            index is Some <==> self.spec_index() is Some,
            index matches Some(found) ==> Some(*found) == self.spec_index(),
    {
        self.index.as_ref()
    }

    /// Takes up what was found at the index's location. A job whose settings
    /// name no index file uses none, whatever was found. Otherwise the job
    /// uses the index that was stored, or an empty one where no file exists;
    /// where the stored file cannot be used, the job keeps what it had and the
    /// error says why.
    pub fn populate_index(&mut self, location: String, stored: Stored) -> (populated: Result<
        (),
        IndexError,
    >)
        ensures
            old(self).same_job(final(self)),
            old(self).spec_manifest().index is None ==> populated is Ok && final(self).spec_index()
                is None,
            old(self).spec_manifest().index is Some ==> match stored {
                Stored::Absent => populated is Ok && final(self).entries() == Some(
                    Map::<Seq<char>, Seq<char>>::empty(),
                ),
                Stored::Unreadable(why) => populated == Err::<(), IndexError>(IndexError::Io(why)),
                Stored::Malformed(why) => populated == Err::<(), IndexError>(
                    IndexError::Parse(why),
                ),
                Stored::Present(document) => if document.version == 1 {
                    populated is Ok && final(self).entries() == Some(
                        index::entries_of(index::views(document.resources@)),
                    )
                } else {
                    populated == Err::<(), IndexError>(IndexError::Version(document.version))
                },
            },
            populated is Err ==> final(self).spec_index() == old(self).spec_index(),
            populated is Ok ==> (final(self).spec_index() matches Some(index)
                ==> index.spec_location() == location@),
    {
        if self.manifest.index.is_none() {
            self.index = None;
            return Ok(());
        }
        match Index::read(location, stored) {
            Ok(index) => {
                self.index = Some(index);
                Ok(())
            },
            Err(error) => Err(error),
        }
    }

    /// The complaint about a path that leaves the project root.
    pub open spec fn spec_outside(path: Seq<char>) -> Seq<char> {
        path + " is outside the project root"@
    }

    /// Where below the project root a resource's file belongs. A path that
    /// leaves the root is refused as a file error.
    pub fn locate(&self, root: &str, resource: &Resource) -> (located: Result<String, DownloadError>)
        ensures
            match spec_resolve(resource.path@, root@) {
                Some(place) => located matches Ok(found) && found@ == place,
                None => located matches Err(DownloadError::File(why)) && why@ == Self::spec_outside(
                    resource.path@,
                ),
            },
    {
        match resolve(resource.path.as_str(), root) {
            Some(found) => Ok(found),
            None => Err(
                DownloadError::File(chain(resource.path.as_str(), " is outside the project root")),
            ),
        }
    }

    /// The state of a resource's file, given whether the file exists.
    pub open spec fn spec_resource_state(&self, resource: ResourceView, exists: bool) -> ResourceState {
        ResourceState::spec_of(
            exists,
            self.spec_manifest().overwrite,
            indexed(self.entries(), resource),
        )
    }

    /// Decides the state of a resource's file, given whether the file exists.
    /// The index is left as it is.
    pub fn resource_state(&self, resource: &Resource, exists: bool) -> (state: ResourceState)
        ensures
            state == self.spec_resource_state(resource@, exists),
    {
        if !exists {
            ResourceState::Missing
        } else if self.manifest.overwrite {
            ResourceState::Forced
        } else {
            match &self.index {
                Some(index) => {
                    if index.is_up_to_date(resource.path.as_str(), resource.url.as_str()) {
                        ResourceState::Existing
                    } else {
                        ResourceState::ChangedResource
                    }
                },
                None => ResourceState::Existing,
            }
        }
    }

    /// Notes that a resource was downloaded: where an index is in use, the
    /// resource's path has the resource's URL from now on.
    pub fn downloaded(&mut self, resource: Resource)
        ensures
            old(self).same_job(final(self)),
            final(self).entries() == noted(old(self).entries(), resource@),
    {
        let mut index: Option<Index> = None;
        std::mem::swap(&mut index, &mut self.index);
        match index {
            Some(mut index) => {
                index.update(resource);
                self.index = Some(index);
            },
            None => {},
        }
    }

    /// The document to store when all resources are dealt with, where an index
    /// is in use: the version tag and all records in ascending order of path.
    pub fn persist(&self) -> (document: Option<Document>)
        ensures
            document is Some <==> self.spec_index() is Some,
            document matches Some(written) ==> written.version == 1 && index::views(
                written.resources@,
            ) == self.spec_index()->0.records() && Some(
                index::entries_of(index::views(written.resources@)),
            ) == self.entries(),
    {
        match &self.index {
            Some(index) => Some(index.write()),
            None => None,
        }
    }

    /// How the job ends, from how storing the index went and which downloads
    /// failed: a failure to store the index comes first, then the failed
    /// downloads, all of them together; without either the job has succeeded.
    pub fn report(written: Result<(), IndexError>, errors: Vec<DownloadError>) -> (ended: Result<
        (),
        ExecutionError,
    >)
        ensures
            match written {
                Err(error) => ended == Err::<(), ExecutionError>(ExecutionError::Index(error)),
                Ok(_) => if errors.len() > 0 {
                    ended matches Err(ExecutionError::Download(failed)) && failed@ == errors@
                } else {
                    ended is Ok
                },
            },
    {
        match written {
            Err(error) => Err(ExecutionError::Index(error)),
            Ok(_) => {
                if errors.len() > 0 {
                    Err(ExecutionError::Download(MultipleDownloadError::new(errors)))
                } else {
                    Ok(())
                }
            },
        }
    }

    /// The line that says how a download ended.
    pub open spec fn spec_outcome(
        name: Seq<char>,
        url: Seq<char>,
        path: Seq<char>,
        failure: Option<Seq<char>>,
    ) -> Seq<char> {
        let stem = "["@ + name + "] Downloading "@ + url + " to "@ + path;
        match failure {
            None => stem + " finished"@,
            Some(why) => stem + " failed: "@ + why,
        }
    }

    /// The line that says how the download of `url` to `path` ended.
    pub fn outcome(&self, url: &str, path: &str, result: &Result<(), DownloadError>) -> (line: String)
        ensures
            line@ == Self::spec_outcome(
                self.spec_name(),
                url@,
                path@,
                match *result {
                    Ok(_) => None,
                    Err(error) => Some(error.spec_message()@),
                },
            ),
    {
        let mut line = "[".to_owned();
        line.append(self.name.as_str());
        line.append("] Downloading ");
        line.append(url);
        line.append(" to ");
        line.append(path);
        match result {
            Ok(_) => {
                line.append(" finished");
            },
            Err(error) => {
                line.append(" failed: ");
                line.append(error.message());
            },
        }
        line
    }

    /// Deals with one resource: finds its place below the root, decides from
    /// the file's existence, the job's settings and the index whether to
    /// download it, downloads it if so, and notes a successful download in the
    /// index. A failure leaves the index as it was.
    pub fn download<W: World>(&mut self, world: &W, resource: Resource) -> (done: Result<
        (),
        DownloadError,
    >)
        ensures
            old(self).same_job(final(self)),
            final(self).entries() == old(self).entries() || final(self).entries() == noted(
                old(self).entries(),
                resource@,
            ),
            done is Err ==> final(self).entries() == old(self).entries(),
            done is Ok ==> indexed(final(self).entries(), resource@) != Some(false),
            descent(resource.path@) is None ==> (done matches Err(DownloadError::File(why)) && why@
                == Self::spec_outside(resource.path@)),
    {
        let root = world.root();
        let location = match self.locate(root.as_str(), &resource) {
            Ok(location) => location,
            Err(error) => {
                return Err(error);
            },
        };
        let exists = world.resource_exists(location.as_str());
        let state = self.resource_state(&resource, exists);
        let line = state.announcement(
            self.name.as_str(),
            resource.url.as_str(),
            location.as_str(),
        );
        world.log(line.as_str());
        if state.download() {
            let result = world.download(location.as_str(), resource.url.as_str());
            let line = self.outcome(resource.url.as_str(), location.as_str(), &result);
            world.log(line.as_str());
            match result {
                Ok(_) => {
                    self.downloaded(resource);
                },
                Err(error) => {
                    return Err(error);
                },
            }
        }
        Ok(())
    }

    /// Whether a run of a job with the given settings may end with the given
    /// error: an index error needs an index to be kept, and failed downloads
    /// are only reported if there are any.
    pub open spec fn may_end_with(manifest: Manifest, error: ExecutionError) -> bool {
        &&& error is Index ==> manifest.index is Some
        &&& error matches ExecutionError::Download(failed) ==> failed@.len() > 0
    }

    /// Runs the job in the given world, one step after the other: populates
    /// the index where the settings name one, queries the document, deals with
    /// every resource whether or not an earlier one failed, stores the index
    /// where one is in use, and reports. A failure to read the index or to
    /// query the document ends the job before any resource is dealt with.
    pub fn run_impl<W: World>(&mut self, world: &W) -> (ended: ExecutionResult<()>)
        ensures
            old(self).same_job(final(self)),
            old(self).spec_manifest().index is None ==> final(self).spec_index() is None,
            old(self).spec_manifest().index is None ==> !(ended matches Err(
                ExecutionError::Index(_),
            )),
            ended matches Err(ExecutionError::Download(failed)) ==> failed@.len() > 0,
            ended is Ok ==> (final(self).spec_index() is Some <==> old(self).spec_manifest().index
                is Some),
    {
        let location = match &self.manifest.index {
            Some(path) => Some(path.clone()),
            None => None,
        };
        match &location {
            Some(path) => {
                let stored = world.read_index(path.as_str());
                match self.populate_index(path.clone(), stored) {
                    Ok(_) => {},
                    Err(error) => {
                        return Err(ExecutionError::Index(error));
                    },
                }
            },
            None => {
                self.index = None;
            },
        }
        let data = match world.query(&self.query) {
            Ok(data) => data,
            Err(error) => {
                return Err(ExecutionError::Query(error));
            },
        };
        let resources = data.resources();
        let mut errors: Vec<DownloadError> = Vec::new();
        let mut i: usize = 0;
        while i < resources.len()
            invariant
                i <= resources.len(),
                old(self).same_job(self),
                self.spec_index() is Some <==> old(self).spec_manifest().index is Some,
            decreases resources.len() - i,
        {
            match self.download(world, resources[i].duplicate()) {
                Ok(_) => {},
                Err(error) => {
                    errors.push(error);
                },
            }
            i = i + 1;
        }
        let written = match (&location, self.persist()) {
            (Some(path), Some(document)) => world.write_index(path.as_str(), &document),
            _ => Ok(()),
        };
        Self::report(written, errors)
    }
}

/// A file that does not exist is always downloaded, whatever the settings and
/// the index say.
pub proof fn lemma_missing_is_downloaded(job: WebResource, resource: ResourceView)
    ensures
        job.spec_resource_state(resource, false) == ResourceState::Missing,
        job.spec_resource_state(resource, false).spec_download(),
{
}

/// Where overwriting is forced, a file that exists is downloaded again,
/// whatever the index says. (A file that does not exist is `Missing`.)
pub proof fn lemma_forced_is_downloaded(job: WebResource, resource: ResourceView)
    requires
        job.spec_manifest().overwrite,
    ensures
        job.spec_resource_state(resource, true) == ResourceState::Forced,
        job.spec_resource_state(resource, true).spec_download(),
{
}

/// A file that exists and was downloaded from the wanted URL according to the
/// index is left alone, unless overwriting is forced.
pub proof fn lemma_current_is_skipped(job: WebResource, resource: ResourceView)
    requires
        !job.spec_manifest().overwrite,
        job.entries() matches Some(entries) && entries.contains_key(resource.path)
            && entries[resource.path] == resource.url,
    ensures
        job.spec_resource_state(resource, true) == ResourceState::Existing,
        !job.spec_resource_state(resource, true).spec_download(),
{
}

/// A file that exists and was downloaded from another URL according to the
/// index is downloaded again, and once that download is noted the index holds
/// the wanted URL, so that the file counts as current from then on.
pub proof fn lemma_stale_is_downloaded(job: WebResource, resource: ResourceView)
    requires
        !job.spec_manifest().overwrite,
        job.entries() matches Some(entries) && entries.contains_key(resource.path)
            && entries[resource.path] != resource.url,
    ensures
        job.spec_resource_state(resource, true) == ResourceState::ChangedResource,
        job.spec_resource_state(resource, true).spec_download(),
        indexed(noted(job.entries(), resource), resource) == Some(true),
        ResourceState::spec_of(true, false, indexed(noted(job.entries(), resource), resource))
            == ResourceState::Existing,
{
}

/// Noting the download of one resource does not change what the index says of
/// a resource at another path: resources of one job do not get in each other's
/// way, in whatever order they are dealt with.
pub proof fn lemma_other_paths_untouched(
    entries: Option<Map<Seq<char>, Seq<char>>>,
    done: ResourceView,
    other: ResourceView,
)
    requires
        done.path != other.path,
    ensures
        indexed(noted(entries, done), other) == indexed(entries, other),
{
}

/// The entries of the index after a run in which every download succeeds: each
/// resource in turn is downloaded and noted if its state asks for it, given
/// whether its file existed.
pub open spec fn after_run(
    overwrite: bool,
    entries: Option<Map<Seq<char>, Seq<char>>>,
    resources: Seq<ResourceView>,
    existed: Seq<bool>,
) -> Option<Map<Seq<char>, Seq<char>>>
    decreases resources.len(),
{
    if resources.len() == 0 {
        entries
    } else {
        let before = after_run(overwrite, entries, resources.drop_last(), existed.drop_last());
        if ResourceState::spec_of(
            existed.last(),
            overwrite,
            indexed(before, resources.last()),
        ).spec_download() {
            noted(before, resources.last())
        } else {
            before
        }
    }
}

/// After a run in which every download succeeds, the index holds every resource
/// of the run with its URL, provided that no two resources share a path.
pub proof fn lemma_run_notes_all(
    overwrite: bool,
    entries: Option<Map<Seq<char>, Seq<char>>>,
    resources: Seq<ResourceView>,
    existed: Seq<bool>,
    i: int,
)
    requires
        index::distinct_paths(resources),
        existed.len() == resources.len(),
        0 <= i < resources.len(),
    ensures
        after_run(overwrite, entries, resources, existed) is Some <==> entries is Some,
        indexed(after_run(overwrite, entries, resources, existed), resources[i]) != Some(false),
    decreases resources.len(),
{
    let init = resources.drop_last();
    let before = after_run(overwrite, entries, init, existed.drop_last());
    let last = resources.len() - 1;
    lemma_after_run_keeps_index(overwrite, entries, init, existed.drop_last());
    if i < last {
        assert(index::distinct_paths(init)) by {
            assert forall|a: int, b: int| 0 <= a < b < init.len() implies #[trigger] init[a].path
                != #[trigger] init[b].path by {
                assert(resources[a].path != resources[b].path);
            }
        }
        lemma_run_notes_all(overwrite, entries, init, existed.drop_last(), i);
        assert(resources[i].path != resources[last].path);
    }
}

/// A run neither takes an index into use nor out of use.
pub proof fn lemma_after_run_keeps_index(
    overwrite: bool,
    entries: Option<Map<Seq<char>, Seq<char>>>,
    resources: Seq<ResourceView>,
    existed: Seq<bool>,
)
    ensures
        after_run(overwrite, entries, resources, existed) is Some <==> entries is Some,
    decreases resources.len(),
{
    if resources.len() > 0 {
        lemma_after_run_keeps_index(overwrite, entries, resources.drop_last(), existed.drop_last());
    }
}

/// Running a job a second time does nothing, as long as overwriting is not
/// forced, every download of the first run succeeded and every file is still
/// there: no resource is downloaded again, and the index stays as it is.
pub proof fn lemma_second_run_is_idle(
    entries: Option<Map<Seq<char>, Seq<char>>>,
    resources: Seq<ResourceView>,
    existed: Seq<bool>,
)
    requires
        index::distinct_paths(resources),
        existed.len() == resources.len(),
    ensures
        ({
            let first = after_run(false, entries, resources, existed);
            let present = Seq::new(resources.len(), |i: int| true);
            &&& forall|i: int|
                0 <= i < resources.len() ==> !(#[trigger] ResourceState::spec_of(
                    true,
                    false,
                    indexed(first, resources[i]),
                )).spec_download()
            &&& after_run(false, first, resources, present) == first
        }),
{
    let first = after_run(false, entries, resources, existed);
    let present = Seq::new(resources.len(), |i: int| true);
    assert forall|i: int| 0 <= i < resources.len() implies !(#[trigger] ResourceState::spec_of(
        true,
        false,
        indexed(first, resources[i]),
    )).spec_download() by {
        lemma_run_notes_all(false, entries, resources, existed, i);
    }
    lemma_idle_run(first, resources, resources.len() as int);
    assert(resources.subrange(0, resources.len() as int) =~= resources);
    assert(Seq::new(resources.len(), |i: int| true) =~= Seq::new(
        resources.len() as nat,
        |i: int| true,
    ));
}

/// A run over files that all exist and are all current changes nothing.
proof fn lemma_idle_run(
    entries: Option<Map<Seq<char>, Seq<char>>>,
    resources: Seq<ResourceView>,
    n: int,
)
    requires
        0 <= n <= resources.len(),
        forall|i: int|
            0 <= i < resources.len() ==> !(#[trigger] ResourceState::spec_of(
                true,
                false,
                indexed(entries, resources[i]),
            )).spec_download(),
    ensures
        after_run(false, entries, resources.subrange(0, n), Seq::new(n as nat, |i: int| true))
            == entries,
    decreases n,
{
    if n > 0 {
        lemma_idle_run(entries, resources, n - 1);
        assert(resources.subrange(0, n).drop_last() =~= resources.subrange(0, n - 1));
        assert(Seq::new(n as nat, |i: int| true).drop_last() =~= Seq::new(
            (n - 1) as nat,
            |i: int| true,
        ));
        assert(resources.subrange(0, n).last() == resources[n - 1]);
        assert(!ResourceState::spec_of(
            true,
            false,
            indexed(entries, resources[n - 1]),
        ).spec_download());
    }
}

impl<W: World> Preprocessor<W> for WebResource {
    /// The job's name.
    open spec fn named(&self) -> String {
        self.job_named()
    }

    /// The job's name.
    fn name(&self) -> (name: String) {
        self.name.clone()
    }

    /// What a run brings about: the job stays the same but for its index,
    /// which is in use after a run that succeeded exactly if the settings
    /// name an index file, and a failure is handed on as the chain of an
    /// error that the run may end with.
    open spec fn runs(&self, after: &Self, world: &W, ended: Result<(), DynError>) -> bool {
        &&& self.same_job(after)
        &&& self.spec_manifest().index is None ==> after.spec_index() is None
        &&& ended is Ok ==> (after.spec_index() is Some <==> self.spec_manifest().index is Some)
        &&& ended matches Err(chain) ==> exists|error: ExecutionError| #[trigger]
            describes(error, chain) && Self::may_end_with(self.spec_manifest(), error)
    }

    /// Runs the job as `run_impl` does. A failure is handed on as the chain of
    /// the job's error: its text with the texts of what lay behind it.
    fn run(&mut self, world: &W) -> (ended: Result<(), DynError>) {
        let ended = self.run_impl(world);
        let ghost outcome = ended;
        proof {
            if let Err(error) = outcome {
                assert(Self::may_end_with(old(self).spec_manifest(), error));
            }
        }
        handed_on(ended)
    }
}

impl PreprocessorDefinition for WebResourceFactory {
    type Manifest = Result<Manifest, String>;

    type Job = WebResource;

    type Error = ManifestError;

    open spec fn spec_name(&self) -> &str {
        "web-resource"
    }

    fn name(&self) -> (name: String) {
        "web-resource".to_owned()
    }

    /// What configuring a job gives: what the factory's own `configure` gives.
    open spec fn configures(
        &self,
        name: String,
        manifest: Result<Manifest, String>,
        query: crate::manifest::Query,
        configured: Result<WebResource, ManifestError>,
    ) -> bool {
        factory::spec_configured(name@, manifest, query, configured)
    }

    /// Creates the job, as the factory's own `configure` does.
    fn configure(
        &self,
        name: String,
        manifest: Result<Manifest, String>,
        query: crate::manifest::Query,
    ) -> (configured: Result<WebResource, ManifestError>) {
        WebResourceFactory::configure(self, name, manifest, query)
    }
}

} // verus!
