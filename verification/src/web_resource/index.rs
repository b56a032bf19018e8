//! The persisted index of downloaded resources: which URL each file was last
//! downloaded from.

use vstd::prelude::*;
use vstd::string::StringExecFns;
use crate::reporting::ErrorExt;
use crate::text::{
    decimal, lemma_text_lt_strict, lemma_text_lt_transitive, no_lines, one_line, rank,
    spec_decimal, text_lt, Rank,
};

verus! {

/// A resource that should be downloaded.
#[derive(Debug, Clone, PartialEq, Eq)]
pub struct Resource {
    /// The path to download to. Must be in the document's root.
    pub path: String,
    /// The URL to download from.
    pub url: String,
}

/// The mathematical value of a [`Resource`].
pub ghost struct ResourceView {
    pub path: Seq<char>,
    pub url: Seq<char>,
}

impl View for Resource {
    type V = ResourceView;

    open spec fn view(&self) -> ResourceView {
        ResourceView { path: self.path@, url: self.url@ }
    }
}

impl Resource {
    /// A copy of this resource.
    pub fn duplicate(&self) -> (r: Resource)
        ensures
            r@ == self@,
    {
        Resource { path: self.path.clone(), url: self.url.clone() }
    }
}

/// The views of a sequence of resources.
pub open spec fn views(records: Seq<Resource>) -> Seq<ResourceView> {
    Seq::new(records.len(), |i: int| records[i]@)
}

/// The mapping from path to URL that a sequence of records stands for. Where a
/// path occurs more than once, the last record wins.
pub open spec fn entries_of(records: Seq<ResourceView>) -> Map<Seq<char>, Seq<char>>
    decreases records.len(),
{
    if records.len() == 0 {
        Map::empty()
    } else {
        entries_of(records.drop_last()).insert(records.last().path, records.last().url)
    }
}

/// Whether some record is for the given path.
pub open spec fn listed(records: Seq<ResourceView>, path: Seq<char>) -> bool {
    exists|i: int| 0 <= i < records.len() && #[trigger] records[i].path == path
}

/// Whether the records are strictly ascending by path. No path occurs twice in
/// such a sequence.
pub open spec fn sorted_by_path(records: Seq<ResourceView>) -> bool {
    forall|i: int, j: int|
        0 <= i < j < records.len() ==> text_lt(#[trigger] records[i].path, #[trigger] records[j].path)
}

/// Whether no path occurs in two records.
pub open spec fn distinct_paths(records: Seq<ResourceView>) -> bool {
    forall|i: int, j: int|
        0 <= i < j < records.len() ==> #[trigger] records[i].path != #[trigger] records[j].path
}

/// Ascending records have distinct paths.
pub proof fn lemma_sorted_distinct(records: Seq<ResourceView>)
    requires
        sorted_by_path(records),
    ensures
        distinct_paths(records),
{
    assert forall|i: int, j: int| 0 <= i < j < records.len() implies #[trigger] records[i].path
        != #[trigger] records[j].path by {
        lemma_text_lt_strict(records[i].path, records[j].path);
    }
}

/// The mapping of a sequence of records holds exactly the listed paths.
pub proof fn lemma_entries_of_dom(records: Seq<ResourceView>, path: Seq<char>)
    ensures
        entries_of(records).contains_key(path) <==> listed(records, path),
    decreases records.len(),
{
    if records.len() > 0 {
        let init = records.drop_last();
        lemma_entries_of_dom(init, path);
        if listed(init, path) {
            let i = choose|i: int| 0 <= i < init.len() && #[trigger] init[i].path == path;
            assert(records[i].path == path);
        }
        if listed(records, path) {
            let i = choose|i: int| 0 <= i < records.len() && #[trigger] records[i].path == path;
            if i < records.len() - 1 {
                assert(init[i].path == path);
            }
        }
        assert(records[records.len() - 1].path == records.last().path);
    }
}

/// Among records with distinct paths, each path is mapped to its own URL.
pub proof fn lemma_entries_of_value(records: Seq<ResourceView>, i: int)
    requires
        distinct_paths(records),
        0 <= i < records.len(),
    ensures
        entries_of(records).contains_key(records[i].path),
        entries_of(records)[records[i].path] == records[i].url,
    decreases records.len(),
{
    let init = records.drop_last();
    if i < records.len() - 1 {
        assert(distinct_paths(init)) by {
            assert forall|a: int, b: int| 0 <= a < b < init.len() implies #[trigger] init[a].path
                != #[trigger] init[b].path by {
                assert(records[a].path != records[b].path);
            }
        }
        lemma_entries_of_value(init, i);
        assert(records[i].path != records[records.len() - 1].path);
    }
}

/// A mapping that holds exactly the records' paths, each with its URL, is the
/// mapping of those records.
pub proof fn lemma_entries_of_is(records: Seq<ResourceView>, m: Map<Seq<char>, Seq<char>>)
    requires
        distinct_paths(records),
        forall|k: Seq<char>| m.contains_key(k) <==> listed(records, k),
        forall|i: int| 0 <= i < records.len() ==> m[#[trigger] records[i].path] == records[i].url,
    ensures
        entries_of(records) == m,
{
    let e = entries_of(records);
    assert forall|k: Seq<char>| e.contains_key(k) <==> m.contains_key(k) by {
        lemma_entries_of_dom(records, k);
    }
    assert forall|k: Seq<char>| e.contains_key(k) implies e[k] == m[k] by {
        lemma_entries_of_dom(records, k);
        let i = choose|i: int| 0 <= i < records.len() && #[trigger] records[i].path == k;
        lemma_entries_of_value(records, i);
    }
    assert(e =~= m);
}

/// Replacing the record of a path keeps the order and maps the path anew.
proof fn lemma_replace(before: Seq<ResourceView>, i: int, r: ResourceView)
    requires
        sorted_by_path(before),
        0 <= i < before.len(),
        before[i].path == r.path,
    ensures
        sorted_by_path(before.update(i, r)),
        entries_of(before.update(i, r)) == entries_of(before).insert(r.path, r.url),
{
    let after = before.update(i, r);
    let m = entries_of(before).insert(r.path, r.url);
    assert(sorted_by_path(after)) by {
        assert forall|a: int, b: int| 0 <= a < b < after.len() implies text_lt(
            #[trigger] after[a].path,
            #[trigger] after[b].path,
        ) by {
            assert(text_lt(before[a].path, before[b].path));
        }
    }
    lemma_sorted_distinct(before);
    lemma_sorted_distinct(after);
    assert forall|k: Seq<char>| m.contains_key(k) <==> listed(after, k) by {
        lemma_entries_of_dom(before, k);
        if listed(before, k) {
            let j = choose|j: int| 0 <= j < before.len() && #[trigger] before[j].path == k;
            assert(after[j].path == k);
        }
        if listed(after, k) {
            let j = choose|j: int| 0 <= j < after.len() && #[trigger] after[j].path == k;
            assert(before[j].path == k);
        }
        assert(after[i].path == r.path);
    }
    assert forall|j: int| 0 <= j < after.len() implies m[#[trigger] after[j].path]
        == after[j].url by {
        if j != i {
            lemma_entries_of_value(before, j);
            assert(before[j].path != before[i].path);
        }
    }
    lemma_entries_of_is(after, m);
}

/// Inserting the record of a new path at its place keeps the order and adds
/// the path to the mapping.
proof fn lemma_insert(before: Seq<ResourceView>, i: int, r: ResourceView)
    requires
        sorted_by_path(before),
        0 <= i <= before.len(),
        forall|j: int| 0 <= j < i ==> text_lt(#[trigger] before[j].path, r.path),
        forall|j: int| i <= j < before.len() ==> text_lt(r.path, #[trigger] before[j].path),
    ensures
        sorted_by_path(before.insert(i, r)),
        entries_of(before.insert(i, r)) == entries_of(before).insert(r.path, r.url),
{
    let after = before.insert(i, r);
    let m = entries_of(before).insert(r.path, r.url);
    assert(sorted_by_path(after)) by {
        assert forall|a: int, b: int| 0 <= a < b < after.len() implies text_lt(
            #[trigger] after[a].path,
            #[trigger] after[b].path,
        ) by {
            if b < i {
                assert(text_lt(before[a].path, before[b].path));
            } else if b == i {
                assert(text_lt(before[a].path, r.path));
            } else if a < i {
                assert(text_lt(before[a].path, before[b - 1].path));
            } else if a == i {
                assert(text_lt(r.path, before[b - 1].path));
            } else {
                assert(text_lt(before[a - 1].path, before[b - 1].path));
            }
        }
    }
    lemma_sorted_distinct(before);
    lemma_sorted_distinct(after);
    assert forall|k: Seq<char>| m.contains_key(k) <==> listed(after, k) by {
        lemma_entries_of_dom(before, k);
        if listed(before, k) {
            let j = choose|j: int| 0 <= j < before.len() && #[trigger] before[j].path == k;
            if j < i {
                assert(after[j].path == k);
            } else {
                assert(after[j + 1].path == k);
            }
        }
        if listed(after, k) {
            let j = choose|j: int| 0 <= j < after.len() && #[trigger] after[j].path == k;
            if j < i {
                assert(before[j].path == k);
            } else if j > i {
                assert(before[j - 1].path == k);
            }
        }
        assert(after[i].path == r.path);
    }
    assert forall|j: int| 0 <= j < after.len() implies m[#[trigger] after[j].path]
        == after[j].url by {
        if j < i {
            lemma_entries_of_value(before, j);
            lemma_text_lt_strict(before[j].path, r.path);
        } else if j > i {
            lemma_entries_of_value(before, j - 1);
            lemma_text_lt_strict(r.path, before[j - 1].path);
        }
    }
    lemma_entries_of_is(after, m);
}

/// Where the record of `path` stands among ascending records, or where it
/// would have to be put.
pub(crate) fn position(entries: &Vec<Resource>, path: &str) -> (r: (usize, bool))
    requires
        sorted_by_path(views(entries@)),
    ensures
        r.0 <= entries.len(),
        forall|j: int| 0 <= j < r.0 ==> text_lt(#[trigger] views(entries@)[j].path, path@),
        r.1 ==> r.0 < entries.len() && entries[r.0 as int].path@ == path@,
        !r.1 ==> forall|j: int|
            r.0 <= j < entries.len() ==> text_lt(path@, #[trigger] views(entries@)[j].path),
        r.1 <==> listed(views(entries@), path@),
{
    let ghost records = views(entries@);
    let mut i: usize = 0;
    while i < entries.len()
        invariant
            i <= entries.len(),
            records == views(entries@),
            sorted_by_path(records),
            forall|j: int| 0 <= j < i ==> text_lt(#[trigger] records[j].path, path@),
        decreases entries.len() - i,
    {
        match rank(entries[i].path.as_str(), path) {
            Rank::Before => {
                assert(records[i as int].path == entries[i as int].path@);
                i = i + 1;
            },
            Rank::Same => {
                assert(records[i as int].path == path@);
                return (i, true);
            },
            Rank::After => {
                proof {
                    assert(records[i as int].path == entries[i as int].path@);
                    assert forall|j: int| i <= j < entries.len() implies text_lt(
                        path@,
                        #[trigger] records[j].path,
                    ) by {
                        if j > i {
                            assert(text_lt(records[i as int].path, records[j].path));
                            lemma_text_lt_transitive(path@, records[i as int].path, records[j].path);
                        }
                    }
                    assert(!listed(records, path@)) by {
                        assert forall|j: int| 0 <= j < records.len() implies #[trigger] records[j].path
                            != path@ by {
                            lemma_text_lt_strict(records[j].path, path@);
                        }
                    }
                }
                return (i, false);
            },
        }
    }
    proof {
        assert(!listed(records, path@)) by {
            assert forall|j: int| 0 <= j < records.len() implies #[trigger] records[j].path
                != path@ by {
                lemma_text_lt_strict(records[j].path, path@);
            }
        }
    }
    (i, false)
}

/// Puts a record among ascending records: in place of the record of the same
/// path, or where the order wants it.
pub(crate) fn place(entries: &mut Vec<Resource>, resource: Resource)
    requires
        sorted_by_path(views(old(entries)@)),
    ensures
        sorted_by_path(views(final(entries)@)),
        entries_of(views(final(entries)@)) == entries_of(views(old(entries)@)).insert(
            resource.path@,
            resource.url@,
        ),
{
    let ghost before = views(entries@);
    let ghost r = resource@;
    let (i, hit) = position(entries, resource.path.as_str());
    if hit {
        proof {
            assert(before[i as int].path == r.path);
            lemma_replace(before, i as int, r);
        }
        entries.set(i, resource);
        assert(views(entries@) =~= before.update(i as int, r));
    } else {
        proof {
            lemma_insert(before, i as int, r);
        }
        entries.insert(i, resource);
        assert(views(entries@) =~= before.insert(i as int, r));
    }
}

/// A problem with using the index of downloaded resources.
#[derive(Debug, Clone, PartialEq, Eq)]
pub enum IndexError {
    /// I/O error while accessing the index file, with the system's account of it.
    Io(String),
    /// Unexpected version: must be 1.
    Version(usize),
    /// The index file's contents could not be parsed, with the parser's account of it.
    Parse(String),
    /// The index could not be written as text, with the writer's account of it.
    Write(String),
}

impl IndexError {
    /// The text of this error.
    pub open spec fn spec_message(self) -> Seq<char> {
        match self {
            IndexError::Io(_) => "web-resource index file could not be read or written"@,
            IndexError::Version(found) => "expected web-resource index file version 1, was "@
                + spec_decimal(found as nat),
            IndexError::Parse(_) => "invalid web-resource index file content"@,
            IndexError::Write(_) => "web-resource index: TOML writing error"@,
        }
    }

    /// Says what went wrong with the index.
    pub fn message(&self) -> (text: String)
        ensures
            text@ == self.spec_message(),
    {
        match self {
            IndexError::Io(_) => "web-resource index file could not be read or written".to_owned(),
            IndexError::Version(found) => {
                let mut text = "expected web-resource index file version 1, was ".to_owned();
                text.append(decimal(*found).as_str());
                text
            },
            IndexError::Parse(_) => "invalid web-resource index file content".to_owned(),
            IndexError::Write(_) => "web-resource index: TOML writing error".to_owned(),
        }
    }

    /// The account of what lies behind this error, where there is one.
    pub fn source(&self) -> (cause: Option<&String>)
        ensures
            cause == match *self {
                IndexError::Io(why) => Some(&why),
                IndexError::Version(_) => None,
                IndexError::Parse(why) => Some(&why),
                IndexError::Write(why) => Some(&why),
            },
    {
        match self {
            IndexError::Io(why) => Some(why),
            IndexError::Version(_) => None,
            IndexError::Parse(why) => Some(why),
            IndexError::Write(why) => Some(why),
        }
    }
}

impl ErrorExt for IndexError {
    open spec fn spec_text(&self) -> Seq<char> {
        self.spec_message()
    }

    open spec fn spec_causes(&self) -> Seq<Seq<char>> {
        match *self {
            IndexError::Io(why) => seq![why@],
            IndexError::Version(_) => Seq::empty(),
            IndexError::Parse(why) => seq![why@],
            IndexError::Write(why) => seq![why@],
        }
    }

    fn text(&self) -> (text: String) {
        self.message()
    }

    fn causes(&self) -> (lines: Vec<String>) {
        match self.source() {
            Some(why) => one_line(why.as_str()),
            None => no_lines(),
        }
    }
}

/// The contents of an index file: a version tag and a list of records.
#[derive(Debug, Clone, PartialEq, Eq)]
pub struct Document {
    /// The file format version number. Should be 1.
    pub version: usize,
    /// The records of the file, in the file's order.
    pub resources: Vec<Resource>,
}

/// What was found at an index's location.
#[derive(Debug, Clone, PartialEq, Eq)]
pub enum Stored {
    /// No file exists there.
    Absent,
    /// A file exists but could not be read.
    Unreadable(String),
    /// The file was read but is not a well-formed index document.
    Malformed(String),
    /// The file holds this document.
    Present(Document),
}

/// Represents an index of resources: for each path, the URL that the file there
/// was last downloaded from. Kept in ascending order of path, one record per
/// path.
#[derive(Debug, PartialEq, Eq)]
pub struct Index {
    location: String,
    version: usize,
    entries: Vec<Resource>,
}

impl View for Index {
    type V = Map<Seq<char>, Seq<char>>;

    /// The mapping from path to URL.
    open spec fn view(&self) -> Map<Seq<char>, Seq<char>> {
        entries_of(self.records())
    }
}

impl Index {
    #[verifier::type_invariant]
    spec fn inv(self) -> bool {
        sorted_by_path(views(self.entries@)) && self.version == 1
    }

    /// The records of the index, in the order in which they are kept and written.
    pub closed spec fn records(&self) -> Seq<ResourceView> {
        views(self.entries@)
    }

    /// The location of the index file.
    pub closed spec fn spec_location(&self) -> Seq<char> {
        self.location@
    }

    /// The file format version of the index.
    pub closed spec fn spec_version(&self) -> usize {
        self.version
    }

    /// Creates an empty index for the given location.
    pub fn new(location: String) -> (index: Self)
        ensures
            index@ == Map::<Seq<char>, Seq<char>>::empty(),
            index.records() == Seq::<ResourceView>::empty(),
            index.spec_location() == location@,
            index.spec_version() == 1,
    {
        let index = Index { location, version: 1, entries: Vec::new() };
        assert(index.records() =~= Seq::<ResourceView>::empty());
        index
    }

    /// The location of the index file.
    pub fn location(&self) -> (location: &String)
        ensures
            location@ == self.spec_location(),
    {
        &self.location
    }

    /// The file format version of the index: always 1.
    pub fn version(&self) -> (version: usize)
        ensures
            version == self.spec_version(),
            version == 1,
    {
        proof {
            use_type_invariant(self);
        }
        self.version
    }

    /// The number of paths in the index.
    pub fn len(&self) -> (n: usize)
        ensures
            n == self.records().len(),
    {
        self.entries.len()
    }

    /// The record of the given path, if the index has one.
    pub fn get(&self, path: &str) -> (found: Option<&Resource>)
        ensures
            found is Some <==> self@.contains_key(path@),
            found matches Some(r) ==> r.path@ == path@ && r.url@ == self@[path@],
    {
        proof {
            use_type_invariant(self);
            lemma_entries_of_dom(self.records(), path@);
            lemma_sorted_distinct(self.records());
        }
        let (i, hit) = position(&self.entries, path);
        if hit {
            proof {
                lemma_entries_of_value(self.records(), i as int);
            }
            Some(&self.entries[i])
        } else {
            None
        }
    }

    /// Whether the file at `path` was last downloaded from exactly `url`.
    pub fn is_up_to_date(&self, path: &str, url: &str) -> (current: bool)
        ensures
            current == (self@.contains_key(path@) && self@[path@] == url@),
    {
        match self.get(path) {
            Some(resource) => rank(resource.url.as_str(), url) == Rank::Same,
            None => false,
        }
    }

    /// Records that the file at the resource's path was downloaded from the
    /// resource's URL, in place of what was recorded for that path before.
    pub fn update(&mut self, resource: Resource)
        ensures
            final(self)@ == old(self)@.insert(resource.path@, resource.url@),
            final(self).spec_location() == old(self).spec_location(),
            final(self).spec_version() == old(self).spec_version(),
    {
        proof {
            use_type_invariant(&*self);
        }
        let mut entries: Vec<Resource> = Vec::new();
        std::mem::swap(&mut entries, &mut self.entries);
        place(&mut entries, resource);
        self.entries = entries;
    }

    /// A copy of this index.
    pub fn duplicate(&self) -> (index: Self)
        ensures
            index@ == self@,
            index.records() == self.records(),
            index.spec_location() == self.spec_location(),
            index.spec_version() == self.spec_version(),
    {
        proof {
            use_type_invariant(self);
        }
        let mut entries: Vec<Resource> = Vec::new();
        let mut i: usize = 0;
        while i < self.entries.len()
            invariant
                i <= self.entries.len(),
                entries.len() == i,
                views(entries@) == views(self.entries@).subrange(0, i as int),
            decreases self.entries.len() - i,
        {
            entries.push(self.entries[i].duplicate());
            i = i + 1;
            assert(views(entries@) =~= views(self.entries@).subrange(0, i as int));
        }
        assert(views(entries@) =~= views(self.entries@));
        Index { location: self.location.clone(), version: self.version, entries }
    }

    /// Makes the index of what was found at `location`: an empty index where no
    /// file exists, the index of the stored records where the file is a
    /// document of version 1, and otherwise the error that says why not.
    pub fn read(location: String, stored: Stored) -> (loaded: Result<Self, IndexError>)
        ensures
            match stored {
                Stored::Absent => loaded matches Ok(index) && index@ == Map::<
                    Seq<char>,
                    Seq<char>,
                >::empty() && index.records() == Seq::<ResourceView>::empty(),
                Stored::Unreadable(why) => loaded == Err::<Self, IndexError>(IndexError::Io(why)),
                Stored::Malformed(why) => loaded == Err::<Self, IndexError>(IndexError::Parse(why)),
                Stored::Present(document) => if document.version == 1 {
                    loaded matches Ok(index) && index@ == entries_of(views(document.resources@))
                } else {
                    loaded == Err::<Self, IndexError>(IndexError::Version(document.version))
                },
            },
            loaded matches Ok(index) ==> index.spec_location() == location@ && index.spec_version()
                == 1,
    {
        match stored {
            Stored::Absent => Ok(Index::new(location)),
            Stored::Unreadable(why) => Err(IndexError::Io(why)),
            Stored::Malformed(why) => Err(IndexError::Parse(why)),
            Stored::Present(document) => {
                if document.version != 1 {
                    return Err(IndexError::Version(document.version));
                }
                let ghost records = views(document.resources@);
                let mut entries: Vec<Resource> = Vec::new();
                let mut i: usize = 0;
                assert(views(entries@) =~= records.subrange(0, 0));
                while i < document.resources.len()
                    invariant
                        i <= document.resources.len(),
                        records == views(document.resources@),
                        sorted_by_path(views(entries@)),
                        entries_of(views(entries@)) == entries_of(records.subrange(0, i as int)),
                    decreases document.resources.len() - i,
                {
                    proof {
                        assert(records.subrange(0, i + 1).drop_last() =~= records.subrange(
                            0,
                            i as int,
                        ));
                    }
                    place(&mut entries, document.resources[i].duplicate());
                    i = i + 1;
                }
                assert(records.subrange(0, i as int) =~= records);
                Ok(Index { location, version: 1, entries })
            },
        }
    }

    /// The document to store for this index: the version tag and all records in
    /// ascending order of path.
    pub fn write(&self) -> (document: Document)
        ensures
            document.version == 1,
            views(document.resources@) == self.records(),
            sorted_by_path(views(document.resources@)),
            entries_of(views(document.resources@)) == self@,
    {
        proof {
            use_type_invariant(self);
        }
        let copy = self.duplicate();
        Document { version: 1, resources: copy.entries }
    }
}

/// Whatever order a file lists its records in, reading it gives the same index,
/// as long as the file names no path twice: two such listings of the same
/// records stand for the same mapping.
pub proof fn lemma_entries_of_any_order(a: Seq<ResourceView>, b: Seq<ResourceView>)
    requires
        distinct_paths(a),
        distinct_paths(b),
        forall|i: int| 0 <= i < a.len() ==> b.contains(#[trigger] a[i]),
        forall|i: int| 0 <= i < b.len() ==> a.contains(#[trigger] b[i]),
    ensures
        entries_of(a) == entries_of(b),
{
    let m = entries_of(b);
    assert forall|k: Seq<char>| m.contains_key(k) <==> listed(a, k) by {
        lemma_entries_of_dom(b, k);
        if listed(b, k) {
            let j = choose|j: int| 0 <= j < b.len() && #[trigger] b[j].path == k;
            assert(a.contains(b[j]));
            let i = choose|i: int| 0 <= i < a.len() && a[i] == b[j];
            assert(a[i].path == k);
        }
        if listed(a, k) {
            let i = choose|i: int| 0 <= i < a.len() && #[trigger] a[i].path == k;
            assert(b.contains(a[i]));
            let j = choose|j: int| 0 <= j < b.len() && b[j] == a[i];
            assert(b[j].path == k);
        }
    }
    assert forall|i: int| 0 <= i < a.len() implies m[#[trigger] a[i].path] == a[i].url by {
        assert(b.contains(a[i]));
        let j = choose|j: int| 0 <= j < b.len() && b[j] == a[i];
        lemma_entries_of_value(b, j);
    }
    lemma_entries_of_is(a, m);
}

/// Writing an index and reading the document back gives an index with the same
/// entries: the written records are ascending, name no path twice, and stand
/// for the mapping they were written from.
pub proof fn lemma_write_then_read(index: Index, written: Document, reread: Index)
    requires
        written.version == 1,
        views(written.resources@) == index.records(),
        reread@ == entries_of(views(written.resources@)),
    ensures
        reread@ == index@,
{
}

/// An ascending listing is determined by the mapping it stands for: two
/// indexes with the same entries are written as the same records.
pub proof fn lemma_sorted_listing_unique(a: Seq<ResourceView>, b: Seq<ResourceView>)
    requires
        sorted_by_path(a),
        sorted_by_path(b),
        entries_of(a) == entries_of(b),
    ensures
        a == b,
    decreases a.len(),
{
    lemma_sorted_distinct(a);
    lemma_sorted_distinct(b);
    if a.len() == 0 {
        if b.len() > 0 {
            lemma_entries_of_value(b, 0);
            lemma_entries_of_dom(a, b[0].path);
        }
        assert(a =~= b);
    } else if b.len() == 0 {
        lemma_entries_of_value(a, 0);
        lemma_entries_of_dom(b, a[0].path);
    } else {
        let x = a.last();
        let y = b.last();
        // the greatest path of each listing is a path of the other
        lemma_entries_of_value(a, a.len() - 1);
        lemma_entries_of_value(b, b.len() - 1);
        lemma_entries_of_dom(b, x.path);
        lemma_entries_of_dom(a, y.path);
        let j = choose|j: int| 0 <= j < b.len() && #[trigger] b[j].path == x.path;
        let i = choose|i: int| 0 <= i < a.len() && #[trigger] a[i].path == y.path;
        lemma_text_lt_strict(x.path, y.path);
        if j < b.len() - 1 {
            assert(text_lt(b[j].path, b[b.len() - 1].path));
        }
        if i < a.len() - 1 {
            assert(text_lt(a[i].path, a[a.len() - 1].path));
        }
        assert(x.path == y.path);
        assert(x.url == y.url);
        let a0 = a.drop_last();
        let b0 = b.drop_last();
        lemma_drop_last(a);
        lemma_drop_last(b);
        lemma_sorted_listing_unique(a0, b0);
        assert(a =~= a0.push(x));
        assert(b =~= b0.push(y));
    }
}

/// Without its last record, an ascending listing is still ascending and stands
/// for the mapping without the last path.
proof fn lemma_drop_last(a: Seq<ResourceView>)
    requires
        sorted_by_path(a),
        a.len() > 0,
    ensures
        sorted_by_path(a.drop_last()),
        entries_of(a.drop_last()) == entries_of(a).remove(a.last().path),
{
    let init = a.drop_last();
    assert(sorted_by_path(init)) by {
        assert forall|i: int, j: int| 0 <= i < j < init.len() implies text_lt(
            #[trigger] init[i].path,
            #[trigger] init[j].path,
        ) by {
            assert(text_lt(a[i].path, a[j].path));
        }
    }
    lemma_sorted_distinct(a);
    lemma_entries_of_dom(init, a.last().path);
    if listed(init, a.last().path) {
        let i = choose|i: int| 0 <= i < init.len() && #[trigger] init[i].path == a.last().path;
        assert(a[i].path != a[a.len() - 1].path);
    }
    assert(entries_of(init) =~= entries_of(a).remove(a.last().path));
}

} // verus!
