//! The resources that a document asks for.

use vstd::prelude::*;
use crate::text::{rank, Rank};
use super::index::{
    entries_of, lemma_entries_of_dom, lemma_entries_of_value, lemma_sorted_distinct, place,
    position, sorted_by_path, views, Resource, ResourceView,
};

verus! {

/// Whether the record at `j` names the path of an earlier record with another URL.
pub open spec fn conflict_at(records: Seq<ResourceView>, j: int) -> bool {
    exists|i: int|
        0 <= i < j && #[trigger] records[i].path == records[j].path && records[i].url
            != records[j].url
}

/// Whether no two records name the same path with different URLs.
pub open spec fn consistent(records: Seq<ResourceView>) -> bool {
    forall|j: int| 0 <= j < records.len() ==> !conflict_at(records, j)
}

/// Among consistent records, each path is mapped to the URL of every record
/// that names it.
pub proof fn lemma_consistent_value(records: Seq<ResourceView>, i: int)
    requires
        consistent(records),
        0 <= i < records.len(),
    ensures
        entries_of(records).contains_key(records[i].path),
        entries_of(records)[records[i].path] == records[i].url,
    decreases records.len(),
{
    let last = records.len() - 1;
    let init = records.drop_last();
    if i < last {
        assert(consistent(init)) by {
            assert forall|j: int| 0 <= j < init.len() implies !conflict_at(init, j) by {
                assert(!conflict_at(records, j));
                if conflict_at(init, j) {
                    let k = choose|k: int|
                        0 <= k < j && #[trigger] init[k].path == init[j].path && init[k].url
                            != init[j].url;
                    assert(records[k].path == records[j].path);
                }
            }
        }
        lemma_consistent_value(init, i);
        if records[i].path == records[last].path {
            assert(!conflict_at(records, last));
        }
    }
}

/// Two resources were given for one path, with different URLs.
#[derive(Debug, Clone, PartialEq, Eq)]
pub struct Conflict {
    /// The path that was named twice.
    pub path: String,
    /// The URL that was first given for the path.
    pub url: String,
}

/// The resources that a document asks for: for each path the URL to download
/// from. Kept in ascending order of path, one record per path.
#[derive(Debug, PartialEq, Eq)]
pub struct QueryData {
    resources: Vec<Resource>,
}

impl QueryData {
    #[verifier::type_invariant]
    spec fn inv(self) -> bool {
        sorted_by_path(views(self.resources@))
    }

    /// The resources, in ascending order of path.
    pub closed spec fn records(&self) -> Seq<ResourceView> {
        views(self.resources@)
    }

    /// Gathers the resources that a document names. A path may be named more
    /// than once as long as the URL is the same each time; the first record
    /// that gives a path another URL than before is refused.
    pub fn new(resources: Vec<Resource>) -> (gathered: Result<Self, Conflict>)
        ensures
            gathered is Ok <==> consistent(views(resources@)),
            gathered matches Ok(data) ==> sorted_by_path(data.records()) && entries_of(
                data.records(),
            ) == entries_of(views(resources@)),
            gathered matches Err(conflict) ==> exists|j: int|
                0 <= j < resources.len() && conflict_at(views(resources@), j) && (forall|k: int|
                    0 <= k < j ==> !conflict_at(views(resources@), k)) && conflict.path@
                    == #[trigger] views(resources@)[j].path && conflict.url@ == entries_of(
                    views(resources@).subrange(0, j),
                )[conflict.path@],
    {
        let ghost records = views(resources@);
        let mut entries: Vec<Resource> = Vec::new();
        let mut j: usize = 0;
        assert(views(entries@) =~= records.subrange(0, 0));
        while j < resources.len()
            invariant
                j <= resources.len(),
                records == views(resources@),
                sorted_by_path(views(entries@)),
                entries_of(views(entries@)) == entries_of(records.subrange(0, j as int)),
                forall|k: int| 0 <= k < j ==> !conflict_at(records, k),
            decreases resources.len() - j,
        {
            let ghost prefix = records.subrange(0, j as int);
            let ghost kept = views(entries@);
            let ghost r = records[j as int];
            proof {
                assert(records.subrange(0, j + 1).drop_last() =~= prefix);
                assert(records.subrange(0, j + 1).last() == r);
                assert(consistent(prefix)) by {
                    assert forall|k: int| 0 <= k < prefix.len() implies !conflict_at(prefix, k) by {
                        assert(!conflict_at(records, k));
                        if conflict_at(prefix, k) {
                            let i = choose|i: int|
                                0 <= i < k && #[trigger] prefix[i].path == prefix[k].path
                                    && prefix[i].url != prefix[k].url;
                            assert(records[i].path == records[k].path);
                        }
                    }
                }
                lemma_entries_of_dom(kept, r.path);
                lemma_entries_of_dom(prefix, r.path);
                lemma_sorted_distinct(kept);
            }
            let resource = resources[j].duplicate();
            let (i, hit) = position(&entries, resource.path.as_str());
            if hit {
                proof {
                    lemma_entries_of_value(kept, i as int);
                    assert(kept[i as int].url == entries[i as int].url@);
                    let w = choose|w: int| 0 <= w < prefix.len() && #[trigger] prefix[w].path == r.path;
                    lemma_consistent_value(prefix, w);
                    assert(records[w].path == r.path);
                    assert(records[w].url == prefix[w].url);
                }
                if rank(entries[i].url.as_str(), resource.url.as_str()) == Rank::Same {
                    proof {
                        assert(entries_of(prefix).insert(r.path, r.url) =~= entries_of(prefix));
                        assert(!conflict_at(records, j as int)) by {
                            if conflict_at(records, j as int) {
                                let k = choose|k: int|
                                    0 <= k < j && #[trigger] records[k].path == records[j as int].path
                                        && records[k].url != records[j as int].url;
                                assert(prefix[k].path == r.path);
                                lemma_consistent_value(prefix, k);
                            }
                        }
                    }
                } else {
                    let conflict = Conflict { path: resource.path, url: entries[i].url.clone() };
                    proof {
                        let w = choose|w: int|
                            0 <= w < prefix.len() && #[trigger] prefix[w].path == r.path;
                        assert(records[w].path == records[j as int].path);
                        assert(conflict_at(records, j as int));
                        assert(!consistent(records));
                    }
                    return Err(conflict);
                }
            } else {
                proof {
                    assert(!conflict_at(records, j as int)) by {
                        if conflict_at(records, j as int) {
                            let k = choose|k: int|
                                0 <= k < j && #[trigger] records[k].path == records[j as int].path
                                    && records[k].url != records[j as int].url;
                            assert(prefix[k].path == r.path);
                        }
                    }
                }
                place(&mut entries, resource);
            }
            j = j + 1;
        }
        assert(records.subrange(0, j as int) =~= records);
        Ok(QueryData { resources: entries })
    }

    /// The resources, in ascending order of path.
    pub fn resources(&self) -> (resources: &Vec<Resource>)
        ensures
            views(resources@) == self.records(),
            sorted_by_path(views(resources@)),
    {
        proof {
            use_type_invariant(self);
        }
        &self.resources
    }

    /// How many resources the document asks for.
    pub fn len(&self) -> (n: usize)
        ensures
            n == self.records().len(),
    {
        self.resources.len()
    }
}

} // verus!
