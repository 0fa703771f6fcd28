//! The catalog of published versions.

use crate::text::{trim_leading, without_leading};
use vstd::prelude::*;

verus! {

/// The version identifiers of a catalog, in the catalog's order: each entry
/// that carries a version tag gives its tag without leading `v`; an entry
/// without one gives nothing.
pub open spec fn catalog_versions(tags: Seq<Option<Seq<char>>>) -> Seq<Seq<char>>
    decreases tags.len(),
{
    if tags.len() == 0 {
        Seq::empty()
    } else {
        let rest = catalog_versions(tags.drop_last());
        match tags.last() {
            Some(tag) => rest.push(without_leading(tag, 'v')),
            None => rest,
        }
    }
}

/// Turns the version tags of the published catalog, newest first, into
/// version identifiers. `tags` holds for each catalog entry its version tag,
/// or `None` where the entry has none.
pub fn get_available_versions(tags: &Vec<Option<String>>) -> (versions: Vec<String>)
    ensures
        versions.deep_view() == catalog_versions(tags.deep_view()),
{
    let ghost all = tags.deep_view();
    let mut versions: Vec<String> = Vec::new();
    let mut i: usize = 0;
    while i < tags.len()
        invariant
            i <= tags.len(),
            all == tags.deep_view(),
            versions.deep_view() == catalog_versions(all.take(i as int)),
        decreases tags.len() - i,
    {
        let ghost before = versions.deep_view();
        proof {
            assert(all.take(i + 1).drop_last() =~= all.take(i as int));
            assert(all.take(i + 1).last() == tags[i as int].deep_view());
        }
        match &tags[i] {
            Some(tag) => {
                let id = trim_leading(tag.as_str(), 'v');
                versions.push(id);
                assert(versions.deep_view() =~= before.push(without_leading(tag@, 'v')));
            },
            None => {},
        }
        i += 1;
    }
    proof {
        assert(all.take(tags.len() as int) =~= all);
    }
    versions
}

} // verus!
