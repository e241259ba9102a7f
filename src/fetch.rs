//! Choosing the release's top-level directory among what the archive unpacked.
use vstd::prelude::*;

verus! {

/// One entry directly under the staging directory.
#[derive(Debug)]
pub struct StagedEntry {
    pub name: String,
    pub is_dir: bool,
}

/// Entry `i` is a directory and no entry before it is one.
pub open spec fn is_first_dir(entries: Seq<StagedEntry>, i: int) -> bool {
    &&& 0 <= i < entries.len()
    &&& entries[i].is_dir
    &&& forall|j: int| 0 <= j < i ==> !(#[trigger] entries[j]).is_dir
}

/// The entry that is taken as the release's top-level directory: the first
/// directory, or none when no entry is a directory.
pub open spec fn first_dir(entries: Seq<StagedEntry>) -> Option<int> {
    if exists|i: int| is_first_dir(entries, i) {
        Some(choose|i: int| is_first_dir(entries, i))
    } else {
        None
    }
}

pub proof fn lemma_first_dir_unique(entries: Seq<StagedEntry>, i: int, k: int)
    requires
        is_first_dir(entries, i),
        is_first_dir(entries, k),
    ensures
        i == k,
{
    if i < k {
        assert(!entries[i].is_dir);
    } else if k < i {
        assert(!entries[k].is_dir);
    }
}

pub proof fn lemma_first_dir_is(entries: Seq<StagedEntry>, i: int)
    requires
        is_first_dir(entries, i),
    ensures
        first_dir(entries) == Some(i),
{
    let c = choose|c: int| is_first_dir(entries, c);
    lemma_first_dir_unique(entries, i, c);
}

/// A staged archive with exactly one top-level directory, among any number of
/// plain files, has that directory taken and the files passed over.
pub proof fn lemma_single_top_level_dir(entries: Seq<StagedEntry>, k: int)
    requires
        0 <= k < entries.len(),
        entries[k].is_dir,
        forall|j: int| 0 <= j < entries.len() && j != k ==> !(#[trigger] entries[j]).is_dir,
    ensures
        first_dir(entries) == Some(k),
{
    lemma_first_dir_is(entries, k);
}

/// Index of the release's top-level directory among the staged entries.
pub fn select_extracted_dir(entries: &Vec<StagedEntry>) -> (r: Option<usize>)
    ensures
        r matches Some(i) ==> first_dir(entries@) == Some(i as int),
        r is None <==> first_dir(entries@) is None,
        r is None <==> forall|j: int| 0 <= j < entries@.len() ==> !(#[trigger] entries@[j]).is_dir,
{
    let mut i: usize = 0;
    while i < entries.len()
        invariant
            i <= entries@.len(),
            forall|j: int| 0 <= j < i ==> !(#[trigger] entries@[j]).is_dir,
        decreases entries@.len() - i,
    {
        if entries[i].is_dir {
            proof {
                lemma_first_dir_is(entries@, i as int);
            }
            return Some(i);
        }
        i = i + 1;
    }
    assert(!exists|c: int| is_first_dir(entries@, c));
    None
}

} // verus!
