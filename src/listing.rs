//! Classifying the entries of a bucket's directory.
use vstd::prelude::*;

use crate::bucket::BucketError;

verus! {

/// One entry of a bucket's directory.
#[derive(Debug, Clone, PartialEq, Eq)]
pub enum BucketChild {
    /// A file: a resource that can be read and written.
    Resource(String),
    /// A directory: a nested namespace segment.
    SubBucket(String),
}

/// What the listing learned of one directory entry: its base name, and
/// whether its own type (links are not followed) is a directory.
#[derive(Debug, Clone)]
pub struct EntryInfo {
    pub name: String,
    pub is_dir: bool,
}

/// `c` is the child that entry `e` stands for: a directory is a sub-bucket,
/// anything else (files, links, special files) a resource, under the entry's name.
pub open spec fn classifies(c: BucketChild, e: EntryInfo) -> bool {
    match c {
        BucketChild::Resource(n) => !e.is_dir && n@ == e.name@,
        BucketChild::SubBucket(n) => e.is_dir && n@ == e.name@,
    }
}

/// `c` is the child that a successfully read entry `r` stands for.
pub open spec fn listed_as(c: BucketChild, r: Result<EntryInfo, BucketError>) -> bool {
    match r {
        Ok(e) => classifies(c, e),
        Err(_) => false,
    }
}

/// The index of the first failed entry, if any.
pub open spec fn first_failure(entries: Seq<Result<EntryInfo, BucketError>>) -> Option<int>
    decreases entries.len(),
{
    if entries.len() == 0 {
        None
    } else if entries.last() is Err && first_failure(entries.drop_last()) is None {
        Some(entries.len() - 1)
    } else {
        first_failure(entries.drop_last())
    }
}

proof fn lemma_first_failure(entries: Seq<Result<EntryInfo, BucketError>>)
    ensures
        first_failure(entries) matches Some(k) ==> {
            &&& 0 <= k < entries.len()
            &&& entries[k] is Err
            &&& forall|j: int| 0 <= j < k ==> entries[j] is Ok
        },
        first_failure(entries) is None <==> forall|j: int|
            0 <= j < entries.len() ==> entries[j] is Ok,
    decreases entries.len(),
{
    if entries.len() > 0 {
        let front = entries.drop_last();
        lemma_first_failure(front);
        assert forall|j: int| 0 <= j < front.len() implies front[j] == entries[j] by {}
    }
}

impl BucketChild {
    /// The child that a directory entry stands for.
    pub fn from_entry(e: &EntryInfo) -> (c: BucketChild)
        ensures
            classifies(c, *e),
    {
        if e.is_dir {
            BucketChild::SubBucket(e.name.clone())
        } else {
            BucketChild::Resource(e.name.clone())
        }
    }

    /// The children of a bucket, one for each entry of its directory in the
    /// order given. The first entry that could not be read aborts the whole
    /// listing with its error, and nothing gathered before it is returned.
    pub fn from_entries(entries: Vec<Result<EntryInfo, BucketError>>) -> (r: Result<
        Vec<BucketChild>,
        BucketError,
    >)
        ensures
            r is Ok <==> first_failure(entries@) is None,
            r matches Err(e) ==> first_failure(entries@) matches Some(k) && entries@[k] == Err::<
                EntryInfo,
                BucketError,
            >(e),
            r matches Ok(v) ==> v@.len() == entries@.len() && forall|i: int|
                0 <= i < v@.len() ==> listed_as(#[trigger] v@[i], entries@[i]),
    {
        proof {
            lemma_first_failure(entries@);
        }
        let ghost all = entries@;
        let mut rest = entries;
        let mut out: Vec<BucketChild> = Vec::new();
        while rest.len() > 0
            invariant
                all == entries@,
                out@.len() <= all.len(),
                rest@ == all.subrange(out@.len() as int, all.len() as int),
                forall|j: int| 0 <= j < out@.len() ==> all[j] is Ok,
                forall|j: int| 0 <= j < out@.len() ==> listed_as(#[trigger] out@[j], all[j]),
            decreases rest@.len(),
        {
            let ghost i = out@.len() as int;
            assert(rest@[0] == all[i]);
            match rest.remove(0) {
                Ok(e) => {
                    out.push(BucketChild::from_entry(&e));
                },
                Err(e) => {
                    proof {
                        lemma_first_failure(all);
                        assert(first_failure(all) == Some(i));
                    }
                    return Err(e);
                },
            }
            assert(rest@ =~= all.subrange(out@.len() as int, all.len() as int));
        }
        Ok(out)
    }
}

} // verus!
