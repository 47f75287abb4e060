//! The closed set of cache categories.  Each bucket maps to a stable,
//! versioned directory name under the cache root; bumping the version in the
//! name orphans older data for later collection by `prune`.

use vstd::prelude::*;

use crate::strutil::str_eq;

verus! {

/// The different kinds of data in the cache, each stored in its own
/// subdirectory of the cache root, laid out `<bucket>-v0/<digest>.<ext>`.
#[derive(Debug, Clone, Copy, PartialEq, Eq, Structural, Hash)]
pub enum CacheBucket {
    /// Ruby interpreters.
    Ruby,
    /// Gems.
    Gem,
}

/// The directory name of a bucket.
pub open spec fn bucket_name(b: CacheBucket) -> Seq<char> {
    match b {
        CacheBucket::Ruby => "ruby-v0"@,
        CacheBucket::Gem => "gem-v0"@,
    }
}

/// Whether `name` is the directory name of some recognized bucket.
pub open spec fn is_bucket_name(name: Seq<char>) -> bool {
    exists|b: CacheBucket| bucket_name(b) == name
}

impl CacheBucket {
    /// The directory name of this bucket.
    pub fn to_str(self) -> (r: &'static str)
        ensures
            r@ == bucket_name(self),
    {
        match self {
            CacheBucket::Ruby => "ruby-v0",
            CacheBucket::Gem => "gem-v0",
        }
    }

    /// The directory name of this bucket, as an owned string.
    pub fn to_string(self) -> (r: String)
        ensures
            r@ == bucket_name(self),
    {
        String::from_str(self.to_str())
    }

    /// Every recognized bucket, in a fixed order.
    pub fn iter() -> (r: Vec<CacheBucket>)
        ensures
            r@ =~= seq![CacheBucket::Ruby, CacheBucket::Gem],
    {
        let mut v: Vec<CacheBucket> = Vec::new();
        v.push(CacheBucket::Ruby);
        v.push(CacheBucket::Gem);
        v
    }
}

/// Whether `name` names a recognized bucket directory.
pub fn recognized_bucket(name: &str) -> (r: bool)
    ensures
        r == is_bucket_name(name@),
{
    let buckets = CacheBucket::iter();
    let mut i: usize = 0;
    while i < buckets.len()
        invariant
            buckets@ =~= seq![CacheBucket::Ruby, CacheBucket::Gem],
            i <= buckets@.len(),
            forall|j: int| 0 <= j < i ==> bucket_name(buckets@[j]) != name@,
        decreases buckets@.len() - i,
    {
        if str_eq(buckets[i].to_str(), name) {
            proof {
                assert(bucket_name(buckets@[i as int]) == name@);
            }
            return true;
        }
        i += 1;
    }
    proof {
        assert forall|b: CacheBucket| bucket_name(b) != name@ by {
            if b is Ruby {
                assert(bucket_name(buckets@[0]) != name@);
            } else {
                assert(bucket_name(buckets@[1]) != name@);
            }
        }
    }
    false
}

} // verus!
