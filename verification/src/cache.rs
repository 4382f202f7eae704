//! The places of the files that the cache keeps on disk: a base directory,
//! one directory in it for each bucket, one file in that for each key.

use std::path::PathBuf;
use vstd::prelude::*;

verus! {

/// The place of a bucket: the base directory of the cache, and the name
/// of the bucket's directory in it.
#[derive(Debug)]
pub struct BucketPlace<'a> {
    pub base: &'a PathBuf,
    pub bucket: String,
}

/// The place of a key: the base directory of the cache, the name of the
/// bucket's directory in it, and the name of the key's file in that.
#[derive(Debug)]
pub struct KeyPlace<'a> {
    pub base: &'a PathBuf,
    pub bucket: String,
    pub key: String,
}

/// The cache on disk, or none where it has no base directory.
#[derive(Debug)]
pub struct Cache {
    base: Option<PathBuf>,
}

impl Cache {
    /// The base directory, if the cache has one.
    pub closed spec fn base(&self) -> Option<PathBuf> {
        self.base
    }

    /// A cache under `base`.
    pub fn new(base: Option<PathBuf>) -> (r: Self)
        ensures
            r.base() == base,
    {
        Self { base }
    }

    /// Whether the cache has a base directory, without which it keeps
    /// nothing.
    pub fn is_enabled(&self) -> (r: bool)
        ensures
            r == self.base() is Some,
    {
        self.base.is_some()
    }

    /// The place of the directory of `bucket`: the directory called
    /// `bucket` in the base directory. A cache without base directory
    /// has no place for it.
    pub fn bucket<'a>(&'a self, bucket: &str) -> (r: Option<BucketPlace<'a>>)
        ensures
            match r {
                Some(place) => self.base() == Some(*place.base) && place.bucket@ == bucket@,
                None => self.base() is None,
            },
    {
        match &self.base {
            Some(base) => Some(BucketPlace { base, bucket: bucket.to_owned() }),
            None => None,
        }
    }

    /// The place of the file of `key` in `bucket`: the file called `key`
    /// in the directory called `bucket` in the base directory. A cache
    /// without base directory has no place for it.
    pub fn key<'a>(&'a self, bucket: &str, key: &str) -> (r: Option<KeyPlace<'a>>)
        ensures
            match r {
                Some(place) => self.base() == Some(*place.base) && place.bucket@ == bucket@
                    && place.key@ == key@,
                None => self.base() is None,
            },
    {
        match self.bucket(bucket) {
            Some(place) => Some(
                KeyPlace { base: place.base, bucket: place.bucket, key: key.to_owned() },
            ),
            None => None,
        }
    }
}

} // verus!
