//! The insertion-ordered map that holds the waiting jobs, one entry per
//! manga, and what the library takes for granted about it.

use super::job::{DownloadJob, DownloadJobView};
use indexmap::IndexMap;
use vstd::prelude::*;

verus! {

#[verifier::external_type_specification]
#[verifier::external_body]
#[verifier::reject_recursive_types(K)]
#[verifier::reject_recursive_types(V)]
#[verifier::reject_recursive_types(S)]
pub struct ExIndexMap<K, V, S>(IndexMap<K, V, S>);

/// The entries of the map in their order: each the address of a manga and
/// the jobs that wait for it.
pub uninterp spec fn entries(map: IndexMap<String, Vec<DownloadJob>>) -> Seq<
    (Seq<char>, Seq<DownloadJobView>),
>;

/// The jobs of a vector as plain mathematical values.
pub open spec fn job_views(jobs: Seq<DownloadJob>) -> Seq<DownloadJobView> {
    jobs.map_values(|job: DownloadJob| job@)
}

/// `IndexMap::new`: a map without entries.
#[verifier::external_body]
pub(crate) fn map_new() -> (map: IndexMap<String, Vec<DownloadJob>>)
    ensures
        entries(map) == Seq::<(Seq<char>, Seq<DownloadJobView>)>::empty(),
{
    IndexMap::new()
}

/// `IndexMap::len`: the number of entries.
#[verifier::external_body]
pub(crate) fn map_len(map: &IndexMap<String, Vec<DownloadJob>>) -> (n: usize)
    ensures
        n == entries(*map).len(),
{
    map.len()
}

/// `IndexMap::get_index_of`: the position of the entry under `key`, or
/// `None` where no entry has that key.
#[verifier::external_body]
pub(crate) fn map_get_index_of(map: &IndexMap<String, Vec<DownloadJob>>, key: &str) -> (r: Option<
    usize,
>)
    ensures
        match r {
            Some(i) => i < entries(*map).len() && entries(*map)[i as int].0 == key@,
            None => forall|i: int| 0 <= i < entries(*map).len() ==> entries(*map)[i].0 != key@,
        },
{
    map.get_index_of(key)
}

/// `IndexMap::get_index`: the entry at position `index`, or `None` where
/// the map has no such position.
#[verifier::external_body]
pub(crate) fn map_get_index(map: &IndexMap<String, Vec<DownloadJob>>, index: usize) -> (r: Option<
    (&String, &Vec<DownloadJob>),
>)
    ensures
        match r {
            Some((key, jobs)) => index < entries(*map).len() && entries(*map)[index as int] == (
                key@,
                job_views(jobs@),
            ),
            None => index >= entries(*map).len(),
        },
{
    map.get_index(index)
}

/// `IndexMap::insert`: where an entry has the key, it keeps its place and
/// gets the new value, and the old value is returned; where none has, the
/// new entry comes last and `None` is returned.
#[verifier::external_body]
pub(crate) fn map_insert(
    map: &mut IndexMap<String, Vec<DownloadJob>>,
    key: String,
    value: Vec<DownloadJob>,
) -> (r: Option<Vec<DownloadJob>>)
    ensures
        match r {
            Some(previous) => exists|i: int|
                0 <= i < entries(*old(map)).len() && #[trigger] entries(*old(map))[i] == (
                    key@,
                    job_views(previous@),
                ) && entries(*final(map)) == entries(*old(map)).update(
                    i,
                    (key@, job_views(value@)),
                ),
            None => (forall|i: int|
                0 <= i < entries(*old(map)).len() ==> entries(*old(map))[i].0 != key@) && entries(
                *final(map),
            ) == entries(*old(map)).push((key@, job_views(value@))),
        },
{
    map.insert(key, value)
}

/// `IndexMap::shift_remove_index`: the entry at position `index` leaves and
/// is returned, and those behind it move up, keeping their order; `None`,
/// and nothing changes, where the map has no such position.
#[verifier::external_body]
pub(crate) fn map_shift_remove_index(
    map: &mut IndexMap<String, Vec<DownloadJob>>,
    index: usize,
) -> (r: Option<(String, Vec<DownloadJob>)>)
    ensures
        match r {
            Some((key, jobs)) => index < entries(*old(map)).len() && entries(*old(map))[index as int]
                == (key@, job_views(jobs@)) && entries(*final(map)) == entries(*old(map)).remove(
                index as int,
            ),
            None => index >= entries(*old(map)).len() && entries(*final(map)) == entries(
                *old(map),
            ),
        },
{
    map.shift_remove_index(index)
}

} // verus!
