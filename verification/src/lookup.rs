//! The mangas that are kept at hand: a bounded store that, when full, lets
//! go of the manga that was used longest ago.

use crate::entity::{Manga, MangaView};
use lru_cache::LruCache;
use std::hash::{BuildHasher, Hash};
use vstd::prelude::*;

verus! {

#[verifier::external_type_specification]
#[verifier::external_body]
#[verifier::reject_recursive_types(K)]
#[verifier::reject_recursive_types(V)]
#[verifier::reject_recursive_types(S)]
pub struct ExLruCache<K: Eq + Hash, V, S: BuildHasher>(LruCache<K, V, S>);

/// What the store holds: each manga under its address, the one used
/// longest ago first.
pub uninterp spec fn lru_entries(cache: LruCache<String, Manga>) -> Seq<(Seq<char>, MangaView)>;

/// The number of mangas that the store was made to hold.
pub uninterp spec fn lru_capacity(cache: LruCache<String, Manga>) -> nat;

/// `LruCache::new`: an empty store that holds up to `capacity` entries.
#[verifier::external_body]
fn lru_new(capacity: usize) -> (cache: LruCache<String, Manga>)
    ensures
        lru_entries(cache) == Seq::<(Seq<char>, MangaView)>::empty(),
        lru_capacity(cache) == capacity,
{
    LruCache::new(capacity)
}

/// `LruCache::get_mut`, read only: where an entry has the key, its value
/// is returned and the entry becomes the one used last; where none has,
/// `None` is returned and nothing changes.
#[verifier::external_body]
fn lru_get<'a>(cache: &'a mut LruCache<String, Manga>, key: &str) -> (r: Option<&'a Manga>)
    ensures
        lru_capacity(*final(cache)) == lru_capacity(*old(cache)),
        match r {
            Some(manga) => exists|i: int|
                0 <= i < lru_entries(*old(cache)).len() && #[trigger] lru_entries(*old(cache))[i]
                    == (key@, manga@) && lru_entries(*final(cache)) == lru_entries(
                    *old(cache),
                ).remove(i).push((key@, manga@)),
            None => (forall|i: int|
                0 <= i < lru_entries(*old(cache)).len() ==> lru_entries(*old(cache))[i].0 != key@)
                && lru_entries(*final(cache)) == lru_entries(*old(cache)),
        },
{
    match cache.get_mut(key) {
        Some(manga) => Some(&*manga),
        None => None,
    }
}

/// `LruCache::insert`: where an entry has the key, it gets the new value
/// and becomes the one used last, and the old value is returned; where
/// none has, the new entry becomes the one used last, then, if the store
/// holds more than its capacity, the entry used longest ago leaves, and
/// `None` is returned.
#[verifier::external_body]
fn lru_insert(cache: &mut LruCache<String, Manga>, key: String, value: Manga) -> (r: Option<Manga>)
    ensures
        lru_capacity(*final(cache)) == lru_capacity(*old(cache)),
        match r {
            Some(previous) => exists|i: int|
                0 <= i < lru_entries(*old(cache)).len() && #[trigger] lru_entries(*old(cache))[i]
                    == (key@, previous@) && lru_entries(*final(cache)) == lru_entries(
                    *old(cache),
                ).remove(i).push((key@, value@)),
            None => (forall|i: int|
                0 <= i < lru_entries(*old(cache)).len() ==> lru_entries(*old(cache))[i].0 != key@)
                && lru_entries(*final(cache)) == if lru_entries(*old(cache)).len() + 1
                > lru_capacity(*old(cache)) {
                lru_entries(*old(cache)).push((key@, value@)).drop_first()
            } else {
                lru_entries(*old(cache)).push((key@, value@))
            },
        },
{
    cache.insert(key, value)
}

/// `LruCache::len`: the number of entries.
#[verifier::external_body]
fn lru_len(cache: &LruCache<String, Manga>) -> (n: usize)
    ensures
        n == lru_entries(*cache).len(),
{
    cache.len()
}

/// The position of the entry under `url`, if there is one.
pub open spec fn entry_position(entries: Seq<(Seq<char>, MangaView)>, url: Seq<char>) -> Option<int>
    decreases entries.len(),
{
    if entries.len() == 0 {
        None
    } else if entries.last().0 == url {
        Some(entries.len() - 1)
    } else {
        entry_position(entries.drop_last(), url)
    }
}

/// The manga kept under `url`, if there is one.
pub open spec fn found(entries: Seq<(Seq<char>, MangaView)>, url: Seq<char>) -> Option<MangaView> {
    match entry_position(entries, url) {
        Some(i) => Some(entries[i].1),
        None => None,
    }
}

/// The entries after the one under `url` has been used: it becomes the
/// one used last. Where there is none, nothing changes.
pub open spec fn refreshed(entries: Seq<(Seq<char>, MangaView)>, url: Seq<char>) -> Seq<
    (Seq<char>, MangaView),
> {
    match entry_position(entries, url) {
        Some(i) => entries.remove(i).push(entries[i]),
        None => entries,
    }
}

/// The entries after `manga` has been stored under its address in a store
/// made for `capacity` entries: it takes the place of an entry with the
/// same address, or else joins and, where that is one too many, the entry
/// used longest ago leaves. Either way it is the one used last.
pub open spec fn stored(entries: Seq<(Seq<char>, MangaView)>, capacity: nat, manga: MangaView) -> Seq<
    (Seq<char>, MangaView),
> {
    match entry_position(entries, manga.url) {
        Some(i) => entries.remove(i).push((manga.url, manga)),
        None => if entries.len() + 1 > capacity {
            entries.push((manga.url, manga)).drop_first()
        } else {
            entries.push((manga.url, manga))
        },
    }
}

/// What holds of the entries at all times: no address has two entries,
/// and each manga is kept under its own address.
pub open spec fn entries_sound(entries: Seq<(Seq<char>, MangaView)>) -> bool {
    &&& forall|i: int, j: int|
        0 <= i < j < entries.len() ==> (#[trigger] entries[i]).0 != (#[trigger] entries[j]).0
    &&& forall|i: int| 0 <= i < entries.len() ==> (#[trigger] entries[i]).1.url == entries[i].0
}

/// `entry_position` finds an entry exactly where one has the address, and
/// then it is the last such.
pub proof fn lemma_entry_position(entries: Seq<(Seq<char>, MangaView)>, url: Seq<char>)
    ensures
        match entry_position(entries, url) {
            Some(i) => 0 <= i < entries.len() && entries[i].0 == url && forall|j: int|
                i < j < entries.len() ==> (#[trigger] entries[j]).0 != url,
            None => forall|j: int| 0 <= j < entries.len() ==> (#[trigger] entries[j]).0 != url,
        },
    decreases entries.len(),
{
    if entries.len() > 0 && entries.last().0 != url {
        let front = entries.drop_last();
        lemma_entry_position(front, url);
        assert forall|j: int|
            entry_position(entries, url) is None && 0 <= j < entries.len() implies (
        #[trigger] entries[j]).0 != url by {
            if j < entries.len() - 1 {
                assert(front[j] == entries[j]);
            }
        }
        if let Some(i) = entry_position(entries, url) {
            assert(front[i] == entries[i]);
            assert forall|j: int| i < j < entries.len() implies (#[trigger] entries[j]).0
                != url by {
                if j < entries.len() - 1 {
                    assert(front[j] == entries[j]);
                }
            }
        }
    }
}

/// Using and storing keep the entries sound, and storing keeps them
/// within the capacity.
pub proof fn lemma_entries_sound_kept(
    entries: Seq<(Seq<char>, MangaView)>,
    capacity: nat,
    url: Seq<char>,
    manga: MangaView,
)
    requires
        entries_sound(entries),
        entries.len() <= capacity,
    ensures
        entries_sound(refreshed(entries, url)),
        refreshed(entries, url).len() == entries.len(),
        entries_sound(stored(entries, capacity, manga)),
        stored(entries, capacity, manga).len() <= capacity,
{
    lemma_entry_position(entries, url);
    lemma_entry_position(entries, manga.url);
}

/// The mangas that are kept at hand, each under its address.
pub struct MangaCache {
    cache: LruCache<String, Manga>,
}

impl View for MangaCache {
    type V = Seq<(Seq<char>, MangaView)>;

    closed spec fn view(&self) -> Seq<(Seq<char>, MangaView)> {
        lru_entries(self.cache)
    }
}

impl MangaCache {
    #[verifier::type_invariant]
    spec fn sound(self) -> bool {
        entries_sound(lru_entries(self.cache)) && lru_entries(self.cache).len() <= lru_capacity(
            self.cache,
        )
    }

    /// The number of mangas that the store was made to hold.
    pub closed spec fn capacity(&self) -> nat {
        lru_capacity(self.cache)
    }

    /// An empty store that holds up to `capacity` mangas.
    pub fn new(capacity: usize) -> (r: Self)
        ensures
            r@ == Seq::<(Seq<char>, MangaView)>::empty(),
            r.capacity() == capacity,
    {
        MangaCache { cache: lru_new(capacity) }
    }

    /// The number of mangas kept.
    pub fn len(&self) -> (n: usize)
        ensures
            n == self@.len(),
            n <= self.capacity(),
            entries_sound(self@),
    {
        proof {
            use_type_invariant(self);
        }
        lru_len(&self.cache)
    }

    fn take_cache(&mut self) -> (cache: LruCache<String, Manga>)
        ensures
            lru_entries(cache) == old(self)@,
            lru_capacity(cache) == old(self).capacity(),
    {
        let mut cache = lru_new(0);
        core::mem::swap(&mut self.cache, &mut cache);
        cache
    }

    /// The manga kept under `url`, if there is one. Finding it counts as
    /// a use of it.
    pub fn lookup(&mut self, url: &str) -> (r: Option<Manga>)
        ensures
            match r {
                Some(manga) => found(old(self)@, url@) == Some(manga@),
                None => found(old(self)@, url@) is None,
            },
            final(self)@ == refreshed(old(self)@, url@),
            final(self).capacity() == old(self).capacity(),
    {
        proof {
            use_type_invariant(&*self);
            lemma_entry_position(self@, url@);
            lemma_entries_sound_kept(self@, self.capacity(), url@, arbitrary());
        }
        let mut cache = self.take_cache();
        let r = match lru_get(&mut cache, url) {
            Some(manga) => Some(manga.clone()),
            None => None,
        };
        self.cache = cache;
        r
    }

    /// Keeps `manga` under its address, as the one used last.
    pub fn store(&mut self, manga: Manga)
        ensures
            final(self)@ == stored(old(self)@, old(self).capacity(), manga@),
            final(self).capacity() == old(self).capacity(),
    {
        proof {
            use_type_invariant(&*self);
            lemma_entry_position(self@, manga.url@);
            lemma_entries_sound_kept(self@, self.capacity(), manga.url@, manga@);
        }
        let mut cache = self.take_cache();
        let key = manga.url.clone();
        let previous = lru_insert(&mut cache, key, manga);
        self.cache = cache;
    }
}

} // verus!
