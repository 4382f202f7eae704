use super::connectors::Connectors;
use super::manga::{Manga, MangaView};
use vstd::prelude::*;
use vstd::std_specs::cmp::PartialEqSpec;

verus! {

/// One chapter of a manga. Its identity is its `url`.
#[derive(Debug)]
pub struct Chapter {
    pub url: String,
    pub title: String,
    pub connector: Connectors,
    pub manga: Manga,
}

/// What a [`Chapter`] holds, as plain mathematical values.
pub struct ChapterView {
    pub url: Seq<char>,
    pub title: Seq<char>,
    pub connector: Connectors,
    pub manga: MangaView,
}

impl View for Chapter {
    type V = ChapterView;

    open spec fn view(&self) -> ChapterView {
        ChapterView {
            url: self.url@,
            title: self.title@,
            connector: self.connector,
            manga: self.manga@,
        }
    }
}

impl Chapter {
    /// The identity of the chapter: its address.
    pub open spec fn identity(&self) -> Seq<char> {
        self.url@
    }
}

impl Clone for Chapter {
    fn clone(&self) -> (r: Self)
        ensures
            r@ == self@,
    {
        Chapter {
            url: self.url.clone(),
            title: self.title.clone(),
            connector: self.connector,
            manga: self.manga.clone(),
        }
    }
}

impl PartialEq for Chapter {
    fn eq(&self, other: &Self) -> (r: bool) {
        self.url == other.url
    }
}

impl vstd::std_specs::cmp::PartialEqSpecImpl for Chapter {
    open spec fn obeys_eq_spec() -> bool {
        true
    }

    open spec fn eq_spec(&self, other: &Self) -> bool {
        self.url@ == other.url@
    }
}

impl Eq for Chapter {

}

impl std::hash::Hash for Chapter {
    /// `Hash::hash` of the address, and of nothing else: chapters that
    /// are equal hash alike.
    #[verifier::external_body]
    fn hash<H: std::hash::Hasher>(&self, state: &mut H) {
        self.url.hash(state)
    }
}

/// Equality of chapters is decided by the address alone: it is the equality
/// of identities, so values that differ only in title or manga are equal,
/// and it is reflexive, symmetric and transitive.
pub proof fn lemma_chapter_eq_by_url(a: Chapter, b: Chapter, c: Chapter)
    ensures
        a.eq_spec(&b) <==> a.identity() == b.identity(),
        a.url@ == b.url@ ==> a.eq_spec(&b),
        a.eq_spec(&a),
        a.eq_spec(&b) ==> b.eq_spec(&a),
        a.eq_spec(&b) && b.eq_spec(&c) ==> a.eq_spec(&c),
{
}

} // verus!
