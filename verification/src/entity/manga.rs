use super::connectors::Connectors;
use vstd::prelude::*;
use vstd::std_specs::cmp::PartialEqSpec;

verus! {

/// One title of a catalogue. Its identity is its `url`: two values with the
/// same `url` are the same manga, whatever their other fields hold.
#[derive(Debug)]
pub struct Manga {
    pub url: String,
    pub title: String,
    pub icon_url: String,
    pub connector: Connectors,
}

/// What a [`Manga`] holds, as plain mathematical values.
pub struct MangaView {
    pub url: Seq<char>,
    pub title: Seq<char>,
    pub icon_url: Seq<char>,
    pub connector: Connectors,
}

impl View for Manga {
    type V = MangaView;

    open spec fn view(&self) -> MangaView {
        MangaView {
            url: self.url@,
            title: self.title@,
            icon_url: self.icon_url@,
            connector: self.connector,
        }
    }
}

impl Manga {
    /// The identity of the manga: its address.
    pub open spec fn identity(&self) -> Seq<char> {
        self.url@
    }
}

impl Clone for Manga {
    fn clone(&self) -> (r: Self)
        ensures
            r@ == self@,
    {
        Manga {
            url: self.url.clone(),
            title: self.title.clone(),
            icon_url: self.icon_url.clone(),
            connector: self.connector,
        }
    }
}

impl PartialEq for Manga {
    fn eq(&self, other: &Self) -> (r: bool) {
        self.url == other.url
    }
}

impl vstd::std_specs::cmp::PartialEqSpecImpl for Manga {
    open spec fn obeys_eq_spec() -> bool {
        true
    }

    open spec fn eq_spec(&self, other: &Self) -> bool {
        self.url@ == other.url@
    }
}

impl Eq for Manga {

}

impl std::hash::Hash for Manga {
    /// `Hash::hash` of the address, and of nothing else: mangas that are
    /// equal hash alike.
    #[verifier::external_body]
    fn hash<H: std::hash::Hasher>(&self, state: &mut H) {
        self.url.hash(state)
    }
}

/// Equality of mangas is decided by the address alone: it is the equality
/// of identities, so values that differ only in title or icon are equal, and
/// it is reflexive, symmetric and transitive.
pub proof fn lemma_manga_eq_by_url(a: Manga, b: Manga, c: Manga)
    ensures
        a.eq_spec(&b) <==> a.identity() == b.identity(),
        a.url@ == b.url@ ==> a.eq_spec(&b),
        a.eq_spec(&a),
        a.eq_spec(&b) ==> b.eq_spec(&a),
        a.eq_spec(&b) && b.eq_spec(&c) ==> a.eq_spec(&c),
{
}

} // verus!
