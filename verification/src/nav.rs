//! The routes of the user interface and their titles.

use crate::entity::MangaView;
use crate::lookup::{found, refreshed, MangaCache};
use vstd::prelude::*;

verus! {

/// A place in the user interface: the home page, the downloads, or the
/// page of the manga at an address.
#[derive(Debug)]
pub enum Nav {
    Home,
    Downloads,
    MangaPage(String),
}

/// A [`Nav`] as plain mathematical values.
pub enum NavView {
    Home,
    Downloads,
    MangaPage(Seq<char>),
}

impl View for Nav {
    type V = NavView;

    open spec fn view(&self) -> NavView {
        match self {
            Nav::Home => NavView::Home,
            Nav::Downloads => NavView::Downloads,
            Nav::MangaPage(url) => NavView::MangaPage(url@),
        }
    }
}

impl Clone for Nav {
    fn clone(&self) -> (r: Self)
        ensures
            r@ == self@,
    {
        match self {
            Nav::Home => Nav::Home,
            Nav::Downloads => Nav::Downloads,
            Nav::MangaPage(url) => Nav::MangaPage(url.clone()),
        }
    }
}

/// The title of a route, given the mangas that are known.
pub open spec fn title_spec(route: NavView, known: Seq<(Seq<char>, MangaView)>) -> Seq<
    char,
> {
    match route {
        NavView::Home => "Home"@,
        NavView::Downloads => "Downloads"@,
        NavView::MangaPage(url) => match found(known, url) {
            Some(manga) => manga.title,
            None => "Manga Not Found"@,
        },
    }
}

/// The full title of a route, given the mangas that are known: for the
/// page of a known manga, its title and the label of its source.
pub open spec fn full_title_spec(
    route: NavView,
    known: Seq<(Seq<char>, MangaView)>,
) -> Seq<char> {
    match route {
        NavView::Home => "Home"@,
        NavView::Downloads => "Downloads"@,
        NavView::MangaPage(url) => match found(known, url) {
            Some(manga) => "Manga - "@ + manga.title + " - "@ + manga.connector.label_spec(),
            None => "Manga Not Found"@,
        },
    }
}

/// The title of the window on a route.
pub open spec fn window_title_spec(
    route: NavView,
    known: Seq<(Seq<char>, MangaView)>,
) -> Seq<char> {
    "Mangetsu - ["@ + full_title_spec(route, known) + "]"@
}

impl Nav {
    /// Whether two routes are the same place.
    pub fn same(&self, other: &Nav) -> (r: bool)
        ensures
            r == (self@ == other@),
    {
        match (self, other) {
            (Nav::Home, Nav::Home) => true,
            (Nav::Downloads, Nav::Downloads) => true,
            (Nav::MangaPage(a), Nav::MangaPage(b)) => *a == *b,
            _ => false,
        }
    }

    /// The title of the route. Looking a manga up counts as a use of it
    /// in `cache`.
    pub fn title(&self, cache: &mut MangaCache) -> (r: String)
        ensures
            r@ == title_spec(self@, old(cache)@),
            final(cache)@ == match self@ {
                NavView::MangaPage(url) => refreshed(old(cache)@, url),
                _ => old(cache)@,
            },
            final(cache).capacity() == old(cache).capacity(),
    {
        match self {
            Nav::Home => "Home".to_owned(),
            Nav::Downloads => "Downloads".to_owned(),
            Nav::MangaPage(url) => match cache.lookup(url.as_str()) {
                Some(manga) => manga.title,
                None => "Manga Not Found".to_owned(),
            },
        }
    }

    /// The full title of the route. Looking a manga up counts as a use of
    /// it in `cache`.
    pub fn full_title(&self, cache: &mut MangaCache) -> (r: String)
        ensures
            r@ == full_title_spec(self@, old(cache)@),
            final(cache)@ == match self@ {
                NavView::MangaPage(url) => refreshed(old(cache)@, url),
                _ => old(cache)@,
            },
            final(cache).capacity() == old(cache).capacity(),
    {
        match self {
            Nav::Home => "Home".to_owned(),
            Nav::Downloads => "Downloads".to_owned(),
            Nav::MangaPage(url) => match cache.lookup(url.as_str()) {
                Some(manga) => {
                    let mut r = "Manga - ".to_owned();
                    r.append(manga.title.as_str());
                    r.append(" - ");
                    r.append(manga.connector.label());
                    r
                },
                None => "Manga Not Found".to_owned(),
            },
        }
    }
}

/// The title of the window while the user interface is on `route`.
pub fn compute_window_title(route: &Nav, cache: &mut MangaCache) -> (r: String)
    ensures
        r@ == window_title_spec(route@, old(cache)@),
        final(cache)@ == match route@ {
            NavView::MangaPage(url) => refreshed(old(cache)@, url),
            _ => old(cache)@,
        },
        final(cache).capacity() == old(cache).capacity(),
{
    let mut r = "Mangetsu - [".to_owned();
    let full = route.full_title(cache);
    r.append(full.as_str());
    r.append("]");
    r
}

} // verus!
