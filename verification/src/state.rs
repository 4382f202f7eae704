//! What the application knows at a moment, and how a change of route
//! changes it.

use crate::config::Config;
use crate::download::DownloadQueue;
use crate::entity::{Chapter, Manga, MangaView};
use crate::lookup::{found, refreshed, MangaCache};
use crate::nav::{Nav, NavView};
use vstd::prelude::*;

verus! {

/// The manga whose page is shown, and what is shown of its chapters.
#[derive(Debug)]
pub struct MangaDetail {
    pub manga: Manga,
    pub start: u16,
    pub end: u16,
    pub chapters: Vec<Chapter>,
}

/// The number of mangas that are kept at hand.
pub const MANGA_CACHE_SIZE: usize = 256;

/// What the application knows at a moment.
pub struct AppState {
    pub config: Config,
    pub route: Nav,
    pub manga_detail: Option<MangaDetail>,
    pub mangas: Vec<Manga>,
    pub manga_cache: MangaCache,
    pub manga_search_url: String,
    pub download_queue: DownloadQueue,
}

impl AppState {
    /// The state at the start, with the settings `config`: on the home
    /// page, nothing known, nothing waiting.
    pub fn new(config: Config) -> (r: Self)
        ensures
            r.config == config,
            r.route@ == NavView::Home,
            r.manga_detail is None,
            r.mangas@.len() == 0,
            r.manga_cache@.len() == 0,
            r.manga_cache.capacity() == MANGA_CACHE_SIZE,
            r.manga_search_url@.len() == 0,
            r.download_queue@.len() == 0,
    {
        AppState {
            config,
            route: Nav::Home,
            manga_detail: None,
            mangas: Vec::new(),
            manga_cache: MangaCache::new(MANGA_CACHE_SIZE),
            manga_search_url: String::new(),
            download_queue: DownloadQueue::new(),
        }
    }

    /// Goes to the route `nav`. Where that is another place than the one
    /// shown, it becomes the route and the last route of the settings,
    /// and `true` is returned: the settings are to be saved. Else
    /// nothing changes.
    pub fn navigate(&mut self, nav: &Nav) -> (changed: bool)
        ensures
            changed == (old(self).route@ != nav@),
            final(self).route@ == nav@,
            changed ==> (final(self).config.last_route matches Some(route) && route@ == nav@),
            !changed ==> final(self).config.last_route == old(self).config.last_route,
            final(self).config.theme == old(self).config.theme,
            final(self).manga_detail == old(self).manga_detail,
            final(self).mangas == old(self).mangas,
            final(self).manga_cache == old(self).manga_cache,
            final(self).manga_search_url == old(self).manga_search_url,
            final(self).download_queue == old(self).download_queue,
    {
        if !self.route.same(nav) {
            self.route = nav.clone();
            self.config.last_route = Some(nav.clone());
            true
        } else {
            false
        }
    }

    /// Makes ready what the route shows. On the page of a manga that is
    /// at hand, that manga becomes the one shown in detail, with no
    /// chapters yet; where it is not at hand, its address is returned:
    /// the manga is to be fetched. On every route the list of mangas is
    /// emptied.
    pub fn load_route_data(&mut self) -> (fetch: Option<String>)
        ensures
            final(self).mangas@.len() == 0,
            final(self).route == old(self).route,
            final(self).config == old(self).config,
            final(self).manga_search_url == old(self).manga_search_url,
            final(self).download_queue == old(self).download_queue,
            final(self).manga_cache.capacity() == old(self).manga_cache.capacity(),
            match old(self).route@ {
                NavView::MangaPage(url) => {
                    &&& final(self).manga_cache@ == refreshed(old(self).manga_cache@, url)
                    &&& match found(old(self).manga_cache@, url) {
                        Some(manga) => {
                            &&& fetch is None
                            &&& final(self).manga_detail matches Some(detail)
                            &&& detail.manga@ == manga
                            &&& detail.start == 1
                            &&& detail.end == 1
                            &&& detail.chapters@.len() == 0
                        },
                        None => {
                            &&& fetch matches Some(address)
                            &&& address@ == url
                            &&& final(self).manga_detail == old(self).manga_detail
                        },
                    }
                },
                _ => {
                    &&& fetch is None
                    &&& final(self).manga_cache@ == old(self).manga_cache@
                    &&& final(self).manga_detail == old(self).manga_detail
                },
            },
    {
        let mut fetch: Option<String> = None;
        match &self.route {
            Nav::Home => {},
            Nav::Downloads => {},
            Nav::MangaPage(url) => {
                match self.manga_cache.lookup(url.as_str()) {
                    Some(manga) => {
                        self.manga_detail = Some(
                            MangaDetail { manga, start: 1, end: 1, chapters: Vec::new() },
                        );
                    },
                    None => {
                        fetch = Some(url.clone());
                    },
                }
            },
        }
        self.mangas = Vec::new();
        fetch
    }
}

} // verus!
