//! What every connector offers, whatever site it reads.

use super::url::{Url, UrlView};
use crate::entity::{Chapter, Connectors, Manga, MangaView, Page};
use vstd::prelude::*;

verus! {

/// Why the entities could not be read out of a page.
#[derive(Copy, Clone, Debug, PartialEq, Eq, Structural)]
pub enum ParseError {
    /// A selector of the connector is not a selector.
    Selector,
    /// A pattern of the connector is not a regular expression.
    Pattern,
    /// The page holds no element of the kind looked for.
    MissingElement,
    /// An element lacks the attribute that is read from it.
    MissingAttribute,
    /// What should be an address is none.
    Url,
    /// What should hold a number holds none that fits.
    Number,
}

/// What is fixed about a connector: its name, its site, the patterns that
/// clean the titles it reads, and the selectors of what it reads.
#[derive(Debug)]
pub struct ConnectorInfo {
    pub id: &'static str,
    pub label: &'static str,
    pub tags: Vec<&'static str>,
    pub url: &'static str,
    pub path: &'static str,
    pub manga_title_filter: &'static str,
    pub chapter_title_filter: &'static str,
    pub query_manga_title: &'static str,
    pub query_mangas_page_count: &'static str,
    pub query_mangas: &'static str,
    pub query_icon: &'static str,
    pub query_chapters: &'static str,
    pub query_pages: &'static str,
}

impl ConnectorInfo {
    /// Whether `other` names the same site, tags, patterns and
    /// selectors.
    pub open spec fn same(&self, other: &ConnectorInfo) -> bool {
        &&& self.id@ == other.id@
        &&& self.label@ == other.label@
        &&& self.tags@ == other.tags@
        &&& self.url@ == other.url@
        &&& self.path@ == other.path@
        &&& self.manga_title_filter@ == other.manga_title_filter@
        &&& self.chapter_title_filter@ == other.chapter_title_filter@
        &&& self.query_manga_title@ == other.query_manga_title@
        &&& self.query_mangas_page_count@ == other.query_mangas_page_count@
        &&& self.query_mangas@ == other.query_mangas@
        &&& self.query_icon@ == other.query_icon@
        &&& self.query_chapters@ == other.query_chapters@
        &&& self.query_pages@ == other.query_pages@
    }
}

impl Clone for ConnectorInfo {
    fn clone(&self) -> (r: Self)
        ensures
            r.same(self),
    {
        let mut tags: Vec<&'static str> = Vec::new();
        let mut i: usize = 0;
        while i < self.tags.len()
            invariant
                i <= self.tags.len(),
                tags@ == self.tags@.take(i as int),
            decreases self.tags.len() - i,
        {
            tags.push(self.tags[i]);
            i += 1;
        }
        assert(self.tags@.take(i as int) =~= self.tags@);
        ConnectorInfo {
            id: self.id,
            label: self.label,
            tags,
            url: self.url,
            path: self.path,
            manga_title_filter: self.manga_title_filter,
            chapter_title_filter: self.chapter_title_filter,
            query_manga_title: self.query_manga_title,
            query_mangas_page_count: self.query_mangas_page_count,
            query_mangas: self.query_mangas,
            query_icon: self.query_icon,
            query_chapters: self.query_chapters,
            query_pages: self.query_pages,
        }
    }
}

/// An entry of a catalogue page: a manga of which the icon is not known
/// yet.
#[derive(Debug)]
pub struct MangaEntry {
    pub title: String,
    pub url: Url,
}

/// What a [`MangaEntry`] holds, as plain mathematical values.
pub struct MangaEntryView {
    pub title: Seq<char>,
    pub url: UrlView,
}

impl View for MangaEntry {
    type V = MangaEntryView;

    open spec fn view(&self) -> MangaEntryView {
        MangaEntryView { title: self.title@, url: self.url@ }
    }
}

impl MangaEntry {
    /// The manga that the entry stands for, once its icon is known.
    pub fn into_manga(self, icon: &Url, connector: Connectors) -> (r: Manga)
        ensures
            r@ == (MangaView {
                url: self@.url.text,
                title: self@.title,
                icon_url: icon@.text,
                connector,
            }),
    {
        Manga {
            url: self.url.as_str().to_owned(),
            title: self.title,
            icon_url: icon.as_str().to_owned(),
            connector,
        }
    }
}

/// All of `items` in their order, where each was read; else the error of
/// the first that was not.
pub open spec fn collected<T>(items: Seq<Result<T, ParseError>>) -> Result<Seq<T>, ParseError>
    decreases items.len(),
{
    if items.len() == 0 {
        Ok(Seq::empty())
    } else {
        match collected(items.drop_last()) {
            Err(e) => Err(e),
            Ok(front) => match items.last() {
                Ok(item) => Ok(front.push(item)),
                Err(e) => Err(e),
            },
        }
    }
}

/// What is read out of a page keeps the order of the selection: where all
/// items were read, the result has one entry for each, at the same place.
/// Where one was not, the result is the error of the first such.
pub proof fn lemma_collected_in_order<T>(items: Seq<Result<T, ParseError>>)
    ensures
        match collected(items) {
            Ok(list) => list.len() == items.len() && forall|i: int|
                0 <= i < items.len() ==> #[trigger] items[i] == Ok::<T, ParseError>(list[i]),
            Err(e) => exists|i: int|
                0 <= i < items.len() && #[trigger] items[i] == Err::<T, ParseError>(e) && forall|
                    j: int,
                |
                    0 <= j < i ==> (#[trigger] items[j]) is Ok,
        },
    decreases items.len(),
{
    if items.len() > 0 {
        let front = items.drop_last();
        lemma_collected_in_order(front);
        match collected(front) {
            Ok(list) => {
                assert forall|j: int| 0 <= j < front.len() implies (#[trigger] items[j]) is Ok by {
                    assert(front[j] == items[j]);
                }
                match items.last() {
                    Ok(item) => {
                        assert forall|i: int| 0 <= i < items.len() implies #[trigger] items[i]
                            == Ok::<T, ParseError>(list.push(item)[i]) by {
                            if i < front.len() {
                                assert(front[i] == items[i]);
                            }
                        }
                    },
                    Err(e) => {
                        assert(items[items.len() - 1] == Err::<T, ParseError>(e));
                    },
                }
            },
            Err(e) => {
                let i = choose|i: int|
                    0 <= i < front.len() && #[trigger] front[i] == Err::<T, ParseError>(e)
                        && forall|j: int| 0 <= j < i ==> (#[trigger] front[j]) is Ok;
                assert(items[i] == front[i]);
                assert forall|j: int| 0 <= j < i implies (#[trigger] items[j]) is Ok by {
                    assert(front[j] == items[j]);
                }
            },
        }
    }
}

/// Once an item could not be read, reading on does not change the
/// outcome: the error of a front part is the error of the whole.
pub proof fn lemma_collected_error_stays<T>(
    items: Seq<Result<T, ParseError>>,
    k: int,
    e: ParseError,
)
    requires
        0 <= k <= items.len(),
        collected(items.take(k)) == Err::<Seq<T>, ParseError>(e),
    ensures
        collected(items) == Err::<Seq<T>, ParseError>(e),
    decreases items.len() - k,
{
    if k < items.len() {
        assert(items.take(k + 1).drop_last() =~= items.take(k));
        lemma_collected_error_stays(items, k + 1, e);
    } else {
        assert(items.take(k) =~= items);
    }
}

/// What a source site offers. The pages themselves are fetched elsewhere:
/// a connector says where they are and reads the entities out of them.
pub trait Connector {
    /// What is fixed about the connector.
    fn get_connector_info(&self) -> ConnectorInfo;

    /// Whether the address belongs to the site of this connector.
    fn can_handle_uri(&self, uri: &Url) -> bool;

    /// The manga at `manga_url`, read from the page found there: the
    /// title from `document`, the icon from `icon_document`.
    fn get_manga_from_url(&self, manga_url: &Url, document: &str, icon_document: &str) -> (r:
        Result<Manga, ParseError>)
        ensures
            r matches Ok(manga) ==> manga@.url == manga_url@.text,
    ;

    /// The address of the icon of the manga whose page is `document`.
    fn get_manga_icon(&self, document: &str) -> Result<Url, ParseError>;

    /// The address of page `page` of the catalogue.
    fn get_mangas_uri(&self, page: i32) -> Result<Url, ParseError>;

    /// The number that the first page of the catalogue gives for its last
    /// page.
    fn get_mangas_page_count(&self, document: &str) -> Result<i32, ParseError>;

    /// The entries of the catalogue page `document`, in the order of the
    /// selection.
    fn get_mangas_from_page(&self, document: &str) -> Result<Vec<MangaEntry>, ParseError>;

    /// The chapters of `manga`, read from its page `document`, in the
    /// order of the selection.
    fn get_chapters(&self, manga: &Manga, document: &str) -> (r: Result<Vec<Chapter>, ParseError>)
        ensures
            r matches Ok(chapters) ==> forall|i: int|
                0 <= i < chapters@.len() ==> (#[trigger] chapters@[i])@.manga == manga@,
    ;

    /// The pages of `chapter`, read from its page `document`, in the
    /// order of the selection. Each carries the address of the chapter as its
    /// referer.
    fn get_pages(&self, chapter: &Chapter, document: &str) -> (r: Result<Vec<Page>, ParseError>)
        ensures
            r matches Ok(pages) ==> forall|i: int|
                0 <= i < pages@.len() ==> (#[trigger] pages@[i])@.referer == chapter@.url,
    ;
}

} // verus!
