//! The connector for Manganato and the sites of its family.

use super::html::{
    all_of_spec, element_views, last_of_spec, select_all, select_last, selected, target_of,
    target_of_spec, Element, ElementView,
};
use super::pattern::{clean, cleaned, matched_spec, occurs, regex_matches};
use super::protocol::{
    collected, lemma_collected_error_stays, lemma_collected_in_order, Connector, ConnectorInfo, MangaEntry, MangaEntryView,
    ParseError,
};
use super::url::{address, address_spec, link, linked, url_joined, Url, UrlView};
use crate::entity::{
    Chapter, ChapterView, Connectors, Manga, MangaView, Page, PageView,
};
use crate::text::{decimal, decimal_spec, number_in, parse_digits, remove_all, remove_all_spec};
use vstd::prelude::*;

verus! {

pub const ID: &'static str = "manganel";

pub const LABEL: &'static str = "Manganato";

pub const URL: &'static str = "https://manganato.com";

pub const PATH: &'static str = "/genre-all/";

/// What is cut off the end of a manga's title.
pub const MANGA_TITLE_FILTER: &'static str = r"(?i)(\s+manga|\s+webtoon|\s+others)+\s*$";

/// What is cut off the start of a chapter's title.
pub const CHAPTER_TITLE_FILTER: &'static str = r"(?i)^\s*(\\s+manga|\\s+webtoon|\\s+others)+";

pub const QUERY_MANGA_TITLE: &'static str =
    "div.container-main div.panel-story-info div.story-info-right h1";

pub const QUERY_MANGAS_PAGE_COUNT: &'static str =
    "div.panel-page-number div.group-page a.page-last:last-of-type";

pub const QUERY_MANGAS: &'static str = "div.genres-item-info h3 a.genres-item-name";

pub const QUERY_ICON: &'static str = ".info-image > img:nth-child(1)";

/// The chapter links, in each of the layouts that the sites of the family
/// use.
pub const QUERY_CHAPTERS: &'static str =
    "ul.row-content-chapter li a.chapter-name, div.chapter_list ul li a, div.chapter-list div.row span a, div.content.mCustomScrollbar div.chapter-list ul li.row div.chapter h4 a.xanh";

/// The page images, in each of the layouts that the sites of the family
/// use.
pub const QUERY_PAGES: &'static str =
    "div.container-chapter-reader img, div.chapter-content div.panel-read-story img, div#vungdoc img, div.vung-doc img, div.vung_doc img";

/// The domains of the site.
pub const DOMAIN_PATTERN: &'static str = r"^(m\.|chap\.)?(read)?manganato\.com$";

/// The attribute that holds a link's target.
pub const HREF: &'static str = "href";

/// The attribute that holds an image's address.
pub const SRC: &'static str = "src";

/// Whether an address with this domain belongs to the site.
pub open spec fn handles(domain: Option<Seq<char>>) -> bool {
    match domain {
        Some(domain) => matched_spec(regex_matches(DOMAIN_PATTERN@, domain)),
        None => false,
    }
}

/// The title of the manga whose page is `document`: the markup inside
/// the last element that the title selector matches.
pub open spec fn manga_title_spec(document: Seq<char>) -> Result<Seq<char>, ParseError> {
    match last_of_spec(selected(document, QUERY_MANGA_TITLE@, HREF@)) {
        Ok(element) => Ok(element.inner_html),
        Err(e) => Err(e),
    }
}

/// The address of the icon of the manga whose page is `document`: the
/// source of the last element that the icon selector matches.
pub open spec fn manga_icon_spec(document: Seq<char>) -> Result<UrlView, ParseError> {
    match last_of_spec(selected(document, QUERY_ICON@, SRC@)) {
        Ok(element) => linked(element),
        Err(e) => Err(e),
    }
}

/// The manga at `manga_url`, its title read from `document` and its icon
/// from `icon_document`.
pub open spec fn manga_spec(
    manga_url: UrlView,
    document: Seq<char>,
    icon_document: Seq<char>,
) -> Result<MangaView, ParseError> {
    match manga_title_spec(document) {
        Err(e) => Err(e),
        Ok(title) => match manga_icon_spec(icon_document) {
            Err(e) => Err(e),
            Ok(icon) => Ok(
                MangaView {
                    url: manga_url.text,
                    title,
                    icon_url: icon.text,
                    connector: Connectors::Manganel,
                },
            ),
        },
    }
}

/// The path of page `page` of the catalogue, below the site.
pub open spec fn catalogue_path_spec(page: int) -> Seq<char> {
    PATH@ + decimal_spec(page)
}

/// The address of page `page` of the catalogue.
pub open spec fn mangas_uri_spec(page: int) -> Result<UrlView, ParseError> {
    address_spec(url_joined(URL@, catalogue_path_spec(page)))
}

/// The number that the link `element` gives for the last page of the
/// catalogue: the number that the digits of its target write.
pub open spec fn page_count_in_spec(element: ElementView) -> Result<i32, ParseError> {
    match target_of_spec(element) {
        Err(e) => Err(e),
        Ok(target) => match number_in(target) {
            Some(count) => Ok(count),
            None => Err(ParseError::Number),
        },
    }
}

/// The number of the last page of the catalogue, as its first page
/// `document` gives it in the last element that the page-count selector
/// matches.
pub open spec fn mangas_page_count_spec(document: Seq<char>) -> Result<i32, ParseError> {
    match last_of_spec(selected(document, QUERY_MANGAS_PAGE_COUNT@, HREF@)) {
        Err(e) => Err(e),
        Ok(element) => page_count_in_spec(element),
    }
}

/// The catalogue entry that `element` stands for: its title is the
/// cleaned markup inside the element, its address the element's target.
pub open spec fn entry_spec(element: ElementView) -> Result<MangaEntryView, ParseError> {
    match cleaned(MANGA_TITLE_FILTER@, element.inner_html) {
        Err(e) => Err(e),
        Ok(title) => match linked(element) {
            Err(e) => Err(e),
            Ok(url) => Ok(MangaEntryView { title, url }),
        },
    }
}

/// The chapter of `manga` at `url` with the title `title`.
pub open spec fn chapter_of_spec(manga: MangaView, url: UrlView, title: Seq<char>) -> ChapterView {
    ChapterView { url: url.text, title, connector: Connectors::Manganel, manga }
}

/// The chapter of `manga` that `element` stands for: its address is the
/// element's target, its title the markup inside the element, without the
/// manga's title and cleaned.
pub open spec fn chapter_spec(manga: MangaView, element: ElementView) -> Result<
    ChapterView,
    ParseError,
> {
    match linked(element) {
        Err(e) => Err(e),
        Ok(url) => match cleaned(
            CHAPTER_TITLE_FILTER@,
            remove_all_spec(element.inner_html, manga.title),
        ) {
            Err(e) => Err(e),
            Ok(title) => Ok(chapter_of_spec(manga, url, title)),
        },
    }
}

/// The page of `chapter` that `element` stands for: its address is the
/// element's source as it is written, its referer the chapter's address.
pub open spec fn page_spec(chapter: ChapterView, element: ElementView) -> Result<
    PageView,
    ParseError,
> {
    match target_of_spec(element) {
        Err(e) => Err(e),
        Ok(source) => Ok(
            PageView { url: source, referer: chapter.url, connector: Connectors::Manganel },
        ),
    }
}

/// The catalogue entries that `elements` stand for, in their order.
pub open spec fn entries_from_spec(elements: Seq<ElementView>) -> Result<
    Seq<MangaEntryView>,
    ParseError,
> {
    collected(Seq::new(elements.len(), |i: int| entry_spec(elements[i])))
}

/// The chapters of `manga` that `elements` stand for, in their order.
pub open spec fn chapters_from_spec(manga: MangaView, elements: Seq<ElementView>) -> Result<
    Seq<ChapterView>,
    ParseError,
> {
    collected(Seq::new(elements.len(), |i: int| chapter_spec(manga, elements[i])))
}

/// The pages of `chapter` that `elements` stand for, in their order.
pub open spec fn pages_from_spec(chapter: ChapterView, elements: Seq<ElementView>) -> Result<
    Seq<PageView>,
    ParseError,
> {
    collected(Seq::new(elements.len(), |i: int| page_spec(chapter, elements[i])))
}

/// The entries of the catalogue page `document`, in the order of the
/// selection.
pub open spec fn mangas_from_page_spec(document: Seq<char>) -> Result<
    Seq<MangaEntryView>,
    ParseError,
> {
    match all_of_spec(selected(document, QUERY_MANGAS@, HREF@)) {
        Err(e) => Err(e),
        Ok(elements) => entries_from_spec(elements),
    }
}

/// The chapters of `manga`, read from its page `document`, in the order
/// of the page.
pub open spec fn chapters_spec(manga: MangaView, document: Seq<char>) -> Result<
    Seq<ChapterView>,
    ParseError,
> {
    match all_of_spec(selected(document, QUERY_CHAPTERS@, HREF@)) {
        Err(e) => Err(e),
        Ok(elements) => chapters_from_spec(manga, elements),
    }
}

/// The pages of `chapter`, read from its page `document`, in the order
/// of the page.
pub open spec fn pages_spec(chapter: ChapterView, document: Seq<char>) -> Result<
    Seq<PageView>,
    ParseError,
> {
    match all_of_spec(selected(document, QUERY_PAGES@, SRC@)) {
        Err(e) => Err(e),
        Ok(elements) => pages_from_spec(chapter, elements),
    }
}

/// The entries read from a catalogue page stand in the order of the selection:
/// where the page could be read, there is one entry for each element that
/// the selector matches, at the same place, and it is the entry of that
/// element.
pub proof fn lemma_mangas_in_document_order(document: Seq<char>)
    ensures
        match mangas_from_page_spec(document) {
            Ok(list) => {
                &&& selected(document, QUERY_MANGAS@, HREF@) matches Some(elements)
                &&& list.len() == elements.len()
                &&& forall|i: int|
                    0 <= i < elements.len() ==> entry_spec(#[trigger] elements[i]) == Ok::<
                        MangaEntryView,
                        ParseError,
                    >(list[i])
            },
            Err(_) => true,
        },
{
    if let Some(elements) = selected(document, QUERY_MANGAS@, HREF@) {
        let items = Seq::new(elements.len(), |i: int| entry_spec(elements[i]));
        lemma_collected_in_order(items);
        if let Ok(list) = collected(items) {
            assert forall|i: int| 0 <= i < elements.len() implies entry_spec(
                #[trigger] elements[i],
            ) == Ok::<MangaEntryView, ParseError>(list[i]) by {
                assert(items[i] == entry_spec(elements[i]));
            }
        }
    }
}

/// The numbers of the catalogue pages that are walked when the first
/// page gives `page_count` as the number of the last: every page from 1
/// up to and with `page_count`.
pub open spec fn catalogue_pages_spec(page_count: int) -> Seq<i32> {
    if page_count < 1 {
        Seq::empty()
    } else {
        Seq::new(page_count as nat, |i: int| (i + 1) as i32)
    }
}

/// The entries that a list holds, as plain mathematical values.
pub open spec fn entry_views(list: Seq<MangaEntry>) -> Seq<MangaEntryView> {
    list.map_values(|entry: MangaEntry| entry@)
}

/// The chapters that a list holds, as plain mathematical values.
pub open spec fn chapter_views(list: Seq<Chapter>) -> Seq<ChapterView> {
    list.map_values(|chapter: Chapter| chapter@)
}

/// The pages that a list holds, as plain mathematical values.
pub open spec fn page_views(list: Seq<Page>) -> Seq<PageView> {
    list.map_values(|page: Page| page@)
}

/// Whether `info` is what is fixed about this connector: the site, its
/// tags, and the patterns and selectors above.
pub open spec fn is_manganel(info: ConnectorInfo) -> bool {
    &&& info.id@ == ID@
    &&& info.label@ == LABEL@
    &&& info.tags@.len() == 3
    &&& info.tags@[0]@ == "manga"@
    &&& info.tags@[1]@ == "webtoon"@
    &&& info.tags@[2]@ == "english"@
    &&& info.url@ == URL@
    &&& info.path@ == PATH@
    &&& info.manga_title_filter@ == MANGA_TITLE_FILTER@
    &&& info.chapter_title_filter@ == CHAPTER_TITLE_FILTER@
    &&& info.query_manga_title@ == QUERY_MANGA_TITLE@
    &&& info.query_mangas_page_count@ == QUERY_MANGAS_PAGE_COUNT@
    &&& info.query_mangas@ == QUERY_MANGAS@
    &&& info.query_icon@ == QUERY_ICON@
    &&& info.query_chapters@ == QUERY_CHAPTERS@
    &&& info.query_pages@ == QUERY_PAGES@
}

/// The connector for Manganato.
#[derive(Debug)]
pub struct Manganel {
    info: ConnectorInfo,
}

impl Manganel {
    #[verifier::type_invariant]
    spec fn sound(self) -> bool {
        is_manganel(self.info)
    }

    /// What is fixed about the connector.
    pub closed spec fn info(&self) -> ConnectorInfo {
        self.info
    }

    /// The connector, with the site's selectors and patterns.
    pub fn new() -> (r: Self)
        ensures
            is_manganel(r.info()),
    {
        Manganel {
            info: ConnectorInfo {
                id: ID,
                label: LABEL,
                tags: vec!["manga", "webtoon", "english"],
                url: URL,
                path: PATH,
                manga_title_filter: MANGA_TITLE_FILTER,
                chapter_title_filter: CHAPTER_TITLE_FILTER,
                query_manga_title: QUERY_MANGA_TITLE,
                query_mangas_page_count: QUERY_MANGAS_PAGE_COUNT,
                query_mangas: QUERY_MANGAS,
                query_icon: QUERY_ICON,
                query_chapters: QUERY_CHAPTERS,
                query_pages: QUERY_PAGES,
            },
        }
    }

    /// The title of the manga whose page is `document`.
    pub fn get_manga_title(&self, document: &str) -> (r: Result<String, ParseError>)
        ensures
            match r {
                Ok(title) => manga_title_spec(document@) == Ok::<Seq<char>, ParseError>(title@),
                Err(e) => manga_title_spec(document@) == Err::<Seq<char>, ParseError>(e),
            },
    {
        proof {
            use_type_invariant(self);
        }
        let element = select_last(document, self.info.query_manga_title, HREF)?;
        Ok(element.inner_html)
    }

    /// The path of page `page` of the catalogue, below the site.
    pub fn catalogue_path(page: i32) -> (r: String)
        ensures
            r@ == catalogue_path_spec(page as int),
    {
        let mut path = PATH.to_owned();
        let number = decimal(page);
        path.append(number.as_str());
        path
    }

    /// The numbers of the catalogue pages to walk when the first page
    /// gives `page_count` as the number of the last: 1 up to and with
    /// `page_count`.
    pub fn catalogue_pages(page_count: i32) -> (r: Vec<i32>)
        ensures
            r@ == catalogue_pages_spec(page_count as int),
    {
        let mut pages: Vec<i32> = Vec::new();
        let mut page: i32 = 0;
        while page < page_count
            invariant
                0 <= page,
                page == 0 || page <= page_count,
                pages@.len() == page,
                forall|i: int| 0 <= i < pages@.len() ==> pages@[i] == i + 1,
            decreases page_count - page,
        {
            page += 1;
            pages.push(page);
        }
        assert(pages@ =~= catalogue_pages_spec(page_count as int));
        pages
    }

    /// The number that the link `element` gives for the last page of the
    /// catalogue.
    pub fn page_count_in(element: &Element) -> (r: Result<i32, ParseError>)
        ensures
            r == page_count_in_spec(element@),
    {
        let target = target_of(element)?;
        match parse_digits(target) {
            Some(count) => Ok(count),
            None => Err(ParseError::Number),
        }
    }

    /// The chapter of `manga` at `url` with the title `title`.
    pub fn chapter_of(manga: &Manga, url: &Url, title: String) -> (r: Chapter)
        ensures
            r@ == chapter_of_spec(manga@, url@, title@),
    {
        Chapter {
            url: url.as_str().to_owned(),
            title,
            connector: Connectors::Manganel,
            manga: manga.clone(),
        }
    }

    /// The catalogue entries that `elements` stand for, in their order;
    /// the error of the first element that stands for none.
    pub fn entries_from(elements: &Vec<Element>) -> (r: Result<Vec<MangaEntry>, ParseError>)
        ensures
            match r {
                Ok(list) => entries_from_spec(element_views(elements@)) == Ok::<
                    Seq<MangaEntryView>,
                    ParseError,
                >(entry_views(list@)),
                Err(e) => entries_from_spec(element_views(elements@)) == Err::<
                    Seq<MangaEntryView>,
                    ParseError,
                >(e),
            },
    {
        let ghost views = element_views(elements@);
        let ghost items = Seq::new(views.len(), |i: int| entry_spec(views[i]));
        let mut list: Vec<MangaEntry> = Vec::new();
        let mut i: usize = 0;
        assert(items.take(0) =~= Seq::empty());
        assert(entry_views(list@) =~= Seq::empty());
        while i < elements.len()
            invariant
                i <= elements.len(),
                views == element_views(elements@),
                items == Seq::new(views.len(), |i: int| entry_spec(views[i])),
                collected(items.take(i as int)) == Ok::<Seq<MangaEntryView>, ParseError>(
                    entry_views(list@),
                ),
            decreases elements.len() - i,
        {
            let element = &elements[i];
            let ghost read = entry_views(list@);
            assert(items.take(i + 1).drop_last() =~= items.take(i as int));
            assert(items.take(i + 1).last() == entry_spec(element@));
            let found = match clean(MANGA_TITLE_FILTER, element.inner_html.as_str()) {
                Err(e) => Err(e),
                Ok(title) => match link(element) {
                    Err(e) => Err(e),
                    Ok(url) => Ok(MangaEntry { title, url }),
                },
            };
            match found {
                Ok(entry) => {
                    list.push(entry);
                    assert(entry_views(list@) =~= read.push(entry@));
                },
                Err(e) => {
                    proof {
                        lemma_collected_error_stays(items, i + 1, e);
                    }
                    return Err(e);
                },
            }
            i += 1;
        }
        assert(items.take(i as int) =~= items);
        Ok(list)
    }

    /// The chapters of `manga` that `elements` stand for, in their order;
    /// the error of the first element that stands for none.
    pub fn chapters_from(manga: &Manga, elements: &Vec<Element>) -> (r: Result<
        Vec<Chapter>,
        ParseError,
    >)
        ensures
            match r {
                Ok(list) => chapters_from_spec(manga@, element_views(elements@)) == Ok::<
                    Seq<ChapterView>,
                    ParseError,
                >(chapter_views(list@)),
                Err(e) => chapters_from_spec(manga@, element_views(elements@)) == Err::<
                    Seq<ChapterView>,
                    ParseError,
                >(e),
            },
            r matches Ok(list) ==> forall|k: int|
                0 <= k < list@.len() ==> (#[trigger] list@[k])@.manga == manga@,
    {
        let ghost views = element_views(elements@);
        let ghost items = Seq::new(views.len(), |i: int| chapter_spec(manga@, views[i]));
        let mut list: Vec<Chapter> = Vec::new();
        let mut i: usize = 0;
        assert(items.take(0) =~= Seq::empty());
        assert(chapter_views(list@) =~= Seq::empty());
        while i < elements.len()
            invariant
                i <= elements.len(),
                views == element_views(elements@),
                items == Seq::new(views.len(), |i: int| chapter_spec(manga@, views[i])),
                collected(items.take(i as int)) == Ok::<Seq<ChapterView>, ParseError>(
                    chapter_views(list@),
                ),
                forall|k: int| 0 <= k < list@.len() ==> (#[trigger] list@[k])@.manga == manga@,
            decreases elements.len() - i,
        {
            let element = &elements[i];
            let ghost read = chapter_views(list@);
            assert(items.take(i + 1).drop_last() =~= items.take(i as int));
            assert(items.take(i + 1).last() == chapter_spec(manga@, element@));
            let found = match link(element) {
                Err(e) => Err(e),
                Ok(url) => {
                    let bare = remove_all(element.inner_html.as_str(), manga.title.as_str());
                    match clean(CHAPTER_TITLE_FILTER, bare.as_str()) {
                        Err(e) => Err(e),
                        Ok(title) => Ok(Self::chapter_of(manga, &url, title)),
                    }
                },
            };
            match found {
                Ok(chapter) => {
                    list.push(chapter);
                    assert(chapter_views(list@) =~= read.push(chapter@));
                },
                Err(e) => {
                    proof {
                        lemma_collected_error_stays(items, i + 1, e);
                    }
                    return Err(e);
                },
            }
            i += 1;
        }
        assert(items.take(i as int) =~= items);
        Ok(list)
    }

    /// The pages of `chapter` that `elements` stand for, in their order;
    /// the error of the first element that stands for none.
    pub fn pages_from(chapter: &Chapter, elements: &Vec<Element>) -> (r: Result<
        Vec<Page>,
        ParseError,
    >)
        ensures
            match r {
                Ok(list) => pages_from_spec(chapter@, element_views(elements@)) == Ok::<
                    Seq<PageView>,
                    ParseError,
                >(page_views(list@)),
                Err(e) => pages_from_spec(chapter@, element_views(elements@)) == Err::<
                    Seq<PageView>,
                    ParseError,
                >(e),
            },
            r matches Ok(list) ==> forall|k: int|
                0 <= k < list@.len() ==> (#[trigger] list@[k])@.referer == chapter@.url,
    {
        let ghost views = element_views(elements@);
        let ghost items = Seq::new(views.len(), |i: int| page_spec(chapter@, views[i]));
        let mut list: Vec<Page> = Vec::new();
        let mut i: usize = 0;
        assert(items.take(0) =~= Seq::empty());
        assert(page_views(list@) =~= Seq::empty());
        while i < elements.len()
            invariant
                i <= elements.len(),
                views == element_views(elements@),
                items == Seq::new(views.len(), |i: int| page_spec(chapter@, views[i])),
                collected(items.take(i as int)) == Ok::<Seq<PageView>, ParseError>(
                    page_views(list@),
                ),
                forall|k: int| 0 <= k < list@.len() ==> (#[trigger] list@[k])@.referer == chapter@.url,
            decreases elements.len() - i,
        {
            let element = &elements[i];
            let ghost read = page_views(list@);
            assert(items.take(i + 1).drop_last() =~= items.take(i as int));
            assert(items.take(i + 1).last() == page_spec(chapter@, element@));
            match target_of(element) {
                Ok(source) => {
                    let page = Page {
                        url: source.to_owned(),
                        referer: chapter.url.clone(),
                        connector: Connectors::Manganel,
                    };
                    list.push(page);
                    assert(page_views(list@) =~= read.push(page@));
                },
                Err(e) => {
                    proof {
                        lemma_collected_error_stays(items, i + 1, e);
                    }
                    return Err(e);
                },
            }
            i += 1;
        }
        assert(items.take(i as int) =~= items);
        Ok(list)
    }
}

impl Connector for Manganel {
    fn get_connector_info(&self) -> (r: ConnectorInfo)
        ensures
            r.same(&self.info()),
            is_manganel(r),
    {
        proof {
            use_type_invariant(self);
        }
        self.info.clone()
    }

    fn can_handle_uri(&self, uri: &Url) -> (r: bool)
        ensures
            r == handles(uri@.domain),
    {
        match uri.domain() {
            Some(domain) => occurs(DOMAIN_PATTERN, domain),
            None => false,
        }
    }

    fn get_manga_from_url(&self, manga_url: &Url, document: &str, icon_document: &str) -> (r:
        Result<Manga, ParseError>)
        ensures
            match r {
                Ok(manga) => manga_spec(manga_url@, document@, icon_document@) == Ok::<
                    MangaView,
                    ParseError,
                >(manga@),
                Err(e) => manga_spec(manga_url@, document@, icon_document@) == Err::<
                    MangaView,
                    ParseError,
                >(e),
            },
    {
        let title = self.get_manga_title(document)?;
        let icon = self.get_manga_icon(icon_document)?;
        Ok(
            Manga {
                url: manga_url.as_str().to_owned(),
                title,
                icon_url: icon.as_str().to_owned(),
                connector: Connectors::Manganel,
            },
        )
    }

    fn get_manga_icon(&self, document: &str) -> (r: Result<Url, ParseError>)
        ensures
            match r {
                Ok(url) => manga_icon_spec(document@) == Ok::<UrlView, ParseError>(url@),
                Err(e) => manga_icon_spec(document@) == Err::<UrlView, ParseError>(e),
            },
    {
        proof {
            use_type_invariant(self);
        }
        let element = select_last(document, self.info.query_icon, SRC)?;
        link(&element)
    }

    fn get_mangas_uri(&self, page: i32) -> (r: Result<Url, ParseError>)
        ensures
            match r {
                Ok(url) => mangas_uri_spec(page as int) == Ok::<UrlView, ParseError>(url@),
                Err(e) => mangas_uri_spec(page as int) == Err::<UrlView, ParseError>(e),
            },
    {
        proof {
            use_type_invariant(self);
        }
        let path = Self::catalogue_path(page);
        address(Url::join(self.info.url, path.as_str()))
    }

    fn get_mangas_page_count(&self, document: &str) -> (r: Result<i32, ParseError>)
        ensures
            r == mangas_page_count_spec(document@),
    {
        proof {
            use_type_invariant(self);
        }
        let element = select_last(document, self.info.query_mangas_page_count, HREF)?;
        Self::page_count_in(&element)
    }

    fn get_mangas_from_page(&self, document: &str) -> (r: Result<Vec<MangaEntry>, ParseError>)
        ensures
            match r {
                Ok(list) => mangas_from_page_spec(document@) == Ok::<
                    Seq<MangaEntryView>,
                    ParseError,
                >(entry_views(list@)),
                Err(e) => mangas_from_page_spec(document@) == Err::<
                    Seq<MangaEntryView>,
                    ParseError,
                >(e),
            },
    {
        proof {
            use_type_invariant(self);
        }
        let elements = select_all(document, self.info.query_mangas, HREF)?;
        Self::entries_from(&elements)
    }

    fn get_chapters(&self, manga: &Manga, document: &str) -> (r: Result<Vec<Chapter>, ParseError>)
        ensures
            match r {
                Ok(list) => chapters_spec(manga@, document@) == Ok::<Seq<ChapterView>, ParseError>(
                    chapter_views(list@),
                ),
                Err(e) => chapters_spec(manga@, document@) == Err::<Seq<ChapterView>, ParseError>(
                    e,
                ),
            },
    {
        proof {
            use_type_invariant(self);
        }
        let elements = select_all(document, self.info.query_chapters, HREF)?;
        Self::chapters_from(manga, &elements)
    }

    fn get_pages(&self, chapter: &Chapter, document: &str) -> (r: Result<Vec<Page>, ParseError>)
        ensures
            match r {
                Ok(list) => pages_spec(chapter@, document@) == Ok::<Seq<PageView>, ParseError>(
                    page_views(list@),
                ),
                Err(e) => pages_spec(chapter@, document@) == Err::<Seq<PageView>, ParseError>(e),
            },
    {
        proof {
            use_type_invariant(self);
        }
        let elements = select_all(document, self.info.query_pages, SRC)?;
        Self::pages_from(chapter, &elements)
    }
}

} // verus!
