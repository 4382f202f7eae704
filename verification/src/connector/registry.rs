//! The connectors that there are, and the way from a tag or an address to
//! the connector that serves it.

use super::manganel::{chapter_views, chapters_spec, handles, page_views, pages_spec, Manganel};
use super::protocol::{Connector, ParseError};
use super::url::Url;
use crate::entity::{Chapter, ChapterView, Connectors, Manga, Page, PageView};
use vstd::prelude::*;

verus! {

impl Connectors {
    /// The connector that serves addresses with this domain, if one does.
    pub open spec fn serving(domain: Option<Seq<char>>) -> Option<Connectors> {
        if handles(domain) {
            Some(Connectors::Manganel)
        } else {
            None
        }
    }

    /// The connector to which `uri` belongs: the first, in the order in
    /// which the connectors are listed, that can handle it.
    pub fn for_uri(uri: &Url) -> (r: Option<Connectors>)
        ensures
            r == Connectors::serving(uri@.domain),
    {
        if Manganel::new().can_handle_uri(uri) {
            Some(Connectors::Manganel)
        } else {
            None
        }
    }
}

impl Manga {
    /// The chapters of the manga, read from its page `document` by the
    /// connector of its source, in the order of the selection.
    pub fn get_chapters(&self, document: &str) -> (r: Result<Vec<Chapter>, ParseError>)
        ensures
            match r {
                Ok(list) => chapters_spec(self@, document@) == Ok::<Seq<ChapterView>, ParseError>(
                    chapter_views(list@),
                ),
                Err(e) => chapters_spec(self@, document@) == Err::<Seq<ChapterView>, ParseError>(e),
            },
    {
        match self.connector {
            Connectors::Manganel => Manganel::new().get_chapters(self, document),
        }
    }
}

impl Chapter {
    /// The pages of the chapter, read from its page `document` by the
    /// connector of its source, in the order of the selection.
    pub fn get_pages(&self, document: &str) -> (r: Result<Vec<Page>, ParseError>)
        ensures
            match r {
                Ok(list) => pages_spec(self@, document@) == Ok::<Seq<PageView>, ParseError>(
                    page_views(list@),
                ),
                Err(e) => pages_spec(self@, document@) == Err::<Seq<PageView>, ParseError>(e),
            },
    {
        match self.connector {
            Connectors::Manganel => Manganel::new().get_pages(self, document),
        }
    }
}

} // verus!
