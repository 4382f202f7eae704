use super::connectors::Connectors;
use vstd::prelude::*;

verus! {

/// One page image of a chapter: where it is, and the address to send as the
/// referer when fetching it.
#[derive(Debug)]
pub struct Page {
    pub url: String,
    pub referer: String,
    pub connector: Connectors,
}

/// What a [`Page`] holds, as plain mathematical values.
pub struct PageView {
    pub url: Seq<char>,
    pub referer: Seq<char>,
    pub connector: Connectors,
}

impl View for Page {
    type V = PageView;

    open spec fn view(&self) -> PageView {
        PageView { url: self.url@, referer: self.referer@, connector: self.connector }
    }
}

impl Clone for Page {
    fn clone(&self) -> (r: Self)
        ensures
            r@ == self@,
    {
        Page { url: self.url.clone(), referer: self.referer.clone(), connector: self.connector }
    }
}

} // verus!
