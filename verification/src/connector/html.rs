//! Reading elements out of an HTML document.

use super::protocol::ParseError;
use vstd::prelude::*;

verus! {

/// What the library reads of an element of a document: the markup inside
/// it, and the value of one attribute, where the element has it.
#[derive(Debug)]
pub struct Element {
    pub inner_html: String,
    pub attribute: Option<String>,
}

/// What an [`Element`] holds, as plain mathematical values.
pub struct ElementView {
    pub inner_html: Seq<char>,
    pub attribute: Option<Seq<char>>,
}

impl View for Element {
    type V = ElementView;

    open spec fn view(&self) -> ElementView {
        ElementView {
            inner_html: self.inner_html@,
            attribute: match self.attribute {
                Some(value) => Some(value@),
                None => None,
            },
        }
    }
}

/// The elements of `document` that `selector` matches, each with its
/// inner markup and its value of `attribute`; `None` where `selector` is
/// not a selector. They stand in the order in which the parser made them:
/// that of the document, but for content that the parser moves.
pub uninterp spec fn selected(document: Seq<char>, selector: Seq<char>, attribute: Seq<char>) -> Option<
    Seq<ElementView>,
>;

/// What an optional list of elements holds, as plain mathematical values.
pub open spec fn elements_view(elements: Option<Vec<Element>>) -> Option<Seq<ElementView>> {
    match elements {
        Some(list) => Some(element_views(list@)),
        None => None,
    }
}

/// `scraper::Html::select` on `document` parsed by
/// `scraper::Html::parse_document`, with `selector` parsed by
/// `scraper::Selector::parse`: for each element that it yields, in the
/// order in which it yields them, what `ElementRef::inner_html` and
/// `Element::attr` give. The contract only names that result: the same
/// three texts always give the same elements.
#[verifier::external_body]
fn select(document: &str, selector: &str, attribute: &str) -> (r: Option<Vec<Element>>)
    ensures
        elements_view(r) == selected(document@, selector@, attribute@),
{
    let selector = match scraper::Selector::parse(selector) {
        Ok(selector) => selector,
        Err(_) => return None,
    };
    let dom = scraper::Html::parse_document(document);
    let mut found = Vec::new();
    for element in dom.select(&selector) {
        found.push(Element {
            inner_html: element.inner_html(),
            attribute: element.value().attr(attribute).map(str::to_owned),
        });
    }
    Some(found)
}

/// The views of the elements of a list.
pub open spec fn element_views(elements: Seq<Element>) -> Seq<ElementView> {
    elements.map_values(|e: Element| e@)
}

/// What was selected, or the error that the selector is none.
pub open spec fn all_of_spec(found: Option<Seq<ElementView>>) -> Result<
    Seq<ElementView>,
    ParseError,
> {
    match found {
        Some(elements) => Ok(elements),
        None => Err(ParseError::Selector),
    }
}

/// The last of what was selected, or the error that says why there is
/// none: the selector is none, or nothing was selected.
pub open spec fn last_of_spec(found: Option<Seq<ElementView>>) -> Result<ElementView, ParseError> {
    match found {
        None => Err(ParseError::Selector),
        Some(elements) => if elements.len() == 0 {
            Err(ParseError::MissingElement)
        } else {
            Ok(elements.last())
        },
    }
}

/// The value of the attribute that was read from an element, or the error
/// that the element lacks it.
pub open spec fn target_of_spec(element: ElementView) -> Result<Seq<char>, ParseError> {
    match element.attribute {
        Some(value) => Ok(value),
        None => Err(ParseError::MissingAttribute),
    }
}

/// What a selection gave, as a result: the elements, or the error that
/// the selector is none.
pub fn all_of(found: Option<Vec<Element>>) -> (r: Result<Vec<Element>, ParseError>)
    ensures
        match r {
            Ok(elements) => all_of_spec(elements_view(found)) == Ok::<Seq<ElementView>, ParseError>(
                element_views(elements@),
            ),
            Err(e) => all_of_spec(elements_view(found)) == Err::<Seq<ElementView>, ParseError>(e),
        },
{
    match found {
        Some(elements) => Ok(elements),
        None => Err(ParseError::Selector),
    }
}

/// The last element of what a selection gave.
pub fn last_of(found: Option<Vec<Element>>) -> (r: Result<Element, ParseError>)
    ensures
        match r {
            Ok(element) => last_of_spec(elements_view(found)) == Ok::<ElementView, ParseError>(
                element@,
            ),
            Err(e) => last_of_spec(elements_view(found)) == Err::<ElementView, ParseError>(e),
        },
{
    match found {
        None => Err(ParseError::Selector),
        Some(elements) => {
            let mut elements = elements;
            let ghost views = element_views(elements@);
            match elements.pop() {
                Some(element) => {
                    assert(views.last() == element@);
                    Ok(element)
                },
                None => Err(ParseError::MissingElement),
            }
        },
    }
}

/// The value of the attribute that was read from `element`.
pub fn target_of(element: &Element) -> (r: Result<&str, ParseError>)
    ensures
        match r {
            Ok(value) => target_of_spec(element@) == Ok::<Seq<char>, ParseError>(value@),
            Err(e) => target_of_spec(element@) == Err::<Seq<char>, ParseError>(e),
        },
{
    match &element.attribute {
        Some(value) => Ok(value.as_str()),
        None => Err(ParseError::MissingAttribute),
    }
}

/// The elements of `document` that `selector` matches, in the order of
/// the selection, each with its value of `attribute`.
pub fn select_all(document: &str, selector: &str, attribute: &str) -> (r: Result<
    Vec<Element>,
    ParseError,
>)
    ensures
        match r {
            Ok(elements) => all_of_spec(selected(document@, selector@, attribute@)) == Ok::<
                Seq<ElementView>,
                ParseError,
            >(element_views(elements@)),
            Err(e) => all_of_spec(selected(document@, selector@, attribute@)) == Err::<
                Seq<ElementView>,
                ParseError,
            >(e),
        },
{
    all_of(select(document, selector, attribute))
}

/// The last of the elements of `document` that `selector` matches, with
/// its value of `attribute`.
pub fn select_last(document: &str, selector: &str, attribute: &str) -> (r: Result<
    Element,
    ParseError,
>)
    ensures
        match r {
            Ok(element) => last_of_spec(selected(document@, selector@, attribute@)) == Ok::<
                ElementView,
                ParseError,
            >(element@),
            Err(e) => last_of_spec(selected(document@, selector@, attribute@)) == Err::<
                ElementView,
                ParseError,
            >(e),
        },
{
    last_of(select(document, selector, attribute))
}

} // verus!
