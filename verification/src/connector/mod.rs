//! The connectors: what a source site must offer, and how the entities of
//! a catalogue are read out of its pages.

pub mod html;
pub mod manganel;
pub mod pattern;
pub mod protocol;
pub mod registry;
pub mod url;

pub use html::{Element, ElementView};
pub use manganel::Manganel;
pub use protocol::{collected, Connector, ConnectorInfo, MangaEntry, MangaEntryView, ParseError};
pub use url::{Url, UrlView};
