//! The value types shared by every other component: a manga, one of its
//! chapters, one page of a chapter, the tag of the source they came from,
//! and the error that fetching them can give.

pub mod chapter;
pub mod connectors;
pub mod error;
pub mod manga;
pub mod page;

pub use chapter::{Chapter, ChapterView};
pub use connectors::Connectors;
pub use error::{map_to_string, Error, ErrorView};
pub use manga::{Manga, MangaView};
pub use page::{Page, PageView};
