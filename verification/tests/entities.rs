use mangetsu::entity::{map_to_string, Chapter, Connectors, Error, Manga, Page};
use std::hash::Hasher;

fn manga(url: &str, title: &str, icon: &str) -> Manga {
    Manga {
        url: url.to_string(),
        title: title.to_string(),
        icon_url: icon.to_string(),
        connector: Connectors::Manganel,
    }
}

#[test]
fn mangas_with_the_same_url_are_equal() {
    let a = manga("https://manganato.com/manga-aa1", "One", "https://img/1.jpg");
    let b = manga("https://manganato.com/manga-aa1", "Two", "https://img/2.jpg");
    let c = manga("https://manganato.com/manga-bb2", "One", "https://img/1.jpg");
    assert!(a == b);
    assert!(b == a);
    assert!(a != c);
}

#[test]
fn chapters_with_the_same_url_are_equal() {
    let m = manga("https://manganato.com/manga-aa1", "One", "https://img/1.jpg");
    let n = manga("https://manganato.com/manga-bb2", "Two", "https://img/2.jpg");
    let a = Chapter {
        url: "https://manganato.com/manga-aa1/chapter-1".to_string(),
        title: "Chapter 1".to_string(),
        connector: Connectors::Manganel,
        manga: m.clone(),
    };
    let b = Chapter {
        url: "https://manganato.com/manga-aa1/chapter-1".to_string(),
        title: "Another title".to_string(),
        connector: Connectors::Manganel,
        manga: n,
    };
    let c = Chapter {
        url: "https://manganato.com/manga-aa1/chapter-2".to_string(),
        title: "Chapter 1".to_string(),
        connector: Connectors::Manganel,
        manga: m,
    };
    assert!(a == b);
    assert!(a != c);
}

#[test]
fn clones_keep_every_field() {
    let m = manga("https://manganato.com/manga-aa1", "One", "https://img/1.jpg");
    let copy = m.clone();
    assert_eq!(copy.url, "https://manganato.com/manga-aa1");
    assert_eq!(copy.title, "One");
    assert_eq!(copy.icon_url, "https://img/1.jpg");
    assert_eq!(copy.connector, Connectors::Manganel);
    let page = Page {
        url: "https://img/1.jpg".to_string(),
        referer: "https://manganato.com/manga-aa1/chapter-1".to_string(),
        connector: Connectors::Manganel,
    };
    let page_copy = page.clone();
    assert_eq!(page_copy.url, page.url);
    assert_eq!(page_copy.referer, page.referer);
}

#[test]
fn connector_label_is_its_display_name() {
    assert_eq!(Connectors::Manganel.label(), "Manganato");
    assert_eq!(Connectors::Manganel.to_string(), "Manganato");
}

#[test]
fn error_text_is_its_message() {
    assert_eq!(Error::RequestFail("timed out".to_string()).to_string(), "timed out");
    assert_eq!(Error::IoError("disk full".to_string()).to_string(), "disk full");
}

#[test]
fn errors_compare_by_variant_and_message() {
    assert_eq!(Error::IoError("x".to_string()), Error::IoError("x".to_string()));
    assert_ne!(Error::IoError("x".to_string()), Error::IoError("y".to_string()));
    assert_ne!(Error::IoError("x".to_string()), Error::RequestFail("x".to_string()));
    assert_eq!(Error::RequestFail("x".to_string()).clone(), Error::RequestFail("x".to_string()));
}

#[test]
fn map_to_string_builds_the_error_of_the_given_kind() {
    assert_eq!(
        map_to_string(Error::IoError, "no such file".to_string()),
        Error::IoError("no such file".to_string())
    );
    assert_eq!(
        map_to_string(Error::RequestFail, "refused".to_string()),
        Error::RequestFail("refused".to_string())
    );
}

fn hash_of<T: std::hash::Hash>(value: &T) -> u64 {
    let mut hasher = std::collections::hash_map::DefaultHasher::new();
    value.hash(&mut hasher);
    hasher.finish()
}

#[test]
fn hash_depends_on_the_url_alone() {
    let a = manga("https://manganato.com/manga-aa1", "One", "https://img/1.jpg");
    let b = manga("https://manganato.com/manga-aa1", "Two", "https://img/2.jpg");
    let c = manga("https://manganato.com/manga-bb2", "One", "https://img/1.jpg");
    assert_eq!(hash_of(&a), hash_of(&b));
    assert_ne!(hash_of(&a), hash_of(&c));
    let x = Chapter {
        url: "https://manganato.com/manga-aa1/chapter-1".to_string(),
        title: "Chapter 1".to_string(),
        connector: Connectors::Manganel,
        manga: a,
    };
    let y = Chapter {
        url: "https://manganato.com/manga-aa1/chapter-1".to_string(),
        title: "Other".to_string(),
        connector: Connectors::Manganel,
        manga: c,
    };
    assert_eq!(hash_of(&x), hash_of(&y));
    let mut set = std::collections::HashSet::new();
    set.insert(x);
    assert!(set.contains(&y));
}
