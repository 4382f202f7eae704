use mangetsu::bridge::{
    dispatch, BridgeCommand, BridgeError, Dispatch, Envelope, FutureBridge, Request, StreamBridge,
};
use mangetsu::config::Config;
use mangetsu::delegate::{image_format, image_key, image_source, ImageFormat, ImageSource};
use mangetsu::entity::{Connectors, Manga};
use mangetsu::lookup::MangaCache;
use mangetsu::nav::{compute_window_title, Nav};
use mangetsu::state::AppState;

fn manga(name: &str) -> Manga {
    Manga {
        url: format!("https://manganato.com/{}", name),
        title: format!("Title of {}", name),
        icon_url: format!("https://img/{}.jpg", name),
        connector: Connectors::Manganel,
    }
}

#[test]
fn an_envelope_gives_its_payload_once() {
    let mut envelope = Envelope::new(vec![1, 2, 3]);
    assert!(!envelope.is_consumed());
    assert_eq!(envelope.take(), Ok(vec![1, 2, 3]));
    assert!(envelope.is_consumed());
    assert_eq!(envelope.take(), Err(BridgeError::Consumed));
    assert_eq!(envelope.take(), Err(BridgeError::Consumed));
}

#[test]
fn a_future_bridge_asks_once_and_takes_one_answer() {
    let mut bridge = FutureBridge::new(7);
    assert_eq!(bridge.on_added(), Ok(Request { sender: 7 }));
    assert_eq!(bridge.on_added(), Err(BridgeError::AlreadyRequested));
    let mut answer = Envelope::new("done".to_string());
    assert_eq!(bridge.on_response(7, &mut answer), Ok("done".to_string()));
    assert_eq!(bridge.on_response(7, &mut answer), Err(BridgeError::Consumed));
    let mut second = Envelope::new("again".to_string());
    assert_eq!(bridge.on_response(7, &mut second), Err(BridgeError::AlreadyDelivered));
    assert!(second.is_consumed());
}

#[test]
fn an_answer_for_another_node_is_left_unopened() {
    let mut bridge = FutureBridge::new(7);
    let mut answer = Envelope::new(5);
    assert_eq!(bridge.on_response(8, &mut answer), Err(BridgeError::NotAddressed));
    assert!(!answer.is_consumed());
    assert!(!bridge.delivered);
    assert_eq!(bridge.on_response(7, &mut answer), Ok(5));
    let mut stream = StreamBridge::new(1);
    let mut item = Envelope::new(5);
    assert_eq!(stream.on_response(2, &mut item), Err(BridgeError::NotAddressed));
    assert!(!item.is_consumed());
    assert_eq!(stream.delivered, 0);
}

#[test]
fn a_stream_bridge_takes_every_item_in_order() {
    let mut bridge = StreamBridge::new(3);
    assert_eq!(bridge.on_added(), Ok(Request { sender: 3 }));
    assert_eq!(bridge.on_added(), Err(BridgeError::AlreadyRequested));
    let mut taken = Vec::new();
    for item in ["a", "b", "c"] {
        let mut envelope = Envelope::new(item);
        taken.push(bridge.on_response(3, &mut envelope).unwrap());
        assert_eq!(bridge.on_response(3, &mut envelope), Err(BridgeError::Consumed));
    }
    assert_eq!(taken, vec!["a", "b", "c"]);
    assert_eq!(bridge.delivered, 3);
}

#[test]
fn commands_are_dispatched_to_their_tasks() {
    assert_eq!(dispatch(BridgeCommand::SpawnFuture, true), Dispatch::Futures);
    assert_eq!(dispatch(BridgeCommand::SpawnFuture, false), Dispatch::Futures);
    assert_eq!(dispatch(BridgeCommand::SpawnStream, false), Dispatch::Streams);
    assert_eq!(dispatch(BridgeCommand::Other, true), Dispatch::Inner);
    assert_eq!(dispatch(BridgeCommand::Other, false), Dispatch::Unhandled);
}

#[test]
fn images_come_from_the_nearest_place() {
    assert_eq!(image_source(true, true), ImageSource::Memory);
    assert_eq!(image_source(true, false), ImageSource::Memory);
    assert_eq!(image_source(false, true), ImageSource::Disk);
    assert_eq!(image_source(false, false), ImageSource::Network);
}

#[test]
fn images_are_cached_under_their_file_name() {
    assert_eq!(image_key("https://avt.example.com/covers/aa1.jpg"), Some("aa1.jpg".to_string()));
    assert_eq!(image_key("aa1.jpg"), Some("aa1.jpg".to_string()));
    assert_eq!(image_key("https://avt.example.com/covers/"), Some("covers".to_string()));
    assert_eq!(image_key("https://avt.example.com/covers/.."), None);
    assert_eq!(image_key(""), None);
}

#[test]
fn image_format_follows_the_content_type() {
    assert_eq!(image_format(Some("image/jpeg")), Some(ImageFormat::Jpeg));
    assert_eq!(image_format(Some("image/png")), Some(ImageFormat::Png));
    assert_eq!(image_format(Some("image/webp")), None);
    assert_eq!(image_format(Some("IMAGE/PNG")), None);
    assert_eq!(image_format(None), None);
}

#[test]
fn the_cache_lets_go_of_the_manga_used_longest_ago() {
    let mut cache = MangaCache::new(2);
    cache.store(manga("a"));
    cache.store(manga("b"));
    assert_eq!(cache.len(), 2);
    assert_eq!(cache.lookup("https://manganato.com/a").unwrap().title, "Title of a");
    cache.store(manga("c"));
    assert_eq!(cache.len(), 2);
    assert!(cache.lookup("https://manganato.com/b").is_none());
    assert!(cache.lookup("https://manganato.com/a").is_some());
    assert!(cache.lookup("https://manganato.com/c").is_some());
}

#[test]
fn storing_again_replaces_the_manga() {
    let mut cache = MangaCache::new(2);
    cache.store(manga("a"));
    cache.store(manga("b"));
    let mut changed = manga("a");
    changed.title = "New title".to_string();
    cache.store(changed);
    assert_eq!(cache.len(), 2);
    assert_eq!(cache.lookup("https://manganato.com/a").unwrap().title, "New title");
    cache.store(manga("c"));
    assert!(cache.lookup("https://manganato.com/b").is_none());
    let mut none = MangaCache::new(0);
    none.store(manga("a"));
    assert_eq!(none.len(), 0);
    assert!(none.lookup("https://manganato.com/a").is_none());
}

#[test]
fn routes_have_titles() {
    let mut cache = MangaCache::new(4);
    cache.store(manga("a"));
    assert_eq!(Nav::Home.title(&mut cache), "Home");
    assert_eq!(Nav::Downloads.title(&mut cache), "Downloads");
    let known = Nav::MangaPage("https://manganato.com/a".to_string());
    let unknown = Nav::MangaPage("https://manganato.com/z".to_string());
    assert_eq!(known.title(&mut cache), "Title of a");
    assert_eq!(unknown.title(&mut cache), "Manga Not Found");
    assert_eq!(Nav::Home.full_title(&mut cache), "Home");
    assert_eq!(Nav::Downloads.full_title(&mut cache), "Downloads");
    assert_eq!(known.full_title(&mut cache), "Manga - Title of a - Manganato");
    assert_eq!(unknown.full_title(&mut cache), "Manga Not Found");
    assert_eq!(compute_window_title(&Nav::Home, &mut cache), "Mangetsu - [Home]");
    assert_eq!(
        compute_window_title(&known, &mut cache),
        "Mangetsu - [Manga - Title of a - Manganato]"
    );
}

#[test]
fn routes_are_compared_by_place() {
    assert!(Nav::Home.same(&Nav::Home));
    assert!(!Nav::Home.same(&Nav::Downloads));
    assert!(Nav::MangaPage("x".to_string()).same(&Nav::MangaPage("x".to_string())));
    assert!(!Nav::MangaPage("x".to_string()).same(&Nav::MangaPage("y".to_string())));
    assert!(Nav::MangaPage("x".to_string()).clone().same(&Nav::MangaPage("x".to_string())));
}

#[test]
fn navigating_changes_the_route_and_remembers_it() {
    let mut state = AppState::new(Config::default());
    assert!(state.route.same(&Nav::Home));
    assert!(state.manga_detail.is_none());
    assert!(state.download_queue.is_empty());
    assert!(!state.navigate(&Nav::Home));
    assert!(state.config.last_route.is_none());
    assert!(state.navigate(&Nav::Downloads));
    assert!(state.route.same(&Nav::Downloads));
    assert!(state.config.last_route.as_ref().unwrap().same(&Nav::Downloads));
    assert!(!state.navigate(&Nav::Downloads));
}

#[test]
fn a_manga_page_shows_a_known_manga_or_asks_for_it() {
    let mut state = AppState::new(Config::default());
    state.manga_cache.store(manga("a"));
    state.mangas.push(manga("b"));
    state.navigate(&Nav::MangaPage("https://manganato.com/a".to_string()));
    assert_eq!(state.load_route_data(), None);
    let detail = state.manga_detail.as_ref().unwrap();
    assert_eq!(detail.manga.title, "Title of a");
    assert_eq!((detail.start, detail.end), (1, 1));
    assert!(detail.chapters.is_empty());
    assert!(state.mangas.is_empty());

    state.navigate(&Nav::MangaPage("https://manganato.com/z".to_string()));
    assert_eq!(state.load_route_data(), Some("https://manganato.com/z".to_string()));
    assert_eq!(state.manga_detail.as_ref().unwrap().manga.title, "Title of a");

    state.mangas.push(manga("b"));
    state.navigate(&Nav::Home);
    assert_eq!(state.load_route_data(), None);
    assert!(state.mangas.is_empty());
}
