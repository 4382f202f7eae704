use mangetsu::delegate::{after_download, command_download, Command, Effect, Handled};
use mangetsu::download::{DownloadJob, DownloadQueue, Progress};
use mangetsu::entity::{Chapter, Connectors, Manga};
use mangetsu::nav::Nav;

fn manga(name: &str) -> Manga {
    Manga {
        url: format!("https://manganato.com/{}", name),
        title: name.to_string(),
        icon_url: format!("https://img/{}.jpg", name),
        connector: Connectors::Manganel,
    }
}

fn chapter(manga_name: &str, number: u32) -> Chapter {
    Chapter {
        url: format!("https://manganato.com/{}/chapter-{}", manga_name, number),
        title: format!("Chapter {}", number),
        connector: Connectors::Manganel,
        manga: manga(manga_name),
    }
}

fn urls(jobs: &[DownloadJob]) -> Vec<String> {
    jobs.iter().map(|job| job.chapter.url.clone()).collect()
}

#[test]
fn enqueue_keeps_the_order_of_arrival() {
    let mut queue = DownloadQueue::new();
    assert!(queue.is_empty());
    assert!(queue.enqueue(chapter("m", 1)));
    for number in 2..=5 {
        assert!(!queue.enqueue(chapter("m", number)));
    }
    assert_eq!(queue.len(), 1);
    let jobs = queue.jobs_of("https://manganato.com/m");
    assert_eq!(jobs.len(), 5);
    assert_eq!(
        urls(&jobs),
        (1..=5).map(|n| format!("https://manganato.com/m/chapter-{}", n)).collect::<Vec<_>>()
    );
    for job in &jobs {
        assert_eq!(job.progress.numerator(), 0);
    }
}

#[test]
fn pop_takes_from_the_head_and_the_last_pop_removes_the_queue() {
    let mut queue = DownloadQueue::new();
    queue.enqueue(chapter("m", 1));
    queue.enqueue(chapter("m", 2));
    queue.enqueue(chapter("m", 3));
    assert!(queue.pop());
    assert_eq!(
        urls(&queue.jobs_of("https://manganato.com/m")),
        vec![
            "https://manganato.com/m/chapter-2".to_string(),
            "https://manganato.com/m/chapter-3".to_string()
        ]
    );
    assert!(queue.pop());
    assert!(queue.pop());
    assert!(queue.is_empty());
    assert_eq!(queue.len(), 0);
    assert!(queue.jobs_of("https://manganato.com/m").is_empty());
    assert!(!queue.pop());
    assert!(queue.first().is_none());
}

#[test]
fn queues_are_taken_in_the_order_of_their_first_job() {
    let mut queue = DownloadQueue::new();
    assert!(queue.enqueue(chapter("a", 1)));
    assert!(queue.enqueue(chapter("b", 1)));
    assert!(!queue.enqueue(chapter("a", 2)));
    assert_eq!(queue.len(), 2);
    assert_eq!(queue.manga_at(0), Some("https://manganato.com/a".to_string()));
    assert_eq!(queue.manga_at(1), Some("https://manganato.com/b".to_string()));
    assert_eq!(queue.manga_at(2), None);
    assert_eq!(queue.first().unwrap().chapter.url, "https://manganato.com/a/chapter-1");
    assert!(queue.pop());
    assert_eq!(queue.first().unwrap().chapter.url, "https://manganato.com/a/chapter-2");
    assert!(queue.pop());
    assert_eq!(queue.len(), 1);
    assert_eq!(queue.manga_at(0), Some("https://manganato.com/b".to_string()));
    assert_eq!(queue.first().unwrap().chapter.url, "https://manganato.com/b/chapter-1");
}

#[test]
fn progress_of_an_absent_chapter_changes_nothing() {
    let mut queue = DownloadQueue::new();
    queue.enqueue(chapter("a", 1));
    queue.enqueue(chapter("a", 2));
    queue.update_progress(&chapter("a", 9), Progress::from_parts(1, 2).unwrap());
    queue.update_progress(&chapter("b", 1), Progress::from_parts(1, 2).unwrap());
    let jobs = queue.jobs_of("https://manganato.com/a");
    assert_eq!(jobs.len(), 2);
    assert_eq!(jobs[0].progress.numerator(), 0);
    assert_eq!(jobs[1].progress.numerator(), 0);
    assert_eq!(queue.len(), 1);
    let mut empty = DownloadQueue::new();
    empty.update_progress(&chapter("a", 1), Progress::from_parts(1, 2).unwrap());
    assert!(empty.is_empty());
}

#[test]
fn progress_replaces_the_job_in_place() {
    let mut queue = DownloadQueue::new();
    queue.enqueue(chapter("a", 1));
    queue.enqueue(chapter("a", 2));
    queue.enqueue(chapter("b", 1));
    let mut renamed = chapter("a", 2);
    renamed.title = "Another title".to_string();
    queue.update_progress(&renamed, Progress::from_parts(3, 4).unwrap());
    let jobs = queue.jobs_of("https://manganato.com/a");
    assert_eq!(jobs.len(), 2);
    assert_eq!(jobs[0].progress.numerator(), 0);
    assert_eq!((jobs[1].progress.numerator(), jobs[1].progress.denominator()), (3, 4));
    assert_eq!(jobs[1].chapter.title, "Chapter 2");
    assert_eq!(queue.manga_at(0), Some("https://manganato.com/a".to_string()));
    assert_eq!(queue.jobs_of("https://manganato.com/b").len(), 1);
}

#[test]
fn two_chapters_of_one_manga_are_downloaded_one_after_the_other() {
    let mut queue = DownloadQueue::new();
    let a = chapter("m", 1);
    let b = chapter("m", 2);
    let (handled, effect) = command_download(&mut queue, Command::DownloadChapter(a.clone()));
    assert_eq!(handled, Handled::Yes);
    assert!(matches!(effect, Effect::SubmitStart));
    let (_, effect) = command_download(&mut queue, Command::DownloadChapter(b.clone()));
    assert!(matches!(effect, Effect::Nothing));
    assert_eq!(urls(&queue.jobs_of(&a.manga.url)), vec![a.url.clone(), b.url.clone()]);

    let (_, effect) = command_download(&mut queue, Command::StartDownload);
    match effect {
        Effect::Launch(job) => assert_eq!(job.chapter.url, a.url),
        _ => panic!("the first chapter is to be launched"),
    }
    let next = queue.complete();
    assert_eq!(urls(&queue.jobs_of(&a.manga.url)), vec![b.url.clone()]);
    assert_eq!(next.unwrap().chapter.url, b.url);
    let (_, effect) = command_download(&mut queue, Command::StartDownload);
    match effect {
        Effect::Launch(job) => assert_eq!(job.chapter.url, b.url),
        _ => panic!("the second chapter is to be launched"),
    }
    let (handled, _) = command_download(&mut queue, Command::PopQueue);
    assert_eq!(handled, Handled::Yes);
    assert!(queue.is_empty());
    assert!(queue.jobs_of(&a.manga.url).is_empty());
    let (_, effect) = command_download(&mut queue, Command::StartDownload);
    assert!(matches!(effect, Effect::Nothing));
}

#[test]
fn commands_that_do_not_concern_downloads_are_left_alone() {
    let mut queue = DownloadQueue::new();
    queue.enqueue(chapter("m", 1));
    let (handled, effect) = command_download(&mut queue, Command::Navigate(Nav::Home));
    assert_eq!(handled, Handled::No);
    assert!(matches!(effect, Effect::Nothing));
    let (handled, _) =
        command_download(&mut queue, Command::FetchMangaDetail("https://x".to_string()));
    assert_eq!(handled, Handled::No);
    assert_eq!(queue.len(), 1);
}

#[test]
fn progress_command_updates_the_job() {
    let mut queue = DownloadQueue::new();
    queue.enqueue(chapter("m", 1));
    let (handled, effect) = command_download(
        &mut queue,
        Command::UpdateDownloadProgress(chapter("m", 1), Progress::from_parts(1, 4).unwrap()),
    );
    assert_eq!(handled, Handled::Yes);
    assert!(matches!(effect, Effect::Nothing));
    let jobs = queue.jobs_of("https://manganato.com/m");
    assert_eq!((jobs[0].progress.numerator(), jobs[0].progress.denominator()), (1, 4));
}

#[test]
fn jobs_are_made_with_the_progress_given() {
    let job = DownloadJob::new(chapter("m", 1));
    assert_eq!((job.progress.numerator(), job.progress.denominator()), (0, 1));
    let job = DownloadJob::with_progress(chapter("m", 1), Progress::from_parts(2, 3).unwrap());
    assert_eq!((job.progress.numerator(), job.progress.denominator()), (2, 3));
    assert_eq!(job.chapter.title, "Chapter 1");
    let copy = job.clone();
    assert_eq!(copy.chapter.url, job.chapter.url);
    assert_eq!(copy.progress.numerator(), 2);
}

#[test]
fn a_finished_download_is_popped_and_the_next_is_started() {
    let commands = after_download(true);
    assert_eq!(commands.len(), 2);
    assert!(matches!(commands[0], Command::PopQueue));
    assert!(matches!(commands[1], Command::StartDownload));
    assert!(after_download(false).is_empty());

    let mut queue = DownloadQueue::new();
    queue.enqueue(chapter("m", 1));
    queue.enqueue(chapter("m", 2));
    let mut launched = Vec::new();
    for command in after_download(true) {
        if let (_, Effect::Launch(job)) = command_download(&mut queue, command) {
            launched.push(job.chapter.url);
        }
    }
    assert_eq!(launched, vec!["https://manganato.com/m/chapter-2".to_string()]);
    for command in after_download(false) {
        command_download(&mut queue, command);
    }
    assert_eq!(queue.jobs_of("https://manganato.com/m").len(), 1);
}
