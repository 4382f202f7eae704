//! What the application does on a command: the commands that concern
//! downloads, and the choices made when an image is asked for.

use crate::download::queue::{enqueued, head, popped, position, progressed, Queues};
use crate::download::{DownloadJob, DownloadJobView, DownloadQueue, Fraction, Progress};
use crate::entity::{Chapter, ChapterView};
use crate::nav::{Nav, NavView};
use crate::text::{file_name, file_name_spec, option_view, str_eq};
use vstd::prelude::*;

verus! {

/// The one-way messages between the components.
#[derive(Debug)]
pub enum Command {
    Navigate(Nav),
    DownloadChapter(Chapter),
    UpdateDownloadProgress(Chapter, Progress),
    StartDownload,
    PopQueue,
    FetchMangaDetail(String),
}

/// A [`Command`] as plain mathematical values.
pub enum CommandView {
    Navigate(NavView),
    DownloadChapter(ChapterView),
    UpdateDownloadProgress(ChapterView, Fraction),
    StartDownload,
    PopQueue,
    FetchMangaDetail(Seq<char>),
}

impl View for Command {
    type V = CommandView;

    open spec fn view(&self) -> CommandView {
        match self {
            Command::Navigate(nav) => CommandView::Navigate(nav@),
            Command::DownloadChapter(chapter) => CommandView::DownloadChapter(chapter@),
            Command::UpdateDownloadProgress(chapter, progress) => CommandView::UpdateDownloadProgress(
                chapter@,
                progress@,
            ),
            Command::StartDownload => CommandView::StartDownload,
            Command::PopQueue => CommandView::PopQueue,
            Command::FetchMangaDetail(url) => CommandView::FetchMangaDetail(url@),
        }
    }
}

/// Whether a command was dealt with.
#[derive(Copy, Clone, Debug, PartialEq, Eq, Structural)]
pub enum Handled {
    Yes,
    No,
}

/// What is to be done after a command about downloads.
#[derive(Debug)]
pub enum Effect {
    /// Nothing.
    Nothing,
    /// The command to start downloading is to be sent.
    SubmitStart,
    /// The download of this job is to be launched.
    Launch(DownloadJob),
}

/// An [`Effect`] as plain mathematical values.
pub enum EffectView {
    Nothing,
    SubmitStart,
    Launch(DownloadJobView),
}

impl View for Effect {
    type V = EffectView;

    open spec fn view(&self) -> EffectView {
        match self {
            Effect::Nothing => EffectView::Nothing,
            Effect::SubmitStart => EffectView::SubmitStart,
            Effect::Launch(job) => EffectView::Launch(job@),
        }
    }
}

/// Whether a command concerns downloads.
pub open spec fn concerns_downloads(command: CommandView) -> bool {
    command is DownloadChapter || command is UpdateDownloadProgress || command is StartDownload
        || command is PopQueue
}

/// The queues after a command: a chapter to download joins them, a
/// popped queue loses its head, progress is recorded, and every other
/// command leaves them as they are.
pub open spec fn queues_after(queues: Queues, command: CommandView) -> Queues {
    match command {
        CommandView::DownloadChapter(chapter) => enqueued(
            queues,
            DownloadJobView { chapter, progress: Fraction { done: 0, whole: 1 } },
        ),
        CommandView::PopQueue => popped(queues),
        CommandView::UpdateDownloadProgress(chapter, progress) => progressed(
            queues,
            chapter,
            progress,
        ),
        _ => queues,
    }
}

/// What is to be done after a command: after a chapter has joined a
/// manga that had no queue, downloading is to be started; on the command
/// to start, the head job of the first queue is to be launched, where
/// there is one.
pub open spec fn effect_after(queues: Queues, command: CommandView) -> EffectView {
    match command {
        CommandView::DownloadChapter(chapter) => if position(queues, chapter.manga.url) is None {
            EffectView::SubmitStart
        } else {
            EffectView::Nothing
        },
        CommandView::StartDownload => match head(queues) {
            Some(job) => EffectView::Launch(job),
            None => EffectView::Nothing,
        },
        _ => EffectView::Nothing,
    }
}

/// Deals with a command about downloads, and leaves every other command
/// alone.
pub fn command_download(queue: &mut DownloadQueue, command: Command) -> (r: (Handled, Effect))
    ensures
        final(queue)@ == queues_after(old(queue)@, command@),
        r.0 == if concerns_downloads(command@) {
            Handled::Yes
        } else {
            Handled::No
        },
        r.1@ == effect_after(old(queue)@, command@),
{
    match command {
        Command::DownloadChapter(chapter) => {
            if queue.enqueue(chapter) {
                (Handled::Yes, Effect::SubmitStart)
            } else {
                (Handled::Yes, Effect::Nothing)
            }
        },
        Command::StartDownload => {
            match queue.first() {
                Some(job) => (Handled::Yes, Effect::Launch(job)),
                None => (Handled::Yes, Effect::Nothing),
            }
        },
        Command::PopQueue => {
            queue.pop();
            (Handled::Yes, Effect::Nothing)
        },
        Command::UpdateDownloadProgress(chapter, progress) => {
            queue.update_progress(&chapter, progress);
            (Handled::Yes, Effect::Nothing)
        },
        Command::Navigate(_) => (Handled::No, Effect::Nothing),
        Command::FetchMangaDetail(_) => (Handled::No, Effect::Nothing),
    }
}

/// The commands that a list holds, as plain mathematical values.
pub open spec fn command_views(commands: Seq<Command>) -> Seq<CommandView> {
    commands.map_values(|command: Command| command@)
}

/// The commands that follow a download that has ended: after one that
/// succeeded, the job is popped and downloading is started again; after
/// one that failed, nothing follows.
pub open spec fn after_download_spec(succeeded: bool) -> Seq<CommandView> {
    if succeeded {
        seq![CommandView::PopQueue, CommandView::StartDownload]
    } else {
        Seq::empty()
    }
}

/// The commands to send once a download has ended, in the order in which
/// they are to be sent.
pub fn after_download(succeeded: bool) -> (r: Vec<Command>)
    ensures
        command_views(r@) == after_download_spec(succeeded),
{
    let mut commands: Vec<Command> = Vec::new();
    if succeeded {
        commands.push(Command::PopQueue);
        commands.push(Command::StartDownload);
    }
    assert(command_views(commands@) =~= after_download_spec(succeeded));
    commands
}

/// Where an image comes from.
#[derive(Copy, Clone, Debug, PartialEq, Eq, Structural)]
pub enum ImageSource {
    /// From the images kept in memory.
    Memory,
    /// From the cache on disk.
    Disk,
    /// From the network, after which it is put into the cache on disk.
    Network,
}

/// Chooses where an image comes from: from memory where it is there,
/// else from disk where it is there, else from the network.
pub fn image_source(in_memory: bool, on_disk: bool) -> (r: ImageSource)
    ensures
        r == if in_memory {
            ImageSource::Memory
        } else if on_disk {
            ImageSource::Disk
        } else {
            ImageSource::Network
        },
{
    if in_memory {
        ImageSource::Memory
    } else if on_disk {
        ImageSource::Disk
    } else {
        ImageSource::Network
    }
}

/// The key under which the image at `location` is cached: the file name
/// that the address ends with, where it ends with one.
pub open spec fn image_key_spec(location: Seq<char>) -> Option<Seq<char>> {
    file_name_spec(location)
}

/// The key under which the image at `location` is cached.
pub fn image_key(location: &str) -> (r: Option<String>)
    ensures
        option_view(r) == image_key_spec(location@),
{
    file_name(location)
}

/// The formats of images that are told by their content type.
#[derive(Copy, Clone, Debug, PartialEq, Eq, Structural)]
pub enum ImageFormat {
    Jpeg,
    Png,
}

/// The format that a content type names, if it names one.
pub open spec fn image_format_spec(content_type: Option<Seq<char>>) -> Option<ImageFormat> {
    match content_type {
        Some(name) => if name == "image/jpeg"@ {
            Some(ImageFormat::Jpeg)
        } else if name == "image/png"@ {
            Some(ImageFormat::Png)
        } else {
            None
        },
        None => None,
    }
}

/// The format to read an image in, told by the content type of the
/// response; `None` where the format is to be guessed from the bytes.
pub fn image_format(content_type: Option<&str>) -> (r: Option<ImageFormat>)
    ensures
        r == image_format_spec(
            match content_type {
                Some(name) => Some(name@),
                None => None,
            },
        ),
{
    match content_type {
        Some(name) => if str_eq(name, "image/jpeg") {
            Some(ImageFormat::Jpeg)
        } else if str_eq(name, "image/png") {
            Some(ImageFormat::Png)
        } else {
            None
        },
        None => None,
    }
}

} // verus!
