use super::progress::{Fraction, Progress};
use crate::entity::{Chapter, ChapterView};
use vstd::prelude::*;

verus! {

/// A chapter that is to be downloaded, and how far its download has come.
#[derive(Debug)]
pub struct DownloadJob {
    pub chapter: Chapter,
    pub progress: Progress,
}

/// What a [`DownloadJob`] holds, as plain mathematical values.
pub struct DownloadJobView {
    pub chapter: ChapterView,
    pub progress: Fraction,
}

impl View for DownloadJob {
    type V = DownloadJobView;

    open spec fn view(&self) -> DownloadJobView {
        DownloadJobView { chapter: self.chapter@, progress: self.progress@ }
    }
}

impl DownloadJob {
    /// A job for `chapter` of which nothing has arrived yet.
    pub fn new(chapter: Chapter) -> (r: Self)
        ensures
            r@ == (DownloadJobView {
                chapter: chapter@,
                progress: Fraction { done: 0, whole: 1 },
            }),
    {
        DownloadJob { chapter, progress: Progress::new() }
    }

    /// A job for `chapter` that has come as far as `progress`.
    pub fn with_progress(chapter: Chapter, progress: Progress) -> (r: Self)
        ensures
            r@ == (DownloadJobView { chapter: chapter@, progress: progress@ }),
    {
        DownloadJob { chapter, progress }
    }
}

impl Clone for DownloadJob {
    fn clone(&self) -> (r: Self)
        ensures
            r@ == self@,
    {
        DownloadJob { chapter: self.chapter.clone(), progress: self.progress }
    }
}

} // verus!
