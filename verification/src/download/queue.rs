//! The waiting jobs: one queue per manga, the mangas in the order in which
//! their first job came, each queue in the order in which its jobs came.

use super::job::{DownloadJob, DownloadJobView};
use super::ordered::{
    entries, job_views, map_get_index, map_get_index_of, map_insert, map_len, map_new,
    map_shift_remove_index,
};
use super::progress::{Fraction, Progress};
use crate::entity::{Chapter, ChapterView};
use indexmap::IndexMap;
use vstd::prelude::*;

verus! {

/// The queues as a mathematical value: for each manga that has jobs, its
/// address and its jobs, first come first.
pub type Queues = Seq<(Seq<char>, Seq<DownloadJobView>)>;

/// The position of the queue of `manga`, if it has one.
pub open spec fn position(queues: Queues, manga: Seq<char>) -> Option<int>
    decreases queues.len(),
{
    if queues.len() == 0 {
        None
    } else if queues.last().0 == manga {
        Some(queues.len() - 1)
    } else {
        position(queues.drop_last(), manga)
    }
}

/// The position of the job for the chapter at `chapter_url`, if there is
/// one among `jobs`.
pub open spec fn job_position(jobs: Seq<DownloadJobView>, chapter_url: Seq<char>) -> Option<int>
    decreases jobs.len(),
{
    if jobs.len() == 0 {
        None
    } else if jobs.first().chapter.url == chapter_url {
        Some(0)
    } else {
        match job_position(jobs.drop_first(), chapter_url) {
            Some(i) => Some(i + 1),
            None => None,
        }
    }
}

/// What holds of the queues at all times: no manga has two queues, no
/// queue is empty, and each job waits in the queue of its chapter's manga.
pub open spec fn well_formed(queues: Queues) -> bool {
    &&& forall|i: int, j: int|
        0 <= i < j < queues.len() ==> (#[trigger] queues[i]).0 != (#[trigger] queues[j]).0
    &&& forall|i: int| 0 <= i < queues.len() ==> (#[trigger] queues[i]).1.len() > 0
    &&& forall|i: int, j: int|
        0 <= i < queues.len() && 0 <= j < queues[i].1.len() ==> (#[trigger] queues[i].1[j]).chapter.manga.url
            == queues[i].0
}

/// The queues after `job` has joined them: at the tail of the queue of its
/// chapter's manga, or, where that manga has none, as the only job of a
/// new queue behind all others.
pub open spec fn enqueued(queues: Queues, job: DownloadJobView) -> Queues {
    let manga = job.chapter.manga.url;
    match position(queues, manga) {
        Some(i) => queues.update(i, (manga, queues[i].1.push(job))),
        None => queues.push((manga, seq![job])),
    }
}

/// The queues after each of `jobs` has joined them, in order.
pub open spec fn enqueued_all(queues: Queues, jobs: Seq<DownloadJobView>) -> Queues
    decreases jobs.len(),
{
    if jobs.len() == 0 {
        queues
    } else {
        enqueued(enqueued_all(queues, jobs.drop_last()), jobs.last())
    }
}

/// The job that is to be downloaded now: the head of the first queue.
pub open spec fn head(queues: Queues) -> Option<DownloadJobView> {
    if queues.len() > 0 && queues[0].1.len() > 0 {
        Some(queues[0].1[0])
    } else {
        None
    }
}

/// The queues after the head of the first queue has left. A queue that
/// this empties leaves with it.
pub open spec fn popped(queues: Queues) -> Queues {
    if queues.len() == 0 {
        queues
    } else if queues[0].1.len() <= 1 {
        queues.remove(0)
    } else {
        queues.update(0, (queues[0].0, queues[0].1.drop_first()))
    }
}

/// The queues after `count` jobs have left from the front.
pub open spec fn popped_times(queues: Queues, count: nat) -> Queues
    decreases count,
{
    if count == 0 {
        queues
    } else {
        popped_times(popped(queues), (count - 1) as nat)
    }
}

/// The queues after the job for `chapter` has come as far as `progress`:
/// that job, found in the queue of the chapter's manga by the chapter's
/// address, keeps its place and its chapter and gets the new progress.
/// Where there is no such job, nothing changes.
pub open spec fn progressed(queues: Queues, chapter: ChapterView, progress: Fraction) -> Queues {
    match position(queues, chapter.manga.url) {
        Some(i) => match job_position(queues[i].1, chapter.url) {
            Some(j) => queues.update(
                i,
                (
                    queues[i].0,
                    queues[i].1.update(
                        j,
                        DownloadJobView { chapter: queues[i].1[j].chapter, progress },
                    ),
                ),
            ),
            None => queues,
        },
        None => queues,
    }
}

/// Whether a job for the chapter at `chapter_url` waits in the queue of
/// the manga at `manga_url`.
pub open spec fn holds_job(queues: Queues, manga_url: Seq<char>, chapter_url: Seq<char>) -> bool {
    match position(queues, manga_url) {
        Some(i) => job_position(queues[i].1, chapter_url) is Some,
        None => false,
    }
}

/// `position` finds a queue exactly where one has the key, and then it is
/// the last such.
pub proof fn lemma_position(queues: Queues, manga: Seq<char>)
    ensures
        match position(queues, manga) {
            Some(i) => 0 <= i < queues.len() && queues[i].0 == manga && forall|j: int|
                i < j < queues.len() ==> (#[trigger] queues[j]).0 != manga,
            None => forall|j: int| 0 <= j < queues.len() ==> (#[trigger] queues[j]).0 != manga,
        },
    decreases queues.len(),
{
    if queues.len() > 0 && queues.last().0 != manga {
        lemma_position(queues.drop_last(), manga);
        assert forall|j: int|
            position(queues, manga) is None && 0 <= j < queues.len() implies (#[trigger] queues[j]).0
            != manga by {
            if j < queues.len() - 1 {
                assert(queues.drop_last()[j] == queues[j]);
            }
        }
        if let Some(i) = position(queues, manga) {
            assert(queues.drop_last()[i] == queues[i]);
            assert forall|j: int| i < j < queues.len() implies (#[trigger] queues[j]).0
                != manga by {
                if j < queues.len() - 1 {
                    assert(queues.drop_last()[j] == queues[j]);
                }
            }
        }
    }
}

/// Where no manga has two queues, the queue with a given key is the one
/// that `position` finds.
pub proof fn lemma_position_unique(queues: Queues, manga: Seq<char>, i: int)
    requires
        well_formed(queues),
        0 <= i < queues.len(),
        queues[i].0 == manga,
    ensures
        position(queues, manga) == Some(i),
{
    lemma_position(queues, manga);
}

/// `job_position` finds a job exactly where one is for the chapter, and
/// then it is the first such.
pub proof fn lemma_job_position(jobs: Seq<DownloadJobView>, chapter_url: Seq<char>)
    ensures
        match job_position(jobs, chapter_url) {
            Some(j) => 0 <= j < jobs.len() && jobs[j].chapter.url == chapter_url && forall|k: int|
                0 <= k < j ==> (#[trigger] jobs[k]).chapter.url != chapter_url,
            None => forall|k: int|
                0 <= k < jobs.len() ==> (#[trigger] jobs[k]).chapter.url != chapter_url,
        },
    decreases jobs.len(),
{
    if jobs.len() > 0 && jobs.first().chapter.url != chapter_url {
        let rest = jobs.drop_first();
        lemma_job_position(rest, chapter_url);
        assert forall|k: int|
            job_position(jobs, chapter_url) is None && 0 <= k < jobs.len() implies (
        #[trigger] jobs[k]).chapter.url != chapter_url by {
            if k > 0 {
                assert(rest[k - 1] == jobs[k]);
            }
        }
        if let Some(j) = job_position(jobs, chapter_url) {
            assert(rest[j - 1] == jobs[j]);
            assert forall|k: int| 0 <= k < j implies (#[trigger] jobs[k]).chapter.url
                != chapter_url by {
                if k > 0 {
                    assert(rest[k - 1] == jobs[k]);
                }
            }
        }
    }
}

/// Joining, leaving and progress keep the queues well formed.
pub proof fn lemma_well_formed_kept(
    queues: Queues,
    job: DownloadJobView,
    chapter: ChapterView,
    progress: Fraction,
)
    requires
        well_formed(queues),
    ensures
        well_formed(enqueued(queues, job)),
        well_formed(popped(queues)),
        well_formed(progressed(queues, chapter, progress)),
{
    lemma_position(queues, job.chapter.manga.url);
    lemma_position(queues, chapter.manga.url);
    if let Some(i) = position(queues, chapter.manga.url) {
        lemma_job_position(queues[i].1, chapter.url);
    }
}

/// Jobs of one manga that join one after the other end up in one queue, in
/// the order in which they came: behind the jobs that the manga had
/// waiting, or, where it had none, as a new queue behind all others.
pub proof fn lemma_enqueue_in_order(queues: Queues, manga: Seq<char>, jobs: Seq<DownloadJobView>)
    requires
        well_formed(queues),
        jobs.len() > 0,
        forall|k: int| 0 <= k < jobs.len() ==> (#[trigger] jobs[k]).chapter.manga.url == manga,
    ensures
        well_formed(enqueued_all(queues, jobs)),
        enqueued_all(queues, jobs) == match position(queues, manga) {
            Some(i) => queues.update(i, (manga, queues[i].1 + jobs)),
            None => queues.push((manga, jobs)),
        },
        queues.len() == 0 ==> enqueued_all(queues, jobs) == seq![(manga, jobs)],
    decreases jobs.len(),
{
    lemma_position(queues, manga);
    let before = enqueued_all(queues, jobs.drop_last());
    let job = jobs.last();
    if jobs.len() == 1 {
        assert(jobs.drop_last().len() == 0);
        assert(before == queues);
        lemma_well_formed_kept(queues, job, job.chapter, job.progress);
        match position(queues, manga) {
            Some(i) => {
                assert(queues[i].1.push(job) =~= queues[i].1 + jobs);
            },
            None => {
                assert(seq![job] =~= jobs);
            },
        }
    } else {
        let earlier = jobs.drop_last();
        assert forall|k: int| 0 <= k < earlier.len() implies (#[trigger] earlier[k]).chapter.manga.url
            == manga by {
            assert(earlier[k] == jobs[k]);
        }
        lemma_enqueue_in_order(queues, manga, earlier);
        lemma_well_formed_kept(before, job, job.chapter, job.progress);
        match position(queues, manga) {
            Some(i) => {
                lemma_position_unique(before, manga, i);
                assert(before[i].1.push(job) =~= queues[i].1 + jobs);
                assert(enqueued(before, job) =~= queues.update(i, (manga, queues[i].1 + jobs)));
            },
            None => {
                lemma_position_unique(before, manga, queues.len() as int);
                assert(earlier.push(job) =~= jobs);
                assert(enqueued(before, job) =~= queues.push((manga, jobs)));
            },
        }
    }
    if queues.len() == 0 {
        assert(queues.push((manga, jobs)) =~= seq![(manga, jobs)]);
    }
}

/// Jobs leave a queue from its head, and the queue leaves with its last
/// job: once `count` jobs of the only queue have left, those behind them
/// remain in their order, and once all have left, no queue remains.
pub proof fn lemma_pop_from_head(manga: Seq<char>, jobs: Seq<DownloadJobView>, count: nat)
    requires
        count <= jobs.len(),
        jobs.len() > 0,
    ensures
        head(seq![(manga, jobs)]) == Some(jobs[0]),
        popped_times(seq![(manga, jobs)], count) == if count == jobs.len() {
            Seq::<(Seq<char>, Seq<DownloadJobView>)>::empty()
        } else {
            seq![(manga, jobs.skip(count as int))]
        },
    decreases count,
{
    let queues = seq![(manga, jobs)];
    if count == 0 {
        assert(jobs.skip(0) =~= jobs);
    } else if jobs.len() == 1 {
        assert(popped(queues) =~= Seq::<(Seq<char>, Seq<DownloadJobView>)>::empty());
        assert(popped_times(popped(queues), 0) == popped(queues));
    } else {
        let rest = jobs.drop_first();
        assert(popped(queues) =~= seq![(manga, rest)]);
        lemma_pop_from_head(manga, rest, (count - 1) as nat);
        assert(rest.skip(count - 1) =~= jobs.skip(count as int));
    }
}

/// Progress reported for a chapter that has no job waiting changes
/// nothing.
pub proof fn lemma_progress_of_absent_job(queues: Queues, chapter: ChapterView, progress: Fraction)
    requires
        !holds_job(queues, chapter.manga.url, chapter.url),
    ensures
        progressed(queues, chapter, progress) == queues,
{
}

/// Progress reported for a chapter touches nothing but the progress of
/// its job: the queues, their order, and every job's chapter and place
/// stay as they were.
pub proof fn lemma_progress_keeps_order(queues: Queues, chapter: ChapterView, progress: Fraction)
    ensures
        progressed(queues, chapter, progress).len() == queues.len(),
        forall|i: int|
            0 <= i < queues.len() ==> {
                &&& (#[trigger] progressed(queues, chapter, progress)[i]).0 == queues[i].0
                &&& progressed(queues, chapter, progress)[i].1.len() == queues[i].1.len()
            },
        forall|i: int, j: int|
            0 <= i < queues.len() && 0 <= j < queues[i].1.len() ==> (#[trigger] progressed(
                queues,
                chapter,
                progress,
            )[i].1[j]).chapter == queues[i].1[j].chapter,
{
    lemma_position(queues, chapter.manga.url);
    if let Some(i) = position(queues, chapter.manga.url) {
        lemma_job_position(queues[i].1, chapter.url);
    }
}

/// A copy of `jobs[from..]`.
fn clone_jobs(jobs: &Vec<DownloadJob>, from: usize) -> (r: Vec<DownloadJob>)
    requires
        from <= jobs.len(),
    ensures
        job_views(r@) == job_views(jobs@).skip(from as int),
{
    let mut r: Vec<DownloadJob> = Vec::new();
    let mut i: usize = from;
    while i < jobs.len()
        invariant
            from <= i <= jobs.len(),
            job_views(r@) =~= job_views(jobs@).subrange(from as int, i as int),
        decreases jobs.len() - i,
    {
        let ghost copied = job_views(r@);
        let job = jobs[i].clone();
        r.push(job);
        assert(job_views(r@) =~= copied.push(job_views(jobs@)[i as int]));
        i += 1;
    }
    r
}

/// The jobs that wait to be downloaded.
pub struct DownloadQueue {
    map: IndexMap<String, Vec<DownloadJob>>,
}

impl View for DownloadQueue {
    type V = Queues;

    closed spec fn view(&self) -> Queues {
        entries(self.map)
    }
}

impl DownloadQueue {
    #[verifier::type_invariant]
    spec fn sound(self) -> bool {
        well_formed(entries(self.map))
    }

    /// Hands the map out for a change, leaving an empty one until it is
    /// put back.
    fn take_map(&mut self) -> (map: IndexMap<String, Vec<DownloadJob>>)
        ensures
            entries(map) == old(self)@,
            final(self)@ == Seq::<(Seq<char>, Seq<DownloadJobView>)>::empty(),
    {
        let mut map = map_new();
        core::mem::swap(&mut self.map, &mut map);
        map
    }

    /// No job waits.
    pub fn new() -> (r: Self)
        ensures
            r@ == Seq::<(Seq<char>, Seq<DownloadJobView>)>::empty(),
    {
        DownloadQueue { map: map_new() }
    }

    /// The number of mangas that have jobs waiting.
    pub fn len(&self) -> (n: usize)
        ensures
            n == self@.len(),
            well_formed(self@),
    {
        proof {
            use_type_invariant(self);
        }
        map_len(&self.map)
    }

    /// Whether no job waits.
    pub fn is_empty(&self) -> (r: bool)
        ensures
            r == (self@.len() == 0),
    {
        map_len(&self.map) == 0
    }

    /// The address of the manga whose queue is at position `index`.
    pub fn manga_at(&self, index: usize) -> (r: Option<String>)
        ensures
            match r {
                Some(url) => index < self@.len() && url@ == self@[index as int].0,
                None => index >= self@.len(),
            },
    {
        match map_get_index(&self.map, index) {
            Some((key, _)) => Some(key.clone()),
            None => None,
        }
    }

    /// The jobs that wait for the manga at `manga_url`, first come first:
    /// none where it has no queue.
    pub fn jobs_of(&self, manga_url: &str) -> (r: Vec<DownloadJob>)
        ensures
            job_views(r@) == match position(self@, manga_url@) {
                Some(i) => self@[i].1,
                None => Seq::empty(),
            },
    {
        proof {
            use_type_invariant(self);
            lemma_position(self@, manga_url@);
        }
        match map_get_index_of(&self.map, manga_url) {
            Some(i) => match map_get_index(&self.map, i) {
                Some((_, jobs)) => {
                    assert(job_views(jobs@).skip(0) =~= job_views(jobs@));
                    clone_jobs(jobs, 0)
                },
                None => Vec::new(),
            },
            None => {
                assert(job_views(Seq::<DownloadJob>::empty()) =~= Seq::<DownloadJobView>::empty());
                Vec::new()
            },
        }
    }

    /// Adds a job for `chapter`, of which nothing has arrived yet, at the
    /// tail of the queue of the chapter's manga. Returns whether that
    /// manga had no queue before, which is when downloading is to be
    /// started.
    pub fn enqueue(&mut self, chapter: Chapter) -> (start: bool)
        ensures
            final(self)@ == enqueued(
                old(self)@,
                DownloadJobView { chapter: chapter@, progress: Fraction { done: 0, whole: 1 } },
            ),
            start == (position(old(self)@, chapter.manga.url@) is None),
    {
        proof {
            use_type_invariant(&*self);
            lemma_position(self@, chapter.manga.url@);
        }
        let ghost before = self@;
        let ghost joined = DownloadJobView {
            chapter: chapter@,
            progress: Fraction { done: 0, whole: 1 },
        };
        let key = chapter.manga.url.clone();
        let job = DownloadJob::new(chapter);
        let mut next: Vec<DownloadJob> = Vec::new();
        let found = map_get_index_of(&self.map, key.as_str());
        if let Some(i) = found {
            if let Some((_, jobs)) = map_get_index(&self.map, i) {
                next = clone_jobs(jobs, 0);
                assert(job_views(jobs@).skip(0) =~= job_views(jobs@));
            }
        }
        next.push(job);
        proof {
            lemma_well_formed_kept(before, joined, joined.chapter, joined.progress);
            match found {
                Some(i) => {
                    assert(job_views(next@) =~= before[i as int].1.push(joined));
                },
                None => {
                    assert(job_views(next@) =~= seq![joined]);
                },
            }
        }
        let mut map = self.take_map();
        let previous = map_insert(&mut map, key, next);
        assert(entries(map) == enqueued(before, joined));
        self.map = map;
        found.is_none()
    }

    /// The job that is to be downloaded now: the head of the first queue,
    /// or `None` where no job waits.
    pub fn first(&self) -> (r: Option<DownloadJob>)
        ensures
            match r {
                Some(job) => head(self@) == Some(job@),
                None => head(self@) is None,
            },
    {
        proof {
            use_type_invariant(self);
        }
        match map_get_index(&self.map, 0) {
            Some((_, jobs)) => {
                assert(job_views(jobs@).len() == jobs@.len());
                assert(job_views(jobs@)[0] == jobs@[0]@);
                Some(jobs[0].clone())
            },
            None => None,
        }
    }

    /// Takes the head job of the first queue away, and the queue with it
    /// where that was its last job. Returns whether there was a job to
    /// take.
    pub fn pop(&mut self) -> (r: bool)
        ensures
            final(self)@ == popped(old(self)@),
            r == (old(self)@.len() > 0),
    {
        proof {
            use_type_invariant(&*self);
        }
        let ghost before = self@;
        let mut rest: Option<(String, Vec<DownloadJob>)> = None;
        let mut any = false;
        if let Some((key, jobs)) = map_get_index(&self.map, 0) {
            any = true;
            assert(job_views(jobs@).len() == jobs@.len());
            if jobs.len() > 1 {
                rest = Some((key.clone(), clone_jobs(jobs, 1)));
            }
        }
        proof {
            if any {
                lemma_well_formed_kept(before, before[0].1[0], before[0].1[0].chapter, before[0].1[0].progress);
            }
        }
        match rest {
            Some((key, jobs)) => {
                assert(job_views(jobs@) =~= before[0].1.drop_first());
                let mut map = self.take_map();
                let previous = map_insert(&mut map, key, jobs);
                assert(entries(map) == popped(before));
                self.map = map;
            },
            None => {
                if any {
                    let mut map = self.take_map();
                    let removed = map_shift_remove_index(&mut map, 0);
                    self.map = map;
                }
            },
        }
        any
    }

    /// Takes the finished head job away and gives the job that is to be
    /// downloaded next, if one waits.
    pub fn complete(&mut self) -> (r: Option<DownloadJob>)
        ensures
            final(self)@ == popped(old(self)@),
            match r {
                Some(job) => head(popped(old(self)@)) == Some(job@),
                None => head(popped(old(self)@)) is None,
            },
    {
        self.pop();
        self.first()
    }

    /// Records that the download of `chapter` has come as far as
    /// `progress`. Where no job for that chapter waits in the queue of
    /// its manga, nothing changes.
    pub fn update_progress(&mut self, chapter: &Chapter, progress: Progress)
        ensures
            final(self)@ == progressed(old(self)@, chapter@, progress@),
            !holds_job(old(self)@, chapter.manga.url@, chapter.url@) ==> final(self)@ == old(self)@,
    {
        proof {
            use_type_invariant(&*self);
            lemma_position(self@, chapter.manga.url@);
            lemma_well_formed_kept(self@, DownloadJobView { chapter: chapter@, progress: progress@ }, chapter@, progress@);
        }
        let ghost before = self@;
        let mut next: Option<Vec<DownloadJob>> = None;
        if let Some(i) = map_get_index_of(&self.map, chapter.manga.url.as_str()) {
            if let Some((_, jobs)) = map_get_index(&self.map, i) {
                proof {
                    lemma_job_position(job_views(jobs@), chapter.url@);
                }
                if let Some(j) = find_job(jobs, &chapter.url) {
                    let mut copy = clone_jobs(jobs, 0);
                    assert(job_views(jobs@).skip(0) =~= job_views(jobs@));
                    let changed = DownloadJob::with_progress(jobs[j].chapter.clone(), progress);
                    copy.set(j, changed);
                    assert(job_views(copy@) =~= before[i as int].1.update(
                        j as int,
                        DownloadJobView { chapter: before[i as int].1[j as int].chapter, progress: progress@ },
                    ));
                    next = Some(copy);
                }
            }
        }
        if let Some(jobs) = next {
            let mut map = self.take_map();
            let previous = map_insert(&mut map, chapter.manga.url.clone(), jobs);
            assert(entries(map) == progressed(before, chapter@, progress@));
            self.map = map;
        }
    }
}

/// Finds the first job for the chapter at `chapter_url`.
fn find_job(jobs: &Vec<DownloadJob>, chapter_url: &String) -> (r: Option<usize>)
    ensures
        match r {
            Some(j) => j < jobs.len() && job_position(job_views(jobs@), chapter_url@) == Some(
                j as int,
            ),
            None => job_position(job_views(jobs@), chapter_url@) is None,
        },
{
    let ghost views = job_views(jobs@);
    let mut j: usize = 0;
    while j < jobs.len()
        invariant
            j <= jobs.len(),
            views == job_views(jobs@),
            forall|k: int| 0 <= k < j ==> (#[trigger] views[k]).chapter.url != chapter_url@,
        decreases jobs.len() - j,
    {
        assert(views[j as int] == jobs@[j as int]@);
        if jobs[j].chapter.url == *chapter_url {
            proof {
                lemma_job_position(views, chapter_url@);
            }
            return Some(j);
        }
        j += 1;
    }
    proof {
        lemma_job_position(views, chapter_url@);
    }
    None
}

} // verus!
