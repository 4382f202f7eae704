//! Downloading chapters: how far a download has come, the jobs that wait
//! for their turn, and the order in which they are taken up.

pub mod files;
pub mod job;
pub mod ordered;
pub mod progress;
pub mod queue;
pub mod transfer;

pub use job::{DownloadJob, DownloadJobView};
pub use progress::{Fraction, Progress};
pub use queue::DownloadQueue;
pub use transfer::{Transfer, TransferView};
