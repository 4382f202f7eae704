//! The course of one chapter's download: which page is arriving, how much
//! of it is here, and the progress to report after each piece.

use super::progress::{
    lemma_progress_monotone, page_fraction, page_fraction_defined, Fraction, Progress,
};
use vstd::prelude::*;

verus! {

/// How far the transfer of a chapter has come.
#[derive(Debug)]
pub struct Transfer {
    page_count: usize,
    started: usize,
    length: u64,
    received: u64,
}

/// What a [`Transfer`] holds, as plain mathematical values: the number of
/// pages of the chapter, how many of them have been begun, the length of
/// the page that is arriving (0 where it is not known), and how many of
/// its bytes are here.
pub struct TransferView {
    pub page_count: nat,
    pub started: nat,
    pub length: nat,
    pub received: nat,
}

impl TransferView {
    /// What holds of every moment of a transfer: no more pages have been
    /// begun than the chapter has, and the count of bytes is one that the
    /// transfer can hold.
    pub open spec fn valid(self) -> bool {
        self.started <= self.page_count && self.received <= u64::MAX
    }

    /// The progress at this moment, where it is defined: a page is
    /// arriving, its length is known, and no more of it is here than it
    /// holds.
    pub open spec fn progress(self) -> Option<Fraction> {
        if self.started > 0 && page_fraction_defined(
            (self.started - 1) as nat,
            self.page_count,
            self.received,
            self.length,
        ) {
            Some(
                page_fraction(
                    (self.started - 1) as nat,
                    self.page_count,
                    self.received,
                    self.length,
                ),
            )
        } else {
            None
        }
    }

    /// The moment after the next page has begun to arrive, `length` bytes
    /// long (0 where that is not known). Once all pages have been begun,
    /// nothing changes.
    pub open spec fn next_page(self, length: nat) -> TransferView {
        if self.started < self.page_count {
            TransferView {
                page_count: self.page_count,
                started: self.started + 1,
                length,
                received: 0,
            }
        } else {
            self
        }
    }

    /// The moment after `bytes` more bytes of the page have arrived. The
    /// count stops at `u64::MAX`.
    pub open spec fn more(self, bytes: nat) -> TransferView {
        TransferView {
            page_count: self.page_count,
            started: self.started,
            length: self.length,
            received: if self.received + bytes > u64::MAX {
                u64::MAX as nat
            } else {
                self.received + bytes
            },
        }
    }
}

/// Within a transfer, progress never goes back: neither when more of a
/// page arrives, nor from one page to a later one.
pub proof fn lemma_transfer_monotone(before: TransferView, bytes: nat, length: nat, later: nat)
    requires
        before.valid(),
    ensures
        before.progress() matches Some(a) ==> (before.more(bytes).progress() matches Some(b)
            ==> a.le(b)),
        before.progress() matches Some(a) ==> (before.next_page(length).more(
            later,
        ).progress() matches Some(b) ==> a.le(b)),
{
    if before.progress() is Some && before.more(bytes).progress() is Some {
        lemma_progress_monotone(
            before.page_count,
            (before.started - 1) as nat,
            before.received,
            before.length,
            (before.started - 1) as nat,
            before.more(bytes).received,
            before.length,
        );
    }
    let after = before.next_page(length).more(later);
    if before.progress() is Some && after.progress() is Some {
        if before.started < before.page_count {
            lemma_progress_monotone(
                before.page_count,
                (before.started - 1) as nat,
                before.received,
                before.length,
                before.started,
                after.received,
                after.length,
            );
        } else {
            lemma_progress_monotone(
                before.page_count,
                (before.started - 1) as nat,
                before.received,
                before.length,
                (before.started - 1) as nat,
                after.received,
                before.length,
            );
        }
    }
}

impl View for Transfer {
    type V = TransferView;

    closed spec fn view(&self) -> TransferView {
        TransferView {
            page_count: self.page_count as nat,
            started: self.started as nat,
            length: self.length as nat,
            received: self.received as nat,
        }
    }
}

impl Transfer {
    #[verifier::type_invariant]
    spec fn sound(self) -> bool {
        self.started <= self.page_count
    }

    /// The transfer of a chapter of `page_count` pages, before its first
    /// page.
    pub fn new(page_count: usize) -> (r: Self)
        ensures
            r@ == (TransferView { page_count: page_count as nat, started: 0, length: 0, received: 0 }),
    {
        Transfer { page_count, started: 0, length: 0, received: 0 }
    }

    /// The index of the page that is arriving, once one is.
    pub fn page_index(&self) -> (r: Option<usize>)
        ensures
            self@.valid(),
            match r {
                Some(index) => self@.started == index + 1,
                None => self@.started == 0,
            },
    {
        proof {
            use_type_invariant(self);
        }
        if self.started > 0 {
            Some(self.started - 1)
        } else {
            None
        }
    }

    /// Records that the next page begins to arrive. `length` is its
    /// length, where the sender told it. Returns `false`, and changes
    /// nothing, where all pages of the chapter have been begun.
    pub fn begin_page(&mut self, length: Option<u64>) -> (r: bool)
        ensures
            r == (old(self)@.started < old(self)@.page_count),
            final(self)@ == old(self)@.next_page(
                match length {
                    Some(n) => n as nat,
                    None => 0,
                },
            ),
    {
        proof {
            use_type_invariant(&*self);
        }
        if self.started < self.page_count {
            let length = match length {
                Some(n) => n,
                None => 0,
            };
            *self = Transfer {
                page_count: self.page_count,
                started: self.started + 1,
                length,
                received: 0,
            };
            true
        } else {
            false
        }
    }

    /// Records that `bytes` more bytes of the page have arrived, and gives
    /// the progress to report, where it is defined. It is never less
    /// than the progress before.
    pub fn receive(&mut self, bytes: usize) -> (r: Option<Progress>)
        ensures
            final(self)@ == old(self)@.more(bytes as nat),
            match r {
                Some(progress) => final(self)@.progress() == Some(progress@),
                None => final(self)@.progress() is None,
            },
            old(self)@.progress() matches Some(a) ==> (r matches Some(b) ==> a.le(b@)),
    {
        proof {
            use_type_invariant(&*self);
            lemma_transfer_monotone(self@, bytes as nat, 0, 0);
        }
        let received = match self.received.checked_add(bytes as u64) {
            Some(sum) => sum,
            None => u64::MAX,
        };
        *self = Transfer {
            page_count: self.page_count,
            started: self.started,
            length: self.length,
            received,
        };
        if self.started > 0 {
            Progress::of_page(self.started - 1, self.page_count, self.received, self.length)
        } else {
            None
        }
    }
}

} // verus!
