use vstd::prelude::*;

verus! {

/// A part of a whole, as two natural numbers: `done` out of `whole`.
pub struct Fraction {
    pub done: nat,
    pub whole: nat,
}

impl Fraction {
    /// A fraction that lies between nothing and everything.
    pub open spec fn proper(self) -> bool {
        0 < self.whole && self.done <= self.whole
    }

    /// `self` is at most `other`, both taken as rational numbers.
    pub open spec fn le(self, other: Fraction) -> bool {
        self.done * other.whole <= other.done * self.whole
    }
}

/// How much of a chapter has arrived once `received` bytes of the page
/// with index `pages_done` have, where the chapter has `page_count` pages
/// and that page is `length` bytes long. Every page counts the same,
/// whatever its size: the pages before it count in full, and the page
/// itself by the share of its bytes that are here.
pub open spec fn page_fraction(pages_done: nat, page_count: nat, received: nat, length: nat) -> Fraction {
    Fraction { done: pages_done * length + received, whole: page_count * length }
}

/// The inputs for which [`page_fraction`] is defined: the page is one of
/// the chapter's, its length is known and not zero, and no more of it has
/// arrived than it holds.
pub open spec fn page_fraction_defined(
    pages_done: nat,
    page_count: nat,
    received: nat,
    length: nat,
) -> bool {
    pages_done < page_count && 0 < length && received <= length
}

/// Progress stays between nothing and everything: wherever it is defined,
/// it is a proper fraction.
pub proof fn lemma_progress_bounded(pages_done: nat, page_count: nat, received: nat, length: nat)
    requires
        page_fraction_defined(pages_done, page_count, received, length),
    ensures
        page_fraction(pages_done, page_count, received, length).proper(),
{
    assert(0 < page_count * length) by (nonlinear_arith)
        requires
            0 < page_count,
            0 < length,
    ;
    assert(pages_done * length + received <= page_count * length) by (nonlinear_arith)
        requires
            pages_done < page_count,
            received <= length,
    ;
}

/// Progress never goes back during a download: a later moment of the same
/// chapter, which is either further into the same page or on a later page,
/// has at least the progress of an earlier one.
pub proof fn lemma_progress_monotone(
    page_count: nat,
    page_a: nat,
    received_a: nat,
    length_a: nat,
    page_b: nat,
    received_b: nat,
    length_b: nat,
)
    requires
        page_fraction_defined(page_a, page_count, received_a, length_a),
        page_fraction_defined(page_b, page_count, received_b, length_b),
        page_a < page_b || (page_a == page_b && length_a == length_b && received_a <= received_b),
    ensures
        page_fraction(page_a, page_count, received_a, length_a).le(
            page_fraction(page_b, page_count, received_b, length_b),
        ),
{
    let left = (page_a * length_a + received_a) * (page_count * length_b);
    let right = (page_b * length_b + received_b) * (page_count * length_a);
    if page_a < page_b {
        assert(left <= right) by (nonlinear_arith)
            requires
                left == (page_a * length_a + received_a) * (page_count * length_b),
                right == (page_b * length_b + received_b) * (page_count * length_a),
                page_a + 1 <= page_b,
                received_a <= length_a,
                0 < length_a,
                0 < length_b,
        {
            assert((page_a * length_a + received_a) <= (page_a + 1) * length_a);
            assert((page_a + 1) * length_a * length_b <= page_b * length_b * length_a);
            assert((page_a * length_a + received_a) * length_b <= (page_b * length_b + received_b)
                * length_a);
        }
    } else {
        assert(left <= right) by (nonlinear_arith)
            requires
                left == (page_a * length_a + received_a) * (page_count * length_b),
                right == (page_b * length_b + received_b) * (page_count * length_a),
                page_a == page_b,
                length_a == length_b,
                received_a <= received_b,
        ;
    }
}

/// How far a download has come: a proper fraction of the chapter.
#[derive(Copy, Clone, Debug)]
pub struct Progress {
    done: u128,
    whole: u128,
}

impl View for Progress {
    type V = Fraction;

    closed spec fn view(&self) -> Fraction {
        Fraction { done: self.done as nat, whole: self.whole as nat }
    }
}

impl Progress {
    #[verifier::type_invariant]
    spec fn well_formed(self) -> bool {
        0 < self.whole && self.done <= self.whole
    }

    /// Nothing has arrived yet.
    pub fn new() -> (r: Self)
        ensures
            r@ == (Fraction { done: 0, whole: 1 }),
    {
        Progress { done: 0, whole: 1 }
    }

    /// `done` parts out of `whole`, where that is a proper fraction.
    pub fn from_parts(done: u128, whole: u128) -> (r: Option<Self>)
        ensures
            r is Some == (Fraction { done: done as nat, whole: whole as nat }).proper(),
            r matches Some(p) ==> p@ == (Fraction { done: done as nat, whole: whole as nat }),
    {
        if 0 < whole && done <= whole {
            Some(Progress { done, whole })
        } else {
            None
        }
    }

    /// The progress of a chapter of `page_count` pages once `received`
    /// bytes of the page with index `pages_done` have arrived and that
    /// page is `length` bytes long; `None` where that is not defined.
    pub fn of_page(pages_done: usize, page_count: usize, received: u64, length: u64) -> (r: Option<
        Self,
    >)
        ensures
            r is Some == page_fraction_defined(
                pages_done as nat,
                page_count as nat,
                received as nat,
                length as nat,
            ),
            r matches Some(p) ==> p@ == page_fraction(
                pages_done as nat,
                page_count as nat,
                received as nat,
                length as nat,
            ),
    {
        if pages_done < page_count && 0 < length && received <= length {
            proof {
                lemma_progress_bounded(
                    pages_done as nat,
                    page_count as nat,
                    received as nat,
                    length as nat,
                );
                assert(page_count * length <= 0xffff_ffff_ffff_ffff * 0xffff_ffff_ffff_ffff)
                    by (nonlinear_arith)
                    requires
                        page_count <= 0xffff_ffff_ffff_ffff,
                        length <= 0xffff_ffff_ffff_ffff,
                ;
                assert(pages_done * length <= page_count * length) by (nonlinear_arith)
                    requires
                        pages_done < page_count,
                ;
            }
            let whole: u128 = (page_count as u128) * (length as u128);
            let done: u128 = (pages_done as u128) * (length as u128) + (received as u128);
            Some(Progress { done, whole })
        } else {
            None
        }
    }

    /// The parts that have arrived.
    pub fn numerator(&self) -> (r: u128)
        ensures
            r == self@.done,
            self@.proper(),
    {
        proof {
            use_type_invariant(self);
        }
        self.done
    }

    /// The parts that make the whole.
    pub fn denominator(&self) -> (r: u128)
        ensures
            r == self@.whole,
            self@.proper(),
    {
        proof {
            use_type_invariant(self);
        }
        self.whole
    }

    /// Whether everything has arrived.
    pub fn is_complete(&self) -> (r: bool)
        ensures
            r == (self@.done == self@.whole),
    {
        self.done == self.whole
    }
}

} // verus!
