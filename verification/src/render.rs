//! Integer side of the rendering loop: supersampling layout, pixel
//! addressing, and the bookkeeping that classifies pixels and counts how
//! rays ended.

use vstd::prelude::*;
use crate::metric::Termination;

verus! {

/// Number of times `t` occurs in `s`.
pub open spec fn occurrences(s: Seq<Termination>, t: Termination) -> nat
    decreases s.len(),
{
    if s.len() == 0 {
        0
    } else {
        occurrences(s.drop_last(), t) + if s.last() == t { 1nat } else { 0nat }
    }
}

/// How many rays (or sub-pixel samples) ended in each way.
#[derive(Debug, Clone, Copy, PartialEq, Eq, Structural)]
pub struct TerminationCounts {
    pub captured: usize,
    pub escaped: usize,
    pub diverged: usize,
}

impl TerminationCounts {
    /// The counter kept for outcome `t`.
    pub open spec fn count_of(self, t: Termination) -> nat {
        match t {
            Termination::Captured => self.captured as nat,
            Termination::Escaped => self.escaped as nat,
            Termination::Diverged => self.diverged as nat,
        }
    }

    /// Number of outcomes counted so far.
    pub open spec fn spec_total(self) -> nat {
        self.captured as nat + self.escaped as nat + self.diverged as nat
    }

    /// The outcome that stands for a pixel: the most frequent one, with
    /// ties going to capture first, then divergence, then escape.
    pub open spec fn spec_dominant(self) -> Termination {
        if self.captured >= self.diverged && self.captured >= self.escaped {
            Termination::Captured
        } else if self.diverged >= self.escaped {
            Termination::Diverged
        } else {
            Termination::Escaped
        }
    }

    /// No outcome counted yet.
    pub fn new() -> (r: Self)
        ensures
            r.captured == 0,
            r.escaped == 0,
            r.diverged == 0,
    {
        TerminationCounts { captured: 0, escaped: 0, diverged: 0 }
    }

    /// Counts one more outcome `t`.
    pub fn record(&mut self, t: Termination)
        requires
            old(self).count_of(t) < usize::MAX,
        ensures
            final(self).count_of(t) == old(self).count_of(t) + 1,
            forall|u: Termination| u != t ==> final(self).count_of(u) == old(self).count_of(u),
            final(self).spec_total() == old(self).spec_total() + 1,
    {
        match t {
            Termination::Captured => self.captured = self.captured + 1,
            Termination::Escaped => self.escaped = self.escaped + 1,
            Termination::Diverged => self.diverged = self.diverged + 1,
        }
    }

    /// The outcome that classifies a pixel from the outcomes of its samples.
    pub fn dominant(&self) -> (r: Termination)
        ensures
            r == self.spec_dominant(),
    {
        if self.captured >= self.diverged && self.captured >= self.escaped {
            Termination::Captured
        } else if self.diverged >= self.escaped {
            Termination::Diverged
        } else {
            Termination::Escaped
        }
    }
}

/// The chosen outcome of a pixel is always one that occurred most often:
/// its count is at least the count of every other outcome, and, when any
/// sample was counted, it occurred at least once.
pub proof fn lemma_dominant_is_most_frequent(c: TerminationCounts, u: Termination)
    ensures
        c.count_of(c.spec_dominant()) >= c.count_of(u),
        c.spec_total() > 0 ==> c.count_of(c.spec_dominant()) > 0,
{
}

/// When all samples of a pixel ended the same way, that is the pixel's
/// outcome.
pub proof fn lemma_dominant_unanimous(c: TerminationCounts, t: Termination)
    requires
        c.count_of(t) > 0,
        forall|u: Termination| u != t ==> c.count_of(u) == 0,
    ensures
        c.spec_dominant() == t,
{
    assert(c.count_of(Termination::Captured) == c.captured);
    assert(c.count_of(Termination::Escaped) == c.escaped);
    assert(c.count_of(Termination::Diverged) == c.diverged);
}

/// Ties between the most frequent outcomes go to capture first, then to
/// divergence, then to escape.
pub proof fn lemma_dominant_tie_order(c: TerminationCounts)
    ensures
        c.captured >= c.diverged && c.captured >= c.escaped ==> c.spec_dominant() == Termination::Captured,
        c.diverged > c.captured && c.diverged >= c.escaped ==> c.spec_dominant() == Termination::Diverged,
        c.escaped > c.captured && c.escaped > c.diverged ==> c.spec_dominant() == Termination::Escaped,
{
}

proof fn lemma_occurrences_push(s: Seq<Termination>, x: Termination, t: Termination)
    ensures
        occurrences(s.push(x), t) == occurrences(s, t) + if x == t { 1nat } else { 0nat },
{
    assert(s.push(x).drop_last() =~= s);
}

/// The number of occurrences of the three outcomes adds up to the length.
pub proof fn lemma_occurrences_total(s: Seq<Termination>)
    ensures
        occurrences(s, Termination::Captured) + occurrences(s, Termination::Escaped)
            + occurrences(s, Termination::Diverged) == s.len(),
    decreases s.len(),
{
    if s.len() > 0 {
        lemma_occurrences_total(s.drop_last());
    }
}

proof fn lemma_occurrences_bounded(s: Seq<Termination>, t: Termination)
    ensures
        occurrences(s, t) <= s.len(),
{
    lemma_occurrences_total(s);
}

/// Counts the outcomes of a batch of rays or pixels.
pub fn tally(outcomes: &[Termination]) -> (r: TerminationCounts)
    ensures
        forall|t: Termination| #[trigger] r.count_of(t) == occurrences(outcomes@, t),
        r.spec_total() == outcomes@.len(),
{
    let mut counts = TerminationCounts::new();
    let mut k: usize = 0;
    while k < outcomes.len()
        invariant
            k <= outcomes@.len(),
            forall|t: Termination| #[trigger] counts.count_of(t) == occurrences(outcomes@.subrange(0, k as int), t),
        decreases outcomes@.len() - k,
    {
        let ghost before = outcomes@.subrange(0, k as int);
        let t = outcomes[k];
        proof {
            assert(outcomes@.subrange(0, k as int + 1) =~= before.push(t));
            lemma_occurrences_bounded(before, t);
            assert forall|u: Termination| #[trigger] occurrences(outcomes@.subrange(0, k as int + 1), u)
                == occurrences(before, u) + if t == u { 1nat } else { 0nat } by {
                lemma_occurrences_push(before, t, u);
            }
        }
        counts.record(t);
        k = k + 1;
    }
    proof {
        assert(outcomes@.subrange(0, k as int) =~= outcomes@);
        lemma_occurrences_total(outcomes@);
        assert(counts.count_of(Termination::Captured) == occurrences(outcomes@, Termination::Captured));
        assert(counts.count_of(Termination::Escaped) == occurrences(outcomes@, Termination::Escaped));
        assert(counts.count_of(Termination::Diverged) == occurrences(outcomes@, Termination::Diverged));
    }
    counts
}

/// The supersampling grid of a pixel: a square of `per_axis` by
/// `per_axis` sub-pixel rays, `per_pixel` of them in all.
#[derive(Debug, Clone, Copy, PartialEq, Eq, Structural)]
pub struct Supersampling {
    pub per_axis: usize,
    pub per_pixel: usize,
}

/// The grid for a requested number of samples per axis; a request of 0
/// means no supersampling, one ray per pixel.
pub fn supersampling(requested: usize) -> (r: Supersampling)
    requires
        requested * requested <= usize::MAX,
    ensures
        r.per_axis == if requested == 0 { 1 } else { requested },
        r.per_pixel == r.per_axis * r.per_axis,
        r.per_axis >= 1,
{
    let per_axis = if requested == 0 { 1 } else { requested };
    assert(per_axis * per_axis <= usize::MAX) by (nonlinear_arith)
        requires
            per_axis == 1 || per_axis == requested,
            requested * requested <= usize::MAX,
    ;
    Supersampling { per_axis, per_pixel: per_axis * per_axis }
}

/// Column and row of pixel `index` in a row-major image `width` pixels
/// wide, counted from the top left.
pub fn pixel_coords(index: usize, width: usize) -> (r: (usize, usize))
    requires
        width > 0,
    ensures
        r.0 == index % width,
        r.1 == index / width,
        r.0 < width,
        r.1 * width + r.0 == index,
{
    let i = index % width;
    let j = index / width;
    assert(j * width + i == index) by (nonlinear_arith)
        requires
            i == index % width,
            j == index / width,
            width > 0,
    ;
    (i, j)
}

} // verus!
