//! Integer bookkeeping of the warp-bubble shape searches: how a batch of
//! radial collocation points is shared between the interior, the wall and
//! the exterior of the bubble, and which training steps report progress.

use vstd::prelude::*;

verus! {

/// Sizes of the interior, wall and exterior parts of a collocation grid
/// of `n_samples` points: a third each for the interior and the wall
/// (rounded down), and the rest for the exterior. The interior and the
/// exterior each hold their two end points, so `n_samples` must be at
/// least 6.
pub fn collocation_split(n_samples: usize) -> (r: (usize, usize, usize))
    requires
        n_samples >= 6,
    ensures
        r.0 == n_samples / 3,
        r.1 == n_samples / 3,
        r.0 + r.1 + r.2 == n_samples,
        r.0 >= 2,
        r.2 >= r.0,
{
    let n_in = n_samples / 3;
    let n_wall = n_samples / 3;
    let n_out = n_samples - n_in - n_wall;
    (n_in, n_wall, n_out)
}

/// Interval between progress reports of a run of `steps` training steps:
/// a twentieth of the run, but at least every step.
pub open spec fn report_interval(steps: int) -> int {
    if steps / 20 >= 1 { steps / 20 } else { 1 }
}

/// Whether training step `step` (counted from 0) of a run of `steps` steps
/// prints a progress line: every `report_interval(steps)`-th step, and the
/// last step.
pub fn reports_progress(step: usize, steps: usize) -> (r: bool)
    requires
        step < steps,
    ensures
        r == (step as int % report_interval(steps as int) == 0 || step == steps - 1),
        steps >= 20 ==> (r <==> (step as int % (steps as int / 20) == 0 || step == steps - 1)),
        steps < 20 ==> r,
{
    let interval = if steps / 20 >= 1 { steps / 20 } else { 1 };
    step % interval == 0 || step == steps - 1
}

/// A run of at least twenty steps reports every `steps / 20`-th step
/// (twenty or twenty-one lines in all, with the last step), with no other
/// cap on the interval; a shorter run reports at every step.
pub proof fn lemma_report_interval(steps: int)
    requires
        steps >= 1,
    ensures
        steps >= 20 ==> report_interval(steps) == steps / 20,
        steps < 20 ==> report_interval(steps) == 1,
        report_interval(steps) >= 1,
        report_interval(steps) * 20 <= steps || steps < 20,
{
}

} // verus!
