//! The control loop of geodesic integration: probe the current position,
//! stop if the spacetime says so, otherwise take one integrator step,
//! stop if that step broke down, and give up when the step budget is
//! spent. The state and the numerics are the caller's; this module only
//! decides.

use vstd::prelude::*;
use crate::metric::Termination;

verus! {

/// The position part `[x0, x1, x2, x3]` of a phase-space state
/// `[x0, x1, x2, x3, p0, p1, p2, p3]`.
pub fn pos<T: Copy>(y: &[T; 8]) -> (r: [T; 4])
    ensures
        r@ == y@.subrange(0, 4),
{
    let r = [y[0], y[1], y[2], y[3]];
    assert(r@ =~= y@.subrange(0, 4));
    r
}

/// The momentum part `[p0, p1, p2, p3]` of a phase-space state
/// `[x0, x1, x2, x3, p0, p1, p2, p3]`.
pub fn mom<T: Copy>(y: &[T; 8]) -> (r: [T; 4])
    ensures
        r@ == y@.subrange(4, 8),
{
    let r = [y[4], y[5], y[6], y[7]];
    assert(r@ =~= y@.subrange(4, 8));
    r
}

/// How the integration of one ray ended.
pub struct TraceEnd<S> {
    pub termination: Termination,
    /// The last state reached (the one at which the ray stopped).
    pub final_state: S,
    /// Number of integrator steps that were taken.
    pub steps_taken: usize,
    /// The states the ray went through, the initial one first.
    pub path: Ghost<Seq<S>>,
}

/// Each state of `path` after the first is what `step` produced from the
/// one before it.
pub open spec fn is_step_chain<S, F: Fn(&S) -> Option<S>>(step: F, path: Seq<S>) -> bool {
    forall|k: int| #![trigger path[k]] 0 <= k < path.len() - 1 ==> step.ensures((&path[k],), Some(path[k + 1]))
}

/// Integrates a single ray from `y0` until it terminates, using `probe`
/// to ask whether the spacetime ends the ray at a state and `step` for
/// one integrator step (`None` when the step left the finite numbers).
///
/// The ray is probed before every step; a probe that answers stops the
/// ray there with that answer. A failed step stops it as `Diverged` at
/// the state before the step. A ray still running after `max_steps`
/// steps is `Diverged` too, so that it stays visible.
pub fn trace<S, P, F>(y0: S, max_steps: usize, probe: &P, step: &F) -> (r: TraceEnd<S>)
    where
        P: Fn(&S) -> Option<Termination>,
        F: Fn(&S) -> Option<S>,
    requires
        forall|s: &S| #[trigger] probe.requires((s,)),
        forall|s: &S| #[trigger] step.requires((s,)),
    ensures
        r.steps_taken <= max_steps,
        r.path@.len() == r.steps_taken + 1,
        r.path@[0] == y0,
        r.path@[r.steps_taken as int] == r.final_state,
        is_step_chain(*step, r.path@),
        forall|k: int| #![trigger r.path@[k]] 0 <= k < r.steps_taken ==> step.ensures(
            (&r.path@[k],),
            Some(r.path@[k + 1]),
        ),
        forall|k: int| 0 <= k < r.steps_taken ==> #[trigger] probe.ensures((&r.path@[k],), None),
        r.steps_taken == max_steps ==> r.termination == Termination::Diverged,
        r.steps_taken < max_steps ==> {
            ||| probe.ensures((&r.final_state,), Some(r.termination))
            ||| (r.termination == Termination::Diverged
                && probe.ensures((&r.final_state,), None)
                && step.ensures((&r.final_state,), None))
        },
{
    let mut y = y0;
    let mut n: usize = 0;
    let ghost mut path: Seq<S> = seq![y0];
    while n < max_steps
        invariant
            n <= max_steps,
            path.len() == n + 1,
            path[0] == y0,
            path[n as int] == y,
            is_step_chain(*step, path),
            forall|k: int| 0 <= k < n ==> #[trigger] probe.ensures((&path[k],), None),
            forall|s: &S| #[trigger] probe.requires((s,)),
            forall|s: &S| #[trigger] step.requires((s,)),
        decreases max_steps - n,
    {
        let at = probe(&y);
        match at {
            Some(t) => {
                return TraceEnd { termination: t, final_state: y, steps_taken: n, path: Ghost(path) };
            },
            None => {},
        }
        let next = step(&y);
        match next {
            None => {
                return TraceEnd {
                    termination: Termination::Diverged,
                    final_state: y,
                    steps_taken: n,
                    path: Ghost(path),
                };
            },
            Some(y2) => {
                proof {
                    let old_path = path;
                    path = path.push(y2);
                    assert forall|k: int| #![trigger path[k]] 0 <= k < path.len() - 1 implies step.ensures(
                        (&path[k],),
                        Some(path[k + 1]),
                    ) by {
                        if k < old_path.len() - 1 {
                            assert(path[k] == old_path[k]);
                            assert(path[k + 1] == old_path[k + 1]);
                        } else {
                            assert(path[k] == y);
                        }
                    }
                    assert forall|k: int| 0 <= k < n + 1 implies #[trigger] probe.ensures((&path[k],), None) by {
                        if k < n {
                            assert(path[k] == old_path[k]);
                        }
                    }
                }
                y = y2;
                n = n + 1;
            },
        }
    }
    TraceEnd { termination: Termination::Diverged, final_state: y, steps_taken: max_steps, path: Ghost(path) }
}

} // verus!
