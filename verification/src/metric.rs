//! Outcomes of a geodesic and the flat reference spacetime.

use vstd::prelude::*;

verus! {

/// How the integration of a geodesic ended.
#[derive(Debug, Clone, Copy, PartialEq, Eq, Structural)]
pub enum Termination {
    /// Crossed a horizon or fell into a singularity.
    Captured,
    /// Reached (numerical) infinity.
    Escaped,
    /// Something pathological happened (non-finite state, step budget spent).
    Diverged,
}

/// Whether a ray stops at a position, from what the chart says of it:
/// a coordinate that is no longer a finite number ends the ray as
/// `Diverged`, whatever else holds; otherwise a position inside the
/// capture region ends it as `Captured`, one beyond the escape radius as
/// `Escaped`, and any other position lets it go on.
pub open spec fn spec_termination_at(non_finite: bool, inside: bool, beyond: bool) -> Option<Termination> {
    if non_finite {
        Some(Termination::Diverged)
    } else if inside {
        Some(Termination::Captured)
    } else if beyond {
        Some(Termination::Escaped)
    } else {
        None
    }
}

/// Decides whether a ray stops at a position (see `spec_termination_at`).
pub fn termination_at(non_finite: bool, inside: bool, beyond: bool) -> (r: Option<Termination>)
    ensures
        r == spec_termination_at(non_finite, inside, beyond),
        non_finite ==> r == Some(Termination::Diverged),
        !non_finite && inside ==> r == Some(Termination::Captured),
        !non_finite && !inside && beyond ==> r == Some(Termination::Escaped),
        !non_finite && !inside && !beyond ==> r is None,
{
    if non_finite {
        Some(Termination::Diverged)
    } else if inside {
        Some(Termination::Captured)
    } else if beyond {
        Some(Termination::Escaped)
    } else {
        None
    }
}

/// The order in which a chart's verdicts end a ray: a non-finite
/// coordinate always diverges; a finite position inside the capture region
/// is captured whether or not it also lies beyond the escape radius; a
/// finite position outside the capture region but beyond the escape radius
/// escapes; and a finite position that is neither lets the ray go on.
pub proof fn lemma_termination_priorities(inside: bool, beyond: bool)
    ensures
        spec_termination_at(true, inside, beyond) == Some(Termination::Diverged),
        spec_termination_at(false, true, beyond) == Some(Termination::Captured),
        spec_termination_at(false, false, true) == Some(Termination::Escaped),
        spec_termination_at(false, false, false) == None::<Termination>,
{
}

/// Flat Minkowski spacetime, the reference chart of the tracer.
#[derive(Debug, Clone, Copy, PartialEq, Eq, Structural)]
pub struct Minkowski;

impl Minkowski {
    /// Name used in logs and image file names.
    pub fn name(&self) -> (r: &'static str)
        ensures
            r@ == "minkowski"@,
    {
        "minkowski"
    }
}

} // verus!
