//! Snapshots of the system at one simulated instant.
use crate::body::Body;
use vstd::prelude::*;

verus! {

/// Simulated seconds elapsed when the step with index `step_id` is taken:
/// the index times the step length, never a running sum.
pub open spec fn time_at(step_id: u32, time_step: u32) -> int {
    step_id as int * time_step as int
}

/// Computes `time_at`; the product of two 32-bit numbers always fits.
pub fn instant(step_id: u32, time_step: u32) -> (t: u64)
    ensures
        t as int == time_at(step_id, time_step),
{
    assert(step_id as int * time_step as int <= 0xFFFF_FFFF * 0xFFFF_FFFF) by (nonlinear_arith)
        requires
            step_id <= 0xFFFF_FFFF,
            time_step <= 0xFFFF_FFFF,
    ;
    let a: u64 = step_id as u64;
    let b: u64 = time_step as u64;
    a * b
}

/// The state of all three bodies at one instant. A step is a copy: nothing
/// that happens to the live bodies afterwards reaches it.
#[derive(Clone, Copy, Debug, PartialEq, Eq)]
pub struct Step {
    /// Simulated seconds since the start of the run.
    pub time: u64,
    /// Index of the simulated step, counted from zero.
    pub step_id: u32,
    pub bodies: [Body; 3],
}

impl Step {
    /// The time stamp is the index times `time_step`.
    pub open spec fn is_timed(self, time_step: u32) -> bool {
        self.time as int == time_at(self.step_id, time_step)
    }

    /// Body `i` is the first one that may not be recorded.
    pub open spec fn first_unsound(self, i: int) -> bool {
        &&& 0 <= i < 3
        &&& !self.bodies@[i].is_sound()
        &&& forall|k: int| 0 <= k < i ==> self.bodies@[k].is_sound()
    }

    /// Every body has a positive mass and a finite state.
    pub open spec fn is_sound(self) -> bool {
        forall|i: int| 0 <= i < 3 ==> self.bodies@[i].is_sound()
    }

    /// The snapshot of `bodies` taken at step `step_id` of a run whose steps
    /// are `time_step` seconds long.
    pub fn new(step_id: u32, time_step: u32, bodies: [Body; 3]) -> (s: Step)
        ensures
            s.step_id == step_id,
            s.bodies == bodies,
            s.is_timed(time_step),
    {
        Step { time: instant(step_id, time_step), step_id, bodies }
    }

    /// Looks for a body that may not be recorded and reports the first one.
    pub fn find_unsound(&self) -> (r: Option<usize>)
        ensures
            r is None <==> self.is_sound(),
            r matches Some(i) ==> self.first_unsound(i as int),
    {
        let mut i: usize = 0;
        while i < 3
            invariant
                0 <= i <= 3,
                forall|k: int| 0 <= k < i ==> self.bodies@[k].is_sound(),
            decreases 3 - i,
        {
            if !self.bodies[i].sound() {
                return Some(i);
            }
            i += 1;
        }
        None
    }
}

} // verus!
