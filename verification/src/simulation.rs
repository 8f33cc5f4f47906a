//! The step protocol: who may change the live bodies, when, and what gets
//! recorded.
//!
//! Advancing the bodies is numerical work that happens outside this library.
//! What the library owns is everything around it. It hands out the state a
//! step must be computed from, refuses to start a step from a configuration
//! in which two bodies coincide, takes the advanced bodies back as one unit,
//! refuses them if a mass changed or a NaN or an infinity appeared, numbers
//! and stamps the step, and offers it to the trajectory store. A driver can
//! take the steps one by one with `next_action` and `commit`, or hand the
//! update to `run` and let it take all that are left.
use crate::body::all_finite;
use crate::body::all_masses_positive;
use crate::body::find_coincident_pair;
use crate::body::find_mass_change;
use crate::body::find_non_finite;
use crate::body::first_coincident_pair;
use crate::body::first_mass_change;
use crate::body::first_non_finite;
use crate::body::is_degenerate;
use crate::body::masses_kept;
use crate::body::masses_positive;
use crate::body::Body;
use crate::body::ConfigError;
use crate::step::time_at;
use crate::step::Step;
use crate::trajectory::retained;
use crate::trajectory::Trajectory;
use vstd::prelude::*;

verus! {

/// Number of steps of a full run.
pub const STEPS: u32 = 1_000_000;

/// Seconds of simulated time per step.
pub const TIME_STEP: u32 = 20;

/// Why a step was not taken.
#[derive(Clone, Copy, Debug, PartialEq, Eq)]
pub enum SimulationError {
    /// All steps of the run have been taken.
    Finished,
    /// Bodies `first` and `second` coincide at the start of step `step`, so
    /// the force between them is undefined.
    DegenerateConfiguration { step: u32, first: usize, second: usize },
    /// The advanced state gives body `body` another mass.
    MassChanged { step: u32, body: usize },
    /// The advanced state holds a NaN or an infinity in body `body`.
    NonFiniteState { step: u32, body: usize },
}

/// What the driver of a run has to do next.
#[derive(Clone, Copy, Debug, PartialEq, Eq)]
pub enum Action {
    /// Advance `bodies` by `time_step` seconds and commit the result as step
    /// `step_id`. All forces of the step are to be evaluated on `bodies` as
    /// given here.
    Integrate { step_id: u32, time_step: u32, bodies: [Body; 3] },
    /// The run is complete.
    Finish,
}

/// `advance` takes `from` to `to` in one step that the run accepts: no two
/// bodies coincide in `from`, and `to` has the same masses and a finite
/// state.
pub open spec fn accepted<F: Fn([Body; 3], u32) -> [Body; 3]>(
    advance: F,
    time_step: u32,
    from: [Body; 3],
    to: [Body; 3],
) -> bool {
    &&& !is_degenerate(from@)
    &&& call_ensures(advance, (from, time_step), to)
    &&& masses_kept(from@, to@)
    &&& all_finite(to@)
}

/// `to` is what `count` accepted steps of `advance`, each over `time_step`
/// seconds, can make of `from`.
pub open spec fn evolves<F: Fn([Body; 3], u32) -> [Body; 3]>(
    advance: F,
    time_step: u32,
    from: [Body; 3],
    count: nat,
    to: [Body; 3],
) -> bool
    decreases count,
{
    if count == 0 {
        from == to
    } else {
        exists|mid: [Body; 3]|
            evolves(advance, time_step, from, (count - 1) as nat, mid) && accepted(
                advance,
                time_step,
                mid,
                to,
            )
    }
}

/// `longer` starts with all of `shorter`.
pub open spec fn extends(shorter: Seq<Step>, longer: Seq<Step>) -> bool {
    shorter.len() <= longer.len() && longer.subrange(0, shorter.len() as int) =~= shorter
}

/// A run of the three-body system: the live bodies, the number of steps
/// taken and still to take, and the trajectory recorded so far.
#[derive(Debug)]
pub struct Simulation {
    total: u32,
    bodies: [Body; 3],
    trajectory: Trajectory,
}

impl Simulation {
    /// Number of steps the run takes in all.
    pub closed spec fn spec_total_steps(&self) -> u32 {
        self.total
    }

    /// The live bodies.
    pub closed spec fn spec_bodies(&self) -> [Body; 3] {
        self.bodies
    }

    /// The trajectory recorded so far.
    pub closed spec fn spec_trajectory(&self) -> &Trajectory {
        &self.trajectory
    }

    /// Number of steps taken so far, which is also the index of the next one.
    pub open spec fn spec_completed(&self) -> u64 {
        self.trajectory().offered()
    }

    /// No step is left to take.
    pub open spec fn spec_is_finished(&self) -> bool {
        self.completed() >= self.total_steps()
    }

    /// The run's invariant: the store is well formed and has been offered
    /// exactly the steps taken, no more than the run allows; every live mass
    /// is positive; and every recorded body has the mass of its live
    /// counterpart.
    pub open spec fn wf(&self) -> bool {
        &&& self.trajectory().wf()
        &&& self.completed() <= self.total_steps()
        &&& all_masses_positive(self.bodies()@)
        &&& forall|k: int| 0 <= k < self.trajectory()@.len() ==> masses_kept(
            self.bodies()@,
            (#[trigger] self.trajectory()@[k]).bodies@,
        )
    }

    /// Sets up a run of `steps` steps of `time_step` seconds each, starting
    /// from `bodies`, that records every `stride`-th step. A time step of
    /// zero, a stride of zero and a mass that is not positive are rejected,
    /// in this order.
    pub fn new(bodies: [Body; 3], steps: u32, time_step: u32, stride: u32) -> (r: Result<
        Simulation,
        ConfigError,
    >)
        ensures
            time_step == 0 ==> r == Err::<Simulation, ConfigError>(ConfigError::ZeroTimeStep),
            time_step != 0 && stride == 0 ==> r == Err::<Simulation, ConfigError>(
                ConfigError::ZeroStride,
            ),
            time_step != 0 && stride != 0 && !all_masses_positive(bodies@) ==> r == Err::<
                Simulation,
                ConfigError,
            >(ConfigError::NonPositiveMass),
            time_step != 0 && stride != 0 && all_masses_positive(bodies@) ==> r is Ok,
            r matches Ok(s) ==> {
                &&& s.wf()
                &&& s.bodies() == bodies
                &&& s.total_steps() == steps
                &&& s.completed() == 0
                &&& s.trajectory()@ == Seq::<Step>::empty()
                &&& s.trajectory().stride() == stride
                &&& s.trajectory().time_step() == time_step
            },
    {
        let trajectory = match Trajectory::new(stride, time_step) {
            Ok(t) => t,
            Err(e) => {
                return Err(e);
            },
        };
        if !masses_positive(&bodies) {
            return Err(ConfigError::NonPositiveMass);
        }
        Ok(Simulation { total: steps, bodies, trajectory })
    }

    /// Number of steps the run takes in all.
    #[verifier::when_used_as_spec(spec_total_steps)]
    pub fn total_steps(&self) -> (r: u32)
        ensures
            r == self.total_steps(),
    {
        self.total
    }

    /// Number of steps taken so far.
    #[verifier::when_used_as_spec(spec_completed)]
    pub fn completed(&self) -> (r: u64)
        ensures
            r == self.completed(),
    {
        self.trajectory.offered()
    }

    /// Whether every step of the run has been taken.
    #[verifier::when_used_as_spec(spec_is_finished)]
    pub fn is_finished(&self) -> (r: bool)
        ensures
            r == self.is_finished(),
    {
        self.trajectory.offered() >= self.total as u64
    }

    /// The live bodies, for reading.
    #[verifier::when_used_as_spec(spec_bodies)]
    pub fn bodies(&self) -> (r: [Body; 3])
        ensures
            r == self.bodies(),
    {
        self.bodies
    }

    /// The trajectory recorded so far, for reading.
    #[verifier::when_used_as_spec(spec_trajectory)]
    pub fn trajectory(&self) -> (r: &Trajectory)
        ensures
            r == self.trajectory(),
    {
        &self.trajectory
    }

    /// Ends the run and hands over the trajectory.
    pub fn into_trajectory(self) -> (t: Trajectory)
        ensures
            t == *self.trajectory(),
    {
        self.trajectory
    }

    /// Ends the run early: no further step will be taken. What has been
    /// recorded stays.
    pub fn halt(&mut self)
        requires
            old(self).wf(),
        ensures
            final(self).wf(),
            final(self).is_finished(),
            final(self).total_steps() == old(self).completed(),
            final(self).completed() == old(self).completed(),
            final(self).bodies() == old(self).bodies(),
            final(self).trajectory() == old(self).trajectory(),
    {
        let done: u64 = self.trajectory.offered();
        self.total = done as u32;
    }

    /// Says what comes next. While steps are left and no two bodies coincide,
    /// that is the integration of the next step from the live bodies. When
    /// two bodies coincide the step cannot be computed, and the first such
    /// pair in evaluation order is reported with the step's index.
    pub fn next_action(&self) -> (r: Result<Action, SimulationError>)
        requires
            self.wf(),
        ensures
            self.is_finished() ==> r == Ok::<Action, SimulationError>(Action::Finish),
            !self.is_finished() && is_degenerate(self.bodies()@) ==> r is Err,
            !self.is_finished() && !is_degenerate(self.bodies()@) ==> r == Ok::<
                Action,
                SimulationError,
            >(
                Action::Integrate {
                    step_id: self.completed() as u32,
                    time_step: self.trajectory().time_step(),
                    bodies: self.bodies(),
                },
            ),
            r matches Err(e) ==> {
                &&& !self.is_finished()
                &&& e matches SimulationError::DegenerateConfiguration { step, first, second }
                &&& step == self.completed()
                &&& first_coincident_pair(self.bodies()@, first as int, second as int)
            },
    {
        if self.is_finished() {
            return Ok(Action::Finish);
        }
        let step_id: u32 = self.trajectory.offered() as u32;
        match find_coincident_pair(&self.bodies) {
            Some((first, second)) => Err(
                SimulationError::DegenerateConfiguration { step: step_id, first, second },
            ),
            None => Ok(
                Action::Integrate {
                    step_id,
                    time_step: self.trajectory.time_step(),
                    bodies: self.bodies,
                },
            ),
        }
    }

    /// Takes the bodies as advanced by one step and makes them the live
    /// state, all three at once. The step is numbered with the count of steps
    /// taken before it, stamped with that number times the step length, and
    /// offered to the trajectory store, which keeps it if the number is a
    /// multiple of the stride.
    ///
    /// Nothing changes, and an error says why, when the run is already
    /// finished, when two bodies coincided at the start of the step, when a
    /// mass differs from the live one, or when a position or velocity is a
    /// NaN or an infinity; the first of these that applies is reported.
    pub fn commit(&mut self, updated: [Body; 3]) -> (r: Result<Step, SimulationError>)
        requires
            old(self).wf(),
        ensures
            final(self).wf(),
            final(self).total_steps() == old(self).total_steps(),
            final(self).trajectory().stride() == old(self).trajectory().stride(),
            final(self).trajectory().time_step() == old(self).trajectory().time_step(),
            r is Ok <==> {
                &&& !old(self).is_finished()
                &&& !is_degenerate(old(self).bodies()@)
                &&& masses_kept(old(self).bodies()@, updated@)
                &&& all_finite(updated@)
            },
            match r {
                Ok(step) => {
                    &&& step.step_id == old(self).completed()
                    &&& step.time == time_at(step.step_id, old(self).trajectory().time_step())
                    &&& step.bodies == updated
                    &&& final(self).bodies() == updated
                    &&& final(self).completed() == old(self).completed() + 1
                    &&& final(self).trajectory()@ == if step.step_id % old(
                        self,
                    ).trajectory().stride() == 0 {
                        old(self).trajectory()@.push(step)
                    } else {
                        old(self).trajectory()@
                    }
                },
                Err(e) => {
                    &&& *final(self) == *old(self)
                    &&& match e {
                        SimulationError::Finished => old(self).is_finished(),
                        SimulationError::DegenerateConfiguration { step, first, second } => {
                            &&& !old(self).is_finished()
                            &&& step == old(self).completed()
                            &&& first_coincident_pair(
                                old(self).bodies()@,
                                first as int,
                                second as int,
                            )
                        },
                        SimulationError::MassChanged { step, body } => {
                            &&& !old(self).is_finished()
                            &&& !is_degenerate(old(self).bodies()@)
                            &&& step == old(self).completed()
                            &&& first_mass_change(old(self).bodies()@, updated@, body as int)
                        },
                        SimulationError::NonFiniteState { step, body } => {
                            &&& !old(self).is_finished()
                            &&& !is_degenerate(old(self).bodies()@)
                            &&& masses_kept(old(self).bodies()@, updated@)
                            &&& step == old(self).completed()
                            &&& first_non_finite(updated@, body as int)
                        },
                    }
                },
            },
    {
        let step_id: u32 = match self.next_action() {
            Ok(Action::Finish) => {
                return Err(SimulationError::Finished);
            },
            Err(e) => {
                return Err(e);
            },
            Ok(Action::Integrate { step_id, time_step: _, bodies: _ }) => step_id,
        };
        if let Some(body) = find_mass_change(&self.bodies, &updated) {
            return Err(SimulationError::MassChanged { step: step_id, body });
        }
        if let Some(body) = find_non_finite(&updated) {
            return Err(SimulationError::NonFiniteState { step: step_id, body });
        }
        let step = Step::new(step_id, self.trajectory.time_step(), updated);
        let kept: bool = self.trajectory.store(step);
        self.bodies = updated;
        proof {
            assert forall|k: int| 0 <= k < self.trajectory()@.len() implies masses_kept(
                self.bodies()@,
                (#[trigger] self.trajectory()@[k]).bodies@,
            ) by {
                if k < old(self).trajectory()@.len() {
                    assert(masses_kept(old(self).bodies()@, old(self).trajectory()@[k].bodies@));
                }
            }
        }
        Ok(step)
    }

    /// Takes every step that is left, advancing the bodies with `advance`.
    /// Each step is computed from the live bodies as they stand before it and
    /// committed as a whole. The run stops early, with the error and with
    /// everything up to the failing step in place, if two bodies coincide at
    /// the start of a step or `advance` returns a changed mass, a NaN or an
    /// infinity.
    ///
    /// `advance` is only ever called on bodies with positive masses of which
    /// no two coincide.
    pub fn run<F: Fn([Body; 3], u32) -> [Body; 3]>(&mut self, advance: F) -> (r: Result<
        (),
        SimulationError,
    >)
        requires
            old(self).wf(),
            forall|bodies: [Body; 3]|
                all_masses_positive(bodies@) && !is_degenerate(bodies@) ==> call_requires(
                    advance,
                    (bodies, old(self).trajectory().time_step()),
                ),
        ensures
            final(self).wf(),
            final(self).total_steps() == old(self).total_steps(),
            final(self).trajectory().stride() == old(self).trajectory().stride(),
            final(self).trajectory().time_step() == old(self).trajectory().time_step(),
            old(self).completed() <= final(self).completed(),
            evolves(
                advance,
                old(self).trajectory().time_step(),
                old(self).bodies(),
                (final(self).completed() - old(self).completed()) as nat,
                final(self).bodies(),
            ),
            !old(self).is_finished() && is_degenerate(old(self).bodies()@) ==> r is Err
                && final(self).completed() == old(self).completed(),
            extends(old(self).trajectory()@, final(self).trajectory()@),
            forall|k: int|
                old(self).trajectory()@.len() <= k < final(self).trajectory()@.len() ==> evolves(
                    advance,
                    old(self).trajectory().time_step(),
                    old(self).bodies(),
                    ((#[trigger] final(self).trajectory()@[k]).step_id + 1 - old(
                        self,
                    ).completed()) as nat,
                    final(self).trajectory()@[k].bodies,
                ),
            match r {
                Ok(_) => final(self).is_finished(),
                Err(e) => {
                    &&& !final(self).is_finished()
                    &&& match e {
                        SimulationError::Finished => false,
                        SimulationError::DegenerateConfiguration { step, first, second } => {
                            &&& step == final(self).completed()
                            &&& first_coincident_pair(
                                final(self).bodies()@,
                                first as int,
                                second as int,
                            )
                        },
                        SimulationError::MassChanged { step, body } => {
                            &&& step == final(self).completed()
                            &&& !is_degenerate(final(self).bodies()@)
                            &&& exists|updated: [Body; 3]|
                                call_ensures(
                                    advance,
                                    (final(self).bodies(), final(self).trajectory().time_step()),
                                    updated,
                                ) && first_mass_change(
                                    final(self).bodies()@,
                                    updated@,
                                    body as int,
                                )
                        },
                        SimulationError::NonFiniteState { step, body } => {
                            &&& step == final(self).completed()
                            &&& !is_degenerate(final(self).bodies()@)
                            &&& exists|updated: [Body; 3]|
                                call_ensures(
                                    advance,
                                    (final(self).bodies(), final(self).trajectory().time_step()),
                                    updated,
                                ) && masses_kept(final(self).bodies()@, updated@)
                                    && first_non_finite(updated@, body as int)
                        },
                    }
                },
            },
    {
        loop
            invariant
                self.wf(),
                self.total_steps() == old(self).total_steps(),
                self.trajectory().stride() == old(self).trajectory().stride(),
                self.trajectory().time_step() == old(self).trajectory().time_step(),
                old(self).completed() <= self.completed(),
                old(self).completed() < self.completed() ==> !old(self).is_finished()
                    && !is_degenerate(old(self).bodies()@),
                forall|bodies: [Body; 3]|
                    all_masses_positive(bodies@) && !is_degenerate(bodies@) ==> call_requires(
                        advance,
                        (bodies, old(self).trajectory().time_step()),
                    ),
                evolves(
                    advance,
                    old(self).trajectory().time_step(),
                    old(self).bodies(),
                    (self.completed() - old(self).completed()) as nat,
                    self.bodies(),
                ),
                extends(old(self).trajectory()@, self.trajectory()@),
                forall|k: int|
                    old(self).trajectory()@.len() <= k < self.trajectory()@.len() ==> evolves(
                        advance,
                        old(self).trajectory().time_step(),
                        old(self).bodies(),
                        ((#[trigger] self.trajectory()@[k]).step_id + 1 - old(
                            self,
                        ).completed()) as nat,
                        self.trajectory()@[k].bodies,
                    ),
            decreases self.total_steps() - self.completed(),
        {
            let ghost before = *self;
            match self.next_action() {
                Ok(Action::Finish) => {
                    return Ok(());
                },
                Err(e) => {
                    return Err(e);
                },
                Ok(Action::Integrate { step_id: _, time_step, bodies }) => {
                    let updated = advance(bodies, time_step);
                    match self.commit(updated) {
                        Ok(step) => {
                            proof {
                                let taken = (before.completed() - old(self).completed()) as nat;
                                assert(evolves(
                                    advance,
                                    time_step,
                                    old(self).bodies(),
                                    taken,
                                    before.bodies(),
                                ) && accepted(advance, time_step, before.bodies(), updated));
                                assert(evolves(
                                    advance,
                                    time_step,
                                    old(self).bodies(),
                                    taken + 1,
                                    updated,
                                ));
                                assert(extends(old(self).trajectory()@, self.trajectory()@));
                            }
                        },
                        Err(e) => {
                            return Err(e);
                        },
                    }
                },
            }
        }
    }
}

/// A finished run has recorded `total / stride` steps, rounded up: step zero
/// and every `stride`-th step after it.
pub proof fn lemma_finished_run_length(s: Simulation)
    requires
        s.wf(),
        s.is_finished(),
    ensures
        s.completed() == s.total_steps(),
        s.trajectory()@.len() == retained(
            s.total_steps() as int,
            s.trajectory().stride() as int,
        ),
{
}

/// Masses never change: every body of every recorded step has the mass of
/// the live body.
pub proof fn lemma_recorded_masses(s: Simulation, k: int, i: int)
    requires
        s.wf(),
        0 <= k < s.trajectory()@.len(),
        0 <= i < 3,
    ensures
        s.trajectory()@[k].bodies@[i].mass == s.bodies()@[i].mass,
{
    assert(masses_kept(s.bodies()@, s.trajectory()@[k].bodies@));
}

} // verus!
