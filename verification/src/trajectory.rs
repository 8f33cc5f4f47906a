//! The trajectory store: an append-only record of every `stride`-th step.
use crate::body::ConfigError;
use crate::step::Step;
use vstd::arithmetic::div_mod::lemma_fundamental_div_mod;
use vstd::arithmetic::div_mod::lemma_fundamental_div_mod_converse;
use vstd::prelude::*;

verus! {

/// Why the store turned a step away.
#[derive(Clone, Copy, Debug, PartialEq, Eq)]
pub enum TrajectoryError {
    /// The step does not carry the index that comes next.
    OutOfOrder { expected: u64, found: u32 },
    /// The time stamp is not the index times the step length.
    Mistimed { step_id: u32 },
    /// Body `body` has a mass that is not positive, or a state that is not
    /// finite.
    Corrupted { step_id: u32, body: usize },
}

/// How many of the first `offered` steps a store with the given stride keeps:
/// `offered / stride`, rounded up.
pub open spec fn retained(offered: int, stride: int) -> int {
    (offered + stride - 1) / stride
}

/// `retained` counts the multiples of `stride` below `offered`: the `i`-th
/// multiple is below `offered` exactly when `i` is below the count.
pub proof fn lemma_retained_counts_multiples(offered: int, stride: int, i: int)
    requires
        0 <= offered,
        0 < stride,
    ensures
        i < retained(offered, stride) <==> i * stride < offered,
{
    let n = retained(offered, stride);
    lemma_fundamental_div_mod(offered + stride - 1, stride);
    let r = (offered + stride - 1) % stride;
    assert(offered + stride - 1 == stride * n + r);
    assert(0 <= r < stride);
    if i < n {
        assert(i * stride <= (n - 1) * stride) by (nonlinear_arith)
            requires
                i <= n - 1,
                0 < stride,
        ;
        assert((n - 1) * stride == stride * n - stride) by (nonlinear_arith);
    } else {
        assert(i * stride >= n * stride) by (nonlinear_arith)
            requires
                i >= n,
                0 < stride,
        ;
        assert(n * stride == stride * n) by (nonlinear_arith);
    }
}

/// How the count moves when one more step is offered: up by one when the
/// step's index is a multiple of the stride, and then the index is the old
/// count times the stride; otherwise not at all.
pub proof fn lemma_retained_next(offered: int, stride: int)
    requires
        0 <= offered,
        0 < stride,
    ensures
        offered % stride == 0 ==> retained(offered + 1, stride) == retained(offered, stride) + 1
            && retained(offered, stride) * stride == offered,
        offered % stride != 0 ==> retained(offered + 1, stride) == retained(offered, stride),
{
    let q = offered / stride;
    let r = offered % stride;
    lemma_fundamental_div_mod(offered, stride);
    assert(offered == stride * q + r);
    assert(stride * q == q * stride) by (nonlinear_arith);
    assert((q + 1) * stride == q * stride + stride) by (nonlinear_arith);
    if r == 0 {
        lemma_fundamental_div_mod_converse(offered + stride - 1, stride, q, stride - 1);
        lemma_fundamental_div_mod_converse(offered + stride, stride, q + 1, 0);
    } else {
        lemma_fundamental_div_mod_converse(offered + stride - 1, stride, q + 1, r - 1);
        lemma_fundamental_div_mod_converse(offered + stride, stride, q + 1, r);
    }
}

/// An ordered record of steps. Steps are offered one by one in index order;
/// the store keeps those whose index is a multiple of its stride and lets the
/// others pass.
#[derive(Debug)]
pub struct Trajectory {
    stride: u32,
    time_step: u32,
    offered: u64,
    steps: Vec<Step>,
}

impl View for Trajectory {
    type V = Seq<Step>;

    /// The steps kept so far, oldest first.
    closed spec fn view(&self) -> Seq<Step> {
        self.steps@
    }
}

impl Trajectory {
    /// The retention stride.
    pub closed spec fn spec_stride(&self) -> u32 {
        self.stride
    }

    /// Seconds of simulated time per step.
    pub closed spec fn spec_time_step(&self) -> u32 {
        self.time_step
    }

    /// How many steps have been offered so far, kept or not.
    pub closed spec fn spec_offered(&self) -> u64 {
        self.offered
    }

    /// The `i`-th kept step has index `i * stride`, the time stamp that goes
    /// with that index, and a sound state.
    pub open spec fn holds_at(&self, i: int) -> bool {
        &&& self@[i].step_id as int == i * self.stride() as int
        &&& self@[i].is_timed(self.time_step())
        &&& self@[i].is_sound()
    }

    /// The store's invariant.
    pub open spec fn wf(&self) -> bool {
        &&& self.stride() > 0
        &&& self.time_step() > 0
        &&& self.offered() <= 0x1_0000_0000
        &&& self@.len() == retained(self.offered() as int, self.stride() as int)
        &&& forall|i: int| 0 <= i < self@.len() ==> #[trigger] self.holds_at(i)
    }

    /// An empty store that keeps every `stride`-th step of a run whose steps
    /// are `time_step` seconds long. Neither may be zero.
    pub fn new(stride: u32, time_step: u32) -> (r: Result<Trajectory, ConfigError>)
        ensures
            time_step == 0 ==> r == Err::<Trajectory, ConfigError>(ConfigError::ZeroTimeStep),
            time_step != 0 && stride == 0 ==> r == Err::<Trajectory, ConfigError>(
                ConfigError::ZeroStride,
            ),
            time_step != 0 && stride != 0 ==> r is Ok,
            r matches Ok(t) ==> t.wf() && t@ == Seq::<Step>::empty() && t.offered() == 0
                && t.stride() == stride && t.time_step() == time_step,
    {
        if time_step == 0 {
            return Err(ConfigError::ZeroTimeStep);
        }
        if stride == 0 {
            return Err(ConfigError::ZeroStride);
        }
        let t = Trajectory { stride, time_step, offered: 0, steps: Vec::new() };
        proof {
            lemma_fundamental_div_mod_converse(stride as int - 1, stride as int, 0, stride as int - 1);
        }
        Ok(t)
    }

    /// The retention stride.
    #[verifier::when_used_as_spec(spec_stride)]
    pub fn stride(&self) -> (r: u32)
        ensures
            r == self.stride(),
    {
        self.stride
    }

    /// Seconds of simulated time per step.
    #[verifier::when_used_as_spec(spec_time_step)]
    pub fn time_step(&self) -> (r: u32)
        ensures
            r == self.time_step(),
    {
        self.time_step
    }

    /// How many steps have been offered so far, kept or not; also the index
    /// that the next step must carry.
    #[verifier::when_used_as_spec(spec_offered)]
    pub fn offered(&self) -> (r: u64)
        ensures
            r == self.offered(),
    {
        self.offered
    }

    /// How many steps are kept.
    pub fn len(&self) -> (n: usize)
        ensures
            n == self@.len(),
    {
        self.steps.len()
    }

    /// The `i`-th kept step, if there are that many.
    pub fn get(&self, i: usize) -> (r: Option<&Step>)
        ensures
            i < self@.len() ==> r == Some(&self@[i as int]),
            i >= self@.len() ==> r is None,
    {
        if i < self.steps.len() {
            Some(&self.steps[i])
        } else {
            None
        }
    }

    /// The kept steps in order, for reading.
    pub fn as_slice(&self) -> (s: &[Step])
        ensures
            s@ == self@,
    {
        self.steps.as_slice()
    }

    /// Takes in a step that is known to be the next one and sound. Returns
    /// whether it was kept.
    pub(crate) fn store(&mut self, step: Step) -> (kept: bool)
        requires
            old(self).wf(),
            step.step_id as int == old(self).offered(),
            step.is_timed(old(self).time_step()),
            step.is_sound(),
        ensures
            final(self).wf(),
            final(self).stride() == old(self).stride(),
            final(self).time_step() == old(self).time_step(),
            final(self).offered() == old(self).offered() + 1,
            kept == (step.step_id % old(self).stride() == 0),
            kept ==> final(self)@ == old(self)@.push(step),
            !kept ==> final(self)@ == old(self)@,
    {
        proof {
            lemma_retained_next(self.offered as int, self.stride as int);
        }
        let kept = step.step_id % self.stride == 0;
        self.offered = self.offered + 1;
        if kept {
            self.steps.push(step);
            assert forall|i: int| 0 <= i < self@.len() implies #[trigger] self.holds_at(i) by {
                if i < old(self)@.len() {
                    assert(old(self).holds_at(i));
                }
            }
        } else {
            assert forall|i: int| 0 <= i < self@.len() implies #[trigger] self.holds_at(i) by {
                assert(old(self).holds_at(i));
            }
        }
        kept
    }

    /// Offers the next step to the store. The step must carry the index that
    /// comes next and the time stamp that goes with it, and every body in it
    /// must be sound; otherwise it is turned away and the store stays as it
    /// was. An accepted step is kept when its index is a multiple of the
    /// stride. Returns whether it was kept.
    pub fn append(&mut self, step: Step) -> (r: Result<bool, TrajectoryError>)
        requires
            old(self).wf(),
        ensures
            final(self).wf(),
            final(self).stride() == old(self).stride(),
            final(self).time_step() == old(self).time_step(),
            match r {
                Ok(kept) => {
                    &&& step.step_id as int == old(self).offered()
                    &&& step.is_timed(old(self).time_step())
                    &&& step.is_sound()
                    &&& kept == (step.step_id % old(self).stride() == 0)
                    &&& final(self).offered() == old(self).offered() + 1
                    &&& final(self)@ == if kept {
                        old(self)@.push(step)
                    } else {
                        old(self)@
                    }
                },
                Err(e) => {
                    &&& *final(self) == *old(self)
                    &&& match e {
                        TrajectoryError::OutOfOrder { expected, found } => {
                            &&& expected == old(self).offered()
                            &&& found == step.step_id
                            &&& found as int != expected as int
                        },
                        TrajectoryError::Mistimed { step_id } => {
                            &&& step_id == step.step_id
                            &&& step.step_id as int == old(self).offered()
                            &&& !step.is_timed(old(self).time_step())
                        },
                        TrajectoryError::Corrupted { step_id, body } => {
                            &&& step_id == step.step_id
                            &&& step.step_id as int == old(self).offered()
                            &&& step.is_timed(old(self).time_step())
                            &&& step.first_unsound(body as int)
                        },
                    }
                },
            },
    {
        if step.step_id as u64 != self.offered {
            return Err(TrajectoryError::OutOfOrder { expected: self.offered, found: step.step_id });
        }
        if step.time != crate::step::instant(step.step_id, self.time_step) {
            return Err(TrajectoryError::Mistimed { step_id: step.step_id });
        }
        match step.find_unsound() {
            Some(body) => Err(TrajectoryError::Corrupted { step_id: step.step_id, body }),
            None => Ok(self.store(step)),
        }
    }
}

/// Kept steps are strictly ascending in index and in time.
pub proof fn lemma_steps_ascend(t: Trajectory, i: int, j: int)
    requires
        t.wf(),
        0 <= i < j < t@.len(),
    ensures
        t@[i].step_id < t@[j].step_id,
        t@[i].time < t@[j].time,
{
    assert(t.holds_at(i));
    assert(t.holds_at(j));
    let s = t.stride() as int;
    let d = t.time_step() as int;
    assert(i * s < j * s) by (nonlinear_arith)
        requires
            i < j,
            0 < s,
    ;
    assert((i * s) * d < (j * s) * d) by (nonlinear_arith)
        requires
            i * s < j * s,
            0 < d,
    ;
}

/// Neighbouring kept steps are exactly one stride apart, and the first kept
/// step is step zero.
pub proof fn lemma_steps_one_stride_apart(t: Trajectory, i: int)
    requires
        t.wf(),
        0 <= i < t@.len(),
    ensures
        i == 0 ==> t@[i].step_id == 0,
        i > 0 ==> t@[i].step_id == t@[i - 1].step_id + t.stride(),
{
    assert(t.holds_at(i));
    let s = t.stride() as int;
    if i > 0 {
        assert(t.holds_at(i - 1));
        assert(i * s == (i - 1) * s + s) by (nonlinear_arith);
    } else {
        assert(0 * s == 0) by (nonlinear_arith);
    }
}

/// With a stride of one nothing is dropped: the `i`-th kept step is step `i`,
/// and its time stamp is `i` times the step length.
pub proof fn lemma_every_step_kept(t: Trajectory, i: int)
    requires
        t.wf(),
        t.stride() == 1,
        0 <= i < t@.len(),
    ensures
        t@.len() == t.offered(),
        t@[i].step_id == i,
        t@[i].time == i * t.time_step(),
{
    assert(t.holds_at(i));
}

/// No gaps: every step offered so far whose index is a multiple of the stride
/// is in the store, at position `index / stride`.
pub proof fn lemma_no_gaps(t: Trajectory, step_id: int)
    requires
        t.wf(),
        0 <= step_id < t.offered(),
        step_id % (t.stride() as int) == 0,
    ensures
        0 <= step_id / (t.stride() as int) < t@.len(),
        t@[step_id / (t.stride() as int)].step_id == step_id,
{
    let s = t.stride() as int;
    let i = step_id / s;
    lemma_fundamental_div_mod(step_id, s);
    assert(s * i == i * s) by (nonlinear_arith);
    assert(0 <= i) by (nonlinear_arith)
        requires
            i * s >= 0,
            s > 0,
    ;
    lemma_retained_counts_multiples(t.offered() as int, s, i);
    assert(t.holds_at(i));
}

/// Nothing else: every kept step was offered, and its index is a multiple of
/// the stride.
pub proof fn lemma_only_multiples(t: Trajectory, i: int)
    requires
        t.wf(),
        0 <= i < t@.len(),
    ensures
        t@[i].step_id < t.offered(),
        t@[i].step_id as int % (t.stride() as int) == 0,
{
    let s = t.stride() as int;
    assert(t.holds_at(i));
    lemma_retained_counts_multiples(t.offered() as int, s, i);
    lemma_fundamental_div_mod_converse(i * s, s, i, 0);
}

} // verus!
