//! Point masses and the questions the step protocol asks about them.
use crate::scalar::Scalar;
use vstd::prelude::*;

verus! {

/// Why a simulation or one of its bodies could not be set up.
#[derive(Clone, Copy, Debug, PartialEq, Eq)]
pub enum ConfigError {
    /// A mass that is zero, negative or not a number.
    NonPositiveMass,
    /// A time step of zero seconds.
    ZeroTimeStep,
    /// A retention stride of zero.
    ZeroStride,
}

/// A point mass with its position and velocity in the plane.
#[derive(Clone, Copy, Debug, PartialEq, Eq)]
pub struct Body {
    pub mass: Scalar,
    pub position: (Scalar, Scalar),
    pub velocity: (Scalar, Scalar),
}

impl Body {
    /// The mass is greater than zero.
    pub open spec fn has_positive_mass(self) -> bool {
        self.mass.is_positive()
    }

    /// Both coordinates of the position and of the velocity are ordinary
    /// numbers: no NaN and no infinity has crept in.
    pub open spec fn is_finite(self) -> bool {
        &&& self.position.0.is_finite()
        &&& self.position.1.is_finite()
        &&& self.velocity.0.is_finite()
        &&& self.velocity.1.is_finite()
    }

    /// A body that may be recorded: a positive mass and a finite state.
    pub open spec fn is_sound(self) -> bool {
        self.has_positive_mass() && self.is_finite()
    }

    /// The two bodies sit at the same point, so the distance between them is
    /// zero and no force between them is defined.
    pub open spec fn coincides(self, other: Body) -> bool {
        self.position.0.same_number(other.position.0) && self.position.1.same_number(
            other.position.1,
        )
    }

    /// The body that `new` builds from a position and a mass: at rest.
    pub open spec fn at_rest(position: (Scalar, Scalar), mass: Scalar) -> Body {
        Body { mass, position, velocity: (Scalar { bits: 0 }, Scalar { bits: 0 }) }
    }

    /// A body at rest at `position`. A mass that is not greater than zero is
    /// rejected.
    pub fn new(position: (Scalar, Scalar), mass: Scalar) -> (r: Result<Body, ConfigError>)
        ensures
            mass.is_positive() ==> r == Ok::<Body, ConfigError>(Body::at_rest(position, mass)),
            !mass.is_positive() ==> r == Err::<Body, ConfigError>(ConfigError::NonPositiveMass),
    {
        if mass.positive() {
            Ok(Body { mass, position, velocity: (Scalar::zero(), Scalar::zero()) })
        } else {
            Err(ConfigError::NonPositiveMass)
        }
    }

    /// The same body, moved: position and velocity are replaced together and
    /// the mass is kept.
    pub fn moved(&self, position: (Scalar, Scalar), velocity: (Scalar, Scalar)) -> (b: Body)
        ensures
            b == (Body { mass: self.mass, position, velocity }),
    {
        Body { mass: self.mass, position, velocity }
    }

    /// Decides whether position and velocity are ordinary numbers.
    pub fn finite(&self) -> (r: bool)
        ensures
            r == self.is_finite(),
    {
        self.position.0.finite() && self.position.1.finite() && self.velocity.0.finite()
            && self.velocity.1.finite()
    }

    /// Decides whether the body may be recorded.
    pub fn sound(&self) -> (r: bool)
        ensures
            r == self.is_sound(),
    {
        self.mass.positive() && self.finite()
    }

    /// Decides whether two bodies sit at the same point.
    pub fn coincides_with(&self, other: &Body) -> (r: bool)
        ensures
            r == self.coincides(*other),
    {
        self.position.0.equals(&other.position.0) && self.position.1.equals(&other.position.1)
    }
}

/// Ordered pairs of distinct bodies, in the order in which the pairwise forces
/// are evaluated: `(i, j)` comes before `(k, l)` when `i < k`, or `i == k` and
/// `j < l`.
pub open spec fn pair_before(i: int, j: int, k: int, l: int) -> bool {
    i < k || (i == k && j < l)
}

/// `(i, j)` is a pair of distinct bodies of `bodies` that coincide.
pub open spec fn coincident_pair(bodies: Seq<Body>, i: int, j: int) -> bool {
    &&& 0 <= i < bodies.len()
    &&& 0 <= j < bodies.len()
    &&& i != j
    &&& bodies[i].coincides(bodies[j])
}

/// Some pair of distinct bodies coincides.
pub open spec fn is_degenerate(bodies: Seq<Body>) -> bool {
    exists|i: int, j: int| coincident_pair(bodies, i, j)
}

/// `(i, j)` is the first coincident pair in evaluation order.
pub open spec fn first_coincident_pair(bodies: Seq<Body>, i: int, j: int) -> bool {
    &&& coincident_pair(bodies, i, j)
    &&& forall|k: int, l: int|
        coincident_pair(bodies, k, l) ==> !pair_before(k, l, i, j)
}

/// Walks the ordered pairs of distinct bodies as the force evaluation does and
/// reports the first pair at distance zero, if there is one.
pub fn find_coincident_pair(bodies: &[Body; 3]) -> (r: Option<(usize, usize)>)
    ensures
        r is None <==> !is_degenerate(bodies@),
        r matches Some((i, j)) ==> first_coincident_pair(bodies@, i as int, j as int),
{
    let mut i: usize = 0;
    while i < 3
        invariant
            0 <= i <= 3,
            forall|k: int, l: int| coincident_pair(bodies@, k, l) ==> k >= i,
        decreases 3 - i,
    {
        let mut j: usize = 0;
        while j < 3
            invariant
                0 <= i < 3,
                0 <= j <= 3,
                forall|k: int, l: int|
                    coincident_pair(bodies@, k, l) ==> !pair_before(k, l, i as int, j as int),
            decreases 3 - j,
        {
            if i != j && bodies[i].coincides_with(&bodies[j]) {
                assert(coincident_pair(bodies@, i as int, j as int));
                return Some((i, j));
            }
            j += 1;
        }
        i += 1;
    }
    None
}

/// Every body has the mass it had before.
pub open spec fn masses_kept(before: Seq<Body>, after: Seq<Body>) -> bool {
    forall|i: int| 0 <= i < 3 ==> before[i].mass == after[i].mass
}

/// Body `i` is the first whose mass differs from what it was.
pub open spec fn first_mass_change(before: Seq<Body>, after: Seq<Body>, i: int) -> bool {
    &&& 0 <= i < 3
    &&& before[i].mass != after[i].mass
    &&& forall|k: int| 0 <= k < i ==> before[k].mass == after[k].mass
}

/// Compares the masses of two states of the system body by body and reports
/// the first body whose mass differs.
pub fn find_mass_change(before: &[Body; 3], after: &[Body; 3]) -> (r: Option<usize>)
    ensures
        r is None <==> masses_kept(before@, after@),
        r matches Some(i) ==> first_mass_change(before@, after@, i as int),
{
    let mut i: usize = 0;
    while i < 3
        invariant
            0 <= i <= 3,
            forall|k: int| 0 <= k < i ==> before@[k].mass == after@[k].mass,
        decreases 3 - i,
    {
        if before[i].mass.bits != after[i].mass.bits {
            return Some(i);
        }
        i += 1;
    }
    None
}

/// Every body's position and velocity are ordinary numbers.
pub open spec fn all_finite(bodies: Seq<Body>) -> bool {
    forall|i: int| 0 <= i < 3 ==> bodies[i].is_finite()
}

/// Body `i` is the first whose position or velocity holds a NaN or an
/// infinity.
pub open spec fn first_non_finite(bodies: Seq<Body>, i: int) -> bool {
    &&& 0 <= i < 3
    &&& !bodies[i].is_finite()
    &&& forall|k: int| 0 <= k < i ==> bodies[k].is_finite()
}

/// Looks for a NaN or an infinity in the state of the system and reports the
/// first body that holds one.
pub fn find_non_finite(bodies: &[Body; 3]) -> (r: Option<usize>)
    ensures
        r is None <==> all_finite(bodies@),
        r matches Some(i) ==> first_non_finite(bodies@, i as int),
{
    let mut i: usize = 0;
    while i < 3
        invariant
            0 <= i <= 3,
            forall|k: int| 0 <= k < i ==> bodies@[k].is_finite(),
        decreases 3 - i,
    {
        if !bodies[i].finite() {
            return Some(i);
        }
        i += 1;
    }
    None
}

/// Every body has a mass greater than zero.
pub open spec fn all_masses_positive(bodies: Seq<Body>) -> bool {
    forall|i: int| 0 <= i < 3 ==> bodies[i].has_positive_mass()
}

/// Decides whether every body has a mass greater than zero.
pub fn masses_positive(bodies: &[Body; 3]) -> (r: bool)
    ensures
        r == all_masses_positive(bodies@),
{
    let mut i: usize = 0;
    while i < 3
        invariant
            0 <= i <= 3,
            forall|k: int| 0 <= k < i ==> bodies@[k].has_positive_mass(),
        decreases 3 - i,
    {
        if !bodies[i].mass.positive() {
            return false;
        }
        i += 1;
    }
    true
}

} // verus!
