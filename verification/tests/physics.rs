use three_body::body::Body;
use three_body::scalar::Scalar;
use three_body::simulation::Action;
use three_body::simulation::Simulation;
use three_body::simulation::SimulationError;
use three_body::simulation::TIME_STEP;

const GRAVITATION_CONSTANT: f64 = 6.67430e-11;

fn scalar(x: f64) -> Scalar {
    Scalar { bits: x.to_bits() }
}

fn number(s: Scalar) -> f64 {
    f64::from_bits(s.bits)
}

fn body(x: f64, y: f64, mass: f64) -> Body {
    Body::new((scalar(x), scalar(y)), scalar(mass)).unwrap()
}

fn documented() -> [Body; 3] {
    [body(0.3089693008, 0.4236727692, 1.0), body(-0.5, 0.0, 10.0), body(0.5, 0.0, 1.0)]
}

/// One semi-implicit Euler step: all forces from the positions as given,
/// then velocities, then positions from the new velocities.
fn advance(bodies: [Body; 3], time_step: u32) -> [Body; 3] {
    let dt = time_step as f64;
    let mut updated = bodies;
    for i in 0..3 {
        let mass = number(bodies[i].mass);
        let mut vx = number(bodies[i].velocity.0);
        let mut vy = number(bodies[i].velocity.1);
        for j in 0..3 {
            if i != j {
                let dx = number(bodies[j].position.0) - number(bodies[i].position.0);
                let dy = number(bodies[j].position.1) - number(bodies[i].position.1);
                let r = (dx * dx + dy * dy).sqrt();
                let force = GRAVITATION_CONSTANT * (mass * number(bodies[j].mass)) / (r * r);
                let angle = dy.atan2(dx);
                vx += force * angle.cos() / mass * dt;
                vy += force * angle.sin() / mass * dt;
            }
        }
        let x = number(bodies[i].position.0) + vx * dt;
        let y = number(bodies[i].position.1) + vy * dt;
        updated[i] = bodies[i].moved((scalar(x), scalar(y)), (scalar(vx), scalar(vy)));
    }
    updated
}

fn simulate(start: [Body; 3], steps: u32, stride: u32) -> Result<Simulation, SimulationError> {
    let mut sim = Simulation::new(start, steps, TIME_STEP, stride).unwrap();
    sim.run(advance)?;
    Ok(sim)
}

fn close(found: f64, expected: f64) -> bool {
    (found - expected).abs() <= 1e-12 * expected.abs()
}

fn momentum(bodies: &[Body; 3]) -> (f64, f64) {
    let mut p = (0.0, 0.0);
    for b in bodies {
        p.0 += number(b.mass) * number(b.velocity.0);
        p.1 += number(b.mass) * number(b.velocity.1);
    }
    p
}

fn energy(bodies: &[Body; 3]) -> f64 {
    let mut e = 0.0;
    for i in 0..3 {
        let (vx, vy) = (number(bodies[i].velocity.0), number(bodies[i].velocity.1));
        e += 0.5 * number(bodies[i].mass) * (vx * vx + vy * vy);
        for j in i + 1..3 {
            let dx = number(bodies[j].position.0) - number(bodies[i].position.0);
            let dy = number(bodies[j].position.1) - number(bodies[i].position.1);
            e -= GRAVITATION_CONSTANT * number(bodies[i].mass) * number(bodies[j].mass)
                / (dx * dx + dy * dy).sqrt();
        }
    }
    e
}

#[test]
fn first_step_from_the_documented_start() {
    let sim = simulate(documented(), 1, 1).unwrap();
    let step = sim.trajectory().get(0).unwrap();
    assert_eq!(step.step_id, 0);
    assert_eq!(step.time, 0);
    let expected = [
        (
            (0.30896906800776885, 0.42367250799551637),
            (-1.1639611558000085e-08, -1.3060224182480984e-08),
        ),
        (
            (-0.4999999449429844, 1.4852580436956626e-08),
            (2.75285078022508e-09, 7.426290218478312e-10),
        ),
        (
            (0.49999968222207514, 1.126786792800535e-07),
            (-1.588889624425071e-08, 5.6339339640026745e-09),
        ),
    ];
    for i in 0..3 {
        let found = step.bodies[i];
        let ((x, y), (vx, vy)) = expected[i];
        assert!(close(number(found.position.0), x), "x of body {i}");
        assert!(close(number(found.position.1), y), "y of body {i}");
        assert!(close(number(found.velocity.0), vx), "vx of body {i}");
        assert!(close(number(found.velocity.1), vy), "vy of body {i}");
        assert_eq!(found.mass, documented()[i].mass);
    }
    assert_eq!(sim.bodies(), step.bodies);
}

#[test]
fn momentum_is_conserved_over_a_short_run() {
    let sim = simulate(documented(), 300, 1).unwrap();
    for step in sim.trajectory().as_slice() {
        let (px, py) = momentum(&step.bodies);
        assert!(px.abs() < 1e-18, "step {}: {px}", step.step_id);
        assert!(py.abs() < 1e-18, "step {}: {py}", step.step_id);
    }
}

#[test]
fn energy_stays_in_a_narrow_band_over_a_short_run() {
    let start = energy(&documented());
    let sim = simulate(documented(), 300, 1).unwrap();
    for step in sim.trajectory().as_slice() {
        let e = energy(&step.bodies);
        assert!((e - start).abs() < 1e-4 * start.abs(), "step {}: {e}", step.step_id);
    }
}

#[test]
fn bodies_started_at_one_point_are_reported_not_advanced() {
    let start = [body(-0.5, 0.0, 1.0), body(-0.5, 0.0, 10.0), body(0.5, 0.0, 1.0)];
    assert_eq!(
        simulate(start, 100, 1).err(),
        Some(SimulationError::DegenerateConfiguration { step: 0, first: 0, second: 1 })
    );
}

#[test]
fn state_that_blows_up_never_reaches_the_trajectory() {
    let start = [body(0.0, 0.0, 1.0), body(1e-200, 0.0, 10.0), body(0.5, 0.0, 1.0)];
    let mut sim = Simulation::new(start, 100, TIME_STEP, 1).unwrap();
    let bodies = match sim.next_action() {
        Ok(Action::Integrate { bodies, .. }) => bodies,
        other => panic!("{other:?}"),
    };
    let updated = advance(bodies, TIME_STEP);
    assert_eq!(sim.commit(updated), Err(SimulationError::NonFiniteState { step: 0, body: 0 }));
    assert_eq!(sim.run(advance), Err(SimulationError::NonFiniteState { step: 0, body: 0 }));
    assert_eq!(sim.trajectory().len(), 0);
    assert_eq!(sim.bodies(), start);
}

#[test]
fn run_and_step_by_step_agree() {
    let whole = simulate(documented(), 200, 3).unwrap();
    let mut sim = Simulation::new(documented(), 200, TIME_STEP, 3).unwrap();
    while let Action::Integrate { time_step, bodies, .. } = sim.next_action().unwrap() {
        sim.commit(advance(bodies, time_step)).unwrap();
    }
    assert_eq!(whole.bodies(), sim.bodies());
    assert_eq!(whole.trajectory().as_slice(), sim.trajectory().as_slice());
    assert_eq!(whole.trajectory().len(), 67);
}

#[test]
fn velocity_is_updated_before_position() {
    let sim = simulate(documented(), 1, 1).unwrap();
    let start = documented();
    let step = sim.trajectory().get(0).unwrap();
    for i in 0..3 {
        let moved = number(start[i].position.0) + number(step.bodies[i].velocity.0) * 20.0;
        assert_eq!(number(step.bodies[i].position.0), moved);
        let moved = number(start[i].position.1) + number(step.bodies[i].velocity.1) * 20.0;
        assert_eq!(number(step.bodies[i].position.1), moved);
    }
}
