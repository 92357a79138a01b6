//! What holds of every trajectory, proved from the definition of its
//! samples.

use vstd::prelude::*;
use vstd::arithmetic::div_mod::lemma_fundamental_div_mod;
use crate::dynamics::{advance, GRAVITY};
use crate::fixed::{floor_sqrt, is_floor_sqrt, lemma_floor_sqrt_exists, scaled_product};
use crate::integrator::{is_trajectory, sample, sample_count_of, valid_parameters};
use crate::state::{State, StateModel};

verus! {

/// A state is determined by its mathematical value, and that value can
/// always be held.
pub proof fn law_state_is_its_value(a: State, b: State)
    ensures
        a@.representable(),
        a@ == b@ <==> a == b,
{
}

/// The number of samples is the horizon divided by the time step, rounded
/// up: it is the least number of steps that reach the horizon.
pub proof fn law_sample_count_is_ceiling(dt: int, t_max: int)
    requires
        valid_parameters(dt, t_max),
    ensures
        sample_count_of(dt, t_max) >= 0,
        (sample_count_of(dt, t_max) - 1) * dt < t_max <= sample_count_of(dt, t_max) * dt,
{
    let q = t_max / dt;
    let r = t_max % dt;
    lemma_fundamental_div_mod(t_max, dt);
    assert(0 <= r < dt);
    assert(q >= 0) by (nonlinear_arith)
        requires
            dt > 0,
            t_max >= 0,
            t_max == dt * q + r,
            0 <= r < dt,
    ;
    assert((q + 1) * dt == dt * q + dt && (q - 1) * dt == dt * q - dt && q * dt == dt * q)
        by (nonlinear_arith);
}

/// Time runs at the pace of the time step: the sample at index `i` lies `i`
/// steps after the initial state.
pub proof fn law_time_is_uniform(initial: StateModel, dt: int, i: nat)
    ensures
        sample(initial, dt, i).t == initial.t + i * dt,
    decreases i,
{
    if i > 0 {
        law_time_is_uniform(initial, dt, (i - 1) as nat);
        assert(i * dt == (i - 1) * dt + dt) by (nonlinear_arith);
    }
}

/// With a positive time step the samples are strictly ordered by time.
pub proof fn law_time_strictly_increases(initial: StateModel, dt: int, i: nat, j: nat)
    requires
        dt > 0,
        i < j,
    ensures
        sample(initial, dt, i).t < sample(initial, dt, j).t,
{
    law_time_is_uniform(initial, dt, i);
    law_time_is_uniform(initial, dt, j);
    assert(i * dt < j * dt) by (nonlinear_arith)
        requires
            dt > 0,
            i < j,
    ;
}

/// A step never leaves the height below the ground: where the height would
/// come out at or below zero it is zero. The vertical velocity is untouched
/// by this and is the previous one advanced by the previous acceleration.
pub proof fn law_ground_holds_height_only(prev: StateModel, dt: int)
    ensures
        advance(prev, dt).y >= 0,
        advance(prev, dt).y == 0 <==> prev.y + scaled_product(prev.vy, dt) <= 0,
        advance(prev, dt).y > 0 ==> advance(prev, dt).y == prev.y + scaled_product(prev.vy, dt),
        advance(prev, dt).vy == prev.vy + scaled_product(prev.ay, dt),
{
}

/// After the initial state no sample lies below the ground.
pub proof fn law_height_is_never_negative(initial: StateModel, dt: int, i: nat)
    requires
        i > 0 || initial.y >= 0,
    ensures
        sample(initial, dt, i).y >= 0,
{
}

/// Over a positive time step a quantity that is not positive contributes
/// nothing positive.
pub proof fn lemma_scaled_product_not_positive(a: int, dt: int)
    requires
        a <= 0,
        dt > 0,
    ensures
        scaled_product(a, dt) <= 0,
{
    assert(a * dt <= 0) by (nonlinear_arith)
        requires
            a <= 0,
            dt > 0,
    ;
}

/// The ground holds what has come to rest on it. From a sample that lies on
/// the ground, or below it, and that neither rises nor is accelerated
/// upwards, every later sample lies on the ground, and the vertical velocity
/// only falls.
pub proof fn law_ground_is_absorbing(initial: StateModel, dt: int, i: nat, j: nat)
    requires
        dt > 0,
        i < j,
        sample(initial, dt, i).y <= 0,
        sample(initial, dt, i).vy <= 0,
        sample(initial, dt, i).ay <= 0,
    ensures
        sample(initial, dt, j).y == 0,
        sample(initial, dt, j).vy <= sample(initial, dt, i).vy,
        sample(initial, dt, j).ay < 0,
    decreases j,
{
    let before = sample(initial, dt, (j - 1) as nat);
    if i < j - 1 {
        law_ground_is_absorbing(initial, dt, i, (j - 1) as nat);
    }
    lemma_scaled_product_not_positive(before.vy, dt);
    lemma_scaled_product_not_positive(before.ay, dt);
}

/// The mass falls once, by the initial fuel mass, and stays there: no later
/// sample holds fuel to give up.
pub proof fn law_mass_after_first_step(initial: StateModel, dt: int, i: nat)
    requires
        i > 0,
    ensures
        sample(initial, dt, i).mass == initial.mass - initial.fuel_mass,
        sample(initial, dt, i).fuel_mass == 0,
    decreases i,
{
    if i > 1 {
        law_mass_after_first_step(initial, dt, (i - 1) as nat);
    } else {
        assert(sample(initial, dt, 0) == initial);
    }
}

/// Without fuel the mass never changes.
pub proof fn law_mass_is_constant_without_fuel(initial: StateModel, dt: int, i: nat)
    requires
        initial.fuel_mass == 0,
    ensures
        sample(initial, dt, i).mass == initial.mass,
{
    if i > 0 {
        law_mass_after_first_step(initial, dt, i);
    }
}

/// With a fuel mass that is not negative the mass never grows from one
/// sample to the next.
pub proof fn law_mass_never_grows(initial: StateModel, dt: int, i: nat)
    requires
        initial.fuel_mass >= 0,
    ensures
        sample(initial, dt, i + 1).mass <= sample(initial, dt, i).mass,
{
    law_mass_after_first_step(initial, dt, i + 1);
    if i > 0 {
        law_mass_after_first_step(initial, dt, i);
    }
}

/// Gravity accumulates: the vertical acceleration falls by [`GRAVITY`] in
/// every step, so after `i` steps it has fallen by `i` times that.
pub proof fn law_gravity_accumulates(initial: StateModel, dt: int, i: nat)
    ensures
        sample(initial, dt, i).ay == initial.ay - GRAVITY * i,
    decreases i,
{
    if i > 0 {
        law_gravity_accumulates(initial, dt, (i - 1) as nat);
    }
}

/// The net force and the horizontal acceleration are carried through the
/// whole trajectory, so the horizontal velocity grows by the same amount in
/// every step.
pub proof fn law_horizontal_motion_is_uniform(initial: StateModel, dt: int, i: nat)
    ensures
        sample(initial, dt, i).fx == initial.fx,
        sample(initial, dt, i).fy == initial.fy,
        sample(initial, dt, i).ax == initial.ax,
        sample(initial, dt, i).vx == initial.vx + i * scaled_product(initial.ax, dt),
    decreases i,
{
    if i > 0 {
        law_horizontal_motion_is_uniform(initial, dt, (i - 1) as nat);
        let gain = scaled_product(initial.ax, dt);
        assert(i * gain == (i - 1) * gain + gain) by (nonlinear_arith);
    }
}

/// After the initial state the speed of every sample is the magnitude of
/// its velocity, rounded down to the resolution.
pub proof fn law_speed_is_magnitude(initial: StateModel, dt: int, i: nat)
    requires
        i > 0,
    ensures
        is_floor_sqrt(
            sample(initial, dt, i).vx * sample(initial, dt, i).vx + sample(initial, dt, i).vy
                * sample(initial, dt, i).vy,
            sample(initial, dt, i).speed,
        ),
{
    let s = sample(initial, dt, i);
    assert(s.vx * s.vx + s.vy * s.vy >= 0) by (nonlinear_arith);
    lemma_floor_sqrt_exists(s.vx * s.vx + s.vy * s.vy);
    assert(s.speed == floor_sqrt(s.vx * s.vx + s.vy * s.vy));
}

/// A trajectory starts in the initial state, and each of its samples is
/// made from the one before it alone.
pub proof fn law_samples_are_chained(
    states: Seq<State>,
    initial: StateModel,
    dt: int,
    n: int,
    i: int,
)
    requires
        is_trajectory(states, initial, dt, n),
        0 <= i < n,
    ensures
        i == 0 ==> states[i]@ == initial,
        i > 0 ==> states[i]@ == advance(states[i - 1]@, dt),
{
    if i > 0 {
        assert(states[i - 1]@ == sample(initial, dt, (i - 1) as nat));
    }
}

/// A trajectory does not depend on its horizon: the samples up to a nearer
/// horizon are the first samples up to a farther one.
pub proof fn law_nearer_horizon_is_prefix(
    near: Seq<State>,
    far: Seq<State>,
    initial: StateModel,
    dt: int,
    m: int,
    n: int,
)
    requires
        0 <= m <= n,
        is_trajectory(near, initial, dt, m),
        is_trajectory(far, initial, dt, n),
    ensures
        near == far.subrange(0, m),
{
    assert forall|i: int| 0 <= i < m implies near[i] == far[i] by {
        law_state_is_its_value(near[i], far[i]);
    }
    assert(near =~= far.subrange(0, m));
}

} // verus!
