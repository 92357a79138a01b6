//! The rule that takes one sample of the flight to the next.

use vstd::prelude::*;
use crate::fixed::{floor_sqrt, isqrt, mul_scaled, offset, scaled_product, square};
use crate::state::{State, StateModel};

verus! {

/// The amount, 9.81, by which the vertical acceleration falls in every step.
pub const GRAVITY: i64 = 9_810_000;

/// The sample that follows `prev` after a time step `dt`.
///
/// Position and velocity advance by one explicit Euler step, each from the
/// previous sample's velocity and acceleration. A height that would come out
/// at or below the ground is held at zero; the vertical velocity is not: it
/// is always the previous one advanced by the previous acceleration. The mass
/// falls by the previous sample's fuel mass, forces and horizontal
/// acceleration are carried over, and the vertical acceleration falls by
/// [`GRAVITY`]. Quantities that no rule produces are zero in the new sample.
pub open spec fn advance(prev: StateModel, dt: int) -> StateModel {
    let height = prev.y + scaled_product(prev.vy, dt);
    let vx = prev.vx + scaled_product(prev.ax, dt);
    let vy = prev.vy + scaled_product(prev.ay, dt);
    StateModel {
        t: prev.t + dt,
        stage: 0,
        x: prev.x + scaled_product(prev.vx, dt),
        y: if height <= 0 { 0 } else { height },
        vx: vx,
        vy: vy,
        speed: floor_sqrt(vx * vx + vy * vy),
        mach: 0,
        mass: prev.mass - prev.fuel_mass,
        fuel_mass: 0,
        thrust: 0,
        drag: 0,
        lift: 0,
        fx: prev.fx,
        fy: prev.fy,
        ax: prev.ax,
        ay: prev.ay - GRAVITY,
        alpha: 0,
        gamma: 0,
        cl: 0,
        cd: 0,
    }
}

impl State {
    /// Advances the state by one time step `dt`. The result is the exact
    /// next sample, or `None` when one of its quantities cannot be held.
    pub fn step(&self, dt: i64) -> (next: Option<State>)
        ensures
            match next {
                Some(s) => s@ == advance(self@, dt as int),
                None => !advance(self@, dt as int).representable(),
            },
    {
        let t: i64 = offset(self.t, dt as i128)?;
        let x: i64 = offset(self.x, mul_scaled(self.vx, dt))?;
        let rise: i128 = mul_scaled(self.vy, dt);
        let y: i64 = if self.y as i128 + rise <= 0 {
            0
        } else {
            offset(self.y, rise)?
        };
        let vx: i64 = offset(self.vx, mul_scaled(self.ax, dt))?;
        let vy: i64 = offset(self.vy, mul_scaled(self.ay, dt))?;
        let root: u64 = isqrt(square(vx) + square(vy));
        if root > i64::MAX as u64 {
            return None;
        }
        let mass: i64 = self.mass.checked_sub(self.fuel_mass)?;
        let ay: i64 = self.ay.checked_sub(GRAVITY)?;
        Some(
            State {
                t: t,
                stage: 0,
                x: x,
                y: y,
                vx: vx,
                vy: vy,
                speed: root as i64,
                mach: 0,
                mass: mass,
                fuel_mass: 0,
                thrust: 0,
                drag: 0,
                lift: 0,
                fx: self.fx,
                fy: self.fy,
                ax: self.ax,
                ay: ay,
                alpha: 0,
                gamma: 0,
                cl: 0,
                cd: 0,
            },
        )
    }
}

} // verus!
