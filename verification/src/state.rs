//! The state of the point mass at one instant.

use vstd::prelude::*;
use crate::fixed::in_range;

verus! {

/// One sample of the flight: every physical quantity at one instant, each a
/// fixed-point number in millionths of its unit.
#[derive(Clone, Copy, Debug, PartialEq, Eq, Structural)]
pub struct State {
    /// Elapsed time.
    pub t: i64,
    /// Marker of the vehicle's stage.
    pub stage: i64,
    /// Horizontal position.
    pub x: i64,
    /// Height above the ground.
    pub y: i64,
    /// Horizontal velocity.
    pub vx: i64,
    /// Vertical velocity.
    pub vy: i64,
    /// Magnitude of the velocity.
    pub speed: i64,
    /// Mach number.
    pub mach: i64,
    /// Total mass.
    pub mass: i64,
    /// Mass given up in the next step.
    pub fuel_mass: i64,
    /// Thrust.
    pub thrust: i64,
    /// Drag.
    pub drag: i64,
    /// Lift.
    pub lift: i64,
    /// Horizontal net force.
    pub fx: i64,
    /// Vertical net force.
    pub fy: i64,
    /// Horizontal acceleration.
    pub ax: i64,
    /// Vertical acceleration.
    pub ay: i64,
    /// Angle of attack.
    pub alpha: i64,
    /// Flight-path angle.
    pub gamma: i64,
    /// Lift coefficient.
    pub cl: i64,
    /// Drag coefficient.
    pub cd: i64,
}

/// The mathematical value of a [`State`]: the same quantities as unbounded
/// integers, so that a trajectory can be stated without regard to the width
/// of the machine's numbers.
pub struct StateModel {
    pub t: int,
    pub stage: int,
    pub x: int,
    pub y: int,
    pub vx: int,
    pub vy: int,
    pub speed: int,
    pub mach: int,
    pub mass: int,
    pub fuel_mass: int,
    pub thrust: int,
    pub drag: int,
    pub lift: int,
    pub fx: int,
    pub fy: int,
    pub ax: int,
    pub ay: int,
    pub alpha: int,
    pub gamma: int,
    pub cl: int,
    pub cd: int,
}

impl StateModel {
    /// The state in which every quantity is zero.
    pub open spec fn zero() -> StateModel {
        StateModel {
            t: 0,
            stage: 0,
            x: 0,
            y: 0,
            vx: 0,
            vy: 0,
            speed: 0,
            mach: 0,
            mass: 0,
            fuel_mass: 0,
            thrust: 0,
            drag: 0,
            lift: 0,
            fx: 0,
            fy: 0,
            ax: 0,
            ay: 0,
            alpha: 0,
            gamma: 0,
            cl: 0,
            cd: 0,
        }
    }

    /// Whether every quantity can be held in a [`State`].
    pub open spec fn representable(self) -> bool {
        &&& in_range(self.t)
        &&& in_range(self.stage)
        &&& in_range(self.x)
        &&& in_range(self.y)
        &&& in_range(self.vx)
        &&& in_range(self.vy)
        &&& in_range(self.speed)
        &&& in_range(self.mach)
        &&& in_range(self.mass)
        &&& in_range(self.fuel_mass)
        &&& in_range(self.thrust)
        &&& in_range(self.drag)
        &&& in_range(self.lift)
        &&& in_range(self.fx)
        &&& in_range(self.fy)
        &&& in_range(self.ax)
        &&& in_range(self.ay)
        &&& in_range(self.alpha)
        &&& in_range(self.gamma)
        &&& in_range(self.cl)
        &&& in_range(self.cd)
    }
}

impl View for State {
    type V = StateModel;

    open spec fn view(&self) -> StateModel {
        StateModel {
            t: self.t as int,
            stage: self.stage as int,
            x: self.x as int,
            y: self.y as int,
            vx: self.vx as int,
            vy: self.vy as int,
            speed: self.speed as int,
            mach: self.mach as int,
            mass: self.mass as int,
            fuel_mass: self.fuel_mass as int,
            thrust: self.thrust as int,
            drag: self.drag as int,
            lift: self.lift as int,
            fx: self.fx as int,
            fy: self.fy as int,
            ax: self.ax as int,
            ay: self.ay as int,
            alpha: self.alpha as int,
            gamma: self.gamma as int,
            cl: self.cl as int,
            cd: self.cd as int,
        }
    }
}

impl State {
    /// Makes the state in which every quantity is zero.
    pub fn new() -> (s: State)
        ensures
            s@ == StateModel::zero(),
    {
        State {
            t: 0,
            stage: 0,
            x: 0,
            y: 0,
            vx: 0,
            vy: 0,
            speed: 0,
            mach: 0,
            mass: 0,
            fuel_mass: 0,
            thrust: 0,
            drag: 0,
            lift: 0,
            fx: 0,
            fy: 0,
            ax: 0,
            ay: 0,
            alpha: 0,
            gamma: 0,
            cl: 0,
            cd: 0,
        }
    }
}

} // verus!
