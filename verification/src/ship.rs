//! The player-controlled ship: a rigid body with quadratic linear drag,
//! proportional angular drag, thrust and turn inputs, speed and
//! angular-speed clamps, and a wraparound position.

use vstd::prelude::*;
use crate::fixed::spec_add;
use crate::fixed::spec_sub;
use crate::fixed::spec_fmul;
use crate::fixed::spec_fdiv;
use crate::fixed::sat_add;
use crate::fixed::sat_sub;
use crate::fixed::fmul;
use crate::fixed::fdiv;
use crate::math::Vec2D;
use crate::math::spec_vadd;
use crate::math::spec_vsub;
use crate::math::spec_scale;
use crate::math::spec_rotate;
use crate::math::spec_dot;
use crate::math::spec_len;
use crate::math::spec_clip;
use crate::input::Inputs;
use crate::input::InputIndex;
use crate::input::spec_is_down;
use crate::input::spec_flag;
use crate::game::Config;

verus! {

/// The player's ship. `angle` is the facing in microradians; `dead`
/// ships still integrate but are skipped by rendering and collisions.
#[derive(Clone, Copy, Debug, PartialEq, Eq, Structural)]
pub struct Ship {
    pub pos: Vec2D,
    pub speed: Vec2D,
    pub angle: i64,
    pub angular_speed: i64,
    pub dead: bool,
}

/// Velocity after quadratic drag: the speed loses
/// `speed * |speed|^2 * drag * dt`.
pub open spec fn spec_ship_drag(speed: Vec2D, c: Config) -> Vec2D {
    let d = spec_fmul(spec_dot(speed, speed), c.drag);
    spec_vsub(speed, spec_scale(speed, spec_fmul(d, c.delta_t)))
}

/// Thrust direction from the forward/backward flags: exclusive-or, in
/// units of the acceleration.
pub open spec fn spec_accel_dir(inp: Inputs) -> int {
    let f = spec_is_down(spec_flag(inp, InputIndex::Forward));
    let b = spec_is_down(spec_flag(inp, InputIndex::Backward));
    if f && !b {
        1
    } else if !f && b {
        -1
    } else {
        0
    }
}

/// Turn direction from the left/right flags: exclusive-or.
pub open spec fn spec_rotate_dir(inp: Inputs) -> int {
    let l = spec_is_down(spec_flag(inp, InputIndex::Left));
    let r = spec_is_down(spec_flag(inp, InputIndex::Right));
    if l && !r {
        -1
    } else if !l && r {
        1
    } else {
        0
    }
}

/// Velocity clamped to the speed limit, direction preserved.
pub open spec fn spec_clamp_speed(speed: Vec2D, c: Config) -> Vec2D {
    let l = spec_len(speed);
    if l > c.speed_limit {
        spec_scale(speed, spec_fdiv(c.speed_limit, l))
    } else {
        speed
    }
}

/// Angular speed clamped into `[-angular_limit, angular_limit]`.
pub open spec fn spec_clamp_angular(w: i64, c: Config) -> i64 {
    let neg = spec_sub(0, c.angular_limit);
    let m = if w > c.angular_limit {
        c.angular_limit
    } else {
        w
    };
    if m < neg {
        neg
    } else {
        m
    }
}

/// One integration step of the ship, in the fixed order: linear drag,
/// angular drag, thrust, turning, both clamps, position wraparound, and
/// only then the position and angle integration (so the position can
/// leave the field by up to one step per tick).
pub open spec fn spec_ship_step(s: Ship, inp: Inputs, c: Config) -> Ship {
    let speed1 = spec_ship_drag(s.speed, c);
    let w1 = spec_sub(s.angular_speed, spec_fmul(spec_fmul(s.angular_speed, c.angular_drag), c.delta_t));
    let ad = spec_accel_dir(inp);
    let speed2 = if ad == 0 {
        speed1
    } else {
        let amount = if ad == 1 {
            spec_fmul(c.acceleration, c.delta_t)
        } else {
            spec_fmul(crate::fixed::sat_i64(-c.acceleration), c.delta_t)
        };
        spec_vadd(speed1, spec_rotate(Vec2D { x: amount, y: 0i64 }, s.angle))
    };
    let rd = spec_rotate_dir(inp);
    let w2 = if rd == 0 {
        w1
    } else if rd == 1 {
        spec_add(w1, spec_fmul(c.angular_accel, c.delta_t))
    } else {
        spec_sub(w1, spec_fmul(c.angular_accel, c.delta_t))
    };
    let speed3 = spec_clamp_speed(speed2, c);
    let w3 = spec_clamp_angular(w2, c);
    let pos1 = spec_clip(s.pos, c.field_size);
    let pos2 = spec_vadd(pos1, spec_scale(speed3, c.delta_t));
    let angle2 = spec_add(s.angle, spec_fmul(w3, c.delta_t));
    Ship { pos: pos2, speed: speed3, angle: angle2, angular_speed: w3, dead: s.dead }
}

impl Ship {
    /// A ship at the origin, at rest, facing along the x axis, alive.
    pub fn new() -> (r: Ship)
        ensures
            r == (Ship {
                pos: Vec2D { x: 0i64, y: 0i64 },
                speed: Vec2D { x: 0i64, y: 0i64 },
                angle: 0i64,
                angular_speed: 0i64,
                dead: false,
            }),
    {
        Ship {
            pos: Vec2D { x: 0, y: 0 },
            speed: Vec2D { x: 0, y: 0 },
            angle: 0,
            angular_speed: 0,
            dead: false,
        }
    }

    /// Advance the ship by one tick under the current inputs.
    pub fn tick(&mut self, inputs: &Inputs, config: &Config)
        requires
            config.wf(),
        ensures
            *final(self) == spec_ship_step(*old(self), *inputs, *config),
    {
        let d = fmul(self.speed.dot(&self.speed), config.drag);
        self.speed = self.speed.sub(self.speed.scale(fmul(d, config.delta_t)));

        let angular_drag = fmul(self.angular_speed, config.angular_drag);
        self.angular_speed = sat_sub(self.angular_speed, fmul(angular_drag, config.delta_t));

        let forward = inputs.is_down(InputIndex::Forward);
        let backward = inputs.is_down(InputIndex::Backward);
        if forward != backward {
            let base = if forward {
                config.acceleration
            } else {
                sat_sub(0, config.acceleration)
            };
            let amount = fmul(base, config.delta_t);
            let accel = Vec2D { x: amount, y: 0 }.rotate(self.angle);
            self.speed = self.speed.add(accel);
        }

        let left = inputs.is_down(InputIndex::Left);
        let right = inputs.is_down(InputIndex::Right);
        if left != right {
            let amount = fmul(config.angular_accel, config.delta_t);
            if right {
                self.angular_speed = sat_add(self.angular_speed, amount);
            } else {
                self.angular_speed = sat_sub(self.angular_speed, amount);
            }
        }

        let speed = self.speed.len();
        if speed > config.speed_limit {
            self.speed = self.speed.scale(fdiv(config.speed_limit, speed));
        }
        let neg_limit = sat_sub(0, config.angular_limit);
        if self.angular_speed > config.angular_limit {
            self.angular_speed = config.angular_limit;
        }
        if self.angular_speed < neg_limit {
            self.angular_speed = neg_limit;
        }

        self.pos.clip(&config.field_size);

        self.pos = self.pos.add(self.speed.scale(config.delta_t));
        self.angle = sat_add(self.angle, fmul(self.angular_speed, config.delta_t));
    }
}

} // verus!
