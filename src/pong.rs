//! Ball and paddle physics in fixed point.
//!
//! Positions are in millionths of an arena unit (`SCALE` per unit), velocities
//! in millionths of a unit per millisecond, and time steps in milliseconds.
use vstd::prelude::*;


verus! {

/// Whether an unbounded integer is representable as an `i64`.
pub open spec fn fits(v: int) -> bool {
    i64::MIN <= v <= i64::MAX
}

/// A point or a velocity in the plane.
#[derive(Clone, Copy, Debug, PartialEq, Eq, Structural)]
pub struct V2 {
    pub x: i64,
    pub y: i64,
}

/// What the audio side needs of the world: three heights to be turned into
/// pitches (ball, left paddle centre, right paddle centre) and the ball's
/// horizontal position, used as the pulse duty cycle.
#[derive(Clone, Copy, Debug)]
pub struct AudioWorldState {
    pub ys: [i64; 3],
    pub dc: i64,
}

impl AudioWorldState {
    /// This state was read off `w`.
    pub open spec fn describes(&self, w: World) -> bool {
        &&& self.ys[0] == w.ball_pos.y
        &&& self.ys[1] == w.paddles[0].mid_spec()
        &&& self.ys[2] == w.paddles[1].mid_spec()
        &&& self.dc == w.ball_pos.x
    }
}

#[derive(Clone, Copy, Debug)]
pub struct Paddle {
    pub x: i64,
    /// Lower and upper end of the paddle.
    pub ys: (i64, i64),
    pub yvel: i64,
}

impl Paddle {
    pub open spec fn wf(&self) -> bool {
        self.ys.0 <= self.ys.1 && fits(self.ys.1 - self.ys.0)
    }

    pub open spec fn width(&self) -> int {
        self.ys.1 - self.ys.0
    }

    pub open spec fn mid_spec(&self) -> int {
        self.ys.0 + (self.ys.1 - self.ys.0) / 2
    }

    pub open spec fn holds_y(&self, y: int) -> bool {
        self.ys.0 <= y < self.ys.1
    }

    /// The velocity after clamping: a paddle flush with or above the top of
    /// the arena may not move up, one flush with or below the bottom may not
    /// move down.
    pub open spec fn clamped_vel(&self, y_bounds: (i64, i64)) -> int {
        let v1 = if self.ys.1 >= y_bounds.1 && self.yvel > 0 { 0 } else { self.yvel as int };
        if self.ys.0 <= y_bounds.0 && v1 < 0 { 0 } else { v1 }
    }

    /// Both ends moved by the unclamped velocity stay representable.
    pub open spec fn step_fits(&self, dt: i64) -> bool {
        &&& fits(self.yvel * dt)
        &&& fits(self.ys.0 + self.yvel * dt)
        &&& fits(self.ys.1 + self.yvel * dt)
    }

    pub open spec fn stepped(self, dt: i64, y_bounds: (i64, i64)) -> Paddle {
        let v = self.clamped_vel(y_bounds);
        Paddle {
            x: self.x,
            ys: ((self.ys.0 + v * dt) as i64, (self.ys.1 + v * dt) as i64),
            yvel: v as i64,
        }
    }

    pub fn midpoint(&self) -> (r: i64)
        requires
            self.wf(),
        ensures
            r == self.mid_spec(),
    {
        self.ys.0 + (self.ys.1 - self.ys.0) / 2
    }

    pub fn intersects_y(&self, pos: V2) -> (r: bool)
        ensures
            r == self.holds_y(pos.y as int),
    {
        self.ys.0 <= pos.y && pos.y < self.ys.1
    }

    /// A paddle at `x` of the given width centred on `y` (the lower half takes
    /// the smaller share of an odd width), at rest.
    pub fn new(x: i64, y: i64, width: i64) -> (r: Self)
        requires
            width >= 0,
            fits(y - width / 2),
            fits(y + (width - width / 2)),
        ensures
            r.x == x,
            r.ys.0 == y - width / 2,
            r.ys.1 == y + (width - width / 2),
            r.yvel == 0,
            r.wf(),
            r.width() == width,
    {
        let half = width / 2;
        Paddle { x, ys: (y - half, y + (width - half)), yvel: 0 }
    }

    /// Clamps the velocity against the arena's vertical bounds, then moves
    /// the paddle by it.
    pub fn do_physics(&mut self, dt: i64, y_bounds: (i64, i64))
        requires
            old(self).step_fits(dt),
        ensures
            *final(self) == old(self).stepped(dt, y_bounds),
            old(self).wf() ==> final(self).wf(),
            final(self).width() == old(self).width(),
    {
        if self.ys.1 >= y_bounds.1 && self.yvel > 0 {
            self.yvel = 0;
        }
        if self.ys.0 <= y_bounds.0 && self.yvel < 0 {
            self.yvel = 0;
        }
        let d = self.yvel * dt;
        self.ys.0 = self.ys.0 + d;
        self.ys.1 = self.ys.1 + d;
    }
}

#[derive(Clone, Copy, Debug)]
pub struct World {
    pub ball_pos: V2,
    pub ball_vel: V2,
    pub y_bounds: (i64, i64),
    pub x_bounds: (i64, i64),
    /// Index 0 is the left paddle, index 1 the right one.
    pub paddles: [Paddle; 2],
}

/// Whether a ball at `pos` with horizontal velocity `vx` bounces off the left paddle.
pub open spec fn hits_left(p: Paddle, pos: V2, vx: int) -> bool {
    pos.x < p.x && p.holds_y(pos.y as int) && vx < 0
}

/// Whether a ball at `pos` with horizontal velocity `vx` bounces off the right paddle.
pub open spec fn hits_right(p: Paddle, pos: V2, vx: int) -> bool {
    pos.x > p.x && p.holds_y(pos.y as int) && vx > 0
}

/// Whether a ball at height `y` moving with vertical velocity `vy` bounces
/// off the top or bottom of the arena.
pub open spec fn hits_wall(y_bounds: (i64, i64), y: int, vy: int) -> bool {
    (y < y_bounds.0 && vy < 0) || (y > y_bounds.1 && vy > 0)
}

impl World {
    /// The arena's bounds are ordered, the left paddle lies left of the
    /// right one, and both paddles are well formed.
    pub open spec fn wf(&self) -> bool {
        &&& self.x_bounds.0 <= self.x_bounds.1
        &&& self.y_bounds.0 <= self.y_bounds.1
        &&& self.paddles[0].x <= self.paddles[1].x
        &&& self.paddles[0].wf()
        &&& self.paddles[1].wf()
    }

    /// One step of `dt` stays representable.
    pub open spec fn step_fits(&self, dt: i64) -> bool {
        &&& fits(self.ball_vel.x * dt)
        &&& fits(self.ball_vel.y * dt)
        &&& fits(self.ball_pos.x + self.ball_vel.x * dt)
        &&& fits(self.ball_pos.y + self.ball_vel.y * dt)
        &&& self.ball_vel.x > i64::MIN
        &&& self.ball_vel.y > i64::MIN
        &&& self.paddles[0].step_fits(dt)
        &&& self.paddles[1].step_fits(dt)
    }

    pub open spec fn moved_ball(&self, dt: i64) -> V2 {
        V2 {
            x: (self.ball_pos.x + self.ball_vel.x * dt) as i64,
            y: (self.ball_pos.y + self.ball_vel.y * dt) as i64,
        }
    }

    /// Horizontal velocity after the paddle checks, left paddle first.
    pub open spec fn bounced_vx(&self, dt: i64) -> int {
        let pos = self.moved_ball(dt);
        let v1 = if hits_left(self.paddles[0], pos, self.ball_vel.x as int) {
            -self.ball_vel.x
        } else {
            self.ball_vel.x as int
        };
        if hits_right(self.paddles[1], pos, v1) {
            -v1
        } else {
            v1
        }
    }

    pub open spec fn bounced_vy(&self, dt: i64) -> int {
        if hits_wall(self.y_bounds, self.moved_ball(dt).y as int, self.ball_vel.y as int) {
            -self.ball_vel.y
        } else {
            self.ball_vel.y as int
        }
    }

    /// The world after one physics step of `dt`.
    pub open spec fn stepped(self, dt: i64) -> World {
        World {
            ball_pos: self.moved_ball(dt),
            ball_vel: V2 { x: self.bounced_vx(dt) as i64, y: self.bounced_vy(dt) as i64 },
            y_bounds: self.y_bounds,
            x_bounds: self.x_bounds,
            paddles: [
                self.paddles[0].stepped(dt, self.y_bounds),
                self.paddles[1].stepped(dt, self.y_bounds),
            ],
        }
    }

    pub open spec fn is_over(&self) -> bool {
        self.ball_pos.x < self.x_bounds.0 || self.ball_pos.x > self.x_bounds.1
    }

    /// Moves the ball, bounces it off the paddles and the arena's top and
    /// bottom, then moves the paddles.
    pub fn do_physics(&mut self, dt: i64)
        requires
            old(self).step_fits(dt),
        ensures
            *final(self) == old(self).stepped(dt),
            old(self).wf() ==> final(self).wf(),
    {
        self.ball_pos = V2 {
            x: self.ball_pos.x + self.ball_vel.x * dt,
            y: self.ball_pos.y + self.ball_vel.y * dt,
        };
        let pos = self.ball_pos;
        if pos.x < self.paddles[0].x && self.paddles[0].intersects_y(pos) && self.ball_vel.x < 0 {
            self.ball_vel.x = -self.ball_vel.x;
        }
        if pos.x > self.paddles[1].x && self.paddles[1].intersects_y(pos) && self.ball_vel.x > 0 {
            self.ball_vel.x = -self.ball_vel.x;
        }
        if (pos.y < self.y_bounds.0 && self.ball_vel.y < 0) || (pos.y > self.y_bounds.1
            && self.ball_vel.y > 0) {
            self.ball_vel.y = -self.ball_vel.y;
        }
        let y_bounds = self.y_bounds;
        let mut left = self.paddles[0];
        let mut right = self.paddles[1];
        left.do_physics(dt, y_bounds);
        right.do_physics(dt, y_bounds);
        self.paddles = [left, right];
        assert(self.paddles =~= old(self).stepped(dt).paddles);
    }

    /// The ball has passed a goal line.
    pub fn game_over(&self) -> (r: bool)
        ensures
            r == self.is_over(),
    {
        self.ball_pos.x < self.x_bounds.0 || self.ball_pos.x > self.x_bounds.1
    }

    /// The heights to be pitched and the duty cycle, read off the world.
    pub fn to_audio_state(&self) -> (r: AudioWorldState)
        requires
            self.wf(),
        ensures
            r.describes(*self),
    {
        let ys = [self.ball_pos.y, self.paddles[0].midpoint(), self.paddles[1].midpoint()];
        AudioWorldState { ys, dc: self.ball_pos.x }
    }
}

/// A paddle flush with or past the top of the arena does not move further
/// up in a step, and one flush with or past the bottom does not move further
/// down.
pub proof fn lemma_paddle_stays_in(p: Paddle, dt: i64, y_bounds: (i64, i64))
    requires
        p.step_fits(dt),
        dt >= 0,
        y_bounds.0 <= y_bounds.1,
    ensures
        p.ys.1 >= y_bounds.1 ==> p.stepped(dt, y_bounds).yvel <= 0 && p.stepped(dt, y_bounds).ys.1 <= p.ys.1,
        p.ys.0 <= y_bounds.0 ==> p.stepped(dt, y_bounds).yvel >= 0 && p.stepped(dt, y_bounds).ys.0 >= p.ys.0,
{
    let v = p.clamped_vel(y_bounds);
    if v <= 0 {
        assert(v * dt <= 0) by (nonlinear_arith)
            requires
                v <= 0,
                dt >= 0,
        ;
    }
    if v >= 0 {
        assert(v * dt >= 0) by (nonlinear_arith)
            requires
                v >= 0,
                dt >= 0,
        ;
    }
}

/// A ball at the left paddle's x, inside its extent and moving straight left,
/// leaves one step moving straight right at the same speed.
pub proof fn lemma_left_paddle_reflects(w: World, v: i64, dt: i64)
    requires
        w.wf(),
        w.step_fits(dt),
        v > 0,
        dt > 0,
        w.ball_pos.x == w.paddles[0].x,
        w.paddles[0].holds_y(w.ball_pos.y as int),
        w.ball_vel == (V2 { x: -v as i64, y: 0 }),
    ensures
        w.stepped(dt).ball_vel == (V2 { x: v, y: 0 }),
{
    assert(w.ball_vel.x * dt < 0) by (nonlinear_arith)
        requires
            w.ball_vel.x < 0,
            dt > 0,
    ;
    let pos = w.moved_ball(dt);
    assert(pos.x < w.paddles[0].x);
    assert(hits_left(w.paddles[0], pos, w.ball_vel.x as int));
    assert(w.bounced_vx(dt) == v);
}

/// A ball at the right paddle's x, inside its extent and moving straight right,
/// leaves one step moving straight left at the same speed.
pub proof fn lemma_right_paddle_reflects(w: World, v: i64, dt: i64)
    requires
        w.wf(),
        w.step_fits(dt),
        v > 0,
        dt > 0,
        w.ball_pos.x == w.paddles[1].x,
        w.paddles[1].holds_y(w.ball_pos.y as int),
        w.ball_vel == (V2 { x: v, y: 0 }),
    ensures
        w.stepped(dt).ball_vel == (V2 { x: -v as i64, y: 0 }),
{
    assert(v * dt > 0) by (nonlinear_arith)
        requires
            v > 0,
            dt > 0,
    ;
    let pos = w.moved_ball(dt);
    assert(pos.x > w.paddles[1].x);
    assert(!hits_left(w.paddles[0], pos, w.ball_vel.x as int));
    assert(hits_right(w.paddles[1], pos, w.ball_vel.x as int));
    assert(w.bounced_vx(dt) == -v);
}

/// The game is over as soon as the ball is any distance left of the left goal
/// line, and not while it stands on that line.
pub proof fn lemma_game_over_boundary(w: World, eps: int)
    requires
        w.wf(),
        eps > 0,
    ensures
        w.ball_pos.x == w.x_bounds.0 - eps ==> w.is_over(),
        w.ball_pos.x == w.x_bounds.0 ==> !w.is_over(),
{
}

} // verus!
