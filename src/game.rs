//! The simulation driver's decisions, one logic tick at a time, and the
//! latest-wins rule by which both channels are read.
use vstd::prelude::*;

use crate::pong::{AudioWorldState, Paddle, V2, World};

verus! {

/// Length of one logic tick, in milliseconds.
pub const TICK_MS: i64 = 10;

/// Speed of the steered paddle, in millionths of a unit per millisecond.
pub const PADDLE_SPEED: i64 = 100;

/// Largest speed any body may have.
pub const VEL_LIMIT: i64 = 1_048_576;

/// Largest distance a body covers in one tick.
pub const DRIFT: i64 = VEL_LIMIT * TICK_MS;

/// Largest magnitude of the arena's bounds and the paddles' x positions.
pub const COORD_LIMIT: i64 = 1_099_511_627_776;

pub open spec fn within(v: int, lim: int) -> bool {
    -lim <= v <= lim
}

/// Keeps the newest of the values that arrived since the last poll, or the
/// current one where none did.
pub fn take_latest<T>(pending: Vec<T>, current: T) -> (r: T)
    ensures
        pending@.len() == 0 ==> r == current,
        pending@.len() > 0 ==> r == pending@.last(),
{
    let mut pending = pending;
    match pending.pop() {
        Some(x) => x,
        None => current,
    }
}

/// Left key alone steers down, right key alone up; both or neither, not at all.
pub open spec fn key_velocity(keys: [bool; 2]) -> int {
    if keys[0] && !keys[1] {
        -PADDLE_SPEED
    } else if !keys[0] && keys[1] {
        PADDLE_SPEED as int
    } else {
        0
    }
}

pub fn paddle_velocity(keys: [bool; 2]) -> (r: i64)
    ensures
        r == key_velocity(keys),
{
    if keys[0] && !keys[1] {
        -PADDLE_SPEED
    } else if !keys[0] && keys[1] {
        PADDLE_SPEED
    } else {
        0
    }
}

pub open spec fn newest_keys(keys: Option<[bool; 2]>, current: [bool; 2]) -> [bool; 2] {
    match keys {
        Some(k) => k,
        None => current,
    }
}

/// `w` with the left paddle's velocity set from the keys.
pub open spec fn steered(w: World, keys: [bool; 2]) -> World {
    World {
        ball_pos: w.ball_pos,
        ball_vel: w.ball_vel,
        y_bounds: w.y_bounds,
        x_bounds: w.x_bounds,
        paddles: [
            Paddle { x: w.paddles[0].x, ys: w.paddles[0].ys, yvel: key_velocity(keys) as i64 },
            w.paddles[1],
        ],
    }
}

/// What the driver does after a tick.
#[derive(Clone, Copy, Debug)]
pub enum TickAction {
    /// Send this state to the audio side and wait for the next tick.
    Publish(AudioWorldState),
    /// The ball has passed a goal line: stop and signal exit.
    GameOver,
    /// The key source has closed: stop and signal exit.
    Shutdown,
}

pub open spec fn paddle_in_arena(p: Paddle, y_bounds: (i64, i64)) -> bool {
    &&& p.wf()
    &&& within(p.x as int, COORD_LIMIT as int)
    &&& within(p.yvel as int, VEL_LIMIT as int)
    &&& y_bounds.0 - DRIFT <= p.ys.0
    &&& p.ys.1 <= y_bounds.1 + DRIFT
}

/// The game loop's state: the world, the last key state seen, and whether
/// the game has ended.
#[derive(Clone, Copy, Debug)]
pub struct Game {
    pub world: World,
    pub key_state: [bool; 2],
    pub over: bool,
}

impl Game {
    /// Everything stays near the arena: the ball within one tick's travel of
    /// it (and inside it horizontally while the game runs), moving back in
    /// where it is out vertically; the paddles likewise.
    pub open spec fn inv(&self) -> bool {
        let w = self.world;
        &&& w.wf()
        &&& within(w.x_bounds.0 as int, COORD_LIMIT as int)
        &&& within(w.x_bounds.1 as int, COORD_LIMIT as int)
        &&& within(w.y_bounds.0 as int, COORD_LIMIT as int)
        &&& within(w.y_bounds.1 as int, COORD_LIMIT as int)
        &&& within(w.ball_vel.x as int, VEL_LIMIT as int)
        &&& within(w.ball_vel.y as int, VEL_LIMIT as int)
        &&& within(w.ball_pos.x as int, COORD_LIMIT + DRIFT)
        &&& !self.over ==> w.x_bounds.0 <= w.ball_pos.x <= w.x_bounds.1
        &&& w.y_bounds.0 - DRIFT <= w.ball_pos.y <= w.y_bounds.1 + DRIFT
        &&& w.ball_pos.y < w.y_bounds.0 ==> w.ball_vel.y >= 0
        &&& w.ball_pos.y > w.y_bounds.1 ==> w.ball_vel.y <= 0
        &&& paddle_in_arena(w.paddles[0], w.y_bounds)
        &&& paddle_in_arena(w.paddles[1], w.y_bounds)
    }

    /// The opening position: ball in the middle moving up and to the right,
    /// in the unit arena centred vertically on 0, paddles of width 0.1 near
    /// each goal line, no key pressed.
    pub fn new() -> (r: Game)
        ensures
            r.inv(),
            !r.over,
            r.key_state == [false, false],
            r.world.ball_pos == (V2 { x: 500_000, y: 0 }),
            r.world.ball_vel == (V2 { x: 100, y: 80 }),
            r.world.x_bounds == (0i64, 1_000_000i64),
            r.world.y_bounds == (-500_000i64, 500_000i64),
            r.world.paddles[0].x == 20_000,
            r.world.paddles[0].ys == (-50_000i64, 50_000i64),
            r.world.paddles[0].yvel == 0,
            r.world.paddles[1].x == 980_000,
            r.world.paddles[1].ys == (-50_000i64, 50_000i64),
            r.world.paddles[1].yvel == 0,
    {
        let world = World {
            ball_pos: V2 { x: 500_000, y: 0 },
            ball_vel: V2 { x: 100, y: 80 },
            x_bounds: (0, 1_000_000),
            y_bounds: (-500_000, 500_000),
            paddles: [Paddle::new(20_000, 0, 100_000), Paddle::new(980_000, 0, 100_000)],
        };
        Game { world, key_state: [false, false], over: false }
    }

    /// One logic tick. A finished game stays finished; a closed key source
    /// shuts the loop down; otherwise the newest keys steer the left paddle,
    /// the world advances one tick, and either the game is over or its state
    /// is to be published.
    pub fn tick(&mut self, keys: Option<[bool; 2]>, key_source_closed: bool) -> (r: TickAction)
        requires
            old(self).inv(),
        ensures
            final(self).inv(),
            old(self).over ==> r is GameOver && *final(self) == *old(self),
            !old(self).over && key_source_closed ==> r is Shutdown && *final(self) == *old(self),
            !old(self).over && !key_source_closed ==> {
                let ks = newest_keys(keys, old(self).key_state);
                &&& final(self).key_state == ks
                &&& final(self).world == steered(old(self).world, ks).stepped(TICK_MS)
                &&& final(self).over == final(self).world.is_over()
                &&& final(self).over ==> r is GameOver
                &&& !final(self).over ==> (r matches TickAction::Publish(s) && s.describes(final(self).world))
            },
    {
        if self.over {
            return TickAction::GameOver;
        }
        if key_source_closed {
            return TickAction::Shutdown;
        }
        let ks = match keys {
            Some(k) => k,
            None => self.key_state,
        };
        self.key_state = ks;
        let left = self.world.paddles[0];
        let steered_left = Paddle { x: left.x, ys: left.ys, yvel: paddle_velocity(ks) };
        self.world.paddles = [steered_left, self.world.paddles[1]];
        assert(self.world == steered(old(self).world, ks));
        self.world.do_physics(TICK_MS);
        if self.world.game_over() {
            self.over = true;
            TickAction::GameOver
        } else {
            TickAction::Publish(self.world.to_audio_state())
        }
    }
}

} // verus!
