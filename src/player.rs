//! The player controller: input and timers to velocity, forces, landing and
//! the animation state that follows from the body.
use vstd::prelude::*;
use crate::body::{Body, Platform, PlatformQueue};
use crate::fixed::{clamp_i64, gain, gain_of, sat_add, sat_sub, scale, scale_of};
use crate::timer::Countdown;
use crate::{BODY_HEIGHT, GRAVITY, PLATFORM_THICKNESS, PLAYER_JUMP_STRENGTH, PLAYER_SPEED};

verus! {

/// Horizontal acceleration while a direction is held.
pub const PLAYER_ACCELERATION: u32 = 2_000_000;

/// Horizontal damping applied every tick, as the fraction
/// `PLAYER_DAMPING_NUM / PLAYER_DAMPING_DEN`.
pub const PLAYER_DAMPING_NUM: u8 = 9;

pub const PLAYER_DAMPING_DEN: u8 = 10;

/// Grace window after leaving the ground during which a jump still fires.
pub const COYOTE_TIME_US: u64 = 100_000;

/// Window during which an early jump press is remembered.
pub const JUMP_BUFFER_US: u64 = 100_000;

/// Health of a newly spawned player.
pub const PLAYER_MAX_HEALTH: i64 = 100;

/// Where a new player stands: on the first platform, whose centre is at
/// height `START_GROUND_Y`.
pub const PLAYER_START_X: i64 = 100_000;

pub const START_GROUND_Y: i64 = -250_000;

#[derive(Clone, Copy, Debug, PartialEq, Eq)]
pub enum PlayerState {
    Idle,
    Running,
    Jumping,
    Falling,
}

/// The logical buttons sampled at the start of a tick.
#[derive(Clone, Copy, Debug, PartialEq, Eq)]
pub struct PlayerInput {
    pub left: bool,
    pub right: bool,
    /// The jump button went down since the previous tick.
    pub jump_pressed: bool,
}

#[derive(Clone, Copy, Debug, PartialEq, Eq)]
pub struct Player {
    pub body: Body,
    pub coyote_time: Countdown,
    pub jump_buffer: Countdown,
    pub health: i64,
    pub state: PlayerState,
    pub facing_left: bool,
}

/// +1 when only right is held, -1 when only left is held, else 0.
pub open spec fn intent(input: PlayerInput) -> int {
    (if input.right { 1int } else { 0int }) - (if input.left { 1int } else { 0int })
}

/// The animation state of a body; being airborne takes precedence.
pub open spec fn classify(b: Body) -> PlayerState {
    if !b.is_grounded {
        if b.vy > 0 {
            PlayerState::Jumping
        } else {
            PlayerState::Falling
        }
    } else if b.vx != 0 {
        PlayerState::Running
    } else {
        PlayerState::Idle
    }
}

/// Horizontal speed after damping and clamping to the largest speed.
pub open spec fn damped(vx: int) -> int {
    let d = scale(vx, PLAYER_DAMPING_NUM as int, PLAYER_DAMPING_DEN as int);
    if d < -PLAYER_SPEED {
        -PLAYER_SPEED as int
    } else if d > PLAYER_SPEED {
        PLAYER_SPEED as int
    } else {
        d
    }
}

/// The vertical speed after gravity has acted for `dt_us` on an airborne body.
pub open spec fn fallen(vy: int, dt_us: int) -> int {
    clamp_i64(vy - gain(GRAVITY as int, dt_us))
}

impl Player {
    /// The jump buffer after ticking and after a fresh press.
    pub open spec fn buffer_after(self, input: PlayerInput, dt_us: int) -> Countdown {
        let jb = self.jump_buffer.ticked(dt_us);
        if input.jump_pressed { jb.restarted() } else { jb }
    }

    /// Whether a jump fires on this tick: both windows are still open.
    pub open spec fn jump_fires(self, input: PlayerInput, dt_us: int) -> bool {
        !self.buffer_after(input, dt_us).is_finished() && !self.coyote_time.ticked(
            dt_us,
        ).is_finished()
    }

    pub open spec fn spawn_spec() -> Player {
        Player {
            body: Body {
                x: PLAYER_START_X,
                y: (START_GROUND_Y + PLATFORM_THICKNESS / 2 + BODY_HEIGHT / 2) as i64,
                vx: 0,
                vy: 0,
                is_grounded: true,
            },
            coyote_time: Countdown { duration_us: COYOTE_TIME_US, remaining_us: COYOTE_TIME_US },
            jump_buffer: Countdown { duration_us: JUMP_BUFFER_US, remaining_us: 0 },
            health: PLAYER_MAX_HEALTH,
            state: PlayerState::Idle,
            facing_left: false,
        }
    }

    /// The player after the input step: both windows ticked, speed gained
    /// toward the held direction, a press remembered, and a jump fired while
    /// both windows are open, which closes them.
    pub open spec fn after_input(self, input: PlayerInput, dt_us: int) -> Player {
        let fires = self.jump_fires(input, dt_us);
        Player {
            body: Body {
                x: self.body.x,
                y: self.body.y,
                vx: clamp_i64(
                    self.body.vx + intent(input) * gain(PLAYER_ACCELERATION as int, dt_us),
                ) as i64,
                vy: if fires { PLAYER_JUMP_STRENGTH } else { self.body.vy },
                is_grounded: if fires { false } else { self.body.is_grounded },
            },
            coyote_time: if fires {
                self.coyote_time.ended()
            } else {
                self.coyote_time.ticked(dt_us)
            },
            jump_buffer: if fires { self.jump_buffer.ended() } else { self.buffer_after(input, dt_us) },
            health: self.health,
            state: self.state,
            facing_left: if input.left {
                true
            } else if input.right {
                false
            } else {
                self.facing_left
            },
        }
    }

    /// The player after gravity (while airborne), damping and the speed limit.
    pub open spec fn after_forces(self, dt_us: int) -> Player {
        Player {
            body: Body {
                vx: damped(self.body.vx as int) as i64,
                vy: if self.body.is_grounded {
                    self.body.vy
                } else {
                    fallen(self.body.vy as int, dt_us) as i64
                },
                ..self.body
            },
            ..self
        }
    }

    /// The player moved by its velocity.
    pub open spec fn moved(self, dt_us: int) -> Player {
        Player { body: self.body.integrated(dt_us), ..self }
    }

    /// The player after the landing pass; ending it grounded keeps the coyote
    /// window open at full length.
    pub open spec fn after_landing(self, ps: Seq<Platform>) -> Player {
        let b = self.body.resolved(ps);
        Player {
            body: b,
            coyote_time: if b.is_grounded { self.coyote_time.restarted() } else { self.coyote_time },
            ..self
        }
    }

    /// A player standing still on the first platform, with full health and
    /// no jump pending.
    pub fn spawn() -> (r: Player)
        ensures
            r == Player::spawn_spec(),
            r.body.x == PLAYER_START_X,
            r.body.bottom() == START_GROUND_Y + PLATFORM_THICKNESS / 2,
            r.body.vx == 0 && r.body.vy == 0 && r.body.is_grounded,
            r.coyote_time.duration_us == COYOTE_TIME_US,
            r.coyote_time.remaining_us == COYOTE_TIME_US,
            !r.coyote_time.is_finished(),
            r.jump_buffer.is_finished() && r.jump_buffer.duration_us == JUMP_BUFFER_US,
            r.health == PLAYER_MAX_HEALTH,
            r.state == PlayerState::Idle,
            !r.facing_left,
    {
        Player {
            body: Body {
                x: PLAYER_START_X,
                y: START_GROUND_Y + PLATFORM_THICKNESS / 2 + BODY_HEIGHT / 2,
                vx: 0,
                vy: 0,
                is_grounded: true,
            },
            coyote_time: Countdown::new(COYOTE_TIME_US),
            jump_buffer: Countdown::expired(JUMP_BUFFER_US),
            health: PLAYER_MAX_HEALTH,
            state: PlayerState::Idle,
            facing_left: false,
        }
    }

    /// Ticks both timers, accelerates toward the held direction, remembers a
    /// jump press, and fires a jump while both windows are open. A jump
    /// closes both windows, so it cannot fire again before a new press and
    /// a new landing or coyote window.
    pub fn handle_input(&mut self, input: PlayerInput, dt_us: u32)
        ensures
            *final(self) == old(self).after_input(input, dt_us as int),
    {
        self.coyote_time.tick(dt_us);
        self.jump_buffer.tick(dt_us);
        let push = gain_of(PLAYER_ACCELERATION, dt_us);
        if input.right {
            self.facing_left = false;
        }
        if input.left {
            self.facing_left = true;
        }
        let ghost g = gain(PLAYER_ACCELERATION as int, dt_us as int);
        if input.right && !input.left {
            self.body.vx = sat_add(self.body.vx, push);
            assert(intent(input) == 1);
            assert(intent(input) * g == g) by (nonlinear_arith)
                requires
                    intent(input) == 1,
            ;
        } else if input.left && !input.right {
            self.body.vx = sat_sub(self.body.vx, push);
            assert(intent(input) == -1);
            assert(intent(input) * g == -g) by (nonlinear_arith)
                requires
                    intent(input) == -1,
            ;
        } else {
            assert(intent(input) == 0);
            assert(intent(input) * g == 0) by (nonlinear_arith)
                requires
                    intent(input) == 0,
            ;
            assert(self.body.vx == clamp_i64(self.body.vx as int));
        }
        if input.jump_pressed {
            self.jump_buffer.reset();
        }
        if !self.jump_buffer.finished() && !self.coyote_time.finished() {
            self.body.vy = PLAYER_JUMP_STRENGTH;
            self.body.is_grounded = false;
            self.jump_buffer.expire();
            self.coyote_time.expire();
        }
        proof {
            let e = old(self).after_input(input, dt_us as int);
            assert(self.body == e.body);
            assert(self.coyote_time == e.coyote_time);
            assert(self.jump_buffer == e.jump_buffer);
            assert(self.facing_left == e.facing_left);
        }
    }

    /// Gravity while airborne, then horizontal damping and the speed limit.
    pub fn apply_forces(&mut self, dt_us: u32)
        ensures
            *final(self) == old(self).after_forces(dt_us as int),
    {
        if !self.body.is_grounded {
            let pull = gain_of(GRAVITY, dt_us);
            self.body.vy = sat_sub(self.body.vy, pull);
        }
        let d = scale_of(self.body.vx, PLAYER_DAMPING_NUM, PLAYER_DAMPING_DEN);
        self.body.vx = if d < -PLAYER_SPEED {
            -PLAYER_SPEED
        } else if d > PLAYER_SPEED {
            PLAYER_SPEED
        } else {
            d
        };
    }

    /// Moves the player by its velocity.
    pub fn apply_velocity(&mut self, dt_us: u32)
        ensures
            *final(self) == old(self).moved(dt_us as int),
    {
        self.body.apply_velocity(dt_us);
    }

    /// Lands the player on the platforms; a player that ends the pass on the
    /// ground has its coyote window restarted, so it can jump while standing.
    pub fn check_collisions(&mut self, platforms: &PlatformQueue)
        requires
            platforms.wf(),
        ensures
            *final(self) == old(self).after_landing(platforms@),
    {
        self.body.resolve_landings(platforms);
        if self.body.is_grounded {
            self.coyote_time.reset();
        }
    }

    /// Sets the animation state from the body.
    pub fn update_player_state(&mut self)
        ensures
            final(self).state == classify(old(self).body),
            final(self).body == old(self).body,
            final(self).coyote_time == old(self).coyote_time,
            final(self).jump_buffer == old(self).jump_buffer,
            final(self).health == old(self).health,
            final(self).facing_left == old(self).facing_left,
    {
        let new_state = if !self.body.is_grounded {
            if self.body.vy > 0 {
                PlayerState::Jumping
            } else {
                PlayerState::Falling
            }
        } else if self.body.vx != 0 {
            PlayerState::Running
        } else {
            PlayerState::Idle
        };
        self.state = new_state;
    }

    /// Stops the player when the game is paused.
    pub fn zero_player_velocity_on_pause(&mut self)
        ensures
            final(self).body.vx == 0 && final(self).body.vy == 0,
            final(self).body.x == old(self).body.x,
            final(self).body.y == old(self).body.y,
            final(self).body.is_grounded == old(self).body.is_grounded,
            final(self).coyote_time == old(self).coyote_time,
            final(self).jump_buffer == old(self).jump_buffer,
            final(self).health == old(self).health,
            final(self).state == old(self).state,
            final(self).facing_left == old(self).facing_left,
    {
        self.body.vx = 0;
        self.body.vy = 0;
    }

    /// Whether the player has died: out of health, or fallen below the
    /// bottom of the screen seen by a camera at height `camera_y`.
    pub fn check_for_death(&self, camera_y: i64) -> (dead: bool)
        ensures
            dead == (self.body.y < camera_y - SCREEN_HALF_HEIGHT || self.health <= 0),
    {
        (self.body.y as i128) < (camera_y as i128) - (SCREEN_HALF_HEIGHT as i128) || self.health
            <= 0
    }
}

/// Distance from the camera's centre to the bottom of the screen.
pub const SCREEN_HALF_HEIGHT: i64 = 400_000;

} // verus!
