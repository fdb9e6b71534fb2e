//! The world of one session and the step function that advances it by one
//! tick, in a fixed order: input, forces, integration, landing, damage and
//! death, animation, then the platform stream and the enemy population.
use vstd::prelude::*;
use crate::animation::{player_frames, player_frames_of, Animation, FRAME_PERIOD_US};
use crate::body::PlatformQueue;
use crate::enemy::{
    animate_zombie, animated_all, any_touches, apply_velocity, draw_spawn_jitter,
    landed_enemies, manage_zombie_population, moved_all, populated, steered_all,
    zombie_movement_ai, zombie_platform_collision, zombie_player_collision, Enemy,
    CONTACT_DAMAGE,
};
use crate::fixed::{clamp_i64, displacement, gain};
use crate::laws::population_approaches_target;
use crate::platform::{initial_platforms, manage_platforms, setup_platforms, streamed, PlatformRolls};
use crate::player::{
    classify, damped, intent, Player, PlayerInput, PlayerState, PLAYER_ACCELERATION, SCREEN_HALF_HEIGHT,
};
use crate::state::{Distance, GameConfig};
use crate::timer::AnimationTimer;

verus! {

/// The random values one tick may use.
#[derive(Clone, Copy, Debug, PartialEq, Eq)]
pub struct TickRolls {
    pub platform: PlatformRolls,
    pub enemy_jitter: u32,
}

impl TickRolls {
    pub fn draw() -> (r: TickRolls) {
        let platform = PlatformRolls::draw();
        let enemy_jitter = draw_spawn_jitter();
        TickRolls { platform, enemy_jitter }
    }
}

pub struct World {
    pub player: Player,
    pub player_animation: Animation,
    pub enemies: Vec<Enemy>,
    pub platforms: PlatformQueue,
    pub config: GameConfig,
    pub distance: Distance,
    pub camera_x: i64,
    pub camera_y: i64,
}

impl World {
    pub open spec fn wf(&self) -> bool {
        self.platforms.wf()
    }

    /// A fresh session: the player on the first of the two starting
    /// platforms, no enemies, the camera at the origin.
    pub fn new(config: GameConfig) -> (r: World)
        ensures
            r.wf(),
            r.player == Player::spawn_spec(),
            r.enemies@.len() == 0,
            r.platforms@ == initial_platforms(),
            r.config == config,
            r.distance.0 == 0,
            r.camera_x == 0 && r.camera_y == 0,
            ({
                let a = r.player_animation;
                &&& a.indices == player_frames(PlayerState::Idle)
                &&& a.index == player_frames(PlayerState::Idle).first
                &&& a.timer == AnimationTimer::new_spec(FRAME_PERIOD_US)
            }),
    {
        let mut platforms = PlatformQueue::new();
        setup_platforms(&mut platforms);
        let player = Player::spawn();
        let player_animation = Animation::new(player_frames_of(player.state));
        World {
            player,
            player_animation,
            enemies: Vec::new(),
            platforms,
            config,
            distance: Distance(0),
            camera_x: 0,
            camera_y: 0,
        }
    }

    /// Tears the session down and starts a new one with the same settings.
    pub fn cleanup_game_session(&mut self)
        ensures
            final(self).wf(),
            final(self).player == Player::spawn_spec(),
            final(self).enemies@.len() == 0,
            final(self).platforms@ == initial_platforms(),
            final(self).config == old(self).config,
            final(self).distance.0 == 0,
            final(self).camera_x == 0 && final(self).camera_y == 0,
            ({
                let a = final(self).player_animation;
                &&& a.indices == player_frames(PlayerState::Idle)
                &&& a.index == player_frames(PlayerState::Idle).first
                &&& a.timer == AnimationTimer::new_spec(FRAME_PERIOD_US)
            }),
    {
        *self = World::new(self.config);
    }

    /// Advances the world by `dt_us` microseconds with the sampled `input`;
    /// `rolls` are the random values for any platform or enemy spawned.
    /// Returns whether the player died on this tick.
    pub fn tick(&mut self, input: PlayerInput, dt_us: u32, rolls: TickRolls) -> (dead: bool)
        requires
            old(self).wf(),
        ensures
            final(self).wf(),
            ({
                let dt = dt_us as int;
                let ps = old(self).platforms@;
                let p1 = old(self).player.after_input(input, dt).after_forces(dt);
                let e1 = steered_all(old(self).enemies@, p1.body, ps, dt);
                let p3 = p1.moved(dt).after_landing(ps);
                let e3 = landed_enemies(moved_all(e1, dt), ps);
                let health = if any_touches(p3.body, e3) {
                    clamp_i64(p3.health - CONTACT_DAMAGE) as i64
                } else {
                    p3.health
                };
                let state = classify(p3.body);
                &&& final(self).player == (Player { health, state, ..p3 })
                &&& final(self).player_animation == old(self).player_animation.animated(
                    player_frames(state),
                    dt,
                )
                &&& final(self).enemies@ == populated(
                    animated_all(e3, dt),
                    p3.body.x as int,
                    old(self).config.max_enemies,
                    rolls.enemy_jitter,
                )
                &&& final(self).platforms@ == streamed(ps, p3.body.x as int, rolls.platform)
                &&& final(self).camera_x == p3.body.x
                &&& final(self).distance.0 == (if p3.body.x > old(self).distance.0 {
                    p3.body.x
                } else {
                    old(self).distance.0
                })
                &&& dead == (p3.body.y < old(self).camera_y - SCREEN_HALF_HEIGHT || health <= 0)
            }),
            final(self).camera_y == old(self).camera_y,
            final(self).config == old(self).config,
            final(self).player.body.vx == damped(
                clamp_i64(
                    old(self).player.body.vx + intent(input) * gain(
                        PLAYER_ACCELERATION as int,
                        dt_us as int,
                    ),
                ),
            ),
            final(self).player.body.x == clamp_i64(
                old(self).player.body.x + clamp_i64(
                    displacement(final(self).player.body.vx as int, dt_us as int),
                ),
            ),
            final(self).enemies@.len() <= old(self).enemies@.len() || final(self).enemies@.len()
                <= old(self).config.max_enemies,
    {
        self.player.handle_input(input, dt_us);
        self.player.apply_forces(dt_us);
        zombie_movement_ai(&mut self.enemies, &self.player.body, &self.platforms, dt_us);

        self.player.apply_velocity(dt_us);
        apply_velocity(&mut self.enemies, dt_us);

        proof {
            self.player.body.ungrounded().landing_keeps_horizontal(self.platforms@);
        }
        self.player.check_collisions(&self.platforms);
        zombie_platform_collision(&mut self.enemies, &self.platforms);

        zombie_player_collision(&mut self.player, &self.enemies);
        self.camera_x = self.player.body.x;
        let dead = self.player.check_for_death(self.camera_y);

        self.player.update_player_state();
        let frames = player_frames_of(self.player.state);
        self.player_animation.animate(frames, dt_us);
        animate_zombie(&mut self.enemies, dt_us);

        self.distance.update_distance(self.player.body.x);
        manage_platforms(&mut self.platforms, self.player.body.x, rolls.platform);
        let ghost mid = self.enemies@;
        manage_zombie_population(
            &mut self.enemies,
            self.player.body.x,
            self.config.max_enemies,
            rolls.enemy_jitter,
        );
        proof {
            population_approaches_target(
                mid,
                self.player.body.x as int,
                self.config.max_enemies,
                rolls.enemy_jitter,
            );
        }
        dead
    }
}

} // verus!
