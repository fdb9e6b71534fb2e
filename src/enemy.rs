//! Enemies: pursuit steering with a ground probe, landing, contact damage to
//! the player, and a population kept near its configured size.
use vstd::prelude::*;
use crate::animation::{enemy_frames, enemy_frames_of, Animation, AnimationIndices};
use crate::body::{Body, Platform, PlatformQueue};
use crate::fixed::{clamp_i64, gain_of, sat_sub};
use crate::geometry::{boxes_overlap, boxes_overlap_exec, spans_overlap_exec};
use crate::player::{fallen, Player};
use crate::random::random_u32;
use crate::{BODY_HEIGHT, BODY_WIDTH, ENEMY_JUMP_STRENGTH, ENEMY_SPEED, GRAVITY, PLATFORM_THICKNESS};

verus! {

/// An enemy below this height is removed.
pub const ENEMY_DESPAWN_Y: i64 = -400_000;

/// New enemies appear this far behind the player, give or take the jitter,
/// at height `ENEMY_SPAWN_Y`.
pub const ENEMY_SPAWN_OFFSET: i64 = 500_000;

pub const ENEMY_SPAWN_JITTER: i64 = 100_000;

pub const ENEMY_SPAWN_Y: i64 = 200_000;

/// How far past its own edge the ground probe looks, and how far below the feet.
pub const PROBE_REACH: i64 = 10_000;

pub const PROBE_DROP: i64 = 5_000;

/// Side of the square ground probe.
pub const PROBE_SIZE: i64 = 5_000;

/// Health lost by the player on a tick in which an enemy touches it.
pub const CONTACT_DAMAGE: i64 = 1;

#[derive(Clone, Copy, Debug, PartialEq, Eq)]
pub struct Enemy {
    pub body: Body,
    pub facing_left: bool,
    pub animation: Animation,
}

/// -1, 0 or +1: the direction from an enemy at `ex` to the player at `px`.
pub open spec fn chase_dir(px: int, ex: int) -> int {
    if px > ex {
        1
    } else if px < ex {
        -1
    } else {
        0
    }
}

/// Whether the probe ahead of `e`, in direction `dir`, meets platform `p`.
pub open spec fn probe_hits(e: Body, dir: int, p: Platform) -> bool {
    boxes_overlap(
        e.x + dir * (BODY_WIDTH / 2 + PROBE_REACH),
        e.y - BODY_HEIGHT / 2 - PROBE_DROP,
        PROBE_SIZE as int,
        PROBE_SIZE as int,
        p.x as int,
        p.y as int,
        p.width as int,
        PLATFORM_THICKNESS as int,
    )
}

pub open spec fn ground_ahead(e: Body, dir: int, ps: Seq<Platform>) -> bool {
    exists|i: int| 0 <= i < ps.len() && probe_hits(e, dir, #[trigger] ps[i])
}

/// A grounded enemy jumps when the player is more than a body height above
/// it, or when there is no ground ahead.
pub open spec fn wants_jump(e: Body, target: Body, ps: Seq<Platform>) -> bool {
    target.y > e.y + BODY_HEIGHT || !ground_ahead(e, chase_dir(target.x as int, e.x as int), ps)
}

pub open spec fn has_fallen(e: Enemy) -> bool {
    e.body.y < ENEMY_DESPAWN_Y
}

/// The enemies that have not fallen, in their order.
pub open spec fn survivors(s: Seq<Enemy>) -> Seq<Enemy>
    decreases s.len(),
{
    if s.len() == 0 {
        s
    } else if has_fallen(s.last()) {
        survivors(s.drop_last())
    } else {
        survivors(s.drop_last()).push(s.last())
    }
}

/// Where a new enemy appears for a player at `player_x`.
pub open spec fn spawn_x(player_x: int, jitter: u32) -> int {
    clamp_i64(
        player_x - ENEMY_SPAWN_OFFSET + (jitter as int) % (2 * ENEMY_SPAWN_JITTER + 1)
            - ENEMY_SPAWN_JITTER,
    )
}

/// The enemies after one population step: the fallen ones are removed and,
/// while fewer than `max_enemies` remain, exactly one is added.
pub open spec fn populated(s: Seq<Enemy>, player_x: int, max_enemies: u32, jitter: u32) -> Seq<
    Enemy,
> {
    let k = survivors(s);
    if k.len() < max_enemies {
        k.push(Enemy::spawned(spawn_x(player_x, jitter) as i64, ENEMY_SPAWN_Y))
    } else {
        k
    }
}

/// Every enemy of `s` after a pursuit step toward `target`.
pub open spec fn steered_all(s: Seq<Enemy>, target: Body, ps: Seq<Platform>, dt_us: int) -> Seq<
    Enemy,
> {
    Seq::new(s.len(), |i: int| s[i].steered(target, ps, dt_us))
}

/// Every enemy of `s` moved by its velocity.
pub open spec fn moved_all(s: Seq<Enemy>, dt_us: int) -> Seq<Enemy> {
    Seq::new(s.len(), |i: int| Enemy { body: s[i].body.integrated(dt_us), ..s[i] })
}

/// Every enemy of `s` after the landing pass.
pub open spec fn landed_enemies(s: Seq<Enemy>, ps: Seq<Platform>) -> Seq<Enemy> {
    Seq::new(s.len(), |i: int| Enemy { body: s[i].body.resolved(ps), ..s[i] })
}

/// Every enemy of `s` with its animation stepped.
pub open spec fn animated_all(s: Seq<Enemy>, dt_us: int) -> Seq<Enemy> {
    Seq::new(
        s.len(),
        |i: int|
            Enemy {
                animation: s[i].animation.animated(enemy_frames(s[i].body.is_grounded), dt_us),
                ..s[i]
            },
    )
}

/// Whether the player's box and an enemy's box overlap.
pub open spec fn touches(player: Body, e: Enemy) -> bool {
    boxes_overlap(
        player.x as int,
        player.y as int,
        BODY_WIDTH as int,
        BODY_HEIGHT as int,
        e.body.x as int,
        e.body.y as int,
        BODY_WIDTH as int,
        BODY_HEIGHT as int,
    )
}

pub open spec fn any_touches(player: Body, s: Seq<Enemy>) -> bool {
    exists|i: int| 0 <= i < s.len() && touches(player, #[trigger] s[i])
}

impl Enemy {
    pub open spec fn spawned(x: i64, y: i64) -> Enemy {
        Enemy {
            body: Body { x, y, vx: 0, vy: 0, is_grounded: false },
            facing_left: false,
            animation: Animation {
                indices: AnimationIndices { first: 13, last: 13 },
                index: 13,
                timer: crate::timer::AnimationTimer::new_spec(crate::animation::FRAME_PERIOD_US),
            },
        }
    }

    /// The enemy after one pursuit step toward `target`.
    pub open spec fn steered(self, target: Body, ps: Seq<Platform>, dt_us: int) -> Enemy {
        let b = self.body;
        let vy = if b.is_grounded { b.vy as int } else { fallen(b.vy as int, dt_us) };
        let dir = chase_dir(target.x as int, b.x as int);
        let facing_left = if dir > 0 {
            false
        } else if dir < 0 {
            true
        } else {
            self.facing_left
        };
        let jumps = b.is_grounded && wants_jump(b, target, ps);
        Enemy {
            body: Body {
                x: b.x,
                y: b.y,
                vx: (dir * ENEMY_SPEED) as i64,
                vy: if jumps { ENEMY_JUMP_STRENGTH } else { vy as i64 },
                is_grounded: b.is_grounded && !jumps,
            },
            facing_left,
            animation: self.animation,
        }
    }
}

/// A new enemy at `(x, y)`, airborne, showing its first airborne frame.
pub fn spawn_zombie(x: i64, y: i64) -> (r: Enemy)
    ensures
        r == Enemy::spawned(x, y),
{
    Enemy {
        body: Body { x, y, vx: 0, vy: 0, is_grounded: false },
        facing_left: false,
        animation: Animation::new(enemy_frames_of(false)),
    }
}

fn probe_hits_exec(e: &Body, dir: i64, p: &Platform) -> (r: bool)
    requires
        -1 <= dir <= 1,
    ensures
        r == probe_hits(*e, dir as int, *p),
{
    let reach = (BODY_WIDTH / 2 + PROBE_REACH) as i128;
    let offset: i128 = if dir > 0 {
        reach
    } else if dir < 0 {
        -reach
    } else {
        0
    };
    let px = (e.x as i128) + offset;
    let py = (e.y as i128) - (BODY_HEIGHT / 2) as i128 - PROBE_DROP as i128;
    spans_overlap_exec(px, PROBE_SIZE as i128, p.x as i128, p.width as i128)
        && spans_overlap_exec(py, PROBE_SIZE as i128, p.y as i128, PLATFORM_THICKNESS as i128)
}

fn ground_ahead_exec(e: &Body, dir: i64, platforms: &PlatformQueue) -> (r: bool)
    requires
        -1 <= dir <= 1,
    ensures
        r == ground_ahead(*e, dir as int, platforms@),
{
    let n = platforms.0.len();
    let mut i: usize = 0;
    while i < n
        invariant
            n == platforms@.len(),
            0 <= i <= n,
            -1 <= dir <= 1,
            forall|j: int| 0 <= j < i ==> !probe_hits(*e, dir as int, #[trigger] platforms@[j]),
        decreases n - i,
    {
        if probe_hits_exec(e, dir, &platforms.0[i]) {
            return true;
        }
        i = i + 1;
    }
    false
}

impl Enemy {
    /// Gravity while airborne, a chase speed toward the player with no
    /// inertia, facing the chase direction, and a jump from the ground when
    /// the player is well above or the ground ahead ends.
    pub fn steer(&mut self, target: &Body, platforms: &PlatformQueue, dt_us: u32)
        ensures
            *final(self) == old(self).steered(*target, platforms@, dt_us as int),
    {
        if !self.body.is_grounded {
            let pull = gain_of(GRAVITY, dt_us);
            self.body.vy = sat_sub(self.body.vy, pull);
        }
        let dir: i64 = if target.x > self.body.x {
            1
        } else if target.x < self.body.x {
            -1
        } else {
            0
        };
        self.body.vx = dir * ENEMY_SPEED;
        if dir > 0 {
            self.facing_left = false;
        } else if dir < 0 {
            self.facing_left = true;
        }
        if self.body.is_grounded {
            let mut should_jump = (target.y as i128) > (self.body.y as i128) + BODY_HEIGHT as i128;
            if !ground_ahead_exec(&self.body, dir, platforms) {
                should_jump = true;
            }
            if should_jump {
                self.body.vy = ENEMY_JUMP_STRENGTH;
                self.body.is_grounded = false;
            }
        }
    }
}

/// Steers every enemy toward the player.
pub fn zombie_movement_ai(
    enemies: &mut Vec<Enemy>,
    target: &Body,
    platforms: &PlatformQueue,
    dt_us: u32,
)
    ensures
        final(enemies)@ == steered_all(old(enemies)@, *target, platforms@, dt_us as int),
{
    let n = enemies.len();
    let mut i: usize = 0;
    while i < n
        invariant
            n == old(enemies)@.len(),
            enemies@.len() == n,
            0 <= i <= n,
            forall|j: int|
                0 <= j < i ==> #[trigger] enemies@[j] == old(enemies)@[j].steered(
                    *target,
                    platforms@,
                    dt_us as int,
                ),
            forall|j: int| i <= j < n ==> #[trigger] enemies@[j] == old(enemies)@[j],
        decreases n - i,
    {
        let mut e = enemies[i];
        e.steer(target, platforms, dt_us);
        enemies.set(i, e);
        i = i + 1;
    }
    assert(enemies@ =~= steered_all(old(enemies)@, *target, platforms@, dt_us as int));
}

/// Moves every enemy by its velocity.
pub fn apply_velocity(enemies: &mut Vec<Enemy>, dt_us: u32)
    ensures
        final(enemies)@ == moved_all(old(enemies)@, dt_us as int),
{
    let n = enemies.len();
    let mut i: usize = 0;
    while i < n
        invariant
            n == old(enemies)@.len(),
            enemies@.len() == n,
            0 <= i <= n,
            forall|j: int|
                0 <= j < i ==> #[trigger] enemies@[j] == (Enemy {
                    body: old(enemies)@[j].body.integrated(dt_us as int),
                    ..old(enemies)@[j]
                }),
            forall|j: int| i <= j < n ==> #[trigger] enemies@[j] == old(enemies)@[j],
        decreases n - i,
    {
        let mut e = enemies[i];
        e.body.apply_velocity(dt_us);
        enemies.set(i, e);
        i = i + 1;
    }
    assert(enemies@ =~= moved_all(old(enemies)@, dt_us as int));
}

/// Lands every enemy on the platforms, with the same one-way rule as the player.
pub fn zombie_platform_collision(enemies: &mut Vec<Enemy>, platforms: &PlatformQueue)
    requires
        platforms.wf(),
    ensures
        final(enemies)@ == landed_enemies(old(enemies)@, platforms@),
{
    let n = enemies.len();
    let mut i: usize = 0;
    while i < n
        invariant
            n == old(enemies)@.len(),
            enemies@.len() == n,
            0 <= i <= n,
            platforms.wf(),
            forall|j: int|
                0 <= j < i ==> #[trigger] enemies@[j] == (Enemy {
                    body: old(enemies)@[j].body.resolved(platforms@),
                    ..old(enemies)@[j]
                }),
            forall|j: int| i <= j < n ==> #[trigger] enemies@[j] == old(enemies)@[j],
        decreases n - i,
    {
        let mut e = enemies[i];
        e.body.resolve_landings(platforms);
        enemies.set(i, e);
        i = i + 1;
    }
    assert(enemies@ =~= landed_enemies(old(enemies)@, platforms@));
}

/// Contact damage: the player loses one unit of health on a tick in which
/// at least one enemy touches it, however many do.
pub fn zombie_player_collision(player: &mut Player, enemies: &Vec<Enemy>)
    ensures
        final(player).health == (if any_touches(old(player).body, enemies@) {
            clamp_i64(old(player).health - CONTACT_DAMAGE)
        } else {
            old(player).health as int
        }),
        final(player).body == old(player).body,
        final(player).coyote_time == old(player).coyote_time,
        final(player).jump_buffer == old(player).jump_buffer,
        final(player).state == old(player).state,
        final(player).facing_left == old(player).facing_left,
{
    let n = enemies.len();
    let mut i: usize = 0;
    while i < n
        invariant
            n == enemies@.len(),
            0 <= i <= n,
            *player == *old(player),
            forall|j: int| 0 <= j < i ==> !touches(player.body, #[trigger] enemies@[j]),
        decreases n - i,
    {
        let e = &enemies[i];
        if boxes_overlap_exec(
            player.body.x,
            player.body.y,
            BODY_WIDTH,
            BODY_HEIGHT,
            e.body.x,
            e.body.y,
            BODY_WIDTH,
            BODY_HEIGHT,
        ) {
            player.health = sat_sub(player.health, CONTACT_DAMAGE);
            return;
        }
        i = i + 1;
    }
}

/// Steps every enemy's animation: running frames on the ground, one frame
/// in the air.
pub fn animate_zombie(enemies: &mut Vec<Enemy>, dt_us: u32)
    ensures
        final(enemies)@ == animated_all(old(enemies)@, dt_us as int),
{
    let n = enemies.len();
    let mut i: usize = 0;
    while i < n
        invariant
            n == old(enemies)@.len(),
            enemies@.len() == n,
            0 <= i <= n,
            forall|j: int|
                0 <= j < i ==> #[trigger] enemies@[j] == (Enemy {
                    animation: old(enemies)@[j].animation.animated(
                        enemy_frames(old(enemies)@[j].body.is_grounded),
                        dt_us as int,
                    ),
                    ..old(enemies)@[j]
                }),
            forall|j: int| i <= j < n ==> #[trigger] enemies@[j] == old(enemies)@[j],
        decreases n - i,
    {
        let mut e = enemies[i];
        let target = enemy_frames_of(e.body.is_grounded);
        e.animation.animate(target, dt_us);
        enemies.set(i, e);
        i = i + 1;
    }
    assert(enemies@ =~= animated_all(old(enemies)@, dt_us as int));
}

/// Removes the enemies that fell below the despawn height and, while fewer
/// than `max_enemies` remain, spawns one behind the player; `jitter` is a
/// raw random value that places it.
pub fn manage_zombie_population(
    enemies: &mut Vec<Enemy>,
    player_x: i64,
    max_enemies: u32,
    jitter: u32,
)
    ensures
        final(enemies)@ == populated(old(enemies)@, player_x as int, max_enemies, jitter),
{
    let ghost s = enemies@;
    let mut kept: Vec<Enemy> = Vec::new();
    let n = enemies.len();
    let mut i: usize = 0;
    while i < n
        invariant
            n == s.len(),
            *enemies == *old(enemies),
            s == old(enemies)@,
            0 <= i <= n,
            kept@ == survivors(s.subrange(0, i as int)),
        decreases n - i,
    {
        let e = enemies[i];
        proof {
            assert(s.subrange(0, i as int + 1).drop_last() =~= s.subrange(0, i as int));
        }
        if e.body.y >= ENEMY_DESPAWN_Y {
            kept.push(e);
        }
        i = i + 1;
    }
    proof {
        assert(s.subrange(0, n as int) =~= s);
    }
    if kept.len() < max_enemies as usize {
        let x_wide = (player_x as i128) - ENEMY_SPAWN_OFFSET as i128 + (jitter % (2
            * ENEMY_SPAWN_JITTER as u32 + 1)) as i128 - ENEMY_SPAWN_JITTER as i128;
        let x: i64 = if x_wide < i64::MIN as i128 {
            i64::MIN
        } else {
            x_wide as i64
        };
        kept.push(spawn_zombie(x, ENEMY_SPAWN_Y));
    }
    *enemies = kept;
}

/// Raw random value for placing a new enemy.
pub fn draw_spawn_jitter() -> (r: u32) {
    random_u32()
}

} // verus!
