use fuzzy_runner::animation::{player_frames_of, Animation, AnimationIndices};
use fuzzy_runner::body::{Body, Platform, PlatformQueue};
use fuzzy_runner::enemy::{
    manage_zombie_population, spawn_zombie, zombie_player_collision, Enemy, ENEMY_DESPAWN_Y,
};
use fuzzy_runner::fixed::{displacement_of, gain_of, sat_add, scale_of};
use fuzzy_runner::platform::{manage_platforms, setup_platforms, spawn_platform, PlatformRolls};
use fuzzy_runner::player::{Player, PlayerInput, PlayerState, COYOTE_TIME_US, JUMP_BUFFER_US};
use fuzzy_runner::state::{
    game_over_reset_timer, game_over_timer, handle_menu_button_actions,
    handle_settings_menu_actions, toggle_pause_state, Distance, GameConfig, GameState,
    MenuButtonAction, SettingsButtonAction,
};
use fuzzy_runner::timer::{AnimationTimer, Countdown};
use fuzzy_runner::world::{TickRolls, World};
use fuzzy_runner::{ENEMY_JUMP_STRENGTH, ENEMY_SPEED, GRAVITY, PLAYER_JUMP_STRENGTH, PLAYER_SPEED};

const FRAME_US: u32 = 16_667;

const NO_INPUT: PlayerInput = PlayerInput { left: false, right: false, jump_pressed: false };

fn rolls() -> TickRolls {
    TickRolls { platform: PlatformRolls { gap: 0, height: 0, width: 0 }, enemy_jitter: 100_000 }
}

fn start_platforms() -> PlatformQueue {
    let mut q = PlatformQueue::new();
    setup_platforms(&mut q);
    q
}

fn grounded_at(x: i64, vx: i64) -> Player {
    let mut p = Player::spawn();
    p.body.x = x;
    p.body.vx = vx;
    p
}

#[test]
fn player_at_rest_stays_put_for_a_second() {
    let mut world = World::new(GameConfig::default());
    let start = world.player.body;
    for _ in 0..60 {
        let dead = world.tick(NO_INPUT, FRAME_US, rolls());
        assert!(!dead);
    }
    assert_eq!(world.player.body.x, start.x);
    assert_eq!(world.player.body.y, start.y);
    assert_eq!(world.player.state, PlayerState::Idle);
    assert_eq!(world.player.health, 100);
}

#[test]
fn jump_press_on_the_ground_sets_jump_speed() {
    let mut p = Player::spawn();
    assert_eq!(p.coyote_time.remaining_us, COYOTE_TIME_US);
    assert_eq!(p.jump_buffer.duration_us, JUMP_BUFFER_US);
    p.handle_input(PlayerInput { left: false, right: false, jump_pressed: true }, FRAME_US);
    assert_eq!(p.body.vy, PLAYER_JUMP_STRENGTH);
    assert!(!p.body.is_grounded);
}

#[test]
fn no_jump_without_a_press() {
    let mut p = Player::spawn();
    p.handle_input(NO_INPUT, FRAME_US);
    assert_eq!(p.body.vy, 0);
    assert!(p.body.is_grounded);
}

#[test]
fn jump_does_not_fire_twice_from_one_press() {
    let mut p = Player::spawn();
    p.handle_input(PlayerInput { left: false, right: false, jump_pressed: true }, FRAME_US);
    assert_eq!(p.body.vy, PLAYER_JUMP_STRENGTH);
    assert!(p.jump_buffer.finished());
    p.body.vy = 0;
    p.body.is_grounded = true;
    p.handle_input(NO_INPUT, 1);
    assert_eq!(p.body.vy, 0);
}

#[test]
fn early_press_is_buffered_until_landing() {
    let platforms = start_platforms();
    let mut p = Player::spawn();
    p.coyote_time.expire();
    p.body.is_grounded = false;
    p.body.y = -205_000;
    p.body.vy = -100_000;
    p.handle_input(PlayerInput { left: false, right: false, jump_pressed: true }, FRAME_US);
    assert_eq!(p.body.vy, -100_000);
    p.check_collisions(&platforms);
    assert!(p.body.is_grounded);
    assert_eq!(p.coyote_time.remaining_us, COYOTE_TIME_US);
    p.handle_input(NO_INPUT, FRAME_US);
    assert_eq!(p.body.vy, PLAYER_JUMP_STRENGTH);
}

#[test]
fn enemy_population_fills_one_per_tick() {
    let mut world = World::new(GameConfig { max_enemies: 3 });
    assert_eq!(world.enemies.len(), 0);
    world.tick(NO_INPUT, FRAME_US, rolls());
    assert_eq!(world.enemies.len(), 1);
    world.tick(NO_INPUT, FRAME_US, rolls());
    assert_eq!(world.enemies.len(), 2);
    world.tick(NO_INPUT, FRAME_US, rolls());
    assert_eq!(world.enemies.len(), 3);
    world.tick(NO_INPUT, FRAME_US, rolls());
    assert_eq!(world.enemies.len(), 3);
}

#[test]
fn fallen_enemy_is_replaced_on_the_same_tick() {
    let mut fallen = spawn_zombie(0, -450_000);
    fallen.body.is_grounded = false;
    let mut enemies = vec![fallen];
    manage_zombie_population(&mut enemies, 100_000, 1, 100_000);
    assert_eq!(enemies.len(), 1);
    assert_eq!(enemies[0].body.y, 200_000);
    assert_eq!(enemies[0].body.x, 100_000 - 500_000);
    assert!(enemies[0].body.y >= ENEMY_DESPAWN_Y);
}

#[test]
fn population_spawn_position_uses_jitter() {
    let mut enemies: Vec<Enemy> = Vec::new();
    manage_zombie_population(&mut enemies, 0, 2, 0);
    assert_eq!(enemies[0].body.x, -600_000);
    manage_zombie_population(&mut enemies, 0, 2, 200_000);
    assert_eq!(enemies[1].body.x, -400_000);
    assert_eq!(enemies.len(), 2);
}

#[test]
fn population_above_target_is_not_culled_or_grown() {
    let mut enemies: Vec<Enemy> = (0..5).map(|i| spawn_zombie(i * 1000, 0)).collect();
    manage_zombie_population(&mut enemies, 0, 3, 0);
    assert_eq!(enemies.len(), 5);
}

#[test]
fn damage_is_one_unit_however_many_enemies_touch() {
    let mut p = grounded_at(0, 0);
    p.body.y = 0;
    let enemies = vec![spawn_zombie(10_000, 0), spawn_zombie(-10_000, 0), spawn_zombie(0, 5_000)];
    zombie_player_collision(&mut p, &enemies);
    assert_eq!(p.health, 99);
    zombie_player_collision(&mut p, &enemies);
    assert_eq!(p.health, 98);
}

#[test]
fn touching_edges_deal_no_damage() {
    let mut p = grounded_at(0, 0);
    p.body.y = 0;
    let enemies = vec![spawn_zombie(50_000, 0), spawn_zombie(0, -80_000)];
    zombie_player_collision(&mut p, &enemies);
    assert_eq!(p.health, 100);
}

#[test]
fn damping_shrinks_speed_every_tick_to_rest() {
    let mut p = grounded_at(0, 100_000);
    p.handle_input(NO_INPUT, FRAME_US);
    p.apply_forces(FRAME_US);
    assert_eq!(p.body.vx, 90_000);
    let mut last = p.body.vx;
    for _ in 0..200 {
        p.handle_input(NO_INPUT, FRAME_US);
        p.apply_forces(FRAME_US);
        assert!(p.body.vx.abs() < last.abs() || last == 0);
        last = p.body.vx;
    }
    assert_eq!(p.body.vx, 0);
    let mut q = grounded_at(0, -7);
    q.apply_forces(FRAME_US);
    assert_eq!(q.body.vx, -6);
}

#[test]
fn holding_right_accelerates_then_caps_speed() {
    let mut p = grounded_at(0, 0);
    p.handle_input(PlayerInput { left: false, right: true, jump_pressed: false }, FRAME_US);
    assert_eq!(p.body.vx, 33_334);
    assert!(!p.facing_left);
    p.apply_forces(FRAME_US);
    assert_eq!(p.body.vx, 30_000);
    let mut q = grounded_at(0, 1_000_000);
    q.apply_forces(FRAME_US);
    assert_eq!(q.body.vx, PLAYER_SPEED);
    let mut r = grounded_at(0, 0);
    r.handle_input(PlayerInput { left: true, right: true, jump_pressed: false }, FRAME_US);
    assert_eq!(r.body.vx, 0);
    assert!(r.facing_left);
}

#[test]
fn gravity_acts_only_in_the_air() {
    let mut p = grounded_at(0, 0);
    p.apply_forces(FRAME_US);
    assert_eq!(p.body.vy, 0);
    p.body.is_grounded = false;
    p.apply_forces(FRAME_US);
    assert_eq!(p.body.vy, -26_667);
    assert_eq!(gain_of(GRAVITY, 1_000_000), 1_600_000);
}

#[test]
fn fixed_point_formulas() {
    assert_eq!(displacement_of(30_000, FRAME_US), 500);
    assert_eq!(displacement_of(-30_000, FRAME_US), -500);
    assert_eq!(displacement_of(i64::MAX, u32::MAX), i64::MAX);
    assert_eq!(displacement_of(i64::MIN, u32::MAX), i64::MIN);
    assert_eq!(sat_add(i64::MAX, 1), i64::MAX);
    assert_eq!(scale_of(-19, 9, 10), -17);
    assert_eq!(scale_of(19, 9, 10), 17);
}

#[test]
fn velocity_moves_the_body() {
    let mut p = grounded_at(0, 60_000);
    p.body.vy = -120_000;
    p.apply_velocity(500_000);
    assert_eq!(p.body.x, 30_000);
    assert_eq!(p.body.y, -200_000 - 60_000);
}

#[test]
fn falling_body_lands_on_top_surface() {
    let platforms = start_platforms();
    let mut b = Body { x: 0, y: -205_000, vx: 0, vy: -100_000, is_grounded: false };
    b.resolve_landings(&platforms);
    assert_eq!(b.y, -200_000);
    assert_eq!(b.vy, 0);
    assert!(b.is_grounded);
    assert!(b.y - 40_000 >= -250_000 + 10_000);
}

#[test]
fn rising_body_passes_through_platform() {
    let platforms = start_platforms();
    let mut b = Body { x: 0, y: -230_000, vx: 0, vy: 10, is_grounded: true };
    b.resolve_landings(&platforms);
    assert_eq!(b.y, -230_000);
    assert_eq!(b.vy, 10);
    assert!(!b.is_grounded);
}

#[test]
fn body_beside_platform_is_not_grounded() {
    let platforms = start_platforms();
    let mut b = Body { x: -425_000, y: -205_000, vx: 0, vy: -1, is_grounded: true };
    b.resolve_landings(&platforms);
    assert_eq!(b.y, -205_000);
    assert!(!b.is_grounded);
}

#[test]
fn landing_resets_coyote_time() {
    let platforms = start_platforms();
    let mut p = Player::spawn();
    p.coyote_time.expire();
    p.body.is_grounded = false;
    p.body.y = -201_000;
    p.body.vy = -5;
    p.check_collisions(&platforms);
    assert_eq!(p.body.y, -200_000);
    assert_eq!(p.coyote_time.remaining_us, COYOTE_TIME_US);
    p.coyote_time.tick(50_000);
    p.check_collisions(&platforms);
    assert!(p.body.is_grounded);
    assert_eq!(p.coyote_time.remaining_us, COYOTE_TIME_US);
}

#[test]
fn setup_lays_out_two_platforms_once() {
    let mut q = PlatformQueue::new();
    setup_platforms(&mut q);
    assert_eq!(q.0.len(), 2);
    assert_eq!(q.0[0], spawn_platform(0, -250_000, 800_000));
    assert_eq!(q.0[1], Platform { x: 500_000, y: -150_000, width: 200_000 });
    setup_platforms(&mut q);
    assert_eq!(q.0.len(), 2);
}

#[test]
fn stream_is_still_when_view_is_covered() {
    let mut q = start_platforms();
    manage_platforms(&mut q, 100_000, PlatformRolls { gap: 1, height: 2, width: 3 });
    assert_eq!(q.0.len(), 2);
}

#[test]
fn stream_appends_one_platform_ahead() {
    let mut q = start_platforms();
    manage_platforms(&mut q, 300_000, PlatformRolls { gap: 7, height: 200_001, width: 150_002 });
    assert_eq!(q.0.len(), 3);
    assert_eq!(q.0[2], Platform { x: 700_007, y: -250_000, width: 100_001 });
    let mut r = start_platforms();
    manage_platforms(&mut r, 300_000, PlatformRolls { gap: 150_000, height: 200_000, width: 150_000 });
    assert_eq!(r.0[2], Platform { x: 850_000, y: -50_000, width: 250_000 });
}

#[test]
fn stream_drops_one_behind_and_adds_one_ahead() {
    let mut q = start_platforms();
    manage_platforms(&mut q, 900_000, PlatformRolls { gap: 0, height: 0, width: 0 });
    assert_eq!(q.0.len(), 2);
    assert_eq!(q.0[0].x, 500_000);
    assert_eq!(q.0[1], Platform { x: 700_000, y: -250_000, width: 100_000 });
    let mut far = start_platforms();
    manage_platforms(&mut far, 5_000_000, PlatformRolls { gap: 0, height: 0, width: 0 });
    assert_eq!(far.0.len(), 2);
    for i in 0..far.0.len() - 1 {
        assert!(far.0[i].x <= far.0[i + 1].x);
    }
}

#[test]
fn enemy_chases_without_jumping_on_solid_ground() {
    let platforms = start_platforms();
    let target = Body { x: 100_000, y: -200_000, vx: 0, vy: 0, is_grounded: true };
    let mut e = spawn_zombie(0, -200_000);
    e.body.is_grounded = true;
    e.steer(&target, &platforms, FRAME_US);
    assert_eq!(e.body.vx, ENEMY_SPEED);
    assert_eq!(e.body.vy, 0);
    assert!(e.body.is_grounded);
    assert!(!e.facing_left);
    let behind = Body { x: -100_000, ..target };
    e.steer(&behind, &platforms, FRAME_US);
    assert_eq!(e.body.vx, -ENEMY_SPEED);
    assert!(e.facing_left);
}

#[test]
fn enemy_jumps_at_a_ledge() {
    let platforms = start_platforms();
    let target = Body { x: 1_000_000, y: -200_000, vx: 0, vy: 0, is_grounded: true };
    let mut e = spawn_zombie(390_000, -200_000);
    e.body.is_grounded = true;
    e.steer(&target, &platforms, FRAME_US);
    assert_eq!(e.body.vy, ENEMY_JUMP_STRENGTH);
    assert!(!e.body.is_grounded);
}

#[test]
fn enemy_jumps_toward_a_higher_player() {
    let platforms = start_platforms();
    let target = Body { x: 100_000, y: -200_000 + 80_001, vx: 0, vy: 0, is_grounded: true };
    let mut e = spawn_zombie(0, -200_000);
    e.body.is_grounded = true;
    e.steer(&target, &platforms, FRAME_US);
    assert_eq!(e.body.vy, ENEMY_JUMP_STRENGTH);
}

#[test]
fn airborne_enemy_falls_and_does_not_jump() {
    let platforms = start_platforms();
    let target = Body { x: 100_000, y: 500_000, vx: 0, vy: 0, is_grounded: true };
    let mut e = spawn_zombie(100_000, 0);
    e.steer(&target, &platforms, FRAME_US);
    assert_eq!(e.body.vy, -26_667);
    assert_eq!(e.body.vx, 0);
}

#[test]
fn player_state_follows_the_body() {
    let mut p = grounded_at(0, 0);
    p.update_player_state();
    assert_eq!(p.state, PlayerState::Idle);
    p.body.vx = -1;
    p.update_player_state();
    assert_eq!(p.state, PlayerState::Running);
    p.body.is_grounded = false;
    p.body.vy = 1;
    p.update_player_state();
    assert_eq!(p.state, PlayerState::Jumping);
    p.body.vy = 0;
    p.update_player_state();
    assert_eq!(p.state, PlayerState::Falling);
}

#[test]
fn animation_restarts_on_change_and_wraps() {
    let mut a = Animation::new(player_frames_of(PlayerState::Idle));
    let running = player_frames_of(PlayerState::Running);
    assert_eq!(running, AnimationIndices { first: 9, last: 10 });
    a.animate(running, 50_000);
    assert_eq!(a.indices, running);
    assert_eq!(a.index, 9);
    a.animate(running, 50_000);
    assert_eq!(a.index, 10);
    a.animate(running, 100_000);
    assert_eq!(a.index, 9);
    a.animate(running, 30_000);
    assert_eq!(a.index, 9);
    a.animate(player_frames_of(PlayerState::Falling), 1);
    assert_eq!(a.index, 2);
}

#[test]
fn airborne_enemy_shows_one_frame() {
    let mut enemies = vec![spawn_zombie(0, 500_000)];
    assert_eq!(enemies[0].animation.indices, AnimationIndices { first: 13, last: 13 });
    for _ in 0..5 {
        fuzzy_runner::enemy::animate_zombie(&mut enemies, 100_000);
        assert_eq!(enemies[0].animation.index, 13);
    }
    enemies[0].body.is_grounded = true;
    fuzzy_runner::enemy::animate_zombie(&mut enemies, 1);
    assert_eq!(enemies[0].animation.index, 9);
}

#[test]
fn standing_player_can_jump_after_a_second() {
    let mut world = World::new(GameConfig::default());
    for _ in 0..60 {
        world.tick(NO_INPUT, FRAME_US, rolls());
    }
    assert!(world.player.body.is_grounded);
    world.player.handle_input(PlayerInput { left: false, right: false, jump_pressed: true }, FRAME_US);
    assert_eq!(world.player.body.vy, PLAYER_JUMP_STRENGTH);
    assert!(!world.player.body.is_grounded);
}

#[test]
fn timers_count_down_and_repeat() {
    let mut c = Countdown::new(100_000);
    c.tick(30_000);
    assert_eq!(c.remaining_us, 70_000);
    assert!(!c.finished());
    c.tick(100_000);
    assert!(c.finished());
    c.reset();
    assert_eq!(c.remaining_us, 100_000);
    let mut t = AnimationTimer::new(100_000);
    assert!(t.tick(150_000));
    assert_eq!(t.elapsed_us, 50_000);
    assert!(!t.tick(40_000));
    assert_eq!(t.elapsed_us, 90_000);
}

#[test]
fn death_below_screen_or_without_health() {
    let mut p = grounded_at(0, 0);
    assert!(!p.check_for_death(0));
    p.body.y = -400_001;
    assert!(p.check_for_death(0));
    p.body.y = -400_000;
    assert!(!p.check_for_death(0));
    p.health = 0;
    assert!(p.check_for_death(0));
}

#[test]
fn pause_key_transitions() {
    assert_eq!(toggle_pause_state(GameState::Playing), Some(GameState::Paused));
    assert_eq!(toggle_pause_state(GameState::Paused), Some(GameState::Playing));
    assert_eq!(toggle_pause_state(GameState::Restart), Some(GameState::Playing));
    assert_eq!(toggle_pause_state(GameState::SettingsMenu), Some(GameState::Paused));
    assert_eq!(toggle_pause_state(GameState::GameOver), None);
    assert_eq!(handle_menu_button_actions(MenuButtonAction::Resume), GameState::Playing);
    assert_eq!(handle_menu_button_actions(MenuButtonAction::Reset), GameState::Restart);
    assert_eq!(handle_menu_button_actions(MenuButtonAction::Settings), GameState::SettingsMenu);
}

#[test]
fn enemy_setting_is_clamped() {
    let mut c = GameConfig::default();
    assert_eq!(c.max_enemies, 3);
    for _ in 0..20 {
        assert_eq!(handle_settings_menu_actions(&mut c, SettingsButtonAction::IncrementEnemies), None);
    }
    assert_eq!(c.max_enemies, 10);
    for _ in 0..20 {
        handle_settings_menu_actions(&mut c, SettingsButtonAction::DecrementEnemies);
    }
    assert_eq!(c.max_enemies, 1);
    let mut z = GameConfig { max_enemies: 0 };
    handle_settings_menu_actions(&mut z, SettingsButtonAction::DecrementEnemies);
    assert_eq!(z.max_enemies, 1);
    assert_eq!(
        handle_settings_menu_actions(&mut c, SettingsButtonAction::Back),
        Some(GameState::Paused)
    );
}

#[test]
fn game_over_restarts_after_two_seconds() {
    let mut t = game_over_timer();
    assert!(!game_over_reset_timer(&mut t, 1_999_999));
    assert!(game_over_reset_timer(&mut t, 1));
}

#[test]
fn distance_keeps_the_furthest_x() {
    let mut d = Distance(0);
    d.update_distance(5);
    d.update_distance(3);
    assert_eq!(d.0, 5);
}

#[test]
fn restart_resets_the_session() {
    let mut world = World::new(GameConfig { max_enemies: 7 });
    for _ in 0..10 {
        world.tick(PlayerInput { left: false, right: true, jump_pressed: false }, FRAME_US, rolls());
    }
    assert!(world.distance.0 > 100_000);
    assert_eq!(world.camera_x, world.player.body.x);
    world.cleanup_game_session();
    assert_eq!(world.distance.0, 0);
    assert_eq!(world.enemies.len(), 0);
    assert_eq!(world.platforms.0.len(), 2);
    assert_eq!(world.config.max_enemies, 7);
    assert_eq!(world.player, Player::spawn());
}

#[test]
fn random_rolls_drive_a_tick() {
    let mut world = World::new(GameConfig::default());
    for _ in 0..120 {
        world.tick(PlayerInput { left: false, right: true, jump_pressed: false }, FRAME_US, TickRolls::draw());
    }
    let q = &world.platforms.0;
    for i in 0..q.len() - 1 {
        assert!(q[i].x <= q[i + 1].x);
        let gap = q[i + 1].x - (q[i].x + q[i].width / 2);
        assert!(q.len() < 3 || i == 0 || (100_000..=250_000).contains(&gap));
    }
}

#[test]
fn falling_off_the_world_ends_the_run() {
    let mut world = World::new(GameConfig::default());
    world.player.body.x = -2_000_000;
    world.player.body.is_grounded = false;
    let mut died_at = None;
    for t in 0..120 {
        if world.tick(NO_INPUT, FRAME_US, rolls()) {
            died_at = Some(t);
            break;
        }
    }
    assert!(died_at.is_some());
    assert!(world.player.body.y < -400_000);
    assert_eq!(world.player.state, PlayerState::Falling);
}

#[test]
fn running_out_of_health_ends_the_run() {
    let mut world = World::new(GameConfig::default());
    world.player.health = 0;
    assert!(world.tick(NO_INPUT, FRAME_US, rolls()));
}

#[test]
fn root_exports_name_the_core_types() {
    let p: fuzzy_runner::Player = fuzzy_runner::Player::spawn();
    let q: fuzzy_runner::Platform = fuzzy_runner::spawn_platform(1, 2, 3);
    assert_eq!(p.state, fuzzy_runner::PlayerState::Idle);
    assert_eq!(q.width, 3);
}

#[test]
fn platform_window_well_formedness() {
    let mut q = start_platforms();
    assert!(q.is_well_formed());
    q.0.push_back(Platform { x: 0, y: 0, width: 10 });
    assert!(!q.is_well_formed());
    let mut r = PlatformQueue::new();
    assert!(r.is_well_formed());
    r.0.push_back(Platform { x: 0, y: 0, width: -1 });
    assert!(!r.is_well_formed());
}
