//! Screen states and their transitions, the live configuration, and the
//! distance record.
use vstd::prelude::*;
use crate::timer::Countdown;

verus! {

/// Bounds of the configurable enemy count.
pub const MIN_ENEMIES: u32 = 1;

pub const MAX_ENEMIES: u32 = 10;

pub const DEFAULT_MAX_ENEMIES: u32 = 3;

/// How long the game-over screen shows before the session restarts.
pub const GAME_OVER_DELAY_US: u64 = 2_000_000;

#[derive(Clone, Copy, Debug, PartialEq, Eq, Hash, Structural)]
pub enum GameState {
    Playing,
    Paused,
    GameOver,
    SettingsMenu,
    Restart,
}

#[derive(Clone, Copy, Debug, PartialEq, Eq, Structural)]
pub enum MenuButtonAction {
    Resume,
    Reset,
    Settings,
}

#[derive(Clone, Copy, Debug, PartialEq, Eq, Structural)]
pub enum SettingsButtonAction {
    IncrementEnemies,
    DecrementEnemies,
    Back,
}

#[derive(Clone, Copy, Debug, PartialEq, Eq)]
pub struct GameConfig {
    pub max_enemies: u32,
}

impl Default for GameConfig {
    fn default() -> (r: GameConfig)
        ensures
            r.max_enemies == DEFAULT_MAX_ENEMIES,
    {
        GameConfig { max_enemies: DEFAULT_MAX_ENEMIES }
    }
}

/// The furthest x the player has reached.
#[derive(Clone, Copy, Debug, PartialEq, Eq)]
pub struct Distance(pub i64);

impl Distance {
    /// Raises the record to `x` when `x` is further.
    pub fn update_distance(&mut self, x: i64)
        ensures
            final(self).0 == (if x > old(self).0 {
                x
            } else {
                old(self).0
            }),
    {
        if x > self.0 {
            self.0 = x;
        }
    }
}

/// The state that the pause key leads to, if any.
pub open spec fn paused_toggle(current: GameState) -> Option<GameState> {
    match current {
        GameState::Playing => Some(GameState::Paused),
        GameState::Paused | GameState::Restart => Some(GameState::Playing),
        GameState::SettingsMenu => Some(GameState::Paused),
        GameState::GameOver => None,
    }
}

/// Pause key: playing pauses, a pause or restart resumes, the settings menu
/// returns to the pause menu, and the game-over screen ignores it.
pub fn toggle_pause_state(current: GameState) -> (next: Option<GameState>)
    ensures
        next == paused_toggle(current),
{
    match current {
        GameState::Playing => Some(GameState::Paused),
        GameState::Paused | GameState::Restart => Some(GameState::Playing),
        GameState::SettingsMenu => Some(GameState::Paused),
        GameState::GameOver => None,
    }
}

/// The state that a pause-menu button leads to.
pub fn handle_menu_button_actions(action: MenuButtonAction) -> (next: GameState)
    ensures
        next == (match action {
            MenuButtonAction::Resume => GameState::Playing,
            MenuButtonAction::Reset => GameState::Restart,
            MenuButtonAction::Settings => GameState::SettingsMenu,
        }),
{
    match action {
        MenuButtonAction::Resume => GameState::Playing,
        MenuButtonAction::Reset => GameState::Restart,
        MenuButtonAction::Settings => GameState::SettingsMenu,
    }
}

/// A settings-menu button: the enemy count moves by one within its bounds,
/// silently held at them; `Back` returns to the pause menu.
pub fn handle_settings_menu_actions(config: &mut GameConfig, action: SettingsButtonAction) -> (next:
    Option<GameState>)
    ensures
        final(config).max_enemies == (match action {
            SettingsButtonAction::IncrementEnemies => if old(config).max_enemies >= MAX_ENEMIES {
                MAX_ENEMIES
            } else {
                (old(config).max_enemies + 1) as u32
            },
            SettingsButtonAction::DecrementEnemies => if old(config).max_enemies <= MIN_ENEMIES {
                MIN_ENEMIES
            } else {
                (old(config).max_enemies - 1) as u32
            },
            SettingsButtonAction::Back => old(config).max_enemies,
        }),
        next == (if action == SettingsButtonAction::Back {
            Some(GameState::Paused)
        } else {
            None
        }),
{
    match action {
        SettingsButtonAction::IncrementEnemies => {
            config.max_enemies = if config.max_enemies >= MAX_ENEMIES {
                MAX_ENEMIES
            } else {
                config.max_enemies + 1
            };
            None
        },
        SettingsButtonAction::DecrementEnemies => {
            config.max_enemies = if config.max_enemies <= MIN_ENEMIES {
                MIN_ENEMIES
            } else {
                config.max_enemies - 1
            };
            None
        },
        SettingsButtonAction::Back => Some(GameState::Paused),
    }
}

/// The countdown shown on the game-over screen.
pub fn game_over_timer() -> (r: Countdown)
    ensures
        r.duration_us == GAME_OVER_DELAY_US,
        r.remaining_us == GAME_OVER_DELAY_US,
{
    Countdown::new(GAME_OVER_DELAY_US)
}

/// Runs the game-over countdown; returns whether the session restarts now.
pub fn game_over_reset_timer(timer: &mut Countdown, dt_us: u32) -> (restart: bool)
    ensures
        *final(timer) == old(timer).ticked(dt_us as int),
        restart == final(timer).is_finished(),
{
    timer.tick(dt_us);
    timer.finished()
}

} // verus!
