//! The game a player is in: where the player stands, the live grid, and the
//! step from playing to won.

use std::collections::BTreeMap;

use vstd::prelude::*;

use crate::coord::{cell_of, ObjectCoordinate, PlayerCoordinate};
use crate::level::{tiles_after_power, tiles_after_step, LevelState, LevelTemplate};
use crate::tile::{step_effect, stepped, TileEffect, TileType};

verus! {

/// A game in progress, or one that was won.
pub enum GameState {
    /// The player reached an active goal of `level_template`.
    Won { level_template: LevelTemplate },
    /// The player is playing `level_template` on the live grid `level_state`.
    GameState {
        show_hud: bool,
        /// Where the player is.
        position: PlayerCoordinate,
        /// The cell the player was last seen in.
        old_position: ObjectCoordinate,
        level_template: LevelTemplate,
        level_state: LevelState,
    },
}

/// What a game in progress is, seen as values.
pub struct PlayModel {
    pub show_hud: bool,
    pub position: PlayerCoordinate,
    pub old_position: ObjectCoordinate,
    pub tiles: Map<(i64, i64), TileType>,
}

/// What a game is, seen as values.
pub enum GameModel {
    Won { level_template: LevelTemplate },
    Playing { level_template: LevelTemplate, play: PlayModel },
}

impl View for GameState {
    type V = GameModel;

    open spec fn view(&self) -> GameModel {
        match self {
            GameState::Won { level_template } => GameModel::Won { level_template: *level_template },
            GameState::GameState {
                show_hud,
                position,
                old_position,
                level_template,
                level_state,
            } => GameModel::Playing {
                level_template: *level_template,
                play: PlayModel {
                    show_hud: *show_hud,
                    position: *position,
                    old_position: *old_position,
                    tiles: level_state@,
                },
            },
        }
    }
}

/// The game after a tile's effect: a win ends a game in progress with its
/// template; power drives the target cell of the live grid. A won game does
/// not change.
pub open spec fn after_effect(g: GameModel, e: TileEffect) -> GameModel {
    match g {
        GameModel::Won { .. } => g,
        GameModel::Playing { level_template, play } => match e {
            TileEffect::Win => GameModel::Won { level_template },
            TileEffect::Power { target, power } => GameModel::Playing {
                level_template,
                play: PlayModel { tiles: tiles_after_power(play.tiles, target.key(), power), ..play },
            },
        },
    }
}

/// The game after the player's position was checked: on entering a new cell
/// the player steps onto its tile, if any, and the tile's effect follows.
/// Staying within a cell changes nothing.
pub open spec fn after_input(g: GameModel) -> GameModel {
    match g {
        GameModel::Won { .. } => g,
        GameModel::Playing { level_template, play } => {
            let cell = cell_of(play.position);
            if cell == play.old_position {
                g
            } else {
                let k = cell.key();
                let stepped_on = GameModel::Playing {
                    level_template,
                    play: PlayModel {
                        old_position: cell,
                        tiles: tiles_after_step(play.tiles, k),
                        ..play
                    },
                };
                if play.tiles.contains_key(k) {
                    match step_effect(play.tiles[k]) {
                        Some(e) => after_effect(stepped_on, e),
                        None => stepped_on,
                    }
                } else {
                    stepped_on
                }
            }
        },
    }
}

impl GameState {
    /// A new game of `level`: the player stands at the origin, the grid is
    /// a copy of the level's tiles, the HUD is shown.
    pub fn new(level: LevelTemplate) -> (r: GameState)
        ensures
            r@ == (GameModel::Playing {
                level_template: level,
                play: PlayModel {
                    show_hud: true,
                    position: PlayerCoordinate { x: 0, y: 0 },
                    old_position: ObjectCoordinate { x: 0, y: 0 },
                    tiles: level.init_state@,
                },
            }),
    {
        let level_state = level.init_state.clone();
        GameState::GameState {
            show_hud: true,
            position: PlayerCoordinate { x: 0, y: 0 },
            old_position: ObjectCoordinate { x: 0, y: 0 },
            level_template: level,
            level_state,
        }
    }

    /// Whether the game was won.
    pub fn is_won(&self) -> (r: bool)
        ensures
            r == self@ is Won,
    {
        match self {
            GameState::Won { .. } => true,
            GameState::GameState { .. } => false,
        }
    }

    /// Carries out what a tile asked for.
    pub fn apply_effect(&mut self, effect: TileEffect)
        ensures
            final(self)@ == after_effect(old(self)@, effect),
    {
        match effect {
            TileEffect::Win => {
                let mut taken = GameState::Won {
                    level_template: LevelTemplate {
                        name: String::new(),
                        init_state: LevelState { tile_map: BTreeMap::new() },
                    },
                };
                std::mem::swap(self, &mut taken);
                match taken {
                    GameState::GameState { level_template, .. } => {
                        *self = GameState::Won { level_template };
                    },
                    GameState::Won { .. } => {
                        *self = taken;
                    },
                }
            },
            TileEffect::Power { target, power } => {
                match self {
                    GameState::GameState { level_state, .. } => {
                        level_state.apply_button_at(target, power);
                    },
                    GameState::Won { .. } => {},
                }
            },
        }
    }

    /// Checks which cell the player is in; on entering a new one, steps onto
    /// its tile and carries out the effect.
    pub fn handle_input(&mut self)
        ensures
            final(self)@ == after_input(old(self)@),
    {
        let effect = match self {
            GameState::GameState { position, old_position, level_state, .. } => {
                let new_pos = ObjectCoordinate::from(&*position);
                if *old_position != new_pos {
                    *old_position = new_pos;
                    level_state.step_on_at(new_pos)
                } else {
                    None
                }
            },
            GameState::Won { .. } => None,
        };
        match effect {
            Some(e) => self.apply_effect(e),
            None => {},
        }
    }
}

/// A movement the player asks for; each moves the player by one step, that
/// is `1 / STEPS_PER_TILE` of a tile. Movement does not consult
/// `TileType::is_solid`: the player can pass walls and closed gates.
#[derive(Clone, Copy, Debug, PartialEq, Eq, Structural)]
pub enum Action {
    Up,
    Down,
    Left,
    Right,
}

/// `n` one step lower, held at the smallest position.
pub open spec fn step_down(n: i64) -> i64 {
    if n == i64::MIN {
        n
    } else {
        (n - 1) as i64
    }
}

/// `n` one step higher, held at the largest position.
pub open spec fn step_up(n: i64) -> i64 {
    if n == i64::MAX {
        n
    } else {
        (n + 1) as i64
    }
}

/// The position after `a`: up lowers `y`, down raises it, left lowers `x`,
/// right raises it.
pub open spec fn moved(p: PlayerCoordinate, a: Action) -> PlayerCoordinate {
    match a {
        Action::Up => PlayerCoordinate { y: step_down(p.y), ..p },
        Action::Down => PlayerCoordinate { y: step_up(p.y), ..p },
        Action::Left => PlayerCoordinate { x: step_down(p.x), ..p },
        Action::Right => PlayerCoordinate { x: step_up(p.x), ..p },
    }
}

/// The game after `a`: a game in progress moves its player; nothing else
/// changes, and a won game stays as it is.
pub open spec fn after_action(g: GameModel, a: Action) -> GameModel {
    match g {
        GameModel::Won { .. } => g,
        GameModel::Playing { level_template, play } => GameModel::Playing {
            level_template,
            play: PlayModel { position: moved(play.position, a), ..play },
        },
    }
}

fn one_step_down(n: i64) -> (r: i64)
    ensures
        r == step_down(n),
{
    if n == i64::MIN {
        n
    } else {
        n - 1
    }
}

fn one_step_up(n: i64) -> (r: i64)
    ensures
        r == step_up(n),
{
    if n == i64::MAX {
        n
    } else {
        n + 1
    }
}

impl Action {
    /// Moves the player of `state` by one step.
    pub fn perform(&self, state: &mut GameState)
        ensures
            final(state)@ == after_action(old(state)@, *self),
    {
        match state {
            GameState::GameState { position, .. } => {
                match self {
                    Action::Up => position.y = one_step_down(position.y),
                    Action::Down => position.y = one_step_up(position.y),
                    Action::Left => position.x = one_step_down(position.x),
                    Action::Right => position.x = one_step_up(position.x),
                }
            },
            GameState::Won { .. } => {},
        }
    }
}

/// The movement keys held during one frame.
#[derive(Clone, Copy, Debug, PartialEq, Eq, Structural)]
pub struct HeldActions {
    pub up: bool,
    pub down: bool,
    pub left: bool,
    pub right: bool,
}

/// The game after the HUD was toggled, if `toggle` is set; a won game has no
/// HUD and stays as it is.
pub open spec fn after_hud(g: GameModel, toggle: bool) -> GameModel {
    match g {
        GameModel::Playing { level_template, play } if toggle => GameModel::Playing {
            level_template,
            play: PlayModel { show_hud: !play.show_hud, ..play },
        },
        _ => g,
    }
}

pub open spec fn after_action_if(g: GameModel, held: bool, a: Action) -> GameModel {
    if held {
        after_action(g, a)
    } else {
        g
    }
}

/// The game after the held movements, taken left, right, down, up.
pub open spec fn after_held(g: GameModel, held: HeldActions) -> GameModel {
    after_action_if(
        after_action_if(
            after_action_if(after_action_if(g, held.left, Action::Left), held.right, Action::Right),
            held.down,
            Action::Down,
        ),
        held.up,
        Action::Up,
    )
}

/// One frame: the HUD toggle, then the held movements, then the check of
/// the cell the player ended in.
pub open spec fn after_frame(g: GameModel, toggle_hud: bool, held: HeldActions) -> GameModel {
    after_input(after_held(after_hud(g, toggle_hud), held))
}

impl GameState {
    /// Shows or hides the HUD of a game in progress.
    pub fn toggle_hud(&mut self)
        ensures
            final(self)@ == after_hud(old(self)@, true),
    {
        match self {
            GameState::GameState { show_hud, .. } => *show_hud = !*show_hud,
            GameState::Won { .. } => {},
        }
    }

    /// Runs one frame of the game with the input of that frame.
    pub fn update(&mut self, toggle_hud: bool, held: HeldActions)
        ensures
            final(self)@ == after_frame(old(self)@, toggle_hud, held),
    {
        if toggle_hud {
            self.toggle_hud();
        }
        if held.left {
            Action::Left.perform(self);
        }
        if held.right {
            Action::Right.perform(self);
        }
        if held.down {
            Action::Down.perform(self);
        }
        if held.up {
            Action::Up.perform(self);
        }
        self.handle_input();
    }
}

/// Entering a cell that holds an active goal wins the game, and the won game
/// keeps the template it was played from.
pub proof fn lemma_goal_wins(level_template: LevelTemplate, play: PlayModel)
    requires
        cell_of(play.position) != play.old_position,
        play.tiles.contains_key(cell_of(play.position).key()),
        play.tiles[cell_of(play.position).key()] == (TileType::Goal { active: true }),
    ensures
        after_input(GameModel::Playing { level_template, play }) == (GameModel::Won {
            level_template,
        }),
{
}

/// Entering a cell that holds a button toggles the button and drives the
/// button's target, if the grid has one, with the new `pressed` XOR
/// `inverted`; the player is then recorded in that cell.
pub proof fn lemma_button_entry(level_template: LevelTemplate, play: PlayModel)
    requires
        cell_of(play.position) != play.old_position,
        play.tiles.contains_key(cell_of(play.position).key()),
        play.tiles[cell_of(play.position).key()] is Button,
    ensures
        ({
            let cell = cell_of(play.position);
            let button = play.tiles[cell.key()];
            let target = button->Button_target;
            let power = (!button->Button_pressed) != button->Button_inverted;
            let pressed = play.tiles.insert(cell.key(), stepped(button));
            after_input(GameModel::Playing { level_template, play }) == GameModel::Playing {
                level_template,
                play: PlayModel {
                    old_position: cell,
                    tiles: tiles_after_power(pressed, target.key(), power),
                    ..play
                },
            }
        }),
{
}

/// Power for a cell that holds no tile changes nothing in the game.
pub proof fn lemma_dangling_target(g: GameModel, target: ObjectCoordinate, power: bool)
    requires
        g matches GameModel::Playing { play, .. } ==> !play.tiles.contains_key(target.key()),
    ensures
        after_effect(g, TileEffect::Power { target, power }) == g,
{
}

} // verus!
