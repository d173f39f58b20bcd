use learning_conrod_game::coord::{ObjectCoordinate, PlayerCoordinate, STEPS_PER_TILE};
use learning_conrod_game::direction::{Direction, EastWestAxis, NorthSouthAxis, Orientation};
use learning_conrod_game::game::{Action, GameState, HeldActions};
use learning_conrod_game::level::{keep_loaded_levels, test_level, LevelState, LevelTemplate};
use learning_conrod_game::tile::{GateVisibility, TileEffect, TileTextureIndex, TileType, WallType};

const ALL_DIRECTIONS: [Direction; 6] = [
    Direction::UP,
    Direction::DOWN,
    Direction::NORTH,
    Direction::EAST,
    Direction::SOUTH,
    Direction::WEST,
];

fn coord(x: i64, y: i64) -> ObjectCoordinate {
    ObjectCoordinate { x, y }
}

fn template(name: &str, tiles: Vec<(ObjectCoordinate, TileType)>) -> LevelTemplate {
    let mut init_state = LevelState::new();
    for (c, t) in tiles {
        init_state.insert(c, t);
    }
    LevelTemplate { name: name.to_string(), init_state }
}

fn tile_at(state: &GameState, c: ObjectCoordinate) -> Option<TileType> {
    match state {
        GameState::GameState { level_state, .. } => level_state.get(c).cloned(),
        GameState::Won { .. } => None,
    }
}

/// Moves the player one step at a time, checking the cell after each step.
fn walk(state: &mut GameState, action: Action, steps: i64) {
    for _ in 0..steps {
        action.perform(state);
        state.handle_input();
    }
}

#[test]
fn direction_inverted_twice_is_identity() {
    for d in ALL_DIRECTIONS {
        assert_eq!(d.inverted().inverted(), d);
        assert_ne!(d.inverted(), d);
    }
    assert_eq!(Direction::UP.inverted(), Direction::DOWN);
    assert_eq!(Direction::NORTH.inverted(), Direction::SOUTH);
    assert_eq!(Direction::EAST.inverted(), Direction::WEST);
}

#[test]
fn direction_file_modifiers() {
    assert_eq!(Direction::UP.file_modifier(), "lower");
    assert_eq!(Direction::DOWN.file_modifier(), "upper");
    assert_eq!(Direction::WEST.file_modifier(), "right");
    assert_eq!(Direction::EAST.file_modifier(), "left");
    assert_eq!(Direction::NORTH.file_modifier(), "bottom");
    assert_eq!(Direction::SOUTH.file_modifier(), "top");
    assert_eq!(NorthSouthAxis::North.file_modifier(), "bottom");
    assert_eq!(NorthSouthAxis::South.file_modifier(), "top");
    assert_eq!(EastWestAxis::East.file_modifier(), "right");
    assert_eq!(EastWestAxis::West.file_modifier(), "left");
    assert_eq!(Orientation::Horizontal.file_modifier(), "horizontal");
    assert_eq!(Orientation::Vertical.file_modifier(), "vertical");
}

#[test]
fn wall_file_modifiers() {
    assert_eq!(WallType::Lone.file_modifier(), "rock");
    assert_eq!(WallType::Center.file_modifier(), "center");
    assert_eq!(WallType::Single { facing: Direction::UP }.file_modifier(), "single_lower");
    assert_eq!(
        WallType::Double { orientation: Orientation::Vertical }.file_modifier(),
        "double_vertical"
    );
    assert_eq!(
        WallType::Corner {
            north_south_facing: NorthSouthAxis::North,
            east_west_facing: EastWestAxis::West
        }
        .file_modifier(),
        "bottom_left"
    );
    assert_eq!(WallType::End { facing: Direction::SOUTH }.file_modifier(), "end_top");
}

#[test]
fn texture_file_names() {
    assert_eq!(TileTextureIndex::Path.file_name(), "path");
    assert_eq!(TileTextureIndex::Start.file_name(), "start");
    assert_eq!(TileTextureIndex::Ladder.file_name(), "ladder");
    assert_eq!(TileTextureIndex::Goal { active: true }.file_name(), "goal");
    assert_eq!(TileTextureIndex::Goal { active: false }.file_name(), "goal_inactive");
    assert_eq!(
        TileTextureIndex::Gate { open: true, facing: Direction::EAST }.file_name(),
        "open_gate_left"
    );
    assert_eq!(
        TileTextureIndex::Gate { open: false, facing: Direction::UP }.file_name(),
        "closed_gate_lower"
    );
    assert_eq!(TileTextureIndex::OneWay { facing: Direction::NORTH }.file_name(), "one_way_bottom");
    assert_eq!(
        TileTextureIndex::Wall { kind: WallType::Double { orientation: Orientation::Horizontal } }
            .file_name(),
        "wall_double_horizontal"
    );
    assert_eq!(TileTextureIndex::Button { pressed: true }.file_name(), "button_pressed");
    assert_eq!(TileTextureIndex::Button { pressed: false }.file_name(), "button");
}

#[test]
fn player_position_rounds_half_away_from_zero() {
    let half = STEPS_PER_TILE / 2;
    // 2.5 tiles and -2.5 tiles
    let p = PlayerCoordinate { x: 5 * half, y: -5 * half };
    assert_eq!(ObjectCoordinate::from(&p), coord(3, -3));
    // just under 2.5 tiles
    let p = PlayerCoordinate { x: 5 * half - 1, y: -(5 * half - 1) };
    assert_eq!(ObjectCoordinate::from(&p), coord(2, -2));
    // half a tile goes to the next cell, less stays at the origin
    let p = PlayerCoordinate { x: half, y: half - 1 };
    assert_eq!(ObjectCoordinate::from(&p), coord(1, 0));
    let p = PlayerCoordinate { x: 0, y: 0 };
    assert_eq!(ObjectCoordinate::from(&p), coord(0, 0));
    // the same position always gives the same cell
    let p = PlayerCoordinate { x: 5 * half, y: 7 };
    assert_eq!(ObjectCoordinate::from(&p), ObjectCoordinate::from(&p));
}

#[test]
fn player_position_rounds_at_the_limits() {
    let p = PlayerCoordinate { x: i64::MAX, y: i64::MIN };
    let c = ObjectCoordinate::from(&p);
    assert_eq!(c, coord(i64::MAX / STEPS_PER_TILE + 1, i64::MIN / STEPS_PER_TILE));
}

#[test]
fn solidity() {
    assert!(TileType::Wall { kind: WallType::Lone }.is_solid());
    assert!(TileType::Gate { open: false, facing: Direction::UP, hidden: GateVisibility::Visible }
        .is_solid());
    assert!(!TileType::Gate { open: true, facing: Direction::UP, hidden: GateVisibility::Visible }
        .is_solid());
    assert!(!TileType::Path.is_solid());
    assert!(!TileType::Ladder.is_solid());
    assert!(!TileType::Start.is_solid());
    assert!(!TileType::Goal { active: true }.is_solid());
    assert!(!TileType::OneWay { inverted: false, facing: Direction::UP }.is_solid());
    assert!(!TileType::Button { pressed: false, inverted: false, target: coord(0, 0) }.is_solid());
}

#[test]
fn apply_button_drives_goal_gate_and_one_way() {
    let mut goal = TileType::Goal { active: false };
    goal.apply_button(true);
    assert_eq!(goal, TileType::Goal { active: true });

    let mut gate = TileType::Gate { open: false, facing: Direction::WEST, hidden: GateVisibility::Visible };
    gate.apply_button(true);
    assert_eq!(gate, TileType::Gate { open: true, facing: Direction::WEST, hidden: GateVisibility::Visible });

    let mut one_way = TileType::OneWay { inverted: true, facing: Direction::UP };
    one_way.apply_button(false);
    assert_eq!(one_way, TileType::OneWay { inverted: false, facing: Direction::UP });

    let mut path = TileType::Path;
    path.apply_button(true);
    assert_eq!(path, TileType::Path);

    let button = TileType::Button { pressed: false, inverted: true, target: coord(1, 1) };
    let mut driven = button.clone();
    driven.apply_button(true);
    assert_eq!(driven, button);
}

#[test]
fn step_on_effects() {
    let mut goal = TileType::Goal { active: true };
    assert_eq!(goal.step_on(), Some(TileEffect::Win));
    assert_eq!(goal, TileType::Goal { active: true });

    let mut inactive = TileType::Goal { active: false };
    assert_eq!(inactive.step_on(), None);

    let mut button = TileType::Button { pressed: false, inverted: false, target: coord(4, 5) };
    assert_eq!(button.step_on(), Some(TileEffect::Power { target: coord(4, 5), power: true }));
    assert_eq!(button, TileType::Button { pressed: true, inverted: false, target: coord(4, 5) });
    assert_eq!(button.step_on(), Some(TileEffect::Power { target: coord(4, 5), power: false }));
    assert_eq!(button, TileType::Button { pressed: false, inverted: false, target: coord(4, 5) });

    let mut inverted = TileType::Button { pressed: false, inverted: true, target: coord(0, 0) };
    assert_eq!(inverted.step_on(), Some(TileEffect::Power { target: coord(0, 0), power: false }));

    let mut path = TileType::Path;
    assert_eq!(path.step_on(), None);
}

#[test]
fn hidden_closed_gate_shows_its_mimic() {
    let gate = TileType::Gate {
        open: false,
        facing: Direction::NORTH,
        hidden: GateVisibility::Hidden(Box::new(TileType::Path)),
    };
    assert_eq!(gate.tile_texture_id(), TileTextureIndex::Path);

    let walled = TileType::Gate {
        open: false,
        facing: Direction::NORTH,
        hidden: GateVisibility::Hidden(Box::new(TileType::Wall { kind: WallType::Center })),
    };
    assert_eq!(walled.tile_texture_id(), TileTextureIndex::Wall { kind: WallType::Center });
}

#[test]
fn open_gate_is_never_disguised() {
    for d in ALL_DIRECTIONS {
        let gate = TileType::Gate {
            open: true,
            facing: d,
            hidden: GateVisibility::Hidden(Box::new(TileType::Path)),
        };
        assert_eq!(gate.tile_texture_id(), TileTextureIndex::Gate { open: true, facing: d });
    }
    let visible = TileType::Gate { open: false, facing: Direction::EAST, hidden: GateVisibility::Visible };
    assert_eq!(visible.tile_texture_id(), TileTextureIndex::Gate { open: false, facing: Direction::EAST });
}

#[test]
fn other_texture_ids() {
    assert_eq!(
        TileType::OneWay { inverted: true, facing: Direction::UP }.tile_texture_id(),
        TileTextureIndex::OneWay { facing: Direction::DOWN }
    );
    assert_eq!(
        TileType::OneWay { inverted: false, facing: Direction::UP }.tile_texture_id(),
        TileTextureIndex::OneWay { facing: Direction::UP }
    );
    assert_eq!(
        TileType::Button { pressed: true, inverted: false, target: coord(0, 0) }.tile_texture_id(),
        TileTextureIndex::Button { pressed: true }
    );
    assert_eq!(TileType::Goal { active: false }.tile_texture_id(), TileTextureIndex::Goal { active: false });
}

#[test]
fn new_game_starts_at_origin() {
    let level = test_level();
    let state = GameState::new(level.clone());
    match &state {
        GameState::GameState { show_hud, position, old_position, level_template, level_state } => {
            assert!(*show_hud);
            assert_eq!(*position, PlayerCoordinate { x: 0, y: 0 });
            assert_eq!(*old_position, coord(0, 0));
            assert_eq!(level_template.name, "Test");
            assert_eq!(level_state.tile_map, level.init_state.tile_map);
        }
        GameState::Won { .. } => panic!("a new game is not won"),
    }
    assert!(!state.is_won());
}

#[test]
fn actions_move_one_step() {
    let mut state = GameState::new(test_level());
    Action::Right.perform(&mut state);
    Action::Right.perform(&mut state);
    Action::Up.perform(&mut state);
    match &state {
        GameState::GameState { position, .. } => assert_eq!(*position, PlayerCoordinate { x: 2, y: -1 }),
        GameState::Won { .. } => panic!("not won"),
    }
    Action::Left.perform(&mut state);
    Action::Down.perform(&mut state);
    Action::Down.perform(&mut state);
    match &state {
        GameState::GameState { position, .. } => assert_eq!(*position, PlayerCoordinate { x: 1, y: 1 }),
        GameState::Won { .. } => panic!("not won"),
    }
}

#[test]
fn button_toggles_target_over_two_entries() {
    let gate = TileType::Gate { open: false, facing: Direction::EAST, hidden: GateVisibility::Visible };
    let level = template(
        "buttons",
        vec![
            (coord(0, 0), TileType::Start),
            (coord(1, 0), TileType::Button { pressed: false, inverted: false, target: coord(3, 0) }),
            (coord(3, 0), gate.clone()),
        ],
    );
    let mut state = GameState::new(level);
    let half = STEPS_PER_TILE / 2;

    walk(&mut state, Action::Right, half);
    assert_eq!(
        tile_at(&state, coord(1, 0)),
        Some(TileType::Button { pressed: true, inverted: false, target: coord(3, 0) })
    );
    assert_eq!(
        tile_at(&state, coord(3, 0)),
        Some(TileType::Gate { open: true, facing: Direction::EAST, hidden: GateVisibility::Visible })
    );

    // staying in the cell does not press again
    walk(&mut state, Action::Right, 10);
    walk(&mut state, Action::Left, 10);
    assert_eq!(
        tile_at(&state, coord(1, 0)),
        Some(TileType::Button { pressed: true, inverted: false, target: coord(3, 0) })
    );

    // leave and come back
    walk(&mut state, Action::Left, 1);
    walk(&mut state, Action::Right, 1);
    assert_eq!(
        tile_at(&state, coord(1, 0)),
        Some(TileType::Button { pressed: false, inverted: false, target: coord(3, 0) })
    );
    assert_eq!(tile_at(&state, coord(3, 0)), Some(gate));
}

#[test]
fn active_goal_wins_and_keeps_template() {
    let level = template(
        "goal",
        vec![(coord(0, 0), TileType::Start), (coord(0, 1), TileType::Goal { active: true })],
    );
    let mut state = GameState::new(level.clone());
    walk(&mut state, Action::Down, STEPS_PER_TILE / 2 - 1);
    assert!(!state.is_won());
    walk(&mut state, Action::Down, 1);
    assert!(state.is_won());
    match &state {
        GameState::Won { level_template } => {
            assert_eq!(level_template.name, level.name);
            assert_eq!(level_template.init_state.tile_map, level.init_state.tile_map);
        }
        GameState::GameState { .. } => panic!("the goal should have won the game"),
    }
    // a won game ignores further input
    walk(&mut state, Action::Up, STEPS_PER_TILE);
    assert!(state.is_won());
}

#[test]
fn inactive_goal_does_not_win() {
    let level = template("idle", vec![(coord(0, 1), TileType::Goal { active: false })]);
    let mut state = GameState::new(level);
    walk(&mut state, Action::Down, STEPS_PER_TILE);
    assert!(!state.is_won());
}

#[test]
fn button_activates_goal_in_test_level() {
    let mut state = GameState::new(test_level());
    let half = STEPS_PER_TILE / 2;
    // to (-1, -1): the button that drives the goal at (0, 3)
    walk(&mut state, Action::Left, half);
    walk(&mut state, Action::Up, half);
    assert_eq!(tile_at(&state, coord(0, 3)), Some(TileType::Goal { active: true }));
    assert!(!state.is_won());
}

#[test]
fn dangling_button_target_is_harmless() {
    let level = template(
        "dangling",
        vec![
            (coord(0, 0), TileType::Start),
            (coord(1, 0), TileType::Button { pressed: false, inverted: false, target: coord(9, 9) }),
            (coord(2, 0), TileType::Goal { active: false }),
        ],
    );
    let mut state = GameState::new(level);
    walk(&mut state, Action::Right, STEPS_PER_TILE / 2);
    assert_eq!(tile_at(&state, coord(9, 9)), None);
    assert_eq!(tile_at(&state, coord(0, 0)), Some(TileType::Start));
    assert_eq!(tile_at(&state, coord(2, 0)), Some(TileType::Goal { active: false }));
    match &state {
        GameState::GameState { level_state, .. } => assert_eq!(level_state.len(), 3),
        GameState::Won { .. } => panic!("not won"),
    }

    let mut direct = GameState::new(template("one", vec![(coord(0, 0), TileType::Path)]));
    direct.apply_effect(TileEffect::Power { target: coord(5, 5), power: true });
    assert_eq!(tile_at(&direct, coord(0, 0)), Some(TileType::Path));
    assert_eq!(tile_at(&direct, coord(5, 5)), None);
}

#[test]
fn bulk_load_keeps_valid_levels() {
    let attempts: Vec<Result<LevelTemplate, String>> = vec![
        Ok(template("first", vec![(coord(0, 0), TileType::Start)])),
        Err("corrupt".to_string()),
        Ok(template("second", vec![(coord(1, 1), TileType::Path)])),
    ];
    let levels = keep_loaded_levels(attempts);
    assert_eq!(levels.len(), 2);
    assert_eq!(levels[0].name, "first");
    assert_eq!(levels[1].name, "second");

    let none: Vec<Result<LevelTemplate, String>> = vec![Err("bad".to_string())];
    assert!(keep_loaded_levels(none).is_empty());
    assert!(keep_loaded_levels(Vec::<Result<LevelTemplate, String>>::new()).is_empty());
}

#[test]
fn test_level_contents() {
    let level = test_level();
    assert_eq!(level.name, "Test");
    let tiles = &level.init_state;
    assert_eq!(tiles.len(), 12);
    assert_eq!(tiles.get(coord(0, 0)), Some(&TileType::Start));
    assert_eq!(tiles.get(coord(0, 3)), Some(&TileType::Goal { active: false }));
    assert_eq!(
        tiles.get(coord(-1, -1)),
        Some(&TileType::Button { pressed: false, inverted: false, target: coord(0, 3) })
    );
    assert_eq!(
        tiles.get(coord(0, 2)),
        Some(&TileType::Wall {
            kind: WallType::Corner {
                north_south_facing: NorthSouthAxis::North,
                east_west_facing: EastWestAxis::West
            }
        })
    );
    assert_eq!(tiles.get(coord(5, 5)), None);
}

#[test]
fn records_rebuild_the_grid() {
    let level = test_level();
    let records = level.init_state.records();
    assert_eq!(records.len(), 12);
    // records come ordered by x, then y
    for pair in records.windows(2) {
        assert!((pair[0].0.x, pair[0].0.y) < (pair[1].0.x, pair[1].0.y));
    }
    assert_eq!(records[0], (coord(-1, -1), TileType::Button { pressed: false, inverted: false, target: coord(0, 3) }));
    let rebuilt = LevelState::from_records(records);
    assert_eq!(rebuilt.tile_map, level.init_state.tile_map);
}

#[test]
fn later_records_replace_earlier_ones() {
    let rebuilt = LevelState::from_records(vec![
        (coord(1, 2), TileType::Path),
        (coord(3, 4), TileType::Ladder),
        (coord(1, 2), TileType::Start),
    ]);
    assert_eq!(rebuilt.len(), 2);
    assert_eq!(rebuilt.get(coord(1, 2)), Some(&TileType::Start));
    assert_eq!(rebuilt.get(coord(3, 4)), Some(&TileType::Ladder));
}

fn position_of(state: &GameState) -> PlayerCoordinate {
    match state {
        GameState::GameState { position, .. } => *position,
        GameState::Won { .. } => panic!("not playing"),
    }
}

fn hud_of(state: &GameState) -> bool {
    match state {
        GameState::GameState { show_hud, .. } => *show_hud,
        GameState::Won { .. } => panic!("not playing"),
    }
}

#[test]
fn frame_applies_held_movements_and_hud_toggle() {
    let mut state = GameState::new(test_level());
    let none = HeldActions { up: false, down: false, left: false, right: false };
    state.update(true, HeldActions { up: false, down: true, left: false, right: true });
    assert_eq!(position_of(&state), PlayerCoordinate { x: 1, y: 1 });
    assert!(!hud_of(&state));
    state.update(false, HeldActions { up: true, down: true, left: true, right: true });
    assert_eq!(position_of(&state), PlayerCoordinate { x: 1, y: 1 });
    state.update(true, none);
    assert!(hud_of(&state));
    state.toggle_hud();
    assert!(!hud_of(&state));
}

#[test]
fn frames_reach_a_button_and_drive_its_target() {
    let mut state = GameState::new(test_level());
    let up_left = HeldActions { up: true, down: false, left: true, right: false };
    for _ in 0..STEPS_PER_TILE / 2 {
        state.update(false, up_left);
    }
    assert_eq!(position_of(&state), PlayerCoordinate { x: -STEPS_PER_TILE / 2, y: -STEPS_PER_TILE / 2 });
    assert_eq!(tile_at(&state, coord(0, 3)), Some(TileType::Goal { active: true }));
}

#[test]
fn position_holds_at_the_edge() {
    let mut state = GameState::new(test_level());
    if let GameState::GameState { position, .. } = &mut state {
        position.x = i64::MAX;
        position.y = i64::MIN;
    }
    Action::Right.perform(&mut state);
    Action::Up.perform(&mut state);
    assert_eq!(position_of(&state), PlayerCoordinate { x: i64::MAX, y: i64::MIN });
}
