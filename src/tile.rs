//! Tiles: what a cell of a level holds, how it looks and how it reacts when
//! the player steps on it or a button drives it.

use vstd::prelude::*;

use crate::direction::{
    direction_modifier, east_west_modifier, north_south_modifier, orientation_modifier, opposite,
    Direction, EastWestAxis, NorthSouthAxis, Orientation,
};
use crate::coord::ObjectCoordinate;
use crate::text::join;

verus! {

/// The shape of a wall piece; it only decides which texture is drawn.
#[derive(Clone, Copy, Debug, PartialEq, Eq, Structural, PartialOrd, Ord, Hash)]
pub enum WallType {
    Single { facing: Direction },
    Double { orientation: Orientation },
    Corner { north_south_facing: NorthSouthAxis, east_west_facing: EastWestAxis },
    End { facing: Direction },
    Lone,
    Center,
}

pub open spec fn wall_modifier(w: WallType) -> Seq<char> {
    match w {
        WallType::Lone => "rock"@,
        WallType::Center => "center"@,
        WallType::Single { facing } => "single_"@ + direction_modifier(facing),
        WallType::Double { orientation } => "double_"@ + orientation_modifier(orientation),
        WallType::Corner { north_south_facing, east_west_facing } => north_south_modifier(
            north_south_facing,
        ) + "_"@ + east_west_modifier(east_west_facing),
        WallType::End { facing } => "end_"@ + direction_modifier(facing),
    }
}

impl WallType {
    pub fn file_modifier(self) -> (r: String)
        ensures
            r@ == wall_modifier(self),
    {
        match self {
            WallType::Lone => "rock".to_owned(),
            WallType::Center => "center".to_owned(),
            WallType::Single { facing } => join("single_", facing.file_modifier()),
            WallType::Double { orientation } => join("double_", orientation.file_modifier()),
            WallType::Corner { north_south_facing, east_west_facing } => {
                let head = join(north_south_facing.file_modifier(), "_");
                join(head.as_str(), east_west_facing.file_modifier())
            },
            WallType::End { facing } => join("end_", facing.file_modifier()),
        }
    }
}


/// What the renderer draws for a tile.
#[derive(Clone, Copy, Debug, PartialEq, Eq, Structural, PartialOrd, Ord, Hash)]
pub enum TileTextureIndex {
    Wall { kind: WallType },
    Path,
    Ladder,
    Start,
    Goal { active: bool },
    Gate { open: bool, facing: Direction },
    OneWay { facing: Direction },
    Button { pressed: bool },
}

pub open spec fn gate_state_name(open: bool) -> Seq<char> {
    if open {
        "open"@
    } else {
        "closed"@
    }
}

/// The texture file name of a texture index.
pub open spec fn texture_file_name(i: TileTextureIndex) -> Seq<char> {
    match i {
        TileTextureIndex::Path => "path"@,
        TileTextureIndex::Start => "start"@,
        TileTextureIndex::Ladder => "ladder"@,
        TileTextureIndex::Goal { active } => "goal"@ + if active {
            ""@
        } else {
            "_inactive"@
        },
        TileTextureIndex::Gate { open, facing } => gate_state_name(open) + "_gate_"@
            + direction_modifier(facing),
        TileTextureIndex::OneWay { facing } => "one_way_"@ + direction_modifier(facing),
        TileTextureIndex::Wall { kind } => "wall_"@ + wall_modifier(kind),
        TileTextureIndex::Button { pressed } => "button"@ + if pressed {
            "_pressed"@
        } else {
            ""@
        },
    }
}

impl TileTextureIndex {
    pub fn file_name(&self) -> (r: String)
        ensures
            r@ == texture_file_name(*self),
    {
        match self {
            TileTextureIndex::Path => "path".to_owned(),
            TileTextureIndex::Start => "start".to_owned(),
            TileTextureIndex::Goal { active } => join(
                "goal",
                if *active {
                    ""
                } else {
                    "_inactive"
                },
            ),
            TileTextureIndex::Gate { open, facing } => {
                let state = join(
                    if *open {
                        "open"
                    } else {
                        "closed"
                    },
                    "_gate_",
                );
                join(state.as_str(), facing.file_modifier())
            },
            TileTextureIndex::Ladder => "ladder".to_owned(),
            TileTextureIndex::OneWay { facing } => join("one_way_", facing.file_modifier()),
            TileTextureIndex::Wall { kind } => {
                let modifier = kind.file_modifier();
                join("wall_", modifier.as_str())
            },
            TileTextureIndex::Button { pressed } => join(
                "button",
                if *pressed {
                    "_pressed"
                } else {
                    ""
                },
            ),
        }
    }
}

/// The four neighbours a wall piece joins with.
#[derive(Clone, Copy, Debug, PartialEq, Eq, Structural, PartialOrd, Ord, Hash)]
pub struct Connections {
    pub up: bool,
    pub down: bool,
    pub left: bool,
    pub right: bool,
}

/// Whether a closed gate shows itself or looks like another tile.
#[derive(Debug, PartialEq, Eq)]
pub enum GateVisibility {
    Visible,
    Hidden(Box<TileType>),
}

/// The content of one cell of a level.
#[derive(Debug, PartialEq, Eq)]
pub enum TileType {
    Wall { kind: WallType },
    Path,
    Ladder,
    Start,
    Goal { active: bool },
    Gate { open: bool, facing: Direction, hidden: GateVisibility },
    OneWay { inverted: bool, facing: Direction },
    Button { pressed: bool, inverted: bool, target: ObjectCoordinate },
}

/// A copy of `t`, gate mimics included.
fn copy_tile(t: &TileType) -> (r: TileType)
    ensures
        r == *t,
    decreases t,
{
    match t {
        TileType::Wall { kind } => TileType::Wall { kind: *kind },
        TileType::Path => TileType::Path,
        TileType::Ladder => TileType::Ladder,
        TileType::Start => TileType::Start,
        TileType::Goal { active } => TileType::Goal { active: *active },
        TileType::Gate { open, facing, hidden } => TileType::Gate {
            open: *open,
            facing: *facing,
            hidden: match hidden {
                GateVisibility::Visible => GateVisibility::Visible,
                GateVisibility::Hidden(mimic) => GateVisibility::Hidden(
                    Box::new(copy_tile(mimic)),
                ),
            },
        },
        TileType::OneWay { inverted, facing } => TileType::OneWay {
            inverted: *inverted,
            facing: *facing,
        },
        TileType::Button { pressed, inverted, target } => TileType::Button {
            pressed: *pressed,
            inverted: *inverted,
            target: *target,
        },
    }
}

impl Clone for TileType {
    fn clone(&self) -> (r: TileType)
        ensures
            r == *self,
    {
        copy_tile(self)
    }
}

impl Clone for GateVisibility {
    fn clone(&self) -> (r: GateVisibility)
        ensures
            r == *self,
    {
        match self {
            GateVisibility::Visible => GateVisibility::Visible,
            GateVisibility::Hidden(mimic) => GateVisibility::Hidden(Box::new(copy_tile(mimic))),
        }
    }
}

/// What stepping onto a tile asks of the game around it.
#[derive(Clone, Copy, Debug, PartialEq, Eq, Structural)]
pub enum TileEffect {
    /// The player reached an active goal.
    Win,
    /// A button drives the tile at `target` with `power`.
    Power { target: ObjectCoordinate, power: bool },
}

/// Walls and closed gates block the way; nothing else does.
pub open spec fn solid(t: TileType) -> bool {
    match t {
        TileType::Wall { .. } => true,
        TileType::Gate { open, .. } => !open,
        _ => false,
    }
}

/// The texture of a tile. A closed hidden gate looks like the tile it mimics;
/// an open gate, or a visible one, shows itself.
pub open spec fn texture_of(t: TileType) -> TileTextureIndex
    decreases t,
{
    match t {
        TileType::Path => TileTextureIndex::Path,
        TileType::Start => TileTextureIndex::Start,
        TileType::Ladder => TileTextureIndex::Ladder,
        TileType::Goal { active } => TileTextureIndex::Goal { active },
        TileType::Button { pressed, .. } => TileTextureIndex::Button { pressed },
        TileType::OneWay { facing, inverted } => TileTextureIndex::OneWay {
            facing: if inverted {
                opposite(facing)
            } else {
                facing
            },
        },
        TileType::Wall { kind } => TileTextureIndex::Wall { kind },
        TileType::Gate { open, facing, hidden } => match hidden {
            GateVisibility::Hidden(mimic) if !open => texture_of(*mimic),
            _ => TileTextureIndex::Gate { open, facing },
        },
    }
}

/// The tile after a button drives it with `active`: a goal's `active`, a
/// gate's `open` and a one-way tile's `inverted` take the value; other tiles
/// have nothing a button can drive and stay as they are.
pub open spec fn driven(t: TileType, active: bool) -> TileType {
    match t {
        TileType::Goal { .. } => TileType::Goal { active },
        TileType::Gate { facing, hidden, .. } => TileType::Gate { open: active, facing, hidden },
        TileType::OneWay { facing, .. } => TileType::OneWay { inverted: active, facing },
        _ => t,
    }
}

/// The tile after the player steps onto it: a button toggles `pressed`,
/// every other tile stays as it is.
pub open spec fn stepped(t: TileType) -> TileType {
    match t {
        TileType::Button { pressed, inverted, target } => TileType::Button {
            pressed: !pressed,
            inverted,
            target,
        },
        _ => t,
    }
}

/// The effect of stepping onto a tile: an active goal wins, a button powers
/// its target with its new `pressed` state XOR `inverted`.
pub open spec fn step_effect(t: TileType) -> Option<TileEffect> {
    match t {
        TileType::Goal { active: true } => Some(TileEffect::Win),
        TileType::Button { pressed, inverted, target } => Some(
            TileEffect::Power { target, power: (!pressed) != inverted },
        ),
        _ => None,
    }
}

impl TileType {
    pub fn apply_button(&mut self, active: bool)
        ensures
            *final(self) == driven(*old(self), active),
    {
        match self {
            TileType::Goal { active: active_goal } => *active_goal = active,
            TileType::Gate { open, .. } => *open = active,
            TileType::OneWay { inverted, .. } => *inverted = active,
            _ => {},
        }
    }

    pub fn step_on(&mut self) -> (r: Option<TileEffect>)
        ensures
            *final(self) == stepped(*old(self)),
            r == step_effect(*old(self)),
    {
        match self {
            TileType::Goal { active: true } => Some(TileEffect::Win),
            TileType::Button { pressed, inverted, target } => {
                *pressed = !*pressed;
                let power = *pressed != *inverted;
                Some(TileEffect::Power { target: *target, power })
            },
            _ => None,
        }
    }

    pub fn is_solid(&self) -> (r: bool)
        ensures
            r == solid(*self),
    {
        match self {
            TileType::Wall { .. } => true,
            TileType::Button { .. } => false,
            TileType::Path => false,
            TileType::Start => false,
            TileType::Goal { .. } => false,
            TileType::Gate { open, .. } => !*open,
            TileType::OneWay { .. } => false,
            TileType::Ladder => false,
        }
    }

    pub fn tile_texture_id(&self) -> (r: TileTextureIndex)
        ensures
            r == texture_of(*self),
        decreases self,
    {
        match self {
            TileType::Path => TileTextureIndex::Path,
            TileType::Start => TileTextureIndex::Start,
            TileType::Ladder => TileTextureIndex::Ladder,
            TileType::Goal { active } => TileTextureIndex::Goal { active: *active },
            TileType::Button { pressed, .. } => TileTextureIndex::Button { pressed: *pressed },
            TileType::OneWay { facing, inverted } => {
                if *inverted {
                    TileTextureIndex::OneWay { facing: facing.inverted() }
                } else {
                    TileTextureIndex::OneWay { facing: *facing }
                }
            },
            TileType::Wall { kind } => TileTextureIndex::Wall { kind: *kind },
            TileType::Gate { open, facing, hidden } => match hidden {
                GateVisibility::Hidden(mimic) if !*open => mimic.tile_texture_id(),
                _ => TileTextureIndex::Gate { open: *open, facing: *facing },
            },
        }
    }
}

/// The state a button drives in a tile, for the tiles that have one.
pub open spec fn driven_field(t: TileType) -> Option<bool> {
    match t {
        TileType::Goal { active } => Some(active),
        TileType::Gate { open, .. } => Some(open),
        TileType::OneWay { inverted, .. } => Some(inverted),
        _ => None,
    }
}

/// Stepping onto a button twice leaves the button as it was. The first step
/// powers its target with the new `pressed` XOR `inverted`, the second with
/// the opposite, so a target that held the second value to begin with (or
/// has nothing to drive) is back where it started.
pub proof fn lemma_button_two_steps(
    pressed: bool,
    inverted: bool,
    target: ObjectCoordinate,
    t: TileType,
)
    ensures
        ({
            let b = TileType::Button { pressed, inverted, target };
            let first = (!pressed) != inverted;
            let second = pressed != inverted;
            &&& stepped(stepped(b)) == b
            &&& step_effect(b) == Some(TileEffect::Power { target, power: first })
            &&& step_effect(stepped(b)) == Some(TileEffect::Power { target, power: second })
            &&& second == !first
            &&& driven(driven(t, first), second) == driven(t, second)
            &&& (driven_field(t) is None || driven_field(t) == Some(second)) ==> driven(
                driven(t, first),
                second,
            ) == t
        }),
{
}

/// An open gate always shows itself, whatever it mimics when closed; a closed
/// hidden gate shows exactly what its mimic shows.
pub proof fn lemma_gate_texture(facing: Direction, hidden: GateVisibility, mimic: TileType)
    ensures
        texture_of(TileType::Gate { open: true, facing, hidden }) == (TileTextureIndex::Gate {
            open: true,
            facing,
        }),
        texture_of(
            TileType::Gate { open: false, facing, hidden: GateVisibility::Hidden(Box::new(mimic)) },
        ) == texture_of(mimic),
{
}

} // verus!
