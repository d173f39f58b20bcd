//! Compass and axis directions, with the names used to pick textures.

use vstd::prelude::*;

verus! {

/// One of the six directions a wall, gate or one-way tile can face.
#[derive(Clone, Copy, Debug, PartialEq, Eq, Structural, PartialOrd, Ord, Hash)]
pub enum Direction {
    UP,
    DOWN,
    NORTH,
    EAST,
    SOUTH,
    WEST,
}

/// The direction opposite to `d`.
pub open spec fn opposite(d: Direction) -> Direction {
    match d {
        Direction::UP => Direction::DOWN,
        Direction::DOWN => Direction::UP,
        Direction::EAST => Direction::WEST,
        Direction::WEST => Direction::EAST,
        Direction::SOUTH => Direction::NORTH,
        Direction::NORTH => Direction::SOUTH,
    }
}

/// The texture-name fragment of a direction.
pub open spec fn direction_modifier(d: Direction) -> Seq<char> {
    match d {
        Direction::UP => "lower"@,
        Direction::DOWN => "upper"@,
        Direction::WEST => "right"@,
        Direction::EAST => "left"@,
        Direction::NORTH => "bottom"@,
        Direction::SOUTH => "top"@,
    }
}

impl Direction {
    pub fn inverted(self) -> (r: Direction)
        ensures
            r == opposite(self),
    {
        match self {
            Direction::UP => Direction::DOWN,
            Direction::DOWN => Direction::UP,
            Direction::EAST => Direction::WEST,
            Direction::WEST => Direction::EAST,
            Direction::SOUTH => Direction::NORTH,
            Direction::NORTH => Direction::SOUTH,
        }
    }

    pub fn file_modifier(self) -> (r: &'static str)
        ensures
            r@ == direction_modifier(self),
    {
        match self {
            Direction::UP => "lower",
            Direction::DOWN => "upper",
            Direction::WEST => "right",
            Direction::EAST => "left",
            Direction::NORTH => "bottom",
            Direction::SOUTH => "top",
        }
    }
}

/// Inverting a direction twice gives it back, and no direction is its own
/// inverse.
pub proof fn lemma_inverted_involution(d: Direction)
    ensures
        opposite(opposite(d)) == d,
        opposite(d) != d,
{
}

/// The north/south half of a corner wall's facing.
#[derive(Clone, Copy, Debug, PartialEq, Eq, Structural, PartialOrd, Ord, Hash)]
pub enum NorthSouthAxis {
    North,
    South,
}

pub open spec fn north_south_modifier(a: NorthSouthAxis) -> Seq<char> {
    match a {
        NorthSouthAxis::North => "bottom"@,
        NorthSouthAxis::South => "top"@,
    }
}

impl NorthSouthAxis {
    pub fn file_modifier(self) -> (r: &'static str)
        ensures
            r@ == north_south_modifier(self),
    {
        match self {
            NorthSouthAxis::North => "bottom",
            NorthSouthAxis::South => "top",
        }
    }
}

/// The east/west half of a corner wall's facing.
#[derive(Clone, Copy, Debug, PartialEq, Eq, Structural, PartialOrd, Ord, Hash)]
pub enum EastWestAxis {
    East,
    West,
}

pub open spec fn east_west_modifier(a: EastWestAxis) -> Seq<char> {
    match a {
        EastWestAxis::East => "right"@,
        EastWestAxis::West => "left"@,
    }
}

impl EastWestAxis {
    pub fn file_modifier(self) -> (r: &'static str)
        ensures
            r@ == east_west_modifier(self),
    {
        match self {
            EastWestAxis::East => "right",
            EastWestAxis::West => "left",
        }
    }
}

/// The orientation of a double wall.
#[derive(Clone, Copy, Debug, PartialEq, Eq, Structural, PartialOrd, Ord, Hash)]
pub enum Orientation {
    Horizontal,
    Vertical,
}

pub open spec fn orientation_modifier(o: Orientation) -> Seq<char> {
    match o {
        Orientation::Horizontal => "horizontal"@,
        Orientation::Vertical => "vertical"@,
    }
}

impl Orientation {
    pub fn file_modifier(self) -> (r: &'static str)
        ensures
            r@ == orientation_modifier(self),
    {
        match self {
            Orientation::Horizontal => "horizontal",
            Orientation::Vertical => "vertical",
        }
    }
}

} // verus!
