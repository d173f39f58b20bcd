//! Grid cells and the player's sub-cell position.

use vstd::prelude::*;

verus! {

/// How many movement steps make up one tile: a player position is kept in
/// these units, so that it stays an exact integer.
pub const STEPS_PER_TILE: i64 = 128;

/// The identity of one cell of the tile grid.
#[derive(Clone, Copy, Debug, PartialEq, Eq, Structural, PartialOrd, Ord, Hash)]
pub struct ObjectCoordinate {
    pub x: i64,
    pub y: i64,
}

impl ObjectCoordinate {
    /// The key under which a level stores the tile of this cell; keys are
    /// ordered by `x`, then by `y`.
    pub open spec fn key(self) -> (i64, i64) {
        (self.x, self.y)
    }
}

/// The player's position, in steps of `1 / STEPS_PER_TILE` of a tile.
#[derive(Clone, Copy, Debug, PartialEq, Eq, Structural)]
pub struct PlayerCoordinate {
    pub x: i64,
    pub y: i64,
}

/// The tile that `n` steps fall in: `n / STEPS_PER_TILE` rounded to the
/// nearest integer, halves rounded away from zero.
pub open spec fn round_to_tile(n: int) -> int {
    if n >= 0 {
        (n + STEPS_PER_TILE / 2) / STEPS_PER_TILE as int
    } else {
        -((-n + STEPS_PER_TILE / 2) / STEPS_PER_TILE as int)
    }
}

/// Rounding picks a nearest tile, and of two equally near tiles the one
/// farther from zero.
pub proof fn lemma_round_to_tile_nearest(n: int)
    ensures
        ({
            let r = round_to_tile(n);
            let d = n - r * STEPS_PER_TILE;
            &&& -STEPS_PER_TILE / 2 <= d <= STEPS_PER_TILE / 2
            &&& d == STEPS_PER_TILE / 2 ==> n < 0
            &&& d == -(STEPS_PER_TILE / 2) ==> n > 0
        }),
{
    if n >= 0 {
        let q = (n + 64) / 128;
        assert(q * 128 <= n + 64 < q * 128 + 128) by (nonlinear_arith)
            requires
                q == (n + 64) / 128,
                n >= 0,
        ;
    } else {
        let q = (-n + 64) / 128;
        assert(q * 128 <= -n + 64 < q * 128 + 128) by (nonlinear_arith)
            requires
                q == (-n + 64) / 128,
                n < 0,
        ;
    }
}

/// The cell that holds the position `p`.
pub open spec fn cell_of(p: PlayerCoordinate) -> ObjectCoordinate {
    ObjectCoordinate { x: round_to_tile(p.x as int) as i64, y: round_to_tile(p.y as int) as i64 }
}

fn round_steps(n: i64) -> (r: i64)
    ensures
        r as int == round_to_tile(n as int),
{
    let wide: i128 = n as i128;
    let magnitude: i128 = if wide >= 0 { wide } else { -wide };
    let rounded: i128 = (magnitude + (STEPS_PER_TILE / 2) as i128) / STEPS_PER_TILE as i128;
    if n >= 0 {
        rounded as i64
    } else {
        -rounded as i64
    }
}

impl From<&PlayerCoordinate> for ObjectCoordinate {
    fn from(p: &PlayerCoordinate) -> (r: ObjectCoordinate)
        ensures
            r == cell_of(*p),
    {
        ObjectCoordinate { x: round_steps(p.x), y: round_steps(p.y) }
    }
}

impl vstd::std_specs::convert::FromSpecImpl<&PlayerCoordinate> for ObjectCoordinate {
    open spec fn obeys_from_spec() -> bool {
        true
    }

    open spec fn from_spec(p: &PlayerCoordinate) -> ObjectCoordinate {
        cell_of(*p)
    }
}

} // verus!
