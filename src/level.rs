//! Levels: the grid of tiles, and the named templates that games start from.

use std::collections::BTreeMap;

use vstd::prelude::*;
use vstd::std_specs::cmp::OrdSpec;
use vstd::std_specs::iter::IteratorSpec;

use crate::coord::ObjectCoordinate;
use crate::direction::{EastWestAxis, NorthSouthAxis, Orientation};
use crate::tile::{driven, step_effect, stepped, TileEffect, TileType, WallType};

verus! {

broadcast use vstd::laws_cmp::group_laws_cmp;

/// The tiles of a level, keyed by `(x, y)`. A cell with no entry is void:
/// not walkable and not drawn.
pub struct LevelState {
    pub tile_map: BTreeMap<(i64, i64), TileType>,
}

impl View for LevelState {
    type V = Map<(i64, i64), TileType>;

    open spec fn view(&self) -> Map<(i64, i64), TileType> {
        self.tile_map@
    }
}

/// The grid after the player stepped onto cell `k`.
pub open spec fn tiles_after_step(tiles: Map<(i64, i64), TileType>, k: (i64, i64)) -> Map<
    (i64, i64),
    TileType,
> {
    if tiles.contains_key(k) {
        tiles.insert(k, stepped(tiles[k]))
    } else {
        tiles
    }
}

/// The grid after a button drove cell `k` with `power`; a cell that holds no
/// tile leaves the grid as it is.
pub open spec fn tiles_after_power(
    tiles: Map<(i64, i64), TileType>,
    k: (i64, i64),
    power: bool,
) -> Map<(i64, i64), TileType> {
    if tiles.contains_key(k) {
        tiles.insert(k, driven(tiles[k], power))
    } else {
        tiles
    }
}

impl LevelState {
    /// A level with no tiles.
    pub fn new() -> (r: LevelState)
        ensures
            r@ == Map::<(i64, i64), TileType>::empty(),
    {
        LevelState { tile_map: BTreeMap::new() }
    }

    /// Puts `tile` at `coord`, replacing what was there.
    pub fn insert(&mut self, coord: ObjectCoordinate, tile: TileType)
        ensures
            final(self)@ == old(self)@.insert(coord.key(), tile),
    {
        self.tile_map.insert((coord.x, coord.y), tile);
    }

    /// The tile at `coord`, if there is one.
    pub fn get(&self, coord: ObjectCoordinate) -> (r: Option<&TileType>)
        ensures
            r is Some <==> self@.contains_key(coord.key()),
            r is Some ==> *r->0 == self@[coord.key()],
    {
        self.tile_map.get(&(coord.x, coord.y))
    }

    /// The number of cells that hold a tile.
    pub fn len(&self) -> (r: usize)
        ensures
            r == self@.len(),
    {
        self.tile_map.len()
    }

    /// Steps onto the tile at `coord`, if there is one, and returns what that
    /// asks of the game.
    pub fn step_on_at(&mut self, coord: ObjectCoordinate) -> (r: Option<TileEffect>)
        ensures
            final(self)@ == tiles_after_step(old(self)@, coord.key()),
            r == (if old(self)@.contains_key(coord.key()) {
                step_effect(old(self)@[coord.key()])
            } else {
                None
            }),
    {
        let key = (coord.x, coord.y);
        match self.tile_map.remove(&key) {
            Some(tile) => {
                let mut tile = tile;
                let effect = tile.step_on();
                self.tile_map.insert(key, tile);
                proof {
                    assert(self@ =~= tiles_after_step(old(self)@, coord.key()));
                }
                effect
            },
            None => None,
        }
    }

    /// Drives the tile at `coord` with `power`; a missing tile is no error.
    pub fn apply_button_at(&mut self, coord: ObjectCoordinate, power: bool)
        ensures
            final(self)@ == tiles_after_power(old(self)@, coord.key(), power),
    {
        let key = (coord.x, coord.y);
        match self.tile_map.remove(&key) {
            Some(tile) => {
                let mut tile = tile;
                tile.apply_button(power);
                self.tile_map.insert(key, tile);
                proof {
                    assert(self@ =~= tiles_after_power(old(self)@, coord.key(), power));
                }
            },
            None => {},
        }
    }
}

/// Every record of `rs` agrees with `tiles`, and every tile of `tiles` has a
/// record in `rs`.
pub open spec fn records_of(
    rs: Seq<(ObjectCoordinate, TileType)>,
    tiles: Map<(i64, i64), TileType>,
) -> bool {
    &&& forall|i: int|
        0 <= i < rs.len() ==> #[trigger] tiles.contains_key(rs[i].0.key()) && tiles[rs[i].0.key()]
            == rs[i].1
    &&& forall|k: (i64, i64)|
        #[trigger] tiles.contains_key(k) ==> exists|i: int|
            0 <= i < rs.len() && #[trigger] rs[i].0.key() == k
}

/// `a` comes before `b`: by `x`, then by `y`.
pub open spec fn precedes(a: ObjectCoordinate, b: ObjectCoordinate) -> bool {
    a.x < b.x || (a.x == b.x && a.y < b.y)
}

proof fn lemma_less_precedes(a: ObjectCoordinate, b: ObjectCoordinate)
    requires
        a.key().cmp_spec(&b.key()) is Less,
    ensures
        precedes(a, b),
{
}

/// The grid that putting the records in, first to last, builds; a later
/// record for a cell replaces an earlier one.
pub open spec fn grid_of(rs: Seq<(ObjectCoordinate, TileType)>) -> Map<(i64, i64), TileType>
    decreases rs.len(),
{
    if rs.len() == 0 {
        Map::empty()
    } else {
        grid_of(rs.drop_last()).insert(rs.last().0.key(), rs.last().1)
    }
}

impl LevelState {
    /// One record per tile, ordered by `x`, then by `y`.
    pub fn records(&self) -> (r: Vec<(ObjectCoordinate, TileType)>)
        ensures
            records_of(r@, self@),
            r@.len() == self@.len(),
            forall|i: int, j: int| 0 <= i < j < r@.len() ==> precedes(r@[i].0, r@[j].0),
    {
        assert(vstd::laws_cmp::obeys_cmp::<(i64, i64)>());
        let entries = self.tile_map.iter();
        let ghost seen = entries.remaining();
        let ghost keys = seen.map_values(|kv: (&(i64, i64), &TileType)| *kv.0);
        assert(vstd::std_specs::btree::increasing_seq(keys));
        assert(forall|i: int, j: int|
            0 <= i < j < seen.len() ==> (*seen[i].0).cmp_spec(&*seen[j].0) is Less) by {
            assert forall|i: int, j: int| 0 <= i < j < seen.len() implies (*seen[i].0).cmp_spec(
                &*seen[j].0,
            ) is Less by {
                assert(keys[i] == *seen[i].0);
                assert(keys[j] == *seen[j].0);
                assert(keys[i].cmp_spec(&keys[j]) is Less);
            }
        }
        let mut out: Vec<(ObjectCoordinate, TileType)> = Vec::new();
        for entry in it: entries
            invariant
                out@.len() == it.index(),
                forall|i: int|
                    0 <= i < out@.len() ==> out@[i].0.key() == *it.seq()[i].0 && out@[i].1
                        == *it.seq()[i].1,
                it.seq() == seen,
        {
            let (key, tile) = entry;
            out.push((ObjectCoordinate { x: key.0, y: key.1 }, tile.clone()));
        }
        assert forall|i: int, j: int| 0 <= i < j < out@.len() implies precedes(
            out@[i].0,
            out@[j].0,
        ) by {
            lemma_less_precedes(out@[i].0, out@[j].0);
        }
        out
    }

    /// The grid that the records build, later records replacing earlier ones
    /// for the same cell.
    pub fn from_records(rs: Vec<(ObjectCoordinate, TileType)>) -> (r: LevelState)
        ensures
            r@ == grid_of(rs@),
    {
        let mut level = LevelState::new();
        let total = rs.len();
        let ghost all = rs@;
        let mut rest = rs;
        let mut done: usize = 0;
        while rest.len() > 0
            invariant
                done + rest@.len() == all.len(),
                all.len() == total,
                rest@ == all.subrange(done as int, all.len() as int),
                level@ == grid_of(all.subrange(0, done as int)),
            decreases rest.len(),
        {
            let (coord, tile) = rest.remove(0);
            level.insert(coord, tile);
            assert(all.subrange(0, done + 1).drop_last() =~= all.subrange(0, done as int));
            done = done + 1;
            assert(rest@ =~= all.subrange(done as int, all.len() as int));
        }
        assert(all.subrange(0, done as int) =~= all);
        level
    }
}

proof fn lemma_grid_of_agreeing(
    rs: Seq<(ObjectCoordinate, TileType)>,
    tiles: Map<(i64, i64), TileType>,
)
    requires
        forall|i: int|
            0 <= i < rs.len() ==> #[trigger] tiles.contains_key(rs[i].0.key()) && tiles[rs[i].0.key()]
                == rs[i].1,
    ensures
        forall|k: (i64, i64)|
            #[trigger] grid_of(rs).contains_key(k) <==> exists|i: int|
                0 <= i < rs.len() && #[trigger] rs[i].0.key() == k,
        forall|k: (i64, i64)|
            #[trigger] grid_of(rs).contains_key(k) ==> tiles.contains_key(k) && grid_of(rs)[k]
                == tiles[k],
    decreases rs.len(),
{
    if rs.len() > 0 {
        let init = rs.drop_last();
        assert forall|i: int| 0 <= i < init.len() implies #[trigger] tiles.contains_key(
            init[i].0.key(),
        ) && tiles[init[i].0.key()] == init[i].1 by {
            assert(init[i] == rs[i]);
        }
        lemma_grid_of_agreeing(init, tiles);
        assert(tiles.contains_key(rs[rs.len() - 1].0.key()));
        assert(grid_of(rs) == grid_of(init).insert(rs.last().0.key(), rs.last().1));
        assert forall|k: (i64, i64)| #[trigger] grid_of(rs).contains_key(k) implies exists|i: int|
            0 <= i < rs.len() && #[trigger] rs[i].0.key() == k by {
            if k != rs.last().0.key() {
                assert(grid_of(init).contains_key(k));
                let i = choose|i: int| 0 <= i < init.len() && #[trigger] init[i].0.key() == k;
                assert(rs[i] == init[i]);
            } else {
                assert(rs[rs.len() - 1].0.key() == k);
            }
        }
        assert forall|k: (i64, i64)| (exists|i: int| 0 <= i < rs.len() && #[trigger] rs[i].0.key() == k)
            implies #[trigger] grid_of(rs).contains_key(k) by {
            let i = choose|i: int| 0 <= i < rs.len() && #[trigger] rs[i].0.key() == k;
            if i < rs.len() - 1 {
                assert(init[i] == rs[i]);
            }
        }
    }
}

/// Flattening a grid to records and putting the records back in gives the
/// same grid: a level's tiles survive being written out as records.
pub proof fn lemma_records_round_trip(
    rs: Seq<(ObjectCoordinate, TileType)>,
    tiles: Map<(i64, i64), TileType>,
)
    requires
        records_of(rs, tiles),
    ensures
        grid_of(rs) == tiles,
{
    lemma_grid_of_agreeing(rs, tiles);
    assert(grid_of(rs) =~= tiles);
}

impl Clone for LevelState {
    fn clone(&self) -> (r: LevelState)
        ensures
            r@ == self@,
    {
        LevelState { tile_map: self.tile_map.clone() }
    }
}

/// A named level as it is saved: the tiles a game starts from.
pub struct LevelTemplate {
    pub name: String,
    pub init_state: LevelState,
}

impl Clone for LevelTemplate {
    fn clone(&self) -> (r: LevelTemplate)
        ensures
            r.name@ == self.name@,
            r.init_state@ == self.init_state@,
    {
        LevelTemplate { name: self.name.clone(), init_state: self.init_state.clone() }
    }
}

/// The levels that loaded, in the order they were tried; a failed attempt
/// is left out.
pub open spec fn loaded<E>(attempts: Seq<Result<LevelTemplate, E>>) -> Seq<LevelTemplate>
    decreases attempts.len(),
{
    if attempts.len() == 0 {
        Seq::empty()
    } else {
        let rest = loaded(attempts.subrange(1, attempts.len() as int));
        match attempts[0] {
            Ok(level) => seq![level] + rest,
            Err(_) => rest,
        }
    }
}

/// Keeps the levels that loaded and drops the attempts that failed, so that
/// one bad level file does not keep the others from loading.
pub fn keep_loaded_levels<E>(attempts: Vec<Result<LevelTemplate, E>>) -> (r: Vec<LevelTemplate>)
    ensures
        r@ == loaded(attempts@),
{
    let mut rest = attempts;
    let mut levels: Vec<LevelTemplate> = Vec::new();
    while rest.len() > 0
        invariant
            levels@ + loaded(rest@) == loaded(attempts@),
        decreases rest.len(),
    {
        let ghost before = rest@;
        let attempt = rest.remove(0);
        assert(rest@ =~= before.subrange(1, before.len() as int));
        match attempt {
            Ok(level) => {
                let ghost prev = levels@;
                levels.push(level);
                assert(levels@ + loaded(rest@) =~= prev + (seq![level] + loaded(rest@)));
            },
            Err(_) => {},
        }
    }
    assert(levels@ =~= levels@ + loaded(rest@));
    levels
}

/// The tiles of the level that a fresh install writes out.
pub open spec fn test_level_tiles() -> Map<(i64, i64), TileType> {
    map![
        (0i64, 0i64) => TileType::Start,
        (0i64, 1i64) => TileType::Path,
        (1i64, 1i64) => TileType::Path,
        (2i64, 1i64) => TileType::Path,
        (2i64, 2i64) => TileType::Path,
        (2i64, 3i64) => TileType::Path,
        (1i64, 3i64) => TileType::Path,
        (0i64, 2i64) => TileType::Wall {
            kind: WallType::Corner {
                north_south_facing: NorthSouthAxis::North,
                east_west_facing: EastWestAxis::West,
            },
        },
        (1i64, 2i64) => TileType::Wall { kind: WallType::Double { orientation: Orientation::Horizontal } },
        (-1i64, 2i64) => TileType::Wall { kind: WallType::Double { orientation: Orientation::Horizontal } },
        (0i64, 3i64) => TileType::Goal { active: false },
        (-1i64, -1i64) => TileType::Button {
            pressed: false,
            inverted: false,
            target: ObjectCoordinate { x: 0, y: 3 },
        },
    ]
}

/// A small level named "Test": a path from the start to an inactive goal,
/// some walls, and a button that drives the goal.
pub fn test_level() -> (r: LevelTemplate)
    ensures
        r.name@ == "Test"@,
        r.init_state@ == test_level_tiles(),
{
    let mut tiles = LevelState::new();
    tiles.insert(ObjectCoordinate { x: 0, y: 0 }, TileType::Start);
    tiles.insert(ObjectCoordinate { x: 0, y: 1 }, TileType::Path);
    tiles.insert(ObjectCoordinate { x: 1, y: 1 }, TileType::Path);
    tiles.insert(ObjectCoordinate { x: 2, y: 1 }, TileType::Path);
    tiles.insert(ObjectCoordinate { x: 2, y: 2 }, TileType::Path);
    tiles.insert(ObjectCoordinate { x: 2, y: 3 }, TileType::Path);
    tiles.insert(ObjectCoordinate { x: 1, y: 3 }, TileType::Path);
    tiles.insert(
        ObjectCoordinate { x: 0, y: 2 },
        TileType::Wall {
            kind: WallType::Corner {
                north_south_facing: NorthSouthAxis::North,
                east_west_facing: EastWestAxis::West,
            },
        },
    );
    tiles.insert(
        ObjectCoordinate { x: 1, y: 2 },
        TileType::Wall { kind: WallType::Double { orientation: Orientation::Horizontal } },
    );
    tiles.insert(
        ObjectCoordinate { x: -1, y: 2 },
        TileType::Wall { kind: WallType::Double { orientation: Orientation::Horizontal } },
    );
    tiles.insert(ObjectCoordinate { x: 0, y: 3 }, TileType::Goal { active: false });
    tiles.insert(
        ObjectCoordinate { x: -1, y: -1 },
        TileType::Button {
            pressed: false,
            inverted: false,
            target: ObjectCoordinate { x: 0, y: 3 },
        },
    );
    assert(tiles@ =~= test_level_tiles());
    LevelTemplate { name: "Test".to_owned(), init_state: tiles }
}

} // verus!
