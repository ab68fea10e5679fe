//! The tile grid: a row-major sequence of fixed-size square cells.
use vstd::prelude::*;
use vstd::arithmetic::div_mod::lemma_fundamental_div_mod;
use crate::geometry::{BBox, Vec2};

verus! {

/// Side of a cell: 32 world units.
pub const TILE_SIZE: i64 = 3200;

/// Tile id that marks an empty cell (air).
pub const EMPTY_SPRITE: usize = 100000;

/// One cell of the grid.
#[derive(Clone, Copy, Debug, PartialEq, Eq, Structural)]
pub struct Tile {
    /// Kept for gating tiles; collision does not read it.
    pub active: bool,
    pub id: usize,
}

/// A grid of `dimensions.0` columns and `dimensions.1` rows.
pub struct TileMap {
    pub dimensions: (u32, u32),
    pub tiles: Vec<Tile>,
}

/// Errors of map construction.
#[derive(Clone, Copy, Debug, PartialEq, Eq, Structural)]
pub enum MapError {
    /// The number of tiles is not columns times rows.
    DimensionMismatch,
}

/// World box of cell `i` in a grid of `cols` columns.
pub open spec fn tile_box(cols: int, i: int) -> BBox {
    BBox {
        pos: Vec2 { x: ((i % cols) * TILE_SIZE) as i64, y: ((i / cols) * TILE_SIZE) as i64 },
        size: Vec2 { x: TILE_SIZE, y: TILE_SIZE },
    }
}

/// A cell of a grid with `cols * rows` cells lies in a row below `rows`.
pub proof fn lemma_row_in_range(i: int, cols: int, rows: int)
    requires
        0 <= i < cols * rows,
        cols >= 0,
        rows >= 0,
    ensures
        cols > 0,
        0 <= i % cols < cols,
        0 <= i / cols < rows,
{
    if cols == 0 {
        assert(cols * rows == 0);
    }
    lemma_fundamental_div_mod(i, cols);
    let q = i / cols;
    let m = i % cols;
    assert(q < rows) by (nonlinear_arith)
        requires
            i == cols * q + m,
            0 <= m,
            i < cols * rows,
            cols > 0,
    ;
    assert(q >= 0) by (nonlinear_arith)
        requires
            i == cols * q + m,
            m < cols,
            i >= 0,
            cols > 0,
    ;
}

/// The first hit found from index `k` on is the lowest-index solid cell at or
/// after `k` that `b` overlaps; none is found exactly when there is none.
proof fn lemma_first_hit_from(map: TileMap, b: BBox, k: int)
    requires
        0 <= k <= map.tiles@.len(),
    ensures
        match map.first_hit_from(b, k) {
            None => forall|i: int| k <= i < map.tiles@.len() ==> !map.hits(b, i),
            Some(t) => exists|i: int|
                k <= i < map.tiles@.len() && map.hits(b, i) && t == tile_box(map.cols(), i) && (
                forall|j: int| k <= j < i ==> !map.hits(b, j)),
        },
    decreases map.tiles@.len() - k,
{
    if k < map.tiles@.len() {
        lemma_first_hit_from(map, b, k + 1);
        if !map.hits(b, k) {
            match map.first_hit_from(b, k) {
                None => {
                    assert(forall|i: int| k <= i < map.tiles@.len() ==> !map.hits(b, i));
                },
                Some(t) => {
                    let i = choose|i: int|
                        k + 1 <= i < map.tiles@.len() && map.hits(b, i) && t == tile_box(
                            map.cols(),
                            i,
                        ) && (forall|j: int| k + 1 <= j < i ==> !map.hits(b, j));
                    assert(forall|j: int| k <= j < i ==> !map.hits(b, j));
                },
            }
        }
    }
}

/// The query result is the box of the lowest-index solid cell that `b`
/// overlaps, and it is absent exactly when `b` overlaps no solid cell. A
/// found box lies in the grid's first quadrant and has the cell's size.
pub proof fn lemma_first_hit_is_lowest(map: TileMap, b: BBox)
    requires
        map.wf(),
    ensures
        match map.first_hit(b) {
            None => forall|i: int| 0 <= i < map.tiles@.len() ==> !map.hits(b, i),
            Some(t) => exists|i: int|
                0 <= i < map.tiles@.len() && map.hits(b, i) && t == tile_box(map.cols(), i) && (
                forall|j: int| 0 <= j < i ==> !map.hits(b, j)),
        },
        map.first_hit(b) matches Some(t) ==> {
            &&& 0 <= t.pos.x <= u32::MAX as int * TILE_SIZE
            &&& 0 <= t.pos.y <= u32::MAX as int * TILE_SIZE
            &&& t.size.x == TILE_SIZE
            &&& t.size.y == TILE_SIZE
        },
{
    lemma_first_hit_from(map, b, 0);
    if let Some(t) = map.first_hit(b) {
        let i = choose|i: int|
            0 <= i < map.tiles@.len() && map.hits(b, i) && t == tile_box(map.cols(), i) && (
            forall|j: int| 0 <= j < i ==> !map.hits(b, j));
        lemma_row_in_range(i, map.dimensions.0 as int, map.dimensions.1 as int);
    }
}

impl TileMap {
    /// The tile count matches the dimensions.
    pub open spec fn wf(&self) -> bool {
        self.tiles@.len() == self.dimensions.0 as int * self.dimensions.1 as int
    }

    pub open spec fn cols(&self) -> int {
        self.dimensions.0 as int
    }

    /// Cell `i` is solid and overlapped by `b`.
    pub open spec fn hits(&self, b: BBox, i: int) -> bool {
        &&& self.tiles@[i].id != EMPTY_SPRITE
        &&& b.overlaps(tile_box(self.cols(), i))
    }

    /// Box of the first cell from index `i` on that `b` hits, in index order.
    pub open spec fn first_hit_from(&self, b: BBox, i: int) -> Option<BBox>
        decreases self.tiles@.len() - i,
    {
        if i < 0 || i >= self.tiles@.len() {
            None
        } else if self.hits(b, i) {
            Some(tile_box(self.cols(), i))
        } else {
            self.first_hit_from(b, i + 1)
        }
    }

    /// Box of the lowest-index solid cell that `b` overlaps, if any.
    pub open spec fn first_hit(&self, b: BBox) -> Option<BBox> {
        self.first_hit_from(b, 0)
    }

    /// Builds a map from its cells, which must number `cols * rows`.
    pub fn from_tiles(cols: u32, rows: u32, tiles: Vec<Tile>) -> (r: Result<TileMap, MapError>)
        ensures
            (tiles@.len() == cols as int * rows as int) <==> r.is_ok(),
            r.is_ok() ==> r.unwrap().dimensions == (cols, rows) && r.unwrap().tiles@ == tiles@,
            r.is_err() ==> r == Err::<TileMap, MapError>(MapError::DimensionMismatch),
    {
        proof {
            let (c, n) = (cols as int, rows as int);
            assert(0 <= c * n <= 0xffff_ffff * 0xffff_ffff) by (nonlinear_arith)
                requires
                    0 <= c <= 0xffff_ffff,
                    0 <= n <= 0xffff_ffff,
            ;
        }
        let want = (cols as u128) * (rows as u128);
        if tiles.len() as u128 == want {
            Ok(TileMap { dimensions: (cols, rows), tiles })
        } else {
            Err(MapError::DimensionMismatch)
        }
    }

    /// A map of `cols * rows` empty, active cells.
    pub fn new_empty(cols: u32, rows: u32) -> (r: TileMap)
        requires
            cols as int * rows as int <= usize::MAX,
        ensures
            r.wf(),
            r.dimensions == (cols, rows),
            forall|i: int|
                0 <= i < r.tiles@.len() ==> r.tiles@[i] == (Tile { active: true, id: EMPTY_SPRITE }),
    {
        let n = (cols as usize) * (rows as usize);
        let mut tiles: Vec<Tile> = Vec::new();
        let mut k: usize = 0;
        while k < n
            invariant
                k <= n,
                tiles@.len() == k,
                forall|i: int|
                    0 <= i < k ==> tiles@[i] == (Tile { active: true, id: EMPTY_SPRITE }),
            decreases n - k,
        {
            tiles.push(Tile { active: true, id: EMPTY_SPRITE });
            k = k + 1;
        }
        TileMap { dimensions: (cols, rows), tiles }
    }

    /// World box of cell `i`: column `i % cols` and row `i / cols`, 32 units each.
    pub fn tile_bbox(&self, i: usize) -> (r: BBox)
        requires
            self.wf(),
            i < self.tiles@.len(),
        ensures
            r == tile_box(self.cols(), i as int),
            0 <= r.pos.x <= u32::MAX as int * TILE_SIZE,
            0 <= r.pos.y <= u32::MAX as int * TILE_SIZE,
    {
        proof {
            lemma_row_in_range(i as int, self.dimensions.0 as int, self.dimensions.1 as int);
        }
        let cols = self.dimensions.0 as usize;
        let col = (i % cols) as i64;
        let row = (i / cols) as i64;
        BBox::new(col * TILE_SIZE, row * TILE_SIZE, TILE_SIZE, TILE_SIZE)
    }

    /// Sets the id of cell `i`.
    pub fn set_tile_id(&mut self, i: usize, id: usize)
        requires
            i < old(self).tiles@.len(),
        ensures
            final(self).dimensions == old(self).dimensions,
            final(self).tiles@ == old(self).tiles@.update(
                i as int,
                Tile { active: old(self).tiles@[i as int].active, id },
            ),
    {
        let t = Tile { active: self.tiles[i].active, id };
        self.tiles.set(i, t);
    }
}

} // verus!
