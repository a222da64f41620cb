//! The level grid: fixed-size 2D tile storage with bounds-checked reads and
//! writes, and deep copying so that a template and its live copy evolve
//! independently.

use vstd::prelude::*;

use crate::tile::Tile;
use crate::GameError;

verus! {

/// A rectangular grid of tiles, stored row by row. A level exists in two
/// lifecycles: the authored template, never mutated during play, and a live
/// copy cloned from it at level start.
#[derive(Debug)]
pub struct Level {
    width: usize,
    height: usize,
    tiles: Vec<Tile>,
}

impl View for Level {
    type V = Seq<Tile>;

    closed spec fn view(&self) -> Seq<Tile> {
        self.tiles@
    }
}

/// Row-major position of cell `(x, y)` in a grid `width` tiles wide.
pub open spec fn spec_cell_index(width: int, x: int, y: int) -> int {
    y * width + x
}

/// A cell inside a `width` by `height` rectangle has a row-major position
/// inside the grid's storage.
pub proof fn lemma_cell_index_in_range(width: int, height: int, x: int, y: int)
    requires
        0 <= x < width,
        0 <= y < height,
    ensures
        0 <= spec_cell_index(width, x, y) < width * height,
{
    assert(0 <= y * width + x < width * height) by (nonlinear_arith)
        requires
            0 <= x < width,
            0 <= y < height,
    ;
}

/// Distinct in-range cells have distinct row-major positions.
pub proof fn lemma_cell_index_injective(width: int, height: int, x1: int, y1: int, x2: int, y2: int)
    requires
        0 <= x1 < width,
        0 <= y1 < height,
        0 <= x2 < width,
        0 <= y2 < height,
        (x1, y1) != (x2, y2),
    ensures
        spec_cell_index(width, x1, y1) != spec_cell_index(width, x2, y2),
{
    assert(y1 * width + x1 != y2 * width + x2) by (nonlinear_arith)
        requires
            0 <= x1 < width,
            0 <= y1 < height,
            0 <= x2 < width,
            0 <= y2 < height,
            !(x1 == x2 && y1 == y2),
    ;
}

impl Level {
    /// The storage holds exactly one tile per cell of the rectangle, and the
    /// rectangle is not degenerate.
    pub open spec fn wf(self) -> bool {
        &&& 1 <= self.spec_width()
        &&& 1 <= self.spec_height()
        &&& self.spec_width() * self.spec_height() <= usize::MAX
        &&& self@.len() == self.spec_width() * self.spec_height()
    }

    pub closed spec fn spec_width(self) -> usize {
        self.width
    }

    pub closed spec fn spec_height(self) -> usize {
        self.height
    }

    /// The tile at in-range cell `(x, y)`.
    pub open spec fn spec_tile_at(self, x: int, y: int) -> Tile {
        self@[spec_cell_index(self.spec_width() as int, x, y)]
    }

    /// Both grids cover the same rectangle.
    pub open spec fn spec_same_size(self, other: Level) -> bool {
        self.spec_width() == other.spec_width() && self.spec_height() == other.spec_height()
    }

    /// A fresh level of the given size with every cell empty, as the editor
    /// starts a new design from.
    pub fn new(width: usize, height: usize) -> (level: Level)
        requires
            1 <= width,
            1 <= height,
            width * height <= usize::MAX,
        ensures
            level.wf(),
            level.spec_width() == width,
            level.spec_height() == height,
            forall|i: int| 0 <= i < level@.len() ==> level@[i] == Tile::Empty,
    {
        proof {
            assert(width * height <= usize::MAX) by (nonlinear_arith)
                requires
                    width * height <= usize::MAX,
            ;
        }
        let count: usize = width * height;
        let tiles: Vec<Tile> = vec![Tile::Empty; count];
        Level { width, height, tiles }
    }

    /// Assembles a level from decoded geometry: a rectangle and one tile per
    /// cell, row by row.
    pub fn from_parts(width: usize, height: usize, tiles: Vec<Tile>) -> (level: Level)
        requires
            1 <= width,
            1 <= height,
            width * height <= usize::MAX,
            tiles@.len() == width * height,
        ensures
            level.wf(),
            level.spec_width() == width,
            level.spec_height() == height,
            level@ == tiles@,
    {
        Level { width, height, tiles }
    }

    /// Read-only access to the row-major tile storage.
    pub fn tiles(&self) -> (v: &Vec<Tile>)
        ensures
            v@ == self@,
    {
        &self.tiles
    }

    pub fn width(&self) -> (w: usize)
        ensures
            w == self.spec_width(),
    {
        self.width
    }

    pub fn height(&self) -> (h: usize)
        ensures
            h == self.spec_height(),
    {
        self.height
    }

    /// Reads the tile at `(x, y)`; `None` exactly when the cell lies outside
    /// the grid. An out-of-range read is not a fault.
    pub fn get_tile(&self, x: usize, y: usize) -> (r: Option<Tile>)
        requires
            self.wf(),
        ensures
            r == if x < self.spec_width() && y < self.spec_height() {
                Some(self.spec_tile_at(x as int, y as int))
            } else {
                Option::<Tile>::None
            },
    {
        if x < self.width && y < self.height {
            let total = self.tiles.len();
            proof {
                lemma_cell_index_in_range(
                    self.width as int,
                    self.height as int,
                    x as int,
                    y as int,
                );
                assert(spec_cell_index(self.spec_width() as int, x as int, y as int) < total);
            }
            let index: usize = y * self.width + x;
            Some(self.tiles[index])
        } else {
            None
        }
    }

    /// Writes `tile` at `(x, y)`. An out-of-range write is a contract
    /// violation reported as an error; the grid is then left unchanged.
    pub fn set_tile(&mut self, x: usize, y: usize, tile: Tile) -> (r: Result<(), GameError>)
        requires
            old(self).wf(),
        ensures
            final(self).wf(),
            final(self).spec_width() == old(self).spec_width(),
            final(self).spec_height() == old(self).spec_height(),
            if x < old(self).spec_width() && y < old(self).spec_height() {
                r == Ok::<(), GameError>(())
                    && final(self)@ == old(self)@.update(
                        spec_cell_index(old(self).spec_width() as int, x as int, y as int),
                        tile,
                    )
            } else {
                r == Err::<(), GameError>(GameError::OutOfBounds) && *final(self) == *old(self)
            },
    {
        if x < self.width && y < self.height {
            let total = self.tiles.len();
            proof {
                lemma_cell_index_in_range(
                    self.width as int,
                    self.height as int,
                    x as int,
                    y as int,
                );
                assert(spec_cell_index(self.spec_width() as int, x as int, y as int) < total);
            }
            let index: usize = y * self.width + x;
            self.tiles.set(index, tile);
            Ok(())
        } else {
            Err(GameError::OutOfBounds)
        }
    }
}

impl Level {
    /// True when cell `(x1, y1)` is scanned before `(x2, y2)` in the
    /// column-major order the player search walks.
    pub open spec fn spec_scanned_before(x1: int, y1: int, x2: int, y2: int) -> bool {
        x1 < x2 || (x1 == x2 && y1 < y2)
    }

    /// Finds the first player marker in column-major order, or `None` when
    /// no cell holds one.
    pub fn find_player(&self) -> (r: Option<(usize, usize)>)
        requires
            self.wf(),
        ensures
            match r {
                Some(p) => {
                    &&& p.0 < self.spec_width()
                    &&& p.1 < self.spec_height()
                    &&& self.spec_tile_at(p.0 as int, p.1 as int) == Tile::Player
                    &&& forall|x: int, y: int|
                        0 <= x < self.spec_width() && 0 <= y < self.spec_height()
                            && Self::spec_scanned_before(x, y, p.0 as int, p.1 as int)
                            ==> self.spec_tile_at(x, y) != Tile::Player
                },
                None => forall|x: int, y: int|
                    0 <= x < self.spec_width() && 0 <= y < self.spec_height()
                        ==> self.spec_tile_at(x, y) != Tile::Player,
            },
    {
        let width = self.width();
        let height = self.height();
        let mut x: usize = 0;
        while x < width
            invariant
                self.wf(),
                width == self.spec_width(),
                height == self.spec_height(),
                x <= width,
                forall|i: int, j: int|
                    0 <= i < x && 0 <= j < height ==> self.spec_tile_at(i, j) != Tile::Player,
            decreases width - x,
        {
            let mut y: usize = 0;
            while y < height
                invariant
                    self.wf(),
                    width == self.spec_width(),
                    height == self.spec_height(),
                    x < width,
                    y <= height,
                    forall|i: int, j: int|
                        0 <= i < x && 0 <= j < height ==> self.spec_tile_at(i, j) != Tile::Player,
                    forall|j: int| 0 <= j < y ==> self.spec_tile_at(x as int, j) != Tile::Player,
                decreases height - y,
            {
                if let Some(tile) = self.get_tile(x, y) {
                    if tile == Tile::Player {
                        return Some((x, y));
                    }
                }
                y = y + 1;
            }
            x = x + 1;
        }
        None
    }
}

impl Clone for Level {
    /// A deep copy: an independent grid with the same size and tiles,
    /// sharing no mutable state with the original.
    fn clone(&self) -> (res: Level)
        ensures
            res.spec_width() == self.spec_width(),
            res.spec_height() == self.spec_height(),
            res@ == self@,
    {
        let mut tiles: Vec<Tile> = Vec::new();
        let len = self.tiles.len();
        for i in 0..len
            invariant
                len == self.tiles@.len(),
                tiles@ =~= self.tiles@.subrange(0, i as int),
        {
            tiles.push(self.tiles[i]);
        }
        proof {
            assert(tiles@ =~= self.tiles@);
        }
        Level { width: self.width, height: self.height, tiles }
    }
}

impl PartialEq for Level {
    /// Two levels are equal when they cover the same rectangle and hold the
    /// same tile in every cell.
    fn eq(&self, other: &Level) -> (r: bool) {
        if self.width != other.width || self.height != other.height
            || self.tiles.len() != other.tiles.len() {
            return false;
        }
        let len = self.tiles.len();
        for i in 0..len
            invariant
                len == self.tiles@.len(),
                len == other.tiles@.len(),
                forall|j: int| 0 <= j < i ==> self.tiles@[j] == other.tiles@[j],
        {
            if self.tiles[i] != other.tiles[i] {
                return false;
            }
        }
        proof {
            assert(self.tiles@ =~= other.tiles@);
        }
        true
    }
}

impl vstd::std_specs::cmp::PartialEqSpecImpl for Level {
    open spec fn obeys_eq_spec() -> bool {
        true
    }

    open spec fn eq_spec(&self, other: &Level) -> bool {
        self.spec_width() == other.spec_width() && self.spec_height() == other.spec_height()
            && self@ == other@
    }
}

} // verus!
