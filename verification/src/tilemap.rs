//! The wall-occupancy grid: one byte per cell in row-major order, zero
//! meaning open. The grid is read-only during play; the presentation
//! layer builds it once from the authored map data.

use vstd::prelude::*;
use crate::MAX_COORD;

verus! {

/// Why a tile layer was rejected at load time.
#[derive(PartialEq, Eq, Structural, Clone, Copy, Debug)]
pub enum TileMapError {
    /// The width was zero.
    ZeroWidth,
    /// The tile count is not a whole number of rows.
    RaggedRows,
    /// The width or the height exceeds `MAX_COORD`.
    TooLarge,
}

/// One rectangular tile layer, row-major.
pub struct TileMap {
    pub tiles: Vec<u8>,
    pub width: usize,
}

impl View for TileMap {
    type V = TileMapView;

    open spec fn view(&self) -> TileMapView {
        TileMapView { tiles: self.tiles@, width: self.width }
    }
}

#[verifier::ext_equal]
pub ghost struct TileMapView {
    pub tiles: Seq<u8>,
    pub width: usize,
}

impl TileMapView {
    /// A layer is well formed when it has at least one column, whole
    /// rows, and dimensions small enough for millipixel arithmetic.
    pub open spec fn wf(self) -> bool {
        &&& self.width > 0
        &&& self.tiles.len() % (self.width as nat) == 0
        &&& self.width <= MAX_COORD
        &&& self.tiles.len() / (self.width as nat) <= MAX_COORD as nat
    }

    pub open spec fn height(self) -> nat {
        self.tiles.len() / (self.width as nat)
    }

    pub open spec fn in_bounds(self, cell: (usize, usize)) -> bool {
        cell.0 < self.width && (cell.1 as nat) < self.height()
    }

    /// Whether a cell blocks movement. Cells outside the layer count as
    /// walls, so every walkable cell is inside the grid.
    pub open spec fn is_wall_spec(self, cell: (usize, usize)) -> bool {
        !self.in_bounds(cell) || self.tiles[cell.0 + cell.1 * self.width] != 0
    }
}

impl TileMap {
    /// Builds a layer from its row-major tile bytes and its width,
    /// rejecting malformed dimensions at load time.
    pub fn new(tiles: Vec<u8>, width: usize) -> (r: Result<TileMap, TileMapError>)
        ensures
            match r {
                Ok(m) => {
                    &&& m@ == (TileMapView { tiles: tiles@, width })
                    &&& m@.wf()
                },
                Err(TileMapError::ZeroWidth) => width == 0,
                Err(TileMapError::RaggedRows) => width > 0 && tiles@.len() % (width as nat) != 0,
                Err(TileMapError::TooLarge) => {
                    &&& width > 0
                    &&& tiles@.len() % (width as nat) == 0
                    &&& (width > MAX_COORD || tiles@.len() / (width as nat) > MAX_COORD as nat)
                },
            },
            r is Ok <==> (TileMapView { tiles: tiles@, width }).wf(),
    {
        if width == 0 {
            return Err(TileMapError::ZeroWidth);
        }
        if tiles.len() % width != 0 {
            return Err(TileMapError::RaggedRows);
        }
        if width > MAX_COORD || tiles.len() / width > MAX_COORD {
            return Err(TileMapError::TooLarge);
        }
        Ok(TileMap { tiles, width })
    }

    /// Whether this layer satisfies its invariant; the world
    /// constructor uses it to validate a layer built directly from
    /// fields.
    pub fn wf_check(&self) -> (r: bool)
        ensures
            r == self@.wf(),
    {
        self.width > 0 && self.tiles.len() % self.width == 0 && self.width <= MAX_COORD
            && self.tiles.len() / self.width <= MAX_COORD
    }

    pub fn height(&self) -> (r: usize)
        requires
            self@.wf(),
        ensures
            r as nat == self@.height(),
    {
        self.tiles.len() / self.width
    }

    /// Whether a cell blocks movement; cells outside the layer count as
    /// walls.
    pub fn is_wall(&self, cell: (usize, usize)) -> (r: bool)
        requires
            self@.wf(),
        ensures
            r == self@.is_wall_spec(cell),
    {
        let (x, y) = cell;
        if x >= self.width || y >= self.tiles.len() / self.width {
            return true;
        }
        proof {
            vstd::arithmetic::div_mod::lemma_fundamental_div_mod(
                self.tiles@.len() as int,
                self.width as int,
            );
            assert(x + y * self.width < self.tiles@.len()) by (nonlinear_arith)
                requires
                    x < self.width,
                    (y as int) < self.tiles@.len() as int / self.width as int,
                    self.width > 0,
                    self.tiles@.len() as int == self.width as int * (self.tiles@.len() as int
                        / self.width as int) + self.tiles@.len() as int % self.width as int,
                    self.tiles@.len() as int % self.width as int >= 0,
            ;
        }
        self.tiles[x + y * self.width] != 0
    }
}

} // verus!
