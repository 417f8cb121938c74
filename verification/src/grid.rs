use vstd::prelude::*;
use crate::error::ConfigurationError;

verus! {

/// Code of a tile that can be walked through.
pub const OPEN: i32 = 0;

/// Code of a tile that blocks movement.
pub const WALL: i32 = 1;

/// A cell coordinate: column `x` and row `y`, with row 0 at the top.
#[derive(Clone, Copy, Debug, PartialEq, Eq, Structural)]
pub struct TilePosition {
    pub x: i32,
    pub y: i32,
}

/// Every row is as long as the first one.
pub open spec fn rectangular(rows: Seq<Seq<i32>>) -> bool {
    forall|i: int| 0 <= i < rows.len() ==> (#[trigger] rows[i]).len() == rows[0].len()
}

/// Number of columns of a tile matrix: the length of its first row, or 0
/// where it has no rows.
pub open spec fn columns(rows: Seq<Seq<i32>>) -> nat {
    if rows.len() == 0 {
        0
    } else {
        rows[0].len()
    }
}

/// Whether `(x, y)` names a cell of the matrix.
pub open spec fn in_range(rows: Seq<Seq<i32>>, x: int, y: int) -> bool {
    0 <= x < columns(rows) && 0 <= y < rows.len()
}

/// Whether `p` names a cell of the matrix.
pub open spec fn on_grid(rows: Seq<Seq<i32>>, p: TilePosition) -> bool {
    in_range(rows, p.x as int, p.y as int)
}

/// The tile code seen at `(x, y)`: the configured code inside the matrix, and
/// open floor everywhere outside it.
pub open spec fn tile_at(rows: Seq<Seq<i32>>, x: int, y: int) -> i32 {
    if in_range(rows, x, y) {
        rows[y][x]
    } else {
        OPEN
    }
}

/// The first reason, if any, for which a tile matrix cannot become a grid.
pub open spec fn grid_defect(rows: Seq<Seq<i32>>) -> Option<ConfigurationError> {
    if !rectangular(rows) {
        Some(ConfigurationError::RaggedRows)
    } else if rows.len() > i32::MAX || columns(rows) > i32::MAX {
        Some(ConfigurationError::GridTooLarge)
    } else {
        None
    }
}

/// The tile matrix of a level, fixed once built. Its view is the matrix as a
/// sequence of rows, top row first.
#[derive(Debug)]
pub struct GridModel {
    tiles: Vec<Vec<i32>>,
    width: i32,
    height: i32,
}

impl View for GridModel {
    type V = Seq<Seq<i32>>;

    closed spec fn view(&self) -> Seq<Seq<i32>> {
        self.tiles.deep_view()
    }
}

impl GridModel {
    #[verifier::type_invariant]
    spec fn inv(&self) -> bool {
        &&& rectangular(self@)
        &&& self.height == self@.len()
        &&& self.width == columns(self@)
    }

    /// Builds a grid from rows of tile codes. The rows must all have the same
    /// length, and neither dimension may exceed `i32::MAX`.
    pub fn new(tiles: Vec<Vec<i32>>) -> (result: Result<GridModel, ConfigurationError>)
        ensures
            match result {
                Ok(grid) => grid_defect(tiles.deep_view()) is None && grid@ == tiles.deep_view(),
                Err(e) => grid_defect(tiles.deep_view()) == Some(e),
            },
    {
        let ghost rows = tiles.deep_view();
        let height = tiles.len();
        if height == 0 {
            assert(rectangular(rows));
            return Ok(GridModel { tiles, width: 0, height: 0 });
        }
        let width = tiles[0].len();
        let mut i: usize = 1;
        while i < height
            invariant
                1 <= i <= height,
                height == tiles@.len(),
                width == tiles@[0]@.len(),
                rows == tiles.deep_view(),
                forall|j: int| 0 <= j < i ==> (#[trigger] rows[j]).len() == width,
            decreases height - i,
        {
            if tiles[i].len() != width {
                assert(rows[i as int].len() != rows[0].len());
                return Err(ConfigurationError::RaggedRows);
            }
            i += 1;
        }
        if height > i32::MAX as usize || width > i32::MAX as usize {
            return Err(ConfigurationError::GridTooLarge);
        }
        Ok(GridModel { tiles, width: width as i32, height: height as i32 })
    }

    /// Number of columns.
    pub fn width(&self) -> (w: i32)
        ensures
            w == columns(self@),
            grid_defect(self@) is None,
    {
        proof {
            use_type_invariant(self);
        }
        self.width
    }

    /// Number of rows.
    pub fn height(&self) -> (h: i32)
        ensures
            h == self@.len(),
            grid_defect(self@) is None,
    {
        proof {
            use_type_invariant(self);
        }
        self.height
    }

    /// Whether `p` names a cell of the grid.
    pub fn contains(&self, p: TilePosition) -> (inside: bool)
        ensures
            inside == on_grid(self@, p),
    {
        proof {
            use_type_invariant(self);
        }
        0 <= p.x && p.x < self.width && 0 <= p.y && p.y < self.height
    }

    /// The tile code at `(x, y)`. Total: any coordinate outside the grid reads
    /// as open floor.
    pub fn lookup(&self, x: i32, y: i32) -> (code: i32)
        ensures
            code == tile_at(self@, x as int, y as int),
            grid_defect(self@) is None,
    {
        proof {
            use_type_invariant(self);
        }
        if x >= 0 && x < self.width && y >= 0 && y < self.height {
            let row = &self.tiles[y as usize];
            assert(self@[y as int] == row.deep_view());
            assert(self@[0].len() == row.deep_view().len());
            row[x as usize]
        } else {
            OPEN
        }
    }
}

/// Inside the matrix a lookup reads the configured code, whatever it is;
/// outside the matrix it reads open floor, however far away.
pub proof fn lemma_tile_at(rows: Seq<Seq<i32>>, x: int, y: int)
    ensures
        in_range(rows, x, y) ==> tile_at(rows, x, y) == rows[y][x],
        !in_range(rows, x, y) ==> tile_at(rows, x, y) == OPEN,
{
}

} // verus!
