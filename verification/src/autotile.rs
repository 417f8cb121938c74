use vstd::prelude::*;
use crate::grid::{tile_at, columns, in_range, GridModel, TilePosition, OPEN, WALL};

verus! {

/// Variant of an open tile: nothing is drawn on it.
pub const PLAIN: usize = 0;

/// Variant of a wall with open tiles on both sides.
pub const ISOLATED: usize = 1;

/// Variant of a wall with an open tile to its left and a wall to its right.
pub const LEFT_EDGE: usize = 2;

/// Variant of a wall between two walls.
pub const INTERIOR: usize = 3;

/// Variant of a wall with a wall to its left and an open tile to its right.
pub const RIGHT_EDGE: usize = 4;

/// The variant of a tile given its own code and the codes of its left and
/// right neighbours. Only a wall whose neighbours are each open or wall is
/// decorated; every other combination is plain.
pub open spec fn variant_of(tile: i32, left: i32, right: i32) -> usize {
    if tile == WALL && left == OPEN && right == OPEN {
        ISOLATED
    } else if tile == WALL && left == OPEN && right == WALL {
        LEFT_EDGE
    } else if tile == WALL && left == WALL && right == OPEN {
        RIGHT_EDGE
    } else if tile == WALL && left == WALL && right == WALL {
        INTERIOR
    } else {
        PLAIN
    }
}

/// The variant of the cell `(x, y)` of a tile matrix, read through
/// `tile_at`, so that a cell on the border sees open floor beyond it.
pub open spec fn variant_at(rows: Seq<Seq<i32>>, x: int, y: int) -> usize {
    variant_of(tile_at(rows, x, y), tile_at(rows, x - 1, y), tile_at(rows, x + 1, y))
}

/// What to draw in one cell: the cell and the variant chosen for it.
#[derive(Clone, Copy, Debug, PartialEq, Eq, Structural)]
pub struct TileSprite {
    pub position: TilePosition,
    pub variant: usize,
}

/// The decision table itself, on three tile codes.
pub fn classify(tile: i32, left: i32, right: i32) -> (variant: usize)
    ensures
        variant == variant_of(tile, left, right),
{
    if tile != WALL {
        PLAIN
    } else if left == OPEN && right == OPEN {
        ISOLATED
    } else if left == OPEN && right == WALL {
        LEFT_EDGE
    } else if left == WALL && right == OPEN {
        RIGHT_EDGE
    } else if left == WALL && right == WALL {
        INTERIOR
    } else {
        PLAIN
    }
}

/// The variant of the cell `(x, y)` of `grid`, from its own tile and its
/// left and right neighbours.
pub fn resolve(grid: &GridModel, x: i32, y: i32) -> (variant: usize)
    ensures
        variant == variant_at(grid@, x as int, y as int),
{
    let tile = grid.lookup(x, y);
    // A neighbour whose column no coordinate can name lies outside every grid.
    let left = if x > i32::MIN {
        grid.lookup(x - 1, y)
    } else {
        OPEN
    };
    let right = if x < i32::MAX {
        grid.lookup(x + 1, y)
    } else {
        OPEN
    };
    classify(tile, left, right)
}

/// The sprites of all cells of `grid`, row by row from the top, each row
/// from left to right: the cell `(x, y)` is at index `y * width + x`.
pub fn resolve_all(grid: &GridModel) -> (sprites: Vec<TileSprite>)
    ensures
        sprites@.len() == columns(grid@) * grid@.len(),
        forall|x: int, y: int|
            in_range(grid@, x, y) ==> #[trigger] sprites@[y * columns(grid@) + x] == (TileSprite {
                position: TilePosition { x: x as i32, y: y as i32 },
                variant: variant_at(grid@, x, y),
            }),
{
    let width = grid.width();
    let height = grid.height();
    let ghost w = width as int;
    let mut sprites: Vec<TileSprite> = Vec::new();
    let mut y: i32 = 0;
    while y < height
        invariant
            0 <= y <= height,
            width == columns(grid@),
            height == grid@.len(),
            w == width,
            sprites@.len() == y * w,
            forall|cx: int, cy: int|
                0 <= cx < w && 0 <= cy < y ==> #[trigger] sprites@[cy * w + cx] == (TileSprite {
                    position: TilePosition { x: cx as i32, y: cy as i32 },
                    variant: variant_at(grid@, cx, cy),
                }),
        decreases height - y,
    {
        let mut x: i32 = 0;
        while x < width
            invariant
                0 <= x <= width,
                0 <= y < height,
                width == columns(grid@),
                height == grid@.len(),
                w == width,
                sprites@.len() == y * w + x,
                forall|cx: int, cy: int|
                    0 <= cx < w && 0 <= cy < y ==> #[trigger] sprites@[cy * w + cx]
                        == (TileSprite {
                        position: TilePosition { x: cx as i32, y: cy as i32 },
                        variant: variant_at(grid@, cx, cy),
                    }),
                forall|cx: int|
                    0 <= cx < x ==> #[trigger] sprites@[y * w + cx] == (TileSprite {
                        position: TilePosition { x: cx as i32, y: y },
                        variant: variant_at(grid@, cx, y as int),
                    }),
            decreases width - x,
        {
            let variant = resolve(grid, x, y);
            let ghost before = sprites@;
            sprites.push(TileSprite { position: TilePosition { x, y }, variant });
            proof {
                assert forall|cx: int, cy: int| 0 <= cx < w && 0 <= cy < y implies
                    #[trigger] sprites@[cy * w + cx] == before[cy * w + cx] by {
                    lemma_cell_index(w, cx, cy, y as int);
                }
            }
            x += 1;
        }
        proof {
            assert((y + 1) * w == y * w + w) by (nonlinear_arith);
            assert forall|cx: int, cy: int| 0 <= cx < w && 0 <= cy < y + 1 implies
                #[trigger] sprites@[cy * w + cx] == (TileSprite {
                position: TilePosition { x: cx as i32, y: cy as i32 },
                variant: variant_at(grid@, cx, cy),
            }) by {
                if cy == y {
                    assert(sprites@[y * w + cx] == (TileSprite {
                        position: TilePosition { x: cx as i32, y: y },
                        variant: variant_at(grid@, cx, y as int),
                    }));
                }
            }
        }
        y += 1;
    }
    assert(height * w == w * height) by (nonlinear_arith);
    sprites
}

/// A cell of an earlier row comes before every cell of a later row.
proof fn lemma_cell_index(w: int, cx: int, cy: int, y: int)
    requires
        0 <= cx < w,
        0 <= cy < y,
    ensures
        0 <= cy * w + cx < y * w,
{
    assert(cy * w >= 0) by (nonlinear_arith)
        requires
            cy >= 0,
            w >= 0,
    ;
    assert((cy + 1) * w <= y * w) by (nonlinear_arith)
        requires
            cy + 1 <= y,
            w >= 0,
    ;
    assert((cy + 1) * w == cy * w + w) by (nonlinear_arith);
}

/// In a horizontal run of walls with open tiles at both ends, the first wall
/// is a left edge, the last a right edge and every wall between them
/// interior; a run of a single wall is isolated.
pub proof fn lemma_wall_run(rows: Seq<Seq<i32>>, y: int, first: int, last: int)
    requires
        first <= last,
        forall|x: int| first <= x <= last ==> tile_at(rows, x, y) == WALL,
        tile_at(rows, first - 1, y) == OPEN,
        tile_at(rows, last + 1, y) == OPEN,
    ensures
        first == last ==> variant_at(rows, first, y) == ISOLATED,
        first < last ==> variant_at(rows, first, y) == LEFT_EDGE,
        first < last ==> variant_at(rows, last, y) == RIGHT_EDGE,
        forall|x: int| first < x < last ==> variant_at(rows, x, y) == INTERIOR,
{
    assert(tile_at(rows, first, y) == WALL);
    assert(tile_at(rows, last, y) == WALL);
    if first < last {
        assert(tile_at(rows, first + 1, y) == WALL);
        assert(tile_at(rows, last - 1, y) == WALL);
    }
    assert forall|x: int| first < x < last implies variant_at(rows, x, y) == INTERIOR by {
        assert(tile_at(rows, x, y) == WALL);
        assert(tile_at(rows, x - 1, y) == WALL);
        assert(tile_at(rows, x + 1, y) == WALL);
    }
}

/// An open tile is plain whatever its neighbours are.
pub proof fn lemma_open_is_plain(rows: Seq<Seq<i32>>, x: int, y: int)
    requires
        tile_at(rows, x, y) == OPEN,
    ensures
        variant_at(rows, x, y) == PLAIN,
{
}

} // verus!
