use vstd::prelude::*;
use crate::error::ConfigurationError;
use crate::grid::TilePosition;

verus! {

/// Variant of a platform that is one tile wide.
pub const SOLO: usize = 0;

/// Variant of the leftmost tile of a wider platform.
pub const LEFT_CAP: usize = 1;

/// Variant of a tile between the two caps.
pub const FILL: usize = 2;

/// Variant of the rightmost tile of a wider platform.
pub const RIGHT_CAP: usize = 3;

/// One tile of a platform: how far right of the anchor it sits, and which
/// variant draws it.
#[derive(Clone, Copy, Debug, PartialEq, Eq, Structural)]
pub struct Segment {
    pub offset: u32,
    pub variant: usize,
}

/// The variant of the tile at `offset` in a platform `width` tiles wide.
pub open spec fn segment_variant(offset: int, width: int) -> usize {
    if width == 1 {
        SOLO
    } else if offset == 0 {
        LEFT_CAP
    } else if offset == width - 1 {
        RIGHT_CAP
    } else {
        FILL
    }
}

/// The segments of a platform `width` tiles wide, left to right: one for
/// every offset from 0 to `width - 1`.
pub open spec fn layout_of(width: u32) -> Seq<Segment> {
    Seq::new(
        width as nat,
        |i: int| Segment { offset: i as u32, variant: segment_variant(i, width as int) },
    )
}

/// A horizontal platform: the tile it is anchored to and its width in tiles,
/// which is at least 1. Its view is the pair of the two.
#[derive(Clone, Copy, Debug, PartialEq, Eq, Structural)]
pub struct Ice {
    position: TilePosition,
    width: u32,
}

impl View for Ice {
    type V = (TilePosition, u32);

    closed spec fn view(&self) -> (TilePosition, u32) {
        (self.position, self.width)
    }
}

impl Ice {
    #[verifier::type_invariant]
    spec fn inv(&self) -> bool {
        self.width >= 1
    }

    /// A platform anchored at `position`. A platform without width is a
    /// configuration error.
    pub fn new(position: TilePosition, width: u32) -> (result: Result<Ice, ConfigurationError>)
        ensures
            match result {
                Ok(ice) => width >= 1 && ice@ == (position, width),
                Err(e) => width == 0 && e == ConfigurationError::PlatformWidthZero,
            },
    {
        if width < 1 {
            Err(ConfigurationError::PlatformWidthZero)
        } else {
            Ok(Ice { position, width })
        }
    }

    /// The anchor tile, where the leftmost segment sits.
    pub fn position(&self) -> (p: TilePosition)
        ensures
            p == self@.0,
    {
        self.position
    }

    /// The width in tiles.
    pub fn width(&self) -> (w: u32)
        ensures
            w == self@.1,
            w >= 1,
    {
        proof {
            use_type_invariant(self);
        }
        self.width
    }

    /// The segments that make up the platform, in order from the anchor
    /// rightwards. A platform of one tile is a single solo segment; one of
    /// two is a left cap and a right cap; a wider one has fill between them.
    pub fn layout(&self) -> (segments: Vec<Segment>)
        ensures
            segments@ == layout_of(self@.1),
    {
        proof {
            use_type_invariant(self);
        }
        let mut segments: Vec<Segment> = Vec::new();
        match self.width {
            1 => {
                segments.push(Segment { offset: 0, variant: SOLO });
            },
            2 => {
                segments.push(Segment { offset: 0, variant: LEFT_CAP });
                segments.push(Segment { offset: 1, variant: RIGHT_CAP });
            },
            w => {
                segments.push(Segment { offset: 0, variant: LEFT_CAP });
                let mut i: u32 = 1;
                while i < w - 1
                    invariant
                        w >= 3,
                        1 <= i <= w - 1,
                        segments@.len() == i,
                        forall|k: int|
                            0 <= k < i ==> segments@[k] == (Segment {
                                offset: k as u32,
                                variant: segment_variant(k, w as int),
                            }),
                    decreases w - i,
                {
                    segments.push(Segment { offset: i, variant: FILL });
                    i += 1;
                }
                segments.push(Segment { offset: w - 1, variant: RIGHT_CAP });
            },
        }
        assert(segments@ =~= layout_of(self.width));
        segments
    }

    /// The grid cell under the segment at `offset`: the anchor moved `offset`
    /// columns to the right, in the anchor's row.
    pub fn segment_cell(&self, offset: u32) -> (cell: (i64, i64))
        ensures
            cell.0 == self@.0.x + offset,
            cell.1 == self@.0.y,
    {
        (self.position.x as i64 + offset as i64, self.position.y as i64)
    }
}

} // verus!
