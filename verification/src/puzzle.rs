use vstd::prelude::*;
use crate::error::ConfigurationError;
use crate::grid::{columns, grid_defect, on_grid, rectangular, tile_at, GridModel, TilePosition};
use crate::hazard::HazardRegistry;
use crate::platform::Ice;

verus! {

/// What a level is made of: the tile matrix, where the player starts, the
/// tiles of the hazards, and anchor and width of each platform.
pub struct LevelModel {
    pub tiles: Seq<Seq<i32>>,
    pub player_start: TilePosition,
    pub fires: Seq<TilePosition>,
    pub ices: Seq<(TilePosition, u32)>,
}

/// Some hazard lies outside the matrix.
pub open spec fn stray_fire(m: LevelModel) -> bool {
    exists|i: int| 0 <= i < m.fires.len() && !on_grid(m.tiles, #[trigger] m.fires[i])
}

/// Some platform has no width.
pub open spec fn empty_ice(m: LevelModel) -> bool {
    exists|i: int| 0 <= i < m.ices.len() && (#[trigger] m.ices[i]).1 == 0
}

/// Some platform is anchored outside the matrix.
pub open spec fn stray_ice(m: LevelModel) -> bool {
    exists|i: int| 0 <= i < m.ices.len() && !on_grid(m.tiles, (#[trigger] m.ices[i]).0)
}

/// The configuration as a level model: each list in its given order.
pub open spec fn configuration(
    tiles: Vec<Vec<i32>>,
    player_start: TilePosition,
    fire_positions: Vec<TilePosition>,
    ice_positions: Vec<(TilePosition, u32)>,
) -> LevelModel {
    LevelModel {
        tiles: tiles.deep_view(),
        player_start,
        fires: fire_positions@,
        ices: ice_positions@,
    }
}

/// The reason for which a configuration is refused, or `None` where it makes
/// a level. Where several apply, the tile matrix is judged first, then the
/// player's start, the hazards, the platforms' widths and last their anchors.
pub open spec fn level_defect(m: LevelModel) -> Option<ConfigurationError> {
    if grid_defect(m.tiles) is Some {
        grid_defect(m.tiles)
    } else if !on_grid(m.tiles, m.player_start) {
        Some(ConfigurationError::PlayerStartOutOfBounds)
    } else if stray_fire(m) {
        Some(ConfigurationError::HazardOutOfBounds)
    } else if empty_ice(m) {
        Some(ConfigurationError::PlatformWidthZero)
    } else if stray_ice(m) {
        Some(ConfigurationError::PlatformOutOfBounds)
    } else {
        None
    }
}

/// The tile matrix of the built-in level: 16 rows of 16 tiles, a cave of
/// open corridors inside solid wall.
pub open spec fn builtin_tiles() -> Seq<Seq<i32>> {
    seq![
        seq![1, 1, 1, 1, 1, 1, 1, 1, 1, 1, 1, 1, 1, 1, 1, 1],
        seq![1, 1, 1, 1, 1, 1, 1, 1, 1, 1, 1, 1, 1, 1, 1, 1],
        seq![1, 1, 1, 1, 1, 1, 1, 1, 1, 1, 1, 1, 1, 1, 1, 1],
        seq![1, 1, 1, 1, 1, 1, 1, 1, 1, 1, 1, 1, 1, 1, 1, 1],
        seq![1, 1, 1, 1, 0, 0, 0, 0, 0, 0, 0, 0, 1, 1, 1, 1],
        seq![1, 1, 1, 1, 0, 0, 0, 0, 0, 0, 0, 0, 1, 1, 1, 1],
        seq![1, 1, 1, 1, 0, 1, 1, 1, 1, 1, 1, 1, 1, 1, 1, 1],
        seq![1, 1, 1, 1, 0, 0, 0, 0, 0, 1, 1, 1, 1, 1, 1, 1],
        seq![1, 1, 1, 1, 0, 0, 0, 0, 0, 0, 0, 0, 1, 1, 1, 1],
        seq![1, 1, 1, 1, 0, 0, 0, 0, 0, 0, 0, 0, 1, 1, 1, 1],
        seq![1, 1, 1, 1, 0, 0, 0, 0, 0, 0, 0, 0, 1, 1, 1, 1],
        seq![1, 1, 1, 1, 1, 1, 1, 1, 1, 0, 0, 0, 1, 1, 1, 1],
        seq![1, 1, 1, 1, 1, 1, 1, 1, 1, 1, 1, 1, 1, 1, 1, 1],
        seq![1, 1, 1, 1, 1, 1, 1, 1, 1, 1, 1, 1, 1, 1, 1, 1],
        seq![1, 1, 1, 1, 1, 1, 1, 1, 1, 1, 1, 1, 1, 1, 1, 1],
        seq![1, 1, 1, 1, 1, 1, 1, 1, 1, 1, 1, 1, 1, 1, 1, 1],
    ]
}

/// The built-in level.
pub open spec fn builtin_level() -> LevelModel {
    LevelModel {
        tiles: builtin_tiles(),
        player_start: TilePosition { x: 5, y: 5 },
        fires: seq![
            TilePosition { x: 6, y: 5 },
            TilePosition { x: 7, y: 8 },
            TilePosition { x: 7, y: 9 },
            TilePosition { x: 7, y: 10 },
            TilePosition { x: 9, y: 11 },
        ],
        ices: seq![
            (TilePosition { x: 5, y: 8 }, 4u32),
            (TilePosition { x: 5, y: 9 }, 3u32),
            (TilePosition { x: 5, y: 10 }, 2u32),
        ],
    }
}

/// A level: the grid together with the player's start, the hazards and the
/// platforms, all checked against the grid when the level is built and fixed
/// from then on.
#[derive(Debug)]
pub struct PuzzleDefinition {
    grid: GridModel,
    player_start: TilePosition,
    fires: HazardRegistry,
    ices: Vec<Ice>,
}

impl View for PuzzleDefinition {
    type V = LevelModel;

    closed spec fn view(&self) -> LevelModel {
        LevelModel {
            tiles: self.grid@,
            player_start: self.player_start,
            fires: self.fires@,
            ices: Seq::new(self.ices@.len(), |i: int| self.ices@[i]@),
        }
    }
}

impl PuzzleDefinition {
    #[verifier::type_invariant]
    spec fn inv(&self) -> bool {
        level_defect(self@) is None
    }

    /// Builds a level from its configuration, or says why the configuration
    /// is refused.
    #[verifier::loop_isolation(false)]
    pub fn build(
        tiles: Vec<Vec<i32>>,
        player_start: TilePosition,
        fire_positions: Vec<TilePosition>,
        ice_positions: Vec<(TilePosition, u32)>,
    ) -> (result: Result<PuzzleDefinition, ConfigurationError>)
        ensures
            match result {
                Ok(level) => level@ == configuration(
                    tiles,
                    player_start,
                    fire_positions,
                    ice_positions,
                ) && level_defect(level@) is None,
                Err(e) => level_defect(
                    configuration(tiles, player_start, fire_positions, ice_positions),
                ) == Some(e),
            },
    {
        let ghost config = configuration(tiles, player_start, fire_positions, ice_positions);
        let grid = match GridModel::new(tiles) {
            Ok(grid) => grid,
            Err(e) => {
                return Err(e);
            },
        };
        if !grid.contains(player_start) {
            return Err(ConfigurationError::PlayerStartOutOfBounds);
        }
        let mut f: usize = 0;
        while f < fire_positions.len()
            invariant
                0 <= f <= fire_positions@.len(),
                forall|k: int| 0 <= k < f ==> on_grid(config.tiles, #[trigger] config.fires[k]),
            decreases fire_positions@.len() - f,
        {
            if !grid.contains(fire_positions[f]) {
                assert(!on_grid(config.tiles, config.fires[f as int]));
                return Err(ConfigurationError::HazardOutOfBounds);
            }
            f += 1;
        }
        assert(!stray_fire(config));
        let mut ices: Vec<Ice> = Vec::new();
        let mut i: usize = 0;
        while i < ice_positions.len()
            invariant
                0 <= i <= ice_positions@.len(),
                ices@.len() == i,
                forall|k: int| 0 <= k < i ==> (#[trigger] ices@[k])@ == config.ices[k],
                forall|k: int| 0 <= k < i ==> (#[trigger] config.ices[k]).1 != 0,
            decreases ice_positions@.len() - i,
        {
            let (anchor, width) = ice_positions[i];
            match Ice::new(anchor, width) {
                Ok(ice) => {
                    ices.push(ice);
                },
                Err(e) => {
                    assert(config.ices[i as int].1 == 0);
                    return Err(e);
                },
            }
            i += 1;
        }
        assert(!empty_ice(config));
        let mut j: usize = 0;
        while j < ices.len()
            invariant
                0 <= j <= ices@.len(),
                ices@.len() == config.ices.len(),
                forall|k: int| 0 <= k < ices@.len() ==> (#[trigger] ices@[k])@ == config.ices[k],
                forall|k: int| 0 <= k < j ==> on_grid(config.tiles, (#[trigger] config.ices[k]).0),
            decreases ices@.len() - j,
        {
            if !grid.contains(ices[j].position()) {
                assert(!on_grid(config.tiles, config.ices[j as int].0));
                return Err(ConfigurationError::PlatformOutOfBounds);
            }
            j += 1;
        }
        assert(!stray_ice(config));
        let fires = HazardRegistry::new(&fire_positions);
        assert(Seq::new(ices@.len(), |k: int| ices@[k]@) =~= config.ices);
        Ok(PuzzleDefinition { grid, player_start, fires, ices })
    }

    /// The built-in level.
    pub fn new() -> (level: PuzzleDefinition)
        ensures
            level@ == builtin_level(),
            level_defect(level@) is None,
    {
        let tiles: Vec<Vec<i32>> = vec![
            vec![1, 1, 1, 1, 1, 1, 1, 1, 1, 1, 1, 1, 1, 1, 1, 1],
            vec![1, 1, 1, 1, 1, 1, 1, 1, 1, 1, 1, 1, 1, 1, 1, 1],
            vec![1, 1, 1, 1, 1, 1, 1, 1, 1, 1, 1, 1, 1, 1, 1, 1],
            vec![1, 1, 1, 1, 1, 1, 1, 1, 1, 1, 1, 1, 1, 1, 1, 1],
            vec![1, 1, 1, 1, 0, 0, 0, 0, 0, 0, 0, 0, 1, 1, 1, 1],
            vec![1, 1, 1, 1, 0, 0, 0, 0, 0, 0, 0, 0, 1, 1, 1, 1],
            vec![1, 1, 1, 1, 0, 1, 1, 1, 1, 1, 1, 1, 1, 1, 1, 1],
            vec![1, 1, 1, 1, 0, 0, 0, 0, 0, 1, 1, 1, 1, 1, 1, 1],
            vec![1, 1, 1, 1, 0, 0, 0, 0, 0, 0, 0, 0, 1, 1, 1, 1],
            vec![1, 1, 1, 1, 0, 0, 0, 0, 0, 0, 0, 0, 1, 1, 1, 1],
            vec![1, 1, 1, 1, 0, 0, 0, 0, 0, 0, 0, 0, 1, 1, 1, 1],
            vec![1, 1, 1, 1, 1, 1, 1, 1, 1, 0, 0, 0, 1, 1, 1, 1],
            vec![1, 1, 1, 1, 1, 1, 1, 1, 1, 1, 1, 1, 1, 1, 1, 1],
            vec![1, 1, 1, 1, 1, 1, 1, 1, 1, 1, 1, 1, 1, 1, 1, 1],
            vec![1, 1, 1, 1, 1, 1, 1, 1, 1, 1, 1, 1, 1, 1, 1, 1],
            vec![1, 1, 1, 1, 1, 1, 1, 1, 1, 1, 1, 1, 1, 1, 1, 1],
        ];
        let fire_positions: Vec<TilePosition> = vec![
            TilePosition { x: 6, y: 5 },
            TilePosition { x: 7, y: 8 },
            TilePosition { x: 7, y: 9 },
            TilePosition { x: 7, y: 10 },
            TilePosition { x: 9, y: 11 },
        ];
        let ice_positions: Vec<(TilePosition, u32)> = vec![
            (TilePosition { x: 5, y: 8 }, 4),
            (TilePosition { x: 5, y: 9 }, 3),
            (TilePosition { x: 5, y: 10 }, 2),
        ];
        proof {
            assert(tiles.deep_view() =~~= builtin_tiles());
            assert(fire_positions@ =~= builtin_level().fires);
            assert(ice_positions@ =~= builtin_level().ices);
            lemma_builtin_level_is_sound();
        }
        match PuzzleDefinition::build(
            tiles,
            TilePosition { x: 5, y: 5 },
            fire_positions,
            ice_positions,
        ) {
            Ok(level) => level,
            Err(_) => unreached(),
        }
    }

    /// The tile code at `(x, y)`; open floor outside the grid.
    pub fn lookup_tile(&self, x: i32, y: i32) -> (code: i32)
        ensures
            code == tile_at(self@.tiles, x as int, y as int),
    {
        self.grid.lookup(x, y)
    }

    /// The grid of the level.
    pub fn grid(&self) -> (grid: &GridModel)
        ensures
            grid@ == self@.tiles,
            level_defect(self@) is None,
    {
        proof {
            use_type_invariant(self);
        }
        &self.grid
    }

    /// Number of columns of the grid.
    pub fn map_width(&self) -> (w: i32)
        ensures
            w == columns(self@.tiles),
    {
        self.grid.width()
    }

    /// Number of rows of the grid.
    pub fn map_height(&self) -> (h: i32)
        ensures
            h == self@.tiles.len(),
    {
        self.grid.height()
    }

    /// Where the player starts: a cell of the grid.
    pub fn player_start(&self) -> (p: TilePosition)
        ensures
            p == self@.player_start,
            on_grid(self@.tiles, p),
    {
        proof {
            use_type_invariant(self);
        }
        self.player_start
    }

    /// The hazards of the level, each on a cell of the grid.
    pub fn fires(&self) -> (fires: &HazardRegistry)
        ensures
            fires@ == self@.fires,
            !stray_fire(self@),
    {
        proof {
            use_type_invariant(self);
        }
        &self.fires
    }

    /// The platforms of the level in listing order, each anchored to a cell
    /// of the grid.
    pub fn ices(&self) -> (ices: &Vec<Ice>)
        ensures
            ices@.len() == self@.ices.len(),
            forall|i: int| 0 <= i < ices@.len() ==> (#[trigger] ices@[i])@ == self@.ices[i],
            !empty_ice(self@),
            !stray_ice(self@),
    {
        proof {
            use_type_invariant(self);
        }
        &self.ices
    }

    /// The row `y` counted from below the grid instead of from its top: the
    /// grid's height less `y`. This is the row's height on a screen whose
    /// vertical axis points up.
    pub fn screen_row(&self, y: i32) -> (row: i64)
        ensures
            row == self@.tiles.len() - y,
    {
        self.grid.height() as i64 - y as i64
    }
}

/// The built-in level passes every check that `build` makes.
pub proof fn lemma_builtin_level_is_sound()
    ensures
        level_defect(builtin_level()) is None,
{
    let m = builtin_level();
    assert(m.tiles.len() == 16);
    assert forall|i: int| 0 <= i < 16 implies (#[trigger] m.tiles[i]).len() == 16 by {}
    assert(rectangular(m.tiles));
    assert(columns(m.tiles) == 16);
}

/// A configuration with rows of different lengths, with a start, a hazard or
/// a platform's anchor outside the grid, or with a platform without width
/// has a defect, so `build` makes no level of it.
pub proof fn lemma_defects_are_found(m: LevelModel)
    ensures
        !rectangular(m.tiles) ==> level_defect(m) == Some(ConfigurationError::RaggedRows),
        !on_grid(m.tiles, m.player_start) ==> level_defect(m) is Some,
        stray_fire(m) ==> level_defect(m) is Some,
        empty_ice(m) ==> level_defect(m) is Some,
        stray_ice(m) ==> level_defect(m) is Some,
{
}

/// A configuration without defect has a grid with at least one cell, and
/// every position it names is a cell of that grid.
pub proof fn lemma_sound_level(m: LevelModel)
    requires
        level_defect(m) is None,
    ensures
        rectangular(m.tiles),
        1 <= columns(m.tiles) <= i32::MAX,
        1 <= m.tiles.len() <= i32::MAX,
        on_grid(m.tiles, m.player_start),
        forall|i: int| 0 <= i < m.fires.len() ==> on_grid(m.tiles, #[trigger] m.fires[i]),
        forall|i: int| 0 <= i < m.ices.len() ==> (#[trigger] m.ices[i]).1 >= 1,
        forall|i: int| 0 <= i < m.ices.len() ==> on_grid(m.tiles, (#[trigger] m.ices[i]).0),
{
}

} // verus!
