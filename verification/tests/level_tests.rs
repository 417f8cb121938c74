use tile_puzzle::error::ConfigurationError;
use tile_puzzle::grid::TilePosition;
use tile_puzzle::hazard::{Fire, HazardRegistry};
use tile_puzzle::puzzle::PuzzleDefinition;

fn at(x: i32, y: i32) -> TilePosition {
    TilePosition { x, y }
}

fn room() -> Vec<Vec<i32>> {
    vec![vec![1, 1, 1, 1], vec![1, 0, 0, 1], vec![1, 1, 1, 1]]
}

#[test]
fn built_in_level_is_sixteen_by_sixteen() {
    let level = PuzzleDefinition::new();
    assert_eq!(level.map_width(), 16);
    assert_eq!(level.map_height(), 16);
    assert_eq!(level.grid().width(), 16);
    assert_eq!(level.grid().height(), 16);
}

#[test]
fn built_in_level_tiles() {
    let level = PuzzleDefinition::new();
    let expected: [[i32; 16]; 16] = [
        [1, 1, 1, 1, 1, 1, 1, 1, 1, 1, 1, 1, 1, 1, 1, 1],
        [1, 1, 1, 1, 1, 1, 1, 1, 1, 1, 1, 1, 1, 1, 1, 1],
        [1, 1, 1, 1, 1, 1, 1, 1, 1, 1, 1, 1, 1, 1, 1, 1],
        [1, 1, 1, 1, 1, 1, 1, 1, 1, 1, 1, 1, 1, 1, 1, 1],
        [1, 1, 1, 1, 0, 0, 0, 0, 0, 0, 0, 0, 1, 1, 1, 1],
        [1, 1, 1, 1, 0, 0, 0, 0, 0, 0, 0, 0, 1, 1, 1, 1],
        [1, 1, 1, 1, 0, 1, 1, 1, 1, 1, 1, 1, 1, 1, 1, 1],
        [1, 1, 1, 1, 0, 0, 0, 0, 0, 1, 1, 1, 1, 1, 1, 1],
        [1, 1, 1, 1, 0, 0, 0, 0, 0, 0, 0, 0, 1, 1, 1, 1],
        [1, 1, 1, 1, 0, 0, 0, 0, 0, 0, 0, 0, 1, 1, 1, 1],
        [1, 1, 1, 1, 0, 0, 0, 0, 0, 0, 0, 0, 1, 1, 1, 1],
        [1, 1, 1, 1, 1, 1, 1, 1, 1, 0, 0, 0, 1, 1, 1, 1],
        [1, 1, 1, 1, 1, 1, 1, 1, 1, 1, 1, 1, 1, 1, 1, 1],
        [1, 1, 1, 1, 1, 1, 1, 1, 1, 1, 1, 1, 1, 1, 1, 1],
        [1, 1, 1, 1, 1, 1, 1, 1, 1, 1, 1, 1, 1, 1, 1, 1],
        [1, 1, 1, 1, 1, 1, 1, 1, 1, 1, 1, 1, 1, 1, 1, 1],
    ];
    for y in 0..16 {
        for x in 0..16 {
            assert_eq!(level.lookup_tile(x, y), expected[y as usize][x as usize]);
        }
    }
    assert_eq!(level.lookup_tile(4, 6), 0);
    assert_eq!(level.lookup_tile(6, 4), 0);
    assert_eq!(level.lookup_tile(5, 6), 1);
    assert_eq!(level.lookup_tile(16, 5), 0);
    assert_eq!(level.lookup_tile(-1, 5), 0);
}

#[test]
fn built_in_level_hazards() {
    let level = PuzzleDefinition::new();
    let fires = level.fires();
    assert_eq!(fires.len(), 5);
    let positions: Vec<TilePosition> = fires.points().iter().map(|f| f.position()).collect();
    assert_eq!(positions, vec![at(6, 5), at(7, 8), at(7, 9), at(7, 10), at(9, 11)]);
}

#[test]
fn built_in_level_platforms() {
    let level = PuzzleDefinition::new();
    let ices: Vec<(TilePosition, u32)> =
        level.ices().iter().map(|i| (i.position(), i.width())).collect();
    assert_eq!(ices, vec![(at(5, 8), 4), (at(5, 9), 3), (at(5, 10), 2)]);
    assert_eq!(level.ices()[0].layout().len(), 4);
    assert_eq!(level.ices()[2].layout().len(), 2);
}

#[test]
fn built_in_level_player_starts_on_an_open_tile() {
    let level = PuzzleDefinition::new();
    let start = level.player_start();
    assert_eq!(start, at(5, 5));
    assert_eq!(level.lookup_tile(start.x, start.y), 0);
}

#[test]
fn build_keeps_the_configuration() {
    let level = PuzzleDefinition::build(
        room(),
        at(1, 1),
        vec![at(2, 1), at(0, 0)],
        vec![(at(1, 1), 2), (at(3, 2), 9)],
    )
    .unwrap();
    assert_eq!(level.map_width(), 4);
    assert_eq!(level.map_height(), 3);
    assert_eq!(level.player_start(), at(1, 1));
    assert_eq!(level.lookup_tile(1, 1), 0);
    assert_eq!(level.lookup_tile(3, 1), 1);
    assert_eq!(level.fires().len(), 2);
    assert_eq!(level.fires().get(0).map(|f| f.position()), Some(at(2, 1)));
    assert_eq!(level.fires().get(1).map(|f| f.position()), Some(at(0, 0)));
    assert_eq!(level.fires().get(2), None);
    assert_eq!(level.ices().len(), 2);
    assert_eq!(level.ices()[0].position(), at(1, 1));
    assert_eq!(level.ices()[0].width(), 2);
    assert_eq!(level.ices()[1].position(), at(3, 2));
    assert_eq!(level.ices()[1].width(), 9);
}

#[test]
fn a_hazard_may_sit_on_a_wall() {
    let level = PuzzleDefinition::build(room(), at(1, 1), vec![at(0, 0)], Vec::new());
    assert!(level.is_ok());
}

#[test]
fn a_level_needs_no_hazards_or_platforms() {
    let level = PuzzleDefinition::build(room(), at(2, 1), Vec::new(), Vec::new()).unwrap();
    assert_eq!(level.fires().len(), 0);
    assert_eq!(level.ices().len(), 0);
}

#[test]
fn mismatched_row_lengths_are_refused() {
    let rows = vec![vec![1, 1, 1, 1], vec![1, 0, 1], vec![1, 1, 1, 1]];
    let level = PuzzleDefinition::build(rows, at(1, 1), Vec::new(), Vec::new());
    assert_eq!(level.err(), Some(ConfigurationError::RaggedRows));
}

#[test]
fn hazard_outside_the_grid_is_refused() {
    for bad in [at(4, 1), at(1, 3), at(-1, 1), at(1, -1), at(i32::MAX, i32::MIN)] {
        let level = PuzzleDefinition::build(room(), at(1, 1), vec![at(2, 1), bad], Vec::new());
        assert_eq!(level.err(), Some(ConfigurationError::HazardOutOfBounds));
    }
}

#[test]
fn platform_of_width_zero_is_refused() {
    let level =
        PuzzleDefinition::build(room(), at(1, 1), Vec::new(), vec![(at(1, 1), 3), (at(2, 1), 0)]);
    assert_eq!(level.err(), Some(ConfigurationError::PlatformWidthZero));
}

#[test]
fn platform_anchored_outside_the_grid_is_refused() {
    let level =
        PuzzleDefinition::build(room(), at(1, 1), Vec::new(), vec![(at(1, 1), 3), (at(4, 1), 1)]);
    assert_eq!(level.err(), Some(ConfigurationError::PlatformOutOfBounds));
}

#[test]
fn player_start_outside_the_grid_is_refused() {
    for bad in [at(4, 1), at(1, 3), at(-1, 0), at(0, -1)] {
        let level = PuzzleDefinition::build(room(), bad, Vec::new(), Vec::new());
        assert_eq!(level.err(), Some(ConfigurationError::PlayerStartOutOfBounds));
    }
}

#[test]
fn a_grid_without_cells_has_no_place_for_the_player() {
    let level = PuzzleDefinition::build(Vec::new(), at(0, 0), Vec::new(), Vec::new());
    assert_eq!(level.err(), Some(ConfigurationError::PlayerStartOutOfBounds));
}

#[test]
fn defects_are_reported_in_a_fixed_order() {
    let ragged = vec![vec![1, 1], vec![1]];
    let all_wrong = PuzzleDefinition::build(ragged, at(9, 9), vec![at(9, 9)], vec![(at(9, 9), 0)]);
    assert_eq!(all_wrong.err(), Some(ConfigurationError::RaggedRows));
    let start_first =
        PuzzleDefinition::build(room(), at(9, 9), vec![at(9, 9)], vec![(at(9, 9), 0)]);
    assert_eq!(start_first.err(), Some(ConfigurationError::PlayerStartOutOfBounds));
    let hazard_next =
        PuzzleDefinition::build(room(), at(1, 1), vec![at(9, 9)], vec![(at(9, 9), 0)]);
    assert_eq!(hazard_next.err(), Some(ConfigurationError::HazardOutOfBounds));
    let width_before_anchor =
        PuzzleDefinition::build(room(), at(1, 1), Vec::new(), vec![(at(9, 9), 1), (at(1, 1), 0)]);
    assert_eq!(width_before_anchor.err(), Some(ConfigurationError::PlatformWidthZero));
}

#[test]
fn screen_row_counts_from_below() {
    let level = PuzzleDefinition::new();
    assert_eq!(level.screen_row(0), 16);
    assert_eq!(level.screen_row(5), 11);
    assert_eq!(level.screen_row(15), 1);
    assert_eq!(level.screen_row(-3), 19);
    assert_eq!(level.screen_row(i32::MIN), 16 + 2147483648);
    assert_eq!(level.screen_row(i32::MAX), 16 - 2147483647);
}

#[test]
fn contains_tells_cells_from_the_outside() {
    let level = PuzzleDefinition::build(room(), at(1, 1), Vec::new(), Vec::new()).unwrap();
    let grid = level.grid();
    assert!(grid.contains(at(0, 0)));
    assert!(grid.contains(at(3, 2)));
    assert!(!grid.contains(at(4, 2)));
    assert!(!grid.contains(at(3, 3)));
    assert!(!grid.contains(at(-1, 0)));
    assert!(!grid.contains(at(0, -1)));
}

#[test]
fn registry_keeps_hazards_in_listing_order() {
    let registry = HazardRegistry::new(&vec![at(3, 1), at(0, 2), at(3, 1)]);
    assert_eq!(registry.len(), 3);
    assert_eq!(registry.get(0), Some(Fire::new(at(3, 1))));
    assert_eq!(registry.get(1), Some(Fire::new(at(0, 2))));
    assert_eq!(registry.get(2), Some(Fire::new(at(3, 1))));
    assert_eq!(registry.get(3), None);
    assert_eq!(registry.points().len(), 3);
    assert_eq!(registry.points()[1].position(), at(0, 2));
}

#[test]
fn empty_registry() {
    let registry = HazardRegistry::new(&Vec::new());
    assert_eq!(registry.len(), 0);
    assert_eq!(registry.get(0), None);
}
