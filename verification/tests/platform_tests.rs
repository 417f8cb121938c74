use tile_puzzle::error::ConfigurationError;
use tile_puzzle::grid::TilePosition;
use tile_puzzle::platform::{Ice, Segment, FILL, LEFT_CAP, RIGHT_CAP, SOLO};

fn anchor() -> TilePosition {
    TilePosition { x: 5, y: 8 }
}

#[test]
fn platform_variant_indices_are_fixed() {
    assert_eq!(SOLO, 0);
    assert_eq!(LEFT_CAP, 1);
    assert_eq!(FILL, 2);
    assert_eq!(RIGHT_CAP, 3);
}

#[test]
fn layout_of_width_one_is_a_single_solo_segment() {
    let ice = Ice::new(anchor(), 1).unwrap();
    assert_eq!(ice.layout(), vec![Segment { offset: 0, variant: 0 }]);
}

#[test]
fn layout_of_width_two_is_two_caps() {
    let ice = Ice::new(anchor(), 2).unwrap();
    assert_eq!(
        ice.layout(),
        vec![Segment { offset: 0, variant: 1 }, Segment { offset: 1, variant: 3 }]
    );
}

#[test]
fn layout_of_width_three_has_one_fill() {
    let ice = Ice::new(anchor(), 3).unwrap();
    assert_eq!(
        ice.layout(),
        vec![
            Segment { offset: 0, variant: 1 },
            Segment { offset: 1, variant: 2 },
            Segment { offset: 2, variant: 3 },
        ]
    );
}

#[test]
fn layout_of_width_four_has_two_fills() {
    let ice = Ice::new(anchor(), 4).unwrap();
    assert_eq!(
        ice.layout(),
        vec![
            Segment { offset: 0, variant: 1 },
            Segment { offset: 1, variant: 2 },
            Segment { offset: 2, variant: 2 },
            Segment { offset: 3, variant: 3 },
        ]
    );
}

#[test]
fn layout_has_one_segment_per_tile_in_order() {
    for width in 1..40u32 {
        let segments = Ice::new(anchor(), width).unwrap().layout();
        assert_eq!(segments.len(), width as usize);
        for (i, segment) in segments.iter().enumerate() {
            assert_eq!(segment.offset, i as u32);
        }
    }
}

#[test]
fn layout_does_not_depend_on_the_anchor() {
    let here = Ice::new(TilePosition { x: 0, y: 0 }, 5).unwrap();
    let there = Ice::new(TilePosition { x: -7, y: 90 }, 5).unwrap();
    assert_eq!(here.layout(), there.layout());
}

#[test]
fn platform_without_width_is_refused() {
    assert_eq!(Ice::new(anchor(), 0).err(), Some(ConfigurationError::PlatformWidthZero));
}

#[test]
fn platform_keeps_anchor_and_width() {
    let ice = Ice::new(anchor(), 4).unwrap();
    assert_eq!(ice.position(), TilePosition { x: 5, y: 8 });
    assert_eq!(ice.width(), 4);
}

#[test]
fn segments_run_rightwards_from_the_anchor_in_its_row() {
    let ice = Ice::new(anchor(), 4).unwrap();
    assert_eq!(ice.segment_cell(0), (5, 8));
    assert_eq!(ice.segment_cell(1), (6, 8));
    assert_eq!(ice.segment_cell(3), (8, 8));
    let far = Ice::new(TilePosition { x: i32::MAX, y: -2 }, u32::MAX).unwrap();
    assert_eq!(far.segment_cell(u32::MAX - 1), (i32::MAX as i64 + u32::MAX as i64 - 1, -2));
}
