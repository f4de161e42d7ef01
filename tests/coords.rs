use iso_physics::coords::{TileCoords, TILE_HEIGHT, TILE_WIDTH};
use std::cmp::Ordering;

#[test]
fn tiles_order_by_layer_then_row_then_column() {
    let a = TileCoords::new(5, 0, 5);
    let b = TileCoords::new(0, 1, 0);
    assert_eq!(a.compare(&b), Ordering::Less);
    let c = TileCoords::new(9, 1, 0);
    let d = TileCoords::new(0, 1, 1);
    assert_eq!(c.compare(&d), Ordering::Less);
    assert_eq!(d.compare(&c), Ordering::Greater);
    let e = TileCoords::new(2, 1, 1);
    assert_eq!(d.compare(&e), Ordering::Less);
    assert_eq!(e.compare(&e), Ordering::Equal);
}

#[test]
fn partial_cmp_and_derived_order_agree() {
    let mut tiles = vec![
        TileCoords::new(1, 1, 0),
        TileCoords::new(0, 0, 1),
        TileCoords::new(3, 0, 0),
        TileCoords::new(0, 1, 0),
    ];
    tiles.sort();
    assert_eq!(
        tiles,
        vec![
            TileCoords::new(3, 0, 0),
            TileCoords::new(0, 0, 1),
            TileCoords::new(0, 1, 0),
            TileCoords::new(1, 1, 0),
        ]
    );
    for a in &tiles {
        for b in &tiles {
            assert_eq!(a.partial_cmp(b), Some(a.cmp(b)));
            assert_eq!(a.compare(b), a.cmp(b));
        }
    }
}

#[test]
fn screen_position_of_tiles() {
    assert_eq!(TILE_WIDTH, 32);
    assert_eq!(TILE_HEIGHT, 16);
    assert_eq!(TileCoords::new(0, 0, 0).screen_position(), (0, 0, 0));
    assert_eq!(TileCoords::new(1, 0, 0).screen_position(), (16, -8, 1));
    assert_eq!(TileCoords::new(0, 0, 1).screen_position(), (-16, -8, 1));
    assert_eq!(TileCoords::new(3, 2, 1).screen_position(), (32, 0, 6));
    assert_eq!(TileCoords::new(-2, -1, 3).screen_position(), (-80, -24, 0));
}
