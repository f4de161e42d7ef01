use iso_physics::tile::{TileEdges, TileFacing, TileShape, TileType};

#[test]
fn atlas_index_of_flat_tiles() {
    let none = TileEdges::none();
    assert_eq!(TileType::Full { is_top: true, edges: none }.get_atlas_index(), 0);
    assert_eq!(TileType::Full { is_top: false, edges: none }.get_atlas_index(), 1);
    assert_eq!(TileType::Layer { is_top: true, edges: none }.get_atlas_index(), 2);
    assert_eq!(TileType::Layer { is_top: false, edges: none }.get_atlas_index(), 3);
    assert_eq!(TileType::default().get_atlas_index(), 0);
}

#[test]
fn atlas_index_of_facing_tiles() {
    let slope = |facing| TileType::SlopeLower { facing, has_edge: false };
    assert_eq!(slope(TileFacing::NegX).get_atlas_index(), 8);
    assert_eq!(slope(TileFacing::NegZ).get_atlas_index(), 9);
    assert_eq!(slope(TileFacing::PosX).get_atlas_index(), 10);
    assert_eq!(slope(TileFacing::PosZ).get_atlas_index(), 11);
    let upper = TileType::SlopeUpper { facing: TileFacing::PosZ, has_edge: true };
    assert_eq!(upper.get_atlas_index(), 15);
    assert_eq!(TileType::Stairs(TileFacing::NegZ).get_atlas_index(), 25);
    let bridge = |facing| TileType::Bridge { facing, edges: TileEdges::none() };
    assert_eq!(bridge(None).get_atlas_index(), 32);
    assert_eq!(bridge(Some(TileFacing::NegX)).get_atlas_index(), 33);
    assert_eq!(bridge(Some(TileFacing::PosZ)).get_atlas_index(), 36);
}

#[test]
fn overlay_indices_follow_edges() {
    let t = TileType::Full { is_top: true, edges: TileEdges::all() };
    assert_eq!(t.get_edge_overlay_atlas_indices(), vec![6, 7, 4, 5]);
    let t = TileType::Layer { is_top: true, edges: TileEdges::new(false, true, false, true) };
    assert_eq!(t.get_edge_overlay_atlas_indices(), vec![4, 5]);
    let t = TileType::Full { is_top: false, edges: TileEdges::all() };
    assert_eq!(t.get_edge_overlay_atlas_indices(), Vec::<usize>::new());
    let t = TileType::Bridge { facing: None, edges: TileEdges::pos_z() };
    assert_eq!(t.get_edge_overlay_atlas_indices(), vec![7]);
}

#[test]
fn overlay_indices_of_slopes() {
    let t = TileType::SlopeLower { facing: TileFacing::PosX, has_edge: true };
    assert_eq!(t.get_edge_overlay_atlas_indices(), vec![18]);
    let t = TileType::SlopeUpper { facing: TileFacing::NegZ, has_edge: true };
    assert_eq!(t.get_edge_overlay_atlas_indices(), vec![21]);
    let t = TileType::SlopeUpper { facing: TileFacing::NegZ, has_edge: false };
    assert!(t.get_edge_overlay_atlas_indices().is_empty());
    assert!(TileType::Stairs(TileFacing::PosX).get_edge_overlay_atlas_indices().is_empty());
}

fn prism(t: TileType) -> [usize; 4] {
    match t.collision_shape() {
        TileShape::Prism(h) => h,
        TileShape::Cube => panic!("expected a prism"),
    }
}

#[test]
fn collision_shapes() {
    assert!(matches!(TileType::default().collision_shape(), TileShape::Cube));
    let bridge = TileType::Bridge { facing: Some(TileFacing::PosX), edges: TileEdges::none() };
    assert!(matches!(bridge.collision_shape(), TileShape::Cube));
    let lower = TileType::SlopeLower { facing: TileFacing::PosX, has_edge: false };
    assert_eq!(prism(lower), [0, 1, 1, 0]);
    let upper = TileType::SlopeUpper { facing: TileFacing::NegX, has_edge: false };
    assert_eq!(prism(upper), [2, 1, 1, 2]);
    assert_eq!(prism(TileType::Stairs(TileFacing::PosZ)), [0, 0, 2, 2]);
    assert_eq!(prism(TileType::Stairs(TileFacing::NegZ)), [2, 2, 0, 0]);
}
