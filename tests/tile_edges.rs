use iso_physics::tile::TileEdges;

fn flags(e: &TileEdges) -> (bool, bool, bool, bool) {
    (e.pos_x, e.neg_x, e.pos_z, e.neg_z)
}

#[test]
fn single_edge_constructors() {
    assert_eq!(flags(&TileEdges::pos_x()), (true, false, false, false));
    assert_eq!(flags(&TileEdges::neg_x()), (false, true, false, false));
    assert_eq!(flags(&TileEdges::pos_z()), (false, false, true, false));
    assert_eq!(flags(&TileEdges::neg_z()), (false, false, false, true));
}

#[test]
fn all_none_and_default() {
    assert_eq!(flags(&TileEdges::all()), (true, true, true, true));
    assert_eq!(flags(&TileEdges::none()), (false, false, false, false));
    assert_eq!(flags(&TileEdges::default()), (false, false, false, false));
}

#[test]
fn new_keeps_each_flag() {
    let e = TileEdges::new(true, false, false, true);
    assert_eq!(flags(&e), (true, false, false, true));
    let e = TileEdges::new(false, true, true, false);
    assert_eq!(flags(&e), (false, true, true, false));
}

#[test]
fn add_is_union() {
    let e = TileEdges::pos_x() + TileEdges::neg_z();
    assert_eq!(flags(&e), (true, false, false, true));
    let e = TileEdges::all() + TileEdges::none();
    assert_eq!(e, TileEdges::all());
    let e = TileEdges::pos_z() + TileEdges::pos_z();
    assert_eq!(e, TileEdges::pos_z());
}

#[test]
fn add_assign_and_merge_accumulate() {
    let mut e = TileEdges::default();
    e += TileEdges::neg_x();
    e += TileEdges::pos_z();
    assert_eq!(flags(&e), (false, true, true, false));
    e.merge(TileEdges::pos_x());
    assert_eq!(flags(&e), (true, true, true, false));
}
