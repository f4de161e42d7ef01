use vstd::prelude::*;

use crate::hull::prism_faces_spec;

verus! {

/// Which of a tile's four side edges carry an edge overlay.
#[derive(Clone, Copy, Debug, PartialEq, Eq, Structural)]
pub struct TileEdges {
    pub pos_x: bool,
    pub neg_x: bool,
    pub pos_z: bool,
    pub neg_z: bool,
}

/// The edge set holding every edge that `a` or `b` holds.
pub open spec fn edges_union(a: TileEdges, b: TileEdges) -> TileEdges {
    TileEdges {
        pos_x: a.pos_x || b.pos_x,
        neg_x: a.neg_x || b.neg_x,
        pos_z: a.pos_z || b.pos_z,
        neg_z: a.neg_z || b.neg_z,
    }
}

impl TileEdges {
    pub fn new(pos_x: bool, neg_x: bool, pos_z: bool, neg_z: bool) -> (r: Self)
        ensures
            r == (TileEdges { pos_x, neg_x, pos_z, neg_z }),
    {
        TileEdges { pos_x, neg_x, pos_z, neg_z }
    }

    /// Only the +X edge.
    pub fn pos_x() -> (r: Self)
        ensures
            r == (TileEdges { pos_x: true, neg_x: false, pos_z: false, neg_z: false }),
    {
        TileEdges { pos_x: true, neg_x: false, pos_z: false, neg_z: false }
    }

    /// Only the -X edge.
    pub fn neg_x() -> (r: Self)
        ensures
            r == (TileEdges { pos_x: false, neg_x: true, pos_z: false, neg_z: false }),
    {
        TileEdges { pos_x: false, neg_x: true, pos_z: false, neg_z: false }
    }

    /// Only the +Z edge.
    pub fn pos_z() -> (r: Self)
        ensures
            r == (TileEdges { pos_x: false, neg_x: false, pos_z: true, neg_z: false }),
    {
        TileEdges { pos_x: false, neg_x: false, pos_z: true, neg_z: false }
    }

    /// Only the -Z edge.
    pub fn neg_z() -> (r: Self)
        ensures
            r == (TileEdges { pos_x: false, neg_x: false, pos_z: false, neg_z: true }),
    {
        TileEdges { pos_x: false, neg_x: false, pos_z: false, neg_z: true }
    }

    /// All four edges.
    pub fn all() -> (r: Self)
        ensures
            r == (TileEdges { pos_x: true, neg_x: true, pos_z: true, neg_z: true }),
    {
        TileEdges { pos_x: true, neg_x: true, pos_z: true, neg_z: true }
    }

    /// No edge at all.
    pub fn none() -> (r: Self)
        ensures
            r == (TileEdges { pos_x: false, neg_x: false, pos_z: false, neg_z: false }),
    {
        TileEdges { pos_x: false, neg_x: false, pos_z: false, neg_z: false }
    }

    /// Adds the edges of `other` to this set.
    pub fn merge(&mut self, other: TileEdges)
        ensures
            *final(self) == edges_union(*old(self), other),
    {
        self.pos_x = self.pos_x || other.pos_x;
        self.neg_x = self.neg_x || other.neg_x;
        self.pos_z = self.pos_z || other.pos_z;
        self.neg_z = self.neg_z || other.neg_z;
    }
}

impl Default for TileEdges {
    fn default() -> (r: Self)
        ensures
            r == (TileEdges { pos_x: false, neg_x: false, pos_z: false, neg_z: false }),
    {
        TileEdges::none()
    }
}

impl core::ops::Add for TileEdges {
    type Output = TileEdges;

    fn add(self, other: TileEdges) -> (r: TileEdges) {
        TileEdges {
            pos_x: self.pos_x || other.pos_x,
            neg_x: self.neg_x || other.neg_x,
            pos_z: self.pos_z || other.pos_z,
            neg_z: self.neg_z || other.neg_z,
        }
    }
}

impl vstd::std_specs::ops::AddSpecImpl for TileEdges {
    open spec fn obeys_add_spec() -> bool {
        true
    }

    open spec fn add_req(self, other: TileEdges) -> bool {
        true
    }

    open spec fn add_spec(self, other: TileEdges) -> TileEdges {
        edges_union(self, other)
    }
}

impl core::ops::AddAssign for TileEdges {
    fn add_assign(&mut self, other: TileEdges) {
        self.merge(other);
    }
}

/// The direction a sloped, stepped or bridge tile faces.
#[derive(Clone, Copy, Debug, PartialEq, Eq, Structural)]
pub enum TileFacing {
    PosX,
    NegX,
    PosZ,
    NegZ,
}

/// The kinds of tile a level is built from.
#[derive(Clone, Copy, Debug, PartialEq, Eq, Structural)]
pub enum TileType {
    Full { is_top: bool, edges: TileEdges },
    Layer { is_top: bool, edges: TileEdges },
    SlopeLower { facing: TileFacing, has_edge: bool },
    SlopeUpper { facing: TileFacing, has_edge: bool },
    Stairs(TileFacing),
    Bridge { facing: Option<TileFacing>, edges: TileEdges },
}

/// The offset of a facing within a row of four facing variants of the atlas.
pub open spec fn facing_offset(f: TileFacing) -> nat {
    match f {
        TileFacing::NegX => 0,
        TileFacing::NegZ => 1,
        TileFacing::PosX => 2,
        TileFacing::PosZ => 3,
    }
}

/// The atlas index of a tile's sprite.
pub open spec fn atlas_index_spec(t: TileType) -> nat {
    match t {
        TileType::Full { is_top, .. } => if is_top { 0 } else { 1 },
        TileType::Layer { is_top, .. } => if is_top { 2 } else { 3 },
        TileType::SlopeLower { facing, .. } => 8 + facing_offset(facing),
        TileType::SlopeUpper { facing, .. } => 12 + facing_offset(facing),
        TileType::Stairs(facing) => 24 + facing_offset(facing),
        TileType::Bridge { facing, .. } => match facing {
            Some(f) => 33 + facing_offset(f),
            None => 32,
        },
    }
}

/// The overlay sprites for the marked edges of a flat tile: +X, +Z, -X, -Z in
/// that order.
pub open spec fn edge_overlays_spec(e: TileEdges) -> Seq<usize> {
    (if e.pos_x { seq![6usize] } else { Seq::empty() }) + (if e.pos_z { seq![7usize] } else {
        Seq::empty()
    }) + (if e.neg_x { seq![4usize] } else { Seq::empty() }) + (if e.neg_z { seq![5usize] } else {
        Seq::empty()
    })
}

/// The atlas indices of the overlays drawn on a tile: the edge sprite of a
/// sloped tile that has one, the marked edges of a top full or layer tile or
/// of a bridge, and nothing for any other tile.
pub open spec fn overlay_indices_spec(t: TileType) -> Seq<usize> {
    match t {
        TileType::SlopeLower { facing, has_edge } => if has_edge {
            seq![(16 + facing_offset(facing)) as usize]
        } else {
            Seq::empty()
        },
        TileType::SlopeUpper { facing, has_edge } => if has_edge {
            seq![(20 + facing_offset(facing)) as usize]
        } else {
            Seq::empty()
        },
        TileType::Full { is_top, edges } => if is_top {
            edge_overlays_spec(edges)
        } else {
            Seq::empty()
        },
        TileType::Layer { is_top, edges } => if is_top {
            edge_overlays_spec(edges)
        } else {
            Seq::empty()
        },
        TileType::Bridge { edges, .. } => edge_overlays_spec(edges),
        TileType::Stairs(_) => Seq::empty(),
    }
}

fn facing_index(base: usize, f: TileFacing) -> (r: usize)
    requires
        base <= 64,
    ensures
        r == base + facing_offset(f),
{
    match f {
        TileFacing::NegX => base,
        TileFacing::NegZ => base + 1,
        TileFacing::PosX => base + 2,
        TileFacing::PosZ => base + 3,
    }
}

fn edge_overlays(e: TileEdges) -> (r: Vec<usize>)
    ensures
        r@ == edge_overlays_spec(e),
{
    let mut indices: Vec<usize> = Vec::new();
    if e.pos_x {
        indices.push(6);
    }
    if e.pos_z {
        indices.push(7);
    }
    if e.neg_x {
        indices.push(4);
    }
    if e.neg_z {
        indices.push(5);
    }
    assert(indices@ =~= edge_overlays_spec(e));
    indices
}

impl TileType {
    /// The atlas index of the tile's sprite.
    pub fn get_atlas_index(&self) -> (r: usize)
        ensures
            r == atlas_index_spec(*self),
    {
        match self {
            TileType::Full { is_top, .. } => if *is_top { 0 } else { 1 },
            TileType::Layer { is_top, .. } => if *is_top { 2 } else { 3 },
            TileType::SlopeLower { facing, .. } => facing_index(8, *facing),
            TileType::SlopeUpper { facing, .. } => facing_index(12, *facing),
            TileType::Stairs(facing) => facing_index(24, *facing),
            TileType::Bridge { facing, .. } => match facing {
                Some(f) => facing_index(33, *f),
                None => 32,
            },
        }
    }

    /// The atlas indices of the overlays drawn on the tile.
    pub fn get_edge_overlay_atlas_indices(&self) -> (r: Vec<usize>)
        ensures
            r@ == overlay_indices_spec(*self),
    {
        match self {
            TileType::SlopeLower { facing, has_edge } => if *has_edge {
                vec![facing_index(16, *facing)]
            } else {
                Vec::new()
            },
            TileType::SlopeUpper { facing, has_edge } => if *has_edge {
                vec![facing_index(20, *facing)]
            } else {
                Vec::new()
            },
            TileType::Full { is_top, edges } => if *is_top {
                edge_overlays(*edges)
            } else {
                Vec::new()
            },
            TileType::Layer { is_top, edges } => if *is_top {
                edge_overlays(*edges)
            } else {
                Vec::new()
            },
            TileType::Bridge { edges, .. } => edge_overlays(*edges),
            TileType::Stairs(_) => Vec::new(),
        }
    }
}

impl Default for TileType {
    /// A top full tile with no marked edge.
    fn default() -> (r: Self)
        ensures
            r == (TileType::Full { is_top: true, edges: TileEdges { pos_x: false, neg_x: false, pos_z: false, neg_z: false } }),
    {
        TileType::Full { is_top: true, edges: TileEdges::none() }
    }
}

/// The solid a tile collides as.
#[derive(Clone, Copy, Debug)]
pub enum TileShape {
    /// The unit cube centred on the tile.
    Cube,
    /// A prism standing on the tile's unit square, corner i of the square
    /// (see `corner_x`) rising to the given height in half units.
    Prism([usize; 4]),
}

/// Whether corner i of the unit square lies on the side that `f` faces.
pub open spec fn corner_faces(f: TileFacing, i: int) -> bool {
    match f {
        TileFacing::PosX => i == 1 || i == 2,
        TileFacing::NegX => i == 0 || i == 3,
        TileFacing::PosZ => i == 2 || i == 3,
        TileFacing::NegZ => i == 0 || i == 1,
    }
}

/// Corner heights that are `high` on the side `f` faces and `low` elsewhere.
pub open spec fn facing_heights(f: TileFacing, low: usize, high: usize) -> Seq<usize> {
    Seq::new(4, |i: int| if corner_faces(f, i) { high } else { low })
}

/// A lower slope rises from the floor to half height, an upper slope from
/// half to full height, and stairs from the floor to full height, each towards
/// the side it faces; every other tile is a full cube.
pub open spec fn collision_shape_spec(t: TileType) -> Seq<usize> {
    match t {
        TileType::SlopeLower { facing, .. } => facing_heights(facing, 0, 1),
        TileType::SlopeUpper { facing, .. } => facing_heights(facing, 1, 2),
        TileType::Stairs(facing) => facing_heights(facing, 0, 2),
        _ => Seq::empty(),
    }
}

fn facing_prism(f: TileFacing, low: usize, high: usize) -> (r: [usize; 4])
    ensures
        r@ == facing_heights(f, low, high),
{
    let r: [usize; 4] = match f {
        TileFacing::PosX => [low, high, high, low],
        TileFacing::NegX => [high, low, low, high],
        TileFacing::PosZ => [low, low, high, high],
        TileFacing::NegZ => [high, high, low, low],
    };
    assert(r@ =~= facing_heights(f, low, high));
    r
}

impl TileType {
    /// The solid the tile collides as: a prism of the corner heights that
    /// `collision_shape_spec` gives, or the cube where it gives none.
    pub fn collision_shape(&self) -> (r: TileShape)
        ensures
            match r {
                TileShape::Cube => collision_shape_spec(*self).len() == 0,
                TileShape::Prism(h) => h@ == collision_shape_spec(*self),
            },
    {
        match self {
            TileType::SlopeLower { facing, .. } => TileShape::Prism(facing_prism(*facing, 0, 1)),
            TileType::SlopeUpper { facing, .. } => TileShape::Prism(facing_prism(*facing, 1, 2)),
            TileType::Stairs(facing) => TileShape::Prism(facing_prism(*facing, 0, 2)),
            _ => TileShape::Cube,
        }
    }
}

/// A tile that rises from the floor on one side only (a lower slope, stairs)
/// is a wedge: its low side collapses to an edge and gives no face, the two
/// sides beside it give one triangle each, and it has eight faces in all.
pub proof fn lemma_wedge_has_eight_faces(f: TileFacing, high: usize)
    requires
        high > 0,
    ensures
        prism_faces_spec(facing_heights(f, 0, high)).len() == 8,
{
    reveal_with_fuel(crate::hull::distinct_corners, 5);
    reveal_with_fuel(crate::hull::faces_upto, 7);
}

} // verus!
