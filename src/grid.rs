use vstd::prelude::*;
use vstd::arithmetic::div_mod::{
    lemma_div_denominator, lemma_div_pos_is_pos, lemma_fundamental_div_mod, lemma_mod_pos_bound,
};

verus! {

/// Where a coordinate lies along one axis of the grid.
#[derive(Clone, Copy, Debug, PartialEq, Eq, Structural)]
pub enum Side {
    /// The coordinate is 0: the "back" extreme of the axis.
    Low,
    /// Strictly between the two extremes.
    Middle,
    /// The coordinate is `divisions - 1`: the "front" extreme of the axis.
    High,
}

/// The side of one coordinate, for a grid of `divisions >= 2` nodes per axis.
pub open spec fn side_spec(c: int, divisions: int) -> Side {
    if c == 0 {
        Side::Low
    } else if c == divisions - 1 {
        Side::High
    } else {
        Side::Middle
    }
}

/// Whether coordinate `c` belongs to the part of an axis that `s` names.
pub open spec fn on_side(s: Side, c: int, divisions: int) -> bool {
    match s {
        Side::Low => c == 0,
        Side::High => c == divisions - 1,
        Side::Middle => 0 < c < divisions - 1,
    }
}

/// Classifies one coordinate of a grid with at least two divisions.
pub fn side_of(c: usize, divisions: usize) -> (r: Side)
    requires
        2 <= divisions,
        c < divisions,
    ensures
        r == side_spec(c as int, divisions as int),
{
    if c == 0 {
        Side::Low
    } else if c == divisions - 1 {
        Side::High
    } else {
        Side::Middle
    }
}

/// The topological class of a node: its side along each of the three axes.
///
/// The 27 values are the interior (all sides `Middle`), 6 faces, 12 edges and
/// 8 corners. Along x the low side is the left face and the high side the right
/// face; along y bottom and top; along z back and front.
#[derive(Clone, Copy, Debug, PartialEq, Eq, Structural)]
pub struct NodeClass {
    pub x: Side,
    pub y: Side,
    pub z: Side,
}

/// How many boundary axes a class touches: interior, face, edge or corner.
#[derive(Clone, Copy, Debug, PartialEq, Eq, Structural)]
pub enum NodeKind {
    Interior,
    Face,
    Edge,
    Corner,
}

pub open spec fn on_boundary(s: Side) -> bool {
    s != Side::Middle
}

/// The number of axes along which a class lies on the domain boundary.
pub open spec fn boundary_axes(c: NodeClass) -> nat {
    (if on_boundary(c.x) { 1nat } else { 0nat }) + (if on_boundary(c.y) { 1nat } else { 0nat })
        + (if on_boundary(c.z) { 1nat } else { 0nat })
}

pub open spec fn kind_spec(c: NodeClass) -> NodeKind {
    let b = boundary_axes(c);
    if b == 0 {
        NodeKind::Interior
    } else if b == 1 {
        NodeKind::Face
    } else if b == 2 {
        NodeKind::Edge
    } else {
        NodeKind::Corner
    }
}

pub open spec fn classify_spec(x: int, y: int, z: int, divisions: int) -> NodeClass {
    NodeClass {
        x: side_spec(x, divisions),
        y: side_spec(y, divisions),
        z: side_spec(z, divisions),
    }
}

/// Whether the node at `(x, y, z)` belongs to class `c`, read directly from
/// the coordinates.
pub open spec fn in_class(c: NodeClass, x: int, y: int, z: int, divisions: int) -> bool {
    on_side(c.x, x, divisions) && on_side(c.y, y, divisions) && on_side(c.z, z, divisions)
}

pub open spec fn in_grid(x: int, y: int, z: int, divisions: int) -> bool {
    0 <= x < divisions && 0 <= y < divisions && 0 <= z < divisions
}

/// Classifies the node at `(x, y, z)` of a grid with `divisions >= 2` nodes
/// per axis.
pub fn classify(x: usize, y: usize, z: usize, divisions: usize) -> (r: NodeClass)
    requires
        2 <= divisions,
        x < divisions,
        y < divisions,
        z < divisions,
    ensures
        r == classify_spec(x as int, y as int, z as int, divisions as int),
        in_class(r, x as int, y as int, z as int, divisions as int),
{
    NodeClass { x: side_of(x, divisions), y: side_of(y, divisions), z: side_of(z, divisions) }
}

impl NodeClass {
    /// Interior, face, edge or corner, by the number of boundary axes.
    pub fn kind(&self) -> (r: NodeKind)
        ensures
            r == kind_spec(*self),
    {
        let bx: u8 = if self.x != Side::Middle { 1 } else { 0 };
        let by: u8 = if self.y != Side::Middle { 1 } else { 0 };
        let bz: u8 = if self.z != Side::Middle { 1 } else { 0 };
        let b: u8 = bx + by + bz;
        if b == 0 {
            NodeKind::Interior
        } else if b == 1 {
            NodeKind::Face
        } else if b == 2 {
            NodeKind::Edge
        } else {
            NodeKind::Corner
        }
    }
}

/// Every node of a grid with at least two divisions per axis belongs to
/// exactly one of the 27 classes, and that class is the one `classify`
/// returns; so the classes together cover the whole grid without overlap.
pub proof fn lemma_classes_partition_grid(x: int, y: int, z: int, divisions: int)
    requires
        2 <= divisions,
        in_grid(x, y, z, divisions),
    ensures
        in_class(classify_spec(x, y, z, divisions), x, y, z, divisions),
        forall|c: NodeClass| #[trigger]
            in_class(c, x, y, z, divisions) ==> c == classify_spec(x, y, z, divisions),
{
}

/// Membership in a class never holds outside the grid: the classes cover
/// exactly the grid.
pub proof fn lemma_classes_within_grid(c: NodeClass, x: int, y: int, z: int, divisions: int)
    requires
        2 <= divisions,
        in_class(c, x, y, z, divisions),
    ensures
        in_grid(x, y, z, divisions),
{
}

// ---------------------------------------------------------------------------
// Flat storage of a field: the node (x, y, z) is stored at x*n*n + y*n + z.

pub open spec fn cube(n: int) -> int {
    n * n * n
}

pub open spec fn index_spec(x: int, y: int, z: int, n: int) -> int {
    x * n * n + y * n + z
}

pub open spec fn coord_x(idx: int, n: int) -> int {
    idx / (n * n)
}

pub open spec fn coord_y(idx: int, n: int) -> int {
    (idx / n) % n
}

pub open spec fn coord_z(idx: int, n: int) -> int {
    idx % n
}

/// The class of the node stored at flat position `idx`.
pub open spec fn class_at(idx: int, n: int) -> NodeClass {
    classify_spec(coord_x(idx, n), coord_y(idx, n), coord_z(idx, n), n)
}

/// The three coordinates of a flat position lie in the grid and give back the
/// position; a neighbour one step away along an axis stays in the field
/// exactly when the coordinate along that axis is not at the matching extreme.
pub proof fn lemma_coords(idx: int, n: int)
    requires
        1 <= n,
        0 <= idx < cube(n),
    ensures
        0 <= coord_x(idx, n) < n,
        0 <= coord_y(idx, n) < n,
        0 <= coord_z(idx, n) < n,
        idx == index_spec(coord_x(idx, n), coord_y(idx, n), coord_z(idx, n), n),
        coord_x(idx, n) > 0 ==> idx >= n * n,
        coord_x(idx, n) < n - 1 ==> idx + n * n < cube(n),
        coord_y(idx, n) > 0 ==> idx >= n,
        coord_y(idx, n) < n - 1 ==> idx + n < cube(n),
        coord_z(idx, n) > 0 ==> idx >= 1,
        coord_z(idx, n) < n - 1 ==> idx + 1 < cube(n),
{
    let q = idx / n;
    let x = coord_x(idx, n);
    let y = coord_y(idx, n);
    let z = coord_z(idx, n);
    lemma_fundamental_div_mod(idx, n);
    lemma_fundamental_div_mod(q, n);
    lemma_div_denominator(idx, n, n);
    lemma_mod_pos_bound(idx, n);
    lemma_mod_pos_bound(q, n);
    lemma_div_pos_is_pos(idx, n);
    lemma_div_pos_is_pos(q, n);
    assert(q / n == x);
    assert(idx == n * (n * x + y) + z);
    assert(idx == x * n * n + y * n + z) by (nonlinear_arith)
        requires
            idx == n * (n * x + y) + z,
    ;
    assert(x < n) by (nonlinear_arith)
        requires
            idx == x * n * n + y * n + z,
            0 <= y,
            0 <= z,
            idx < n * n * n,
            1 <= n,
    ;
    assert(x > 0 ==> idx >= n * n) by (nonlinear_arith)
        requires
            idx == x * n * n + y * n + z,
            1 <= n,
            0 <= y,
            0 <= z,
            0 <= x,
    ;
    assert(x < n - 1 ==> idx + n * n < n * n * n) by (nonlinear_arith)
        requires
            idx == x * n * n + y * n + z,
            0 <= y < n,
            0 <= z < n,
            0 <= x,
    ;
    assert(y > 0 ==> idx >= n) by (nonlinear_arith)
        requires
            idx == x * n * n + y * n + z,
            1 <= n,
            0 <= x,
            0 <= z,
            0 <= y,
    ;
    assert(y < n - 1 ==> idx + n < n * n * n) by (nonlinear_arith)
        requires
            idx == x * n * n + y * n + z,
            0 <= x < n,
            0 <= z < n,
            0 <= y,
    ;
    assert(z < n - 1 ==> idx + 1 < n * n * n) by (nonlinear_arith)
        requires
            idx == x * n * n + y * n + z,
            0 <= x < n,
            0 <= y < n,
            0 <= z,
    ;
}

} // verus!
