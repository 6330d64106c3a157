use vstd::prelude::*;

use crate::conditions::{first_fixed, fixed_temperature, BoundaryCondition};
use crate::grid::{kind_spec, NodeClass, NodeKind, Side};

verus! {

/// Temperatures of the six axis neighbours of a node, taken from the previous
/// field. `i`, `j` and `k` are the x, y and z axes; `back` is the neighbour at
/// coordinate - 1 and `front` the one at coordinate + 1. A neighbour outside
/// the grid holds the caller's stand-in value (zero).
#[derive(Clone, Copy, Debug)]
pub struct Information<T> {
    pub i_front: T,
    pub i_back: T,
    pub j_front: T,
    pub j_back: T,
    pub k_front: T,
    pub k_back: T,
}

/// One of the six axis directions around a node.
#[derive(Clone, Copy, Debug, PartialEq, Eq, Structural)]
pub enum Direction {
    IBack,
    IFront,
    JBack,
    JFront,
    KBack,
    KFront,
}

/// Share of a cell face owned by a node whose sides along the two axes that
/// span the face are `a` and `b`, in quarters: a whole width along a middle
/// axis, half a width along a boundary axis.
pub open spec fn face_share(a: Side, b: Side) -> nat {
    if a == Side::Middle && b == Side::Middle {
        4
    } else if a == Side::Middle || b == Side::Middle {
        2
    } else {
        1
    }
}

/// The side of class `c` along the axis of direction `d`.
pub open spec fn side_along(c: NodeClass, d: Direction) -> Side {
    match d {
        Direction::IBack | Direction::IFront => c.x,
        Direction::JBack | Direction::JFront => c.y,
        Direction::KBack | Direction::KFront => c.z,
    }
}

/// Area of the control-volume face crossed in direction `d`, in quarters of a
/// full cell face, by the node's shares of the two other axes.
pub open spec fn cross_quarters(c: NodeClass, d: Direction) -> nat {
    match d {
        Direction::IBack | Direction::IFront => face_share(c.y, c.z),
        Direction::JBack | Direction::JFront => face_share(c.x, c.z),
        Direction::KBack | Direction::KFront => face_share(c.x, c.y),
    }
}

/// Whether a node of class `c` has a neighbour in direction `d`.
pub open spec fn has_neighbor(c: NodeClass, d: Direction) -> bool {
    match d {
        Direction::IBack | Direction::JBack | Direction::KBack => side_along(c, d) != Side::Low,
        Direction::IFront | Direction::JFront | Direction::KFront => side_along(c, d)
            != Side::High,
    }
}

/// Stencil weight of the neighbour in direction `d`, in quarters: zero where
/// the neighbour is missing, else the area of the face that leads to it.
pub open spec fn weight_spec(c: NodeClass, d: Direction) -> nat {
    if has_neighbor(c, d) {
        cross_quarters(c, d)
    } else {
        0
    }
}

/// Sum of the six neighbour weights, in quarters: the part of the update's
/// denominator that does not depend on the boundary conditions.
pub open spec fn stencil_spec(c: NodeClass) -> nat {
    weight_spec(c, Direction::IBack) + weight_spec(c, Direction::IFront) + weight_spec(
        c,
        Direction::JBack,
    ) + weight_spec(c, Direction::JFront) + weight_spec(c, Direction::KBack) + weight_spec(
        c,
        Direction::KFront,
    )
}

/// Share of a full cell that the node's control volume owns, in eighths; it
/// scales the generation term.
pub open spec fn generation_spec(c: NodeClass) -> nat {
    if c.x == Side::Middle {
        2 * face_share(c.y, c.z)
    } else {
        face_share(c.y, c.z)
    }
}

/// Weighted sum of integer neighbour values, in quarters: the neighbour part
/// of the update's numerator.
pub open spec fn weighted_sum(c: NodeClass, v: Information<int>) -> int {
    weight_spec(c, Direction::IBack) * v.i_back + weight_spec(c, Direction::IFront) * v.i_front
        + weight_spec(c, Direction::JBack) * v.j_back + weight_spec(c, Direction::JFront)
        * v.j_front + weight_spec(c, Direction::KBack) * v.k_back + weight_spec(
        c,
        Direction::KFront,
    ) * v.k_front
}

fn face_share_of(a: Side, b: Side) -> (r: u32)
    ensures
        r == face_share(a, b),
{
    if a == Side::Middle && b == Side::Middle {
        4
    } else if a == Side::Middle || b == Side::Middle {
        2
    } else {
        1
    }
}

impl NodeClass {
    /// The stencil weight of the neighbour in direction `d`, in quarters
    /// (4, 2, 1, or 0 where that neighbour lies outside the grid).
    pub fn weight(&self, d: Direction) -> (r: u32)
        ensures
            r == weight_spec(*self, d),
            r <= 4,
    {
        let (s, missing, a, b) = match d {
            Direction::IBack => (self.x, Side::Low, self.y, self.z),
            Direction::IFront => (self.x, Side::High, self.y, self.z),
            Direction::JBack => (self.y, Side::Low, self.x, self.z),
            Direction::JFront => (self.y, Side::High, self.x, self.z),
            Direction::KBack => (self.z, Side::Low, self.x, self.y),
            Direction::KFront => (self.z, Side::High, self.x, self.y),
        };
        if s == missing {
            0
        } else {
            face_share_of(a, b)
        }
    }

    /// The area of the face on the domain boundary that lies across the axis
    /// of `d`, in quarters of a full cell face.
    pub fn boundary_area(&self, d: Direction) -> (r: u32)
        ensures
            r == cross_quarters(*self, d),
            1 <= r <= 4,
    {
        match d {
            Direction::IBack | Direction::IFront => face_share_of(self.y, self.z),
            Direction::JBack | Direction::JFront => face_share_of(self.x, self.z),
            Direction::KBack | Direction::KFront => face_share_of(self.x, self.y),
        }
    }

    /// The sum of the six neighbour weights, in quarters.
    pub fn stencil(&self) -> (r: u32)
        ensures
            r == stencil_spec(*self),
            3 <= r <= 24,
    {
        self.weight(Direction::IBack) + self.weight(Direction::IFront) + self.weight(
            Direction::JBack,
        ) + self.weight(Direction::JFront) + self.weight(Direction::KBack) + self.weight(
            Direction::KFront,
        )
    }

    /// The node's share of a full cell, in eighths.
    pub fn generation(&self) -> (r: u32)
        ensures
            r == generation_spec(*self),
            1 <= r <= 8,
    {
        if self.x == Side::Middle {
            2 * face_share_of(self.y, self.z)
        } else {
            face_share_of(self.y, self.z)
        }
    }
}

/// What a node's new temperature is computed from when no Dirichlet condition
/// governs it: its class, its neighbours, and the Neumann or Robin condition
/// on each axis along which it touches the boundary (`None` along the others).
///
/// The new temperature is
/// `(sum of weight(d)/4 * neighbour(d) + generation/8 * q_dot * del^2 / k
///   + sum over boundary axes of the condition's numerator term)
///  / (stencil/4 + sum over boundary axes of the condition's denominator term)`,
/// where a condition's terms use an area of `boundary_area/4 * del^2`.
#[derive(Clone, Copy, Debug)]
pub struct Balance<T> {
    pub class: NodeClass,
    pub info: Information<T>,
    pub x_condition: Option<BoundaryCondition<T>>,
    pub y_condition: Option<BoundaryCondition<T>>,
    pub z_condition: Option<BoundaryCondition<T>>,
}

/// How the new temperature of one node is obtained.
#[derive(Clone, Copy, Debug)]
pub enum NodeUpdate<T> {
    /// A Dirichlet condition fixes it.
    Fixed(T),
    /// It follows from the energy balance of the node's control volume.
    Balance(Balance<T>),
}

/// The update of a node of class `c` whose governing conditions are `cx`,
/// `cy`, `cz`: a fixed temperature wins over everything, else the balance.
pub open spec fn update_spec<T>(
    c: NodeClass,
    cx: Option<BoundaryCondition<T>>,
    cy: Option<BoundaryCondition<T>>,
    cz: Option<BoundaryCondition<T>>,
    info: Information<T>,
) -> NodeUpdate<T> {
    match first_fixed(cx, cy, cz) {
        Some(t) => NodeUpdate::Fixed(t),
        None => NodeUpdate::Balance(
            Balance { class: c, info, x_condition: cx, y_condition: cy, z_condition: cz },
        ),
    }
}

/// Builds the update of one node; a Dirichlet condition short-circuits the
/// balance.
pub fn node_update<T: Copy>(
    c: NodeClass,
    cx: Option<BoundaryCondition<T>>,
    cy: Option<BoundaryCondition<T>>,
    cz: Option<BoundaryCondition<T>>,
    info: Information<T>,
) -> (r: NodeUpdate<T>)
    ensures
        r == update_spec(c, cx, cy, cz, info),
{
    match fixed_temperature(&cx, &cy, &cz) {
        Some(t) => NodeUpdate::Fixed(t),
        None => NodeUpdate::Balance(
            Balance { class: c, info, x_condition: cx, y_condition: cy, z_condition: cz },
        ),
    }
}

/// The stencil of each kind of node: the neighbour weights add up to 6 for
/// the interior, 3 for a face, 3/2 for an edge and 3/4 for a corner, and the
/// control volume is a whole cell, a half, a quarter and an eighth.
pub proof fn lemma_stencil_by_kind(c: NodeClass)
    ensures
        kind_spec(c) == NodeKind::Interior ==> stencil_spec(c) == 24 && generation_spec(c) == 8,
        kind_spec(c) == NodeKind::Face ==> stencil_spec(c) == 12 && generation_spec(c) == 4,
        kind_spec(c) == NodeKind::Edge ==> stencil_spec(c) == 6 && generation_spec(c) == 2,
        kind_spec(c) == NodeKind::Corner ==> stencil_spec(c) == 3 && generation_spec(c) == 1,
{
}

/// Neighbours that all hold `t` contribute `t` times the stencil: with no
/// generation and no boundary terms, a uniform neighbourhood is a fixed point
/// of every one of the 27 updates.
pub proof fn lemma_uniform_neighbors(c: NodeClass, t: int)
    ensures
        weighted_sum(
            c,
            Information { i_front: t, i_back: t, j_front: t, j_back: t, k_front: t, k_back: t },
        ) == t * stencil_spec(c),
{
    let w0 = weight_spec(c, Direction::IBack) as int;
    let w1 = weight_spec(c, Direction::IFront) as int;
    let w2 = weight_spec(c, Direction::JBack) as int;
    let w3 = weight_spec(c, Direction::JFront) as int;
    let w4 = weight_spec(c, Direction::KBack) as int;
    let w5 = weight_spec(c, Direction::KFront) as int;
    assert(w0 * t + w1 * t + w2 * t + w3 * t + w4 * t + w5 * t == t * (w0 + w1 + w2 + w3 + w4
        + w5)) by (nonlinear_arith);
}

/// Mirror image of a class along x: the low and high sides swap.
pub open spec fn mirror(s: Side) -> Side {
    match s {
        Side::Low => Side::High,
        Side::High => Side::Low,
        Side::Middle => Side::Middle,
    }
}

/// Reflection along the x axis: mirroring the class and exchanging the back
/// and front neighbour values along x leaves the weighted sum unchanged, and
/// likewise along y and z. For an interior node the class is its own mirror
/// image, so exchanging the two neighbours of any axis changes nothing.
pub proof fn lemma_reflection_symmetry(c: NodeClass, v: Information<int>)
    ensures
        weighted_sum(c, v) == weighted_sum(
            NodeClass { x: mirror(c.x), ..c },
            Information { i_front: v.i_back, i_back: v.i_front, ..v },
        ),
        weighted_sum(c, v) == weighted_sum(
            NodeClass { y: mirror(c.y), ..c },
            Information { j_front: v.j_back, j_back: v.j_front, ..v },
        ),
        weighted_sum(c, v) == weighted_sum(
            NodeClass { z: mirror(c.z), ..c },
            Information { k_front: v.k_back, k_back: v.k_front, ..v },
        ),
        c.x == Side::Middle ==> weighted_sum(c, v) == weighted_sum(
            c,
            Information { i_front: v.i_back, i_back: v.i_front, ..v },
        ),
        c.y == Side::Middle ==> weighted_sum(c, v) == weighted_sum(
            c,
            Information { j_front: v.j_back, j_back: v.j_front, ..v },
        ),
        c.z == Side::Middle ==> weighted_sum(c, v) == weighted_sum(
            c,
            Information { k_front: v.k_back, k_back: v.k_front, ..v },
        ),
{
}

} // verus!
