use vstd::prelude::*;

use crate::grid::{NodeClass, Side};

verus! {

/// The physical behaviour prescribed on one face of the domain.
#[derive(Clone, Copy, Debug)]
pub enum BoundaryCondition<T> {
    /// Dirichlet: the temperature on the face is fixed.
    Temperature { temperature: T },
    /// Neumann: a fixed heat flux crosses the face.
    HeatFlux { heat_flux: T },
    /// Robin: convective exchange with a fluid at `t_inf`, coefficient `h`.
    Convection { h: T, t_inf: T },
}

impl<T: Copy> BoundaryCondition<T> {
    pub open spec fn fixed_spec(self) -> Option<T> {
        match self {
            BoundaryCondition::Temperature { temperature } => Some(temperature),
            _ => None,
        }
    }

    /// The fixed temperature of a Dirichlet condition, `None` for the others.
    pub fn constant_temperature(&self) -> (r: Option<T>)
        ensures
            r == self.fixed_spec(),
    {
        match self {
            BoundaryCondition::Temperature { temperature } => Some(*temperature),
            _ => None,
        }
    }
}

pub open spec fn optional_fixed<T>(c: Option<BoundaryCondition<T>>) -> Option<T> {
    match c {
        Some(BoundaryCondition::Temperature { temperature }) => Some(temperature),
        _ => None,
    }
}

/// The fixed temperature that governs a node whose boundary conditions along
/// x, y and z are `cx`, `cy`, `cz` (`None` along an axis where the node is not
/// on the boundary): the first Dirichlet value in the order x, y, z.
pub open spec fn first_fixed<T>(
    cx: Option<BoundaryCondition<T>>,
    cy: Option<BoundaryCondition<T>>,
    cz: Option<BoundaryCondition<T>>,
) -> Option<T> {
    if optional_fixed(cx) is Some {
        optional_fixed(cx)
    } else if optional_fixed(cy) is Some {
        optional_fixed(cy)
    } else {
        optional_fixed(cz)
    }
}

/// Looks for a Dirichlet condition among those that govern a node, in the
/// order x, y, z; the first one found decides the node's temperature.
pub fn fixed_temperature<T: Copy>(
    cx: &Option<BoundaryCondition<T>>,
    cy: &Option<BoundaryCondition<T>>,
    cz: &Option<BoundaryCondition<T>>,
) -> (r: Option<T>)
    ensures
        r == first_fixed(*cx, *cy, *cz),
{
    if let Some(c) = cx {
        if let Some(t) = c.constant_temperature() {
            return Some(t);
        }
    }
    if let Some(c) = cy {
        if let Some(t) = c.constant_temperature() {
            return Some(t);
        }
    }
    if let Some(c) = cz {
        if let Some(t) = c.constant_temperature() {
            return Some(t);
        }
    }
    None
}

/// One boundary condition for each of the six faces of the domain.
///
/// Right and left are the faces x = n-1 and x = 0, top and bottom y = n-1 and
/// y = 0, front and back z = n-1 and z = 0.
#[derive(Clone, Copy, Debug)]
pub struct SetupConditions<T> {
    pub right_boundary: BoundaryCondition<T>,
    pub left_boundary: BoundaryCondition<T>,
    pub top_boundary: BoundaryCondition<T>,
    pub bot_boundary: BoundaryCondition<T>,
    pub front_boundary: BoundaryCondition<T>,
    pub back_boundary: BoundaryCondition<T>,
}

impl<T: Copy> SetupConditions<T> {
    /// The condition that governs a node of side `s` along x.
    pub open spec fn x_condition(self, s: Side) -> Option<BoundaryCondition<T>> {
        match s {
            Side::Low => Some(self.left_boundary),
            Side::High => Some(self.right_boundary),
            Side::Middle => None,
        }
    }

    /// The condition that governs a node of side `s` along y.
    pub open spec fn y_condition(self, s: Side) -> Option<BoundaryCondition<T>> {
        match s {
            Side::Low => Some(self.bot_boundary),
            Side::High => Some(self.top_boundary),
            Side::Middle => None,
        }
    }

    /// The condition that governs a node of side `s` along z.
    pub open spec fn z_condition(self, s: Side) -> Option<BoundaryCondition<T>> {
        match s {
            Side::Low => Some(self.back_boundary),
            Side::High => Some(self.front_boundary),
            Side::Middle => None,
        }
    }

    /// The fixed temperature, if any, that governs every node of class `c`.
    pub open spec fn fixed_for(self, c: NodeClass) -> Option<T> {
        first_fixed(self.x_condition(c.x), self.y_condition(c.y), self.z_condition(c.z))
    }

    /// Six faces with the same condition.
    pub fn uniform(c: BoundaryCondition<T>) -> (r: SetupConditions<T>)
        ensures
            r.right_boundary == c,
            r.left_boundary == c,
            r.top_boundary == c,
            r.bot_boundary == c,
            r.front_boundary == c,
            r.back_boundary == c,
    {
        SetupConditions {
            right_boundary: c,
            left_boundary: c,
            top_boundary: c,
            bot_boundary: c,
            front_boundary: c,
            back_boundary: c,
        }
    }
}

} // verus!
