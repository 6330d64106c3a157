use vstd::prelude::*;

use crate::conditions::BoundaryCondition;
use crate::formula::{node_update, update_spec, Information, NodeUpdate};
use crate::grid::{NodeClass, Side};

verus! {

/// The update rule of one of the 27 classes of nodes, together with the
/// boundary conditions of the faces that the class lies on.
pub trait CalculateTemperature<T: Copy> {
    /// The update of a node of this class whose neighbours are `info`.
    spec fn update_of(&self, info: Information<T>) -> NodeUpdate<T>;

    /// How the new temperature of a node of this class follows from its
    /// neighbours: fixed by a Dirichlet face, else by the energy balance.
    fn calculate_temperature(&self, info: Information<T>) -> (r: NodeUpdate<T>)
        ensures
            r == self.update_of(info),
    ;
}

/// Conduction at an interior node: the full six-neighbour stencil, no
/// boundary term.
#[derive(Clone, Copy, Debug)]
pub struct InternalConduction;

impl<T: Copy> CalculateTemperature<T> for InternalConduction {
    open spec fn update_of(&self, info: Information<T>) -> NodeUpdate<T> {
        let c = NodeClass { x: Side::Middle, y: Side::Middle, z: Side::Middle };
        update_spec(c, None, None, None, info)
    }

    fn calculate_temperature(&self, info: Information<T>) -> (r: NodeUpdate<T>) {
        let c = NodeClass { x: Side::Middle, y: Side::Middle, z: Side::Middle };
        node_update(c, None, None, None, info)
    }
}

/// A node on the right face, away from its edges.
#[derive(Clone, Copy, Debug)]
pub struct RightSurface<T> {
    pub right_boundary: BoundaryCondition<T>,
}

impl<T: Copy> CalculateTemperature<T> for RightSurface<T> {
    open spec fn update_of(&self, info: Information<T>) -> NodeUpdate<T> {
        let c = NodeClass { x: Side::High, y: Side::Middle, z: Side::Middle };
        update_spec(c, Some(self.right_boundary), None, None, info)
    }

    fn calculate_temperature(&self, info: Information<T>) -> (r: NodeUpdate<T>) {
        let c = NodeClass { x: Side::High, y: Side::Middle, z: Side::Middle };
        node_update(c, Some(self.right_boundary), None, None, info)
    }
}

/// A node on the left face, away from its edges.
#[derive(Clone, Copy, Debug)]
pub struct LeftSurface<T> {
    pub left_boundary: BoundaryCondition<T>,
}

impl<T: Copy> CalculateTemperature<T> for LeftSurface<T> {
    open spec fn update_of(&self, info: Information<T>) -> NodeUpdate<T> {
        let c = NodeClass { x: Side::Low, y: Side::Middle, z: Side::Middle };
        update_spec(c, Some(self.left_boundary), None, None, info)
    }

    fn calculate_temperature(&self, info: Information<T>) -> (r: NodeUpdate<T>) {
        let c = NodeClass { x: Side::Low, y: Side::Middle, z: Side::Middle };
        node_update(c, Some(self.left_boundary), None, None, info)
    }
}

/// A node on the top face, away from its edges.
#[derive(Clone, Copy, Debug)]
pub struct TopSurface<T> {
    pub top_boundary: BoundaryCondition<T>,
}

impl<T: Copy> CalculateTemperature<T> for TopSurface<T> {
    open spec fn update_of(&self, info: Information<T>) -> NodeUpdate<T> {
        let c = NodeClass { x: Side::Middle, y: Side::High, z: Side::Middle };
        update_spec(c, None, Some(self.top_boundary), None, info)
    }

    fn calculate_temperature(&self, info: Information<T>) -> (r: NodeUpdate<T>) {
        let c = NodeClass { x: Side::Middle, y: Side::High, z: Side::Middle };
        node_update(c, None, Some(self.top_boundary), None, info)
    }
}

/// A node on the bottom face, away from its edges.
#[derive(Clone, Copy, Debug)]
pub struct BottomSurface<T> {
    pub bot_boundary: BoundaryCondition<T>,
}

impl<T: Copy> CalculateTemperature<T> for BottomSurface<T> {
    open spec fn update_of(&self, info: Information<T>) -> NodeUpdate<T> {
        let c = NodeClass { x: Side::Middle, y: Side::Low, z: Side::Middle };
        update_spec(c, None, Some(self.bot_boundary), None, info)
    }

    fn calculate_temperature(&self, info: Information<T>) -> (r: NodeUpdate<T>) {
        let c = NodeClass { x: Side::Middle, y: Side::Low, z: Side::Middle };
        node_update(c, None, Some(self.bot_boundary), None, info)
    }
}

/// A node on the front face, away from its edges.
#[derive(Clone, Copy, Debug)]
pub struct FrontSurface<T> {
    pub front_boundary: BoundaryCondition<T>,
}

impl<T: Copy> CalculateTemperature<T> for FrontSurface<T> {
    open spec fn update_of(&self, info: Information<T>) -> NodeUpdate<T> {
        let c = NodeClass { x: Side::Middle, y: Side::Middle, z: Side::High };
        update_spec(c, None, None, Some(self.front_boundary), info)
    }

    fn calculate_temperature(&self, info: Information<T>) -> (r: NodeUpdate<T>) {
        let c = NodeClass { x: Side::Middle, y: Side::Middle, z: Side::High };
        node_update(c, None, None, Some(self.front_boundary), info)
    }
}

/// A node on the back face, away from its edges.
#[derive(Clone, Copy, Debug)]
pub struct BackSurface<T> {
    pub back_boundary: BoundaryCondition<T>,
}

impl<T: Copy> CalculateTemperature<T> for BackSurface<T> {
    open spec fn update_of(&self, info: Information<T>) -> NodeUpdate<T> {
        let c = NodeClass { x: Side::Middle, y: Side::Middle, z: Side::Low };
        update_spec(c, None, None, Some(self.back_boundary), info)
    }

    fn calculate_temperature(&self, info: Information<T>) -> (r: NodeUpdate<T>) {
        let c = NodeClass { x: Side::Middle, y: Side::Middle, z: Side::Low };
        node_update(c, None, None, Some(self.back_boundary), info)
    }
}

/// A node on the edge where the right and top faces meet, away from its corners.
#[derive(Clone, Copy, Debug)]
pub struct RightTop<T> {
    pub right_boundary: BoundaryCondition<T>,
    pub top_boundary: BoundaryCondition<T>,
}

impl<T: Copy> CalculateTemperature<T> for RightTop<T> {
    open spec fn update_of(&self, info: Information<T>) -> NodeUpdate<T> {
        let c = NodeClass { x: Side::High, y: Side::High, z: Side::Middle };
        update_spec(c, Some(self.right_boundary), Some(self.top_boundary), None, info)
    }

    fn calculate_temperature(&self, info: Information<T>) -> (r: NodeUpdate<T>) {
        let c = NodeClass { x: Side::High, y: Side::High, z: Side::Middle };
        node_update(c, Some(self.right_boundary), Some(self.top_boundary), None, info)
    }
}

/// A node on the edge where the left and top faces meet, away from its corners.
#[derive(Clone, Copy, Debug)]
pub struct LeftTop<T> {
    pub left_boundary: BoundaryCondition<T>,
    pub top_boundary: BoundaryCondition<T>,
}

impl<T: Copy> CalculateTemperature<T> for LeftTop<T> {
    open spec fn update_of(&self, info: Information<T>) -> NodeUpdate<T> {
        let c = NodeClass { x: Side::Low, y: Side::High, z: Side::Middle };
        update_spec(c, Some(self.left_boundary), Some(self.top_boundary), None, info)
    }

    fn calculate_temperature(&self, info: Information<T>) -> (r: NodeUpdate<T>) {
        let c = NodeClass { x: Side::Low, y: Side::High, z: Side::Middle };
        node_update(c, Some(self.left_boundary), Some(self.top_boundary), None, info)
    }
}

/// A node on the edge where the left and bottom faces meet, away from its corners.
#[derive(Clone, Copy, Debug)]
pub struct LeftBot<T> {
    pub left_boundary: BoundaryCondition<T>,
    pub bot_boundary: BoundaryCondition<T>,
}

impl<T: Copy> CalculateTemperature<T> for LeftBot<T> {
    open spec fn update_of(&self, info: Information<T>) -> NodeUpdate<T> {
        let c = NodeClass { x: Side::Low, y: Side::Low, z: Side::Middle };
        update_spec(c, Some(self.left_boundary), Some(self.bot_boundary), None, info)
    }

    fn calculate_temperature(&self, info: Information<T>) -> (r: NodeUpdate<T>) {
        let c = NodeClass { x: Side::Low, y: Side::Low, z: Side::Middle };
        node_update(c, Some(self.left_boundary), Some(self.bot_boundary), None, info)
    }
}

/// A node on the edge where the right and bottom faces meet, away from its corners.
#[derive(Clone, Copy, Debug)]
pub struct RightBot<T> {
    pub right_boundary: BoundaryCondition<T>,
    pub bot_boundary: BoundaryCondition<T>,
}

impl<T: Copy> CalculateTemperature<T> for RightBot<T> {
    open spec fn update_of(&self, info: Information<T>) -> NodeUpdate<T> {
        let c = NodeClass { x: Side::High, y: Side::Low, z: Side::Middle };
        update_spec(c, Some(self.right_boundary), Some(self.bot_boundary), None, info)
    }

    fn calculate_temperature(&self, info: Information<T>) -> (r: NodeUpdate<T>) {
        let c = NodeClass { x: Side::High, y: Side::Low, z: Side::Middle };
        node_update(c, Some(self.right_boundary), Some(self.bot_boundary), None, info)
    }
}

/// A node on the edge where the front and top faces meet, away from its corners.
#[derive(Clone, Copy, Debug)]
pub struct FrontTop<T> {
    pub front_boundary: BoundaryCondition<T>,
    pub top_boundary: BoundaryCondition<T>,
}

impl<T: Copy> CalculateTemperature<T> for FrontTop<T> {
    open spec fn update_of(&self, info: Information<T>) -> NodeUpdate<T> {
        let c = NodeClass { x: Side::Middle, y: Side::High, z: Side::High };
        update_spec(c, None, Some(self.top_boundary), Some(self.front_boundary), info)
    }

    fn calculate_temperature(&self, info: Information<T>) -> (r: NodeUpdate<T>) {
        let c = NodeClass { x: Side::Middle, y: Side::High, z: Side::High };
        node_update(c, None, Some(self.top_boundary), Some(self.front_boundary), info)
    }
}

/// A node on the edge where the back and top faces meet, away from its corners.
#[derive(Clone, Copy, Debug)]
pub struct BackTop<T> {
    pub back_boundary: BoundaryCondition<T>,
    pub top_boundary: BoundaryCondition<T>,
}

impl<T: Copy> CalculateTemperature<T> for BackTop<T> {
    open spec fn update_of(&self, info: Information<T>) -> NodeUpdate<T> {
        let c = NodeClass { x: Side::Middle, y: Side::High, z: Side::Low };
        update_spec(c, None, Some(self.top_boundary), Some(self.back_boundary), info)
    }

    fn calculate_temperature(&self, info: Information<T>) -> (r: NodeUpdate<T>) {
        let c = NodeClass { x: Side::Middle, y: Side::High, z: Side::Low };
        node_update(c, None, Some(self.top_boundary), Some(self.back_boundary), info)
    }
}

/// A node on the edge where the back and bottom faces meet, away from its corners.
#[derive(Clone, Copy, Debug)]
pub struct BackBot<T> {
    pub back_boundary: BoundaryCondition<T>,
    pub bot_boundary: BoundaryCondition<T>,
}

impl<T: Copy> CalculateTemperature<T> for BackBot<T> {
    open spec fn update_of(&self, info: Information<T>) -> NodeUpdate<T> {
        let c = NodeClass { x: Side::Middle, y: Side::Low, z: Side::Low };
        update_spec(c, None, Some(self.bot_boundary), Some(self.back_boundary), info)
    }

    fn calculate_temperature(&self, info: Information<T>) -> (r: NodeUpdate<T>) {
        let c = NodeClass { x: Side::Middle, y: Side::Low, z: Side::Low };
        node_update(c, None, Some(self.bot_boundary), Some(self.back_boundary), info)
    }
}

/// A node on the edge where the front and bottom faces meet, away from its corners.
#[derive(Clone, Copy, Debug)]
pub struct FrontBot<T> {
    pub front_boundary: BoundaryCondition<T>,
    pub bot_boundary: BoundaryCondition<T>,
}

impl<T: Copy> CalculateTemperature<T> for FrontBot<T> {
    open spec fn update_of(&self, info: Information<T>) -> NodeUpdate<T> {
        let c = NodeClass { x: Side::Middle, y: Side::Low, z: Side::High };
        update_spec(c, None, Some(self.bot_boundary), Some(self.front_boundary), info)
    }

    fn calculate_temperature(&self, info: Information<T>) -> (r: NodeUpdate<T>) {
        let c = NodeClass { x: Side::Middle, y: Side::Low, z: Side::High };
        node_update(c, None, Some(self.bot_boundary), Some(self.front_boundary), info)
    }
}

/// A node on the edge where the front and right faces meet, away from its corners.
#[derive(Clone, Copy, Debug)]
pub struct FrontRight<T> {
    pub front_boundary: BoundaryCondition<T>,
    pub right_boundary: BoundaryCondition<T>,
}

impl<T: Copy> CalculateTemperature<T> for FrontRight<T> {
    open spec fn update_of(&self, info: Information<T>) -> NodeUpdate<T> {
        let c = NodeClass { x: Side::High, y: Side::Middle, z: Side::High };
        update_spec(c, Some(self.right_boundary), None, Some(self.front_boundary), info)
    }

    fn calculate_temperature(&self, info: Information<T>) -> (r: NodeUpdate<T>) {
        let c = NodeClass { x: Side::High, y: Side::Middle, z: Side::High };
        node_update(c, Some(self.right_boundary), None, Some(self.front_boundary), info)
    }
}

/// A node on the edge where the front and left faces meet, away from its corners.
#[derive(Clone, Copy, Debug)]
pub struct FrontLeft<T> {
    pub front_boundary: BoundaryCondition<T>,
    pub left_boundary: BoundaryCondition<T>,
}

impl<T: Copy> CalculateTemperature<T> for FrontLeft<T> {
    open spec fn update_of(&self, info: Information<T>) -> NodeUpdate<T> {
        let c = NodeClass { x: Side::Low, y: Side::Middle, z: Side::High };
        update_spec(c, Some(self.left_boundary), None, Some(self.front_boundary), info)
    }

    fn calculate_temperature(&self, info: Information<T>) -> (r: NodeUpdate<T>) {
        let c = NodeClass { x: Side::Low, y: Side::Middle, z: Side::High };
        node_update(c, Some(self.left_boundary), None, Some(self.front_boundary), info)
    }
}

/// A node on the edge where the back and left faces meet, away from its corners.
#[derive(Clone, Copy, Debug)]
pub struct BackLeft<T> {
    pub back_boundary: BoundaryCondition<T>,
    pub left_boundary: BoundaryCondition<T>,
}

impl<T: Copy> CalculateTemperature<T> for BackLeft<T> {
    open spec fn update_of(&self, info: Information<T>) -> NodeUpdate<T> {
        let c = NodeClass { x: Side::Low, y: Side::Middle, z: Side::Low };
        update_spec(c, Some(self.left_boundary), None, Some(self.back_boundary), info)
    }

    fn calculate_temperature(&self, info: Information<T>) -> (r: NodeUpdate<T>) {
        let c = NodeClass { x: Side::Low, y: Side::Middle, z: Side::Low };
        node_update(c, Some(self.left_boundary), None, Some(self.back_boundary), info)
    }
}

/// A node on the edge where the back and right faces meet, away from its corners.
#[derive(Clone, Copy, Debug)]
pub struct BackRight<T> {
    pub back_boundary: BoundaryCondition<T>,
    pub right_boundary: BoundaryCondition<T>,
}

impl<T: Copy> CalculateTemperature<T> for BackRight<T> {
    open spec fn update_of(&self, info: Information<T>) -> NodeUpdate<T> {
        let c = NodeClass { x: Side::High, y: Side::Middle, z: Side::Low };
        update_spec(c, Some(self.right_boundary), None, Some(self.back_boundary), info)
    }

    fn calculate_temperature(&self, info: Information<T>) -> (r: NodeUpdate<T>) {
        let c = NodeClass { x: Side::High, y: Side::Middle, z: Side::Low };
        node_update(c, Some(self.right_boundary), None, Some(self.back_boundary), info)
    }
}

/// The corner where the right, top and back faces meet.
#[derive(Clone, Copy, Debug)]
pub struct RightTopBack<T> {
    pub right_condition: BoundaryCondition<T>,
    pub top_condition: BoundaryCondition<T>,
    pub back_condition: BoundaryCondition<T>,
}

impl<T: Copy> CalculateTemperature<T> for RightTopBack<T> {
    open spec fn update_of(&self, info: Information<T>) -> NodeUpdate<T> {
        let c = NodeClass { x: Side::High, y: Side::High, z: Side::Low };
        update_spec(
            c,
            Some(self.right_condition),
            Some(self.top_condition),
            Some(self.back_condition),
            info,
        )
    }

    fn calculate_temperature(&self, info: Information<T>) -> (r: NodeUpdate<T>) {
        let c = NodeClass { x: Side::High, y: Side::High, z: Side::Low };
        node_update(
            c,
            Some(self.right_condition),
            Some(self.top_condition),
            Some(self.back_condition),
            info,
        )
    }
}

/// The corner where the right, top and front faces meet.
#[derive(Clone, Copy, Debug)]
pub struct RightTopFront<T> {
    pub right_condition: BoundaryCondition<T>,
    pub top_condition: BoundaryCondition<T>,
    pub front_condition: BoundaryCondition<T>,
}

impl<T: Copy> CalculateTemperature<T> for RightTopFront<T> {
    open spec fn update_of(&self, info: Information<T>) -> NodeUpdate<T> {
        let c = NodeClass { x: Side::High, y: Side::High, z: Side::High };
        update_spec(
            c,
            Some(self.right_condition),
            Some(self.top_condition),
            Some(self.front_condition),
            info,
        )
    }

    fn calculate_temperature(&self, info: Information<T>) -> (r: NodeUpdate<T>) {
        let c = NodeClass { x: Side::High, y: Side::High, z: Side::High };
        node_update(
            c,
            Some(self.right_condition),
            Some(self.top_condition),
            Some(self.front_condition),
            info,
        )
    }
}

/// The corner where the right, bottom and back faces meet.
#[derive(Clone, Copy, Debug)]
pub struct RightBottomBack<T> {
    pub right_condition: BoundaryCondition<T>,
    pub bot_condition: BoundaryCondition<T>,
    pub back_condition: BoundaryCondition<T>,
}

impl<T: Copy> CalculateTemperature<T> for RightBottomBack<T> {
    open spec fn update_of(&self, info: Information<T>) -> NodeUpdate<T> {
        let c = NodeClass { x: Side::High, y: Side::Low, z: Side::Low };
        update_spec(
            c,
            Some(self.right_condition),
            Some(self.bot_condition),
            Some(self.back_condition),
            info,
        )
    }

    fn calculate_temperature(&self, info: Information<T>) -> (r: NodeUpdate<T>) {
        let c = NodeClass { x: Side::High, y: Side::Low, z: Side::Low };
        node_update(
            c,
            Some(self.right_condition),
            Some(self.bot_condition),
            Some(self.back_condition),
            info,
        )
    }
}

/// The corner where the right, bottom and front faces meet.
#[derive(Clone, Copy, Debug)]
pub struct RightBottomFront<T> {
    pub right_condition: BoundaryCondition<T>,
    pub bot_condition: BoundaryCondition<T>,
    pub front_condition: BoundaryCondition<T>,
}

impl<T: Copy> CalculateTemperature<T> for RightBottomFront<T> {
    open spec fn update_of(&self, info: Information<T>) -> NodeUpdate<T> {
        let c = NodeClass { x: Side::High, y: Side::Low, z: Side::High };
        update_spec(
            c,
            Some(self.right_condition),
            Some(self.bot_condition),
            Some(self.front_condition),
            info,
        )
    }

    fn calculate_temperature(&self, info: Information<T>) -> (r: NodeUpdate<T>) {
        let c = NodeClass { x: Side::High, y: Side::Low, z: Side::High };
        node_update(
            c,
            Some(self.right_condition),
            Some(self.bot_condition),
            Some(self.front_condition),
            info,
        )
    }
}

/// The corner where the left, top and back faces meet.
#[derive(Clone, Copy, Debug)]
pub struct LeftTopBack<T> {
    pub left_condition: BoundaryCondition<T>,
    pub top_condition: BoundaryCondition<T>,
    pub back_condition: BoundaryCondition<T>,
}

impl<T: Copy> CalculateTemperature<T> for LeftTopBack<T> {
    open spec fn update_of(&self, info: Information<T>) -> NodeUpdate<T> {
        let c = NodeClass { x: Side::Low, y: Side::High, z: Side::Low };
        update_spec(
            c,
            Some(self.left_condition),
            Some(self.top_condition),
            Some(self.back_condition),
            info,
        )
    }

    fn calculate_temperature(&self, info: Information<T>) -> (r: NodeUpdate<T>) {
        let c = NodeClass { x: Side::Low, y: Side::High, z: Side::Low };
        node_update(
            c,
            Some(self.left_condition),
            Some(self.top_condition),
            Some(self.back_condition),
            info,
        )
    }
}

/// The corner where the left, top and front faces meet.
#[derive(Clone, Copy, Debug)]
pub struct LeftTopFront<T> {
    pub left_condition: BoundaryCondition<T>,
    pub top_condition: BoundaryCondition<T>,
    pub front_condition: BoundaryCondition<T>,
}

impl<T: Copy> CalculateTemperature<T> for LeftTopFront<T> {
    open spec fn update_of(&self, info: Information<T>) -> NodeUpdate<T> {
        let c = NodeClass { x: Side::Low, y: Side::High, z: Side::High };
        update_spec(
            c,
            Some(self.left_condition),
            Some(self.top_condition),
            Some(self.front_condition),
            info,
        )
    }

    fn calculate_temperature(&self, info: Information<T>) -> (r: NodeUpdate<T>) {
        let c = NodeClass { x: Side::Low, y: Side::High, z: Side::High };
        node_update(
            c,
            Some(self.left_condition),
            Some(self.top_condition),
            Some(self.front_condition),
            info,
        )
    }
}

/// The corner where the left, bottom and back faces meet.
#[derive(Clone, Copy, Debug)]
pub struct LeftBottomBack<T> {
    pub left_condition: BoundaryCondition<T>,
    pub bot_condition: BoundaryCondition<T>,
    pub back_condition: BoundaryCondition<T>,
}

impl<T: Copy> CalculateTemperature<T> for LeftBottomBack<T> {
    open spec fn update_of(&self, info: Information<T>) -> NodeUpdate<T> {
        let c = NodeClass { x: Side::Low, y: Side::Low, z: Side::Low };
        update_spec(
            c,
            Some(self.left_condition),
            Some(self.bot_condition),
            Some(self.back_condition),
            info,
        )
    }

    fn calculate_temperature(&self, info: Information<T>) -> (r: NodeUpdate<T>) {
        let c = NodeClass { x: Side::Low, y: Side::Low, z: Side::Low };
        node_update(
            c,
            Some(self.left_condition),
            Some(self.bot_condition),
            Some(self.back_condition),
            info,
        )
    }
}

/// The corner where the left, bottom and front faces meet.
#[derive(Clone, Copy, Debug)]
pub struct LeftBottomFront<T> {
    pub left_condition: BoundaryCondition<T>,
    pub bot_condition: BoundaryCondition<T>,
    pub front_condition: BoundaryCondition<T>,
}

impl<T: Copy> CalculateTemperature<T> for LeftBottomFront<T> {
    open spec fn update_of(&self, info: Information<T>) -> NodeUpdate<T> {
        let c = NodeClass { x: Side::Low, y: Side::Low, z: Side::High };
        update_spec(
            c,
            Some(self.left_condition),
            Some(self.bot_condition),
            Some(self.front_condition),
            info,
        )
    }

    fn calculate_temperature(&self, info: Information<T>) -> (r: NodeUpdate<T>) {
        let c = NodeClass { x: Side::Low, y: Side::Low, z: Side::High };
        node_update(
            c,
            Some(self.left_condition),
            Some(self.bot_condition),
            Some(self.front_condition),
            info,
        )
    }
}

} // verus!
