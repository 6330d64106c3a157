use vstd::prelude::*;

use crate::classes::{
    BackBot, BackLeft, BackRight, BackSurface, BackTop, BottomSurface, CalculateTemperature, FrontBot,
    FrontLeft, FrontRight, FrontSurface, FrontTop, InternalConduction, LeftBot, LeftBottomBack,
    LeftBottomFront, LeftSurface, LeftTop, LeftTopBack, LeftTopFront, RightBot, RightBottomBack,
    RightBottomFront, RightSurface, RightTop, RightTopBack, RightTopFront, TopSurface,
};
use crate::conditions::{BoundaryCondition, SetupConditions};
use crate::formula::{update_spec, Information, NodeUpdate};
use crate::grid::{NodeClass, Side};

verus! {

/// The update rules of the six faces.
#[derive(Clone, Copy, Debug)]
pub struct WallConditions<T> {
    pub right: RightSurface<T>,
    pub left: LeftSurface<T>,
    pub top: TopSurface<T>,
    pub bot: BottomSurface<T>,
    pub front: FrontSurface<T>,
    pub back: BackSurface<T>,
}

/// The update rules of the twelve edges.
#[derive(Clone, Copy, Debug)]
pub struct EdgeConditions<T> {
    pub right_top: RightTop<T>,
    pub left_top: LeftTop<T>,
    pub left_bot: LeftBot<T>,
    pub right_bot: RightBot<T>,
    pub front_top: FrontTop<T>,
    pub back_top: BackTop<T>,
    pub back_bot: BackBot<T>,
    pub front_bot: FrontBot<T>,
    pub front_right: FrontRight<T>,
    pub front_left: FrontLeft<T>,
    pub back_left: BackLeft<T>,
    pub back_right: BackRight<T>,
}

/// The update rules of the eight corners.
#[derive(Clone, Copy, Debug)]
pub struct CornerConditions<T> {
    pub right_top_back: RightTopBack<T>,
    pub right_top_front: RightTopFront<T>,
    pub right_bot_back: RightBottomBack<T>,
    pub right_bot_front: RightBottomFront<T>,
    pub left_top_back: LeftTopBack<T>,
    pub left_top_front: LeftTopFront<T>,
    pub left_bot_back: LeftBottomBack<T>,
    pub left_bot_front: LeftBottomFront<T>,
}

/// The update rules of all 27 classes of nodes, built from one boundary
/// condition per face.
#[derive(Clone, Copy, Debug)]
pub struct BoundaryConditions<T> {
    pub walls: WallConditions<T>,
    pub edges: EdgeConditions<T>,
    pub corners: CornerConditions<T>,
    pub internal: InternalConduction,
}

impl<T: Copy> BoundaryConditions<T> {
    /// The six face conditions, as the face rules hold them.
    pub open spec fn setup(self) -> SetupConditions<T> {
        SetupConditions {
            right_boundary: self.walls.right.right_boundary,
            left_boundary: self.walls.left.left_boundary,
            top_boundary: self.walls.top.top_boundary,
            bot_boundary: self.walls.bot.bot_boundary,
            front_boundary: self.walls.front.front_boundary,
            back_boundary: self.walls.back.back_boundary,
        }
    }

    /// Every edge and corner rule holds the conditions of the faces it lies on.
    pub open spec fn wf(self) -> bool {
        let s = self.setup();
        &&& self.edges.right_top.right_boundary == s.right_boundary
        &&& self.edges.right_top.top_boundary == s.top_boundary
        &&& self.edges.left_top.left_boundary == s.left_boundary
        &&& self.edges.left_top.top_boundary == s.top_boundary
        &&& self.edges.left_bot.left_boundary == s.left_boundary
        &&& self.edges.left_bot.bot_boundary == s.bot_boundary
        &&& self.edges.right_bot.right_boundary == s.right_boundary
        &&& self.edges.right_bot.bot_boundary == s.bot_boundary
        &&& self.edges.front_top.front_boundary == s.front_boundary
        &&& self.edges.front_top.top_boundary == s.top_boundary
        &&& self.edges.back_top.back_boundary == s.back_boundary
        &&& self.edges.back_top.top_boundary == s.top_boundary
        &&& self.edges.back_bot.back_boundary == s.back_boundary
        &&& self.edges.back_bot.bot_boundary == s.bot_boundary
        &&& self.edges.front_bot.front_boundary == s.front_boundary
        &&& self.edges.front_bot.bot_boundary == s.bot_boundary
        &&& self.edges.front_right.front_boundary == s.front_boundary
        &&& self.edges.front_right.right_boundary == s.right_boundary
        &&& self.edges.front_left.front_boundary == s.front_boundary
        &&& self.edges.front_left.left_boundary == s.left_boundary
        &&& self.edges.back_left.back_boundary == s.back_boundary
        &&& self.edges.back_left.left_boundary == s.left_boundary
        &&& self.edges.back_right.back_boundary == s.back_boundary
        &&& self.edges.back_right.right_boundary == s.right_boundary
        &&& self.corners.right_top_back.right_condition == s.right_boundary
        &&& self.corners.right_top_back.top_condition == s.top_boundary
        &&& self.corners.right_top_back.back_condition == s.back_boundary
        &&& self.corners.right_top_front.right_condition == s.right_boundary
        &&& self.corners.right_top_front.top_condition == s.top_boundary
        &&& self.corners.right_top_front.front_condition == s.front_boundary
        &&& self.corners.right_bot_back.right_condition == s.right_boundary
        &&& self.corners.right_bot_back.bot_condition == s.bot_boundary
        &&& self.corners.right_bot_back.back_condition == s.back_boundary
        &&& self.corners.right_bot_front.right_condition == s.right_boundary
        &&& self.corners.right_bot_front.bot_condition == s.bot_boundary
        &&& self.corners.right_bot_front.front_condition == s.front_boundary
        &&& self.corners.left_top_back.left_condition == s.left_boundary
        &&& self.corners.left_top_back.top_condition == s.top_boundary
        &&& self.corners.left_top_back.back_condition == s.back_boundary
        &&& self.corners.left_top_front.left_condition == s.left_boundary
        &&& self.corners.left_top_front.top_condition == s.top_boundary
        &&& self.corners.left_top_front.front_condition == s.front_boundary
        &&& self.corners.left_bot_back.left_condition == s.left_boundary
        &&& self.corners.left_bot_back.bot_condition == s.bot_boundary
        &&& self.corners.left_bot_back.back_condition == s.back_boundary
        &&& self.corners.left_bot_front.left_condition == s.left_boundary
        &&& self.corners.left_bot_front.bot_condition == s.bot_boundary
        &&& self.corners.left_bot_front.front_condition == s.front_boundary
    }

    /// The update of a node of class `c`, by the rule of that class.
    pub fn calculate(&self, c: NodeClass, info: Information<T>) -> (r: NodeUpdate<T>)
        requires
            self.wf(),
        ensures
            r == update_spec(
                c,
                self.setup().x_condition(c.x),
                self.setup().y_condition(c.y),
                self.setup().z_condition(c.z),
                info,
            ),
    {
        match (c.x, c.y, c.z) {
            (Side::High, Side::High, Side::Low) => {
                self.corners.right_top_back.calculate_temperature(info)
            },
            (Side::High, Side::High, Side::High) => {
                self.corners.right_top_front.calculate_temperature(info)
            },
            (Side::High, Side::Low, Side::Low) => {
                self.corners.right_bot_back.calculate_temperature(info)
            },
            (Side::High, Side::Low, Side::High) => {
                self.corners.right_bot_front.calculate_temperature(info)
            },
            (Side::Low, Side::High, Side::Low) => {
                self.corners.left_top_back.calculate_temperature(info)
            },
            (Side::Low, Side::High, Side::High) => {
                self.corners.left_top_front.calculate_temperature(info)
            },
            (Side::Low, Side::Low, Side::Low) => {
                self.corners.left_bot_back.calculate_temperature(info)
            },
            (Side::Low, Side::Low, Side::High) => {
                self.corners.left_bot_front.calculate_temperature(info)
            },
            (Side::High, Side::High, Side::Middle) => {
                self.edges.right_top.calculate_temperature(info)
            },
            (Side::Low, Side::High, Side::Middle) => {
                self.edges.left_top.calculate_temperature(info)
            },
            (Side::Low, Side::Low, Side::Middle) => self.edges.left_bot.calculate_temperature(info),
            (Side::High, Side::Low, Side::Middle) => {
                self.edges.right_bot.calculate_temperature(info)
            },
            (Side::Middle, Side::High, Side::High) => {
                self.edges.front_top.calculate_temperature(info)
            },
            (Side::Middle, Side::High, Side::Low) => {
                self.edges.back_top.calculate_temperature(info)
            },
            (Side::Middle, Side::Low, Side::Low) => self.edges.back_bot.calculate_temperature(info),
            (Side::Middle, Side::Low, Side::High) => {
                self.edges.front_bot.calculate_temperature(info)
            },
            (Side::High, Side::Middle, Side::High) => {
                self.edges.front_right.calculate_temperature(info)
            },
            (Side::Low, Side::Middle, Side::High) => {
                self.edges.front_left.calculate_temperature(info)
            },
            (Side::Low, Side::Middle, Side::Low) => {
                self.edges.back_left.calculate_temperature(info)
            },
            (Side::High, Side::Middle, Side::Low) => {
                self.edges.back_right.calculate_temperature(info)
            },
            (Side::High, Side::Middle, Side::Middle) => {
                self.walls.right.calculate_temperature(info)
            },
            (Side::Low, Side::Middle, Side::Middle) => self.walls.left.calculate_temperature(info),
            (Side::Middle, Side::High, Side::Middle) => self.walls.top.calculate_temperature(info),
            (Side::Middle, Side::Low, Side::Middle) => self.walls.bot.calculate_temperature(info),
            (Side::Middle, Side::Middle, Side::High) => {
                self.walls.front.calculate_temperature(info)
            },
            (Side::Middle, Side::Middle, Side::Low) => self.walls.back.calculate_temperature(info),
            (Side::Middle, Side::Middle, Side::Middle) => self.internal.calculate_temperature(info),
        }
    }
}

impl<T: Copy> SetupConditions<T> {
    /// Builds the rule of every class of nodes from the six face conditions.
    pub fn make_boundaries(self) -> (r: BoundaryConditions<T>)
        ensures
            r.wf(),
            r.setup() == self,
    {
        let right_boundary = self.right_boundary;
        let left_boundary = self.left_boundary;
        let top_boundary = self.top_boundary;
        let bot_boundary = self.bot_boundary;
        let front_boundary = self.front_boundary;
        let back_boundary = self.back_boundary;

        let walls = WallConditions {
            right: RightSurface { right_boundary },
            left: LeftSurface { left_boundary },
            top: TopSurface { top_boundary },
            bot: BottomSurface { bot_boundary },
            front: FrontSurface { front_boundary },
            back: BackSurface { back_boundary },
        };

        let edges = EdgeConditions {
            right_top: RightTop { right_boundary, top_boundary },
            left_top: LeftTop { left_boundary, top_boundary },
            left_bot: LeftBot { left_boundary, bot_boundary },
            right_bot: RightBot { right_boundary, bot_boundary },
            front_top: FrontTop { front_boundary, top_boundary },
            back_top: BackTop { back_boundary, top_boundary },
            back_bot: BackBot { back_boundary, bot_boundary },
            front_bot: FrontBot { front_boundary, bot_boundary },
            front_right: FrontRight { front_boundary, right_boundary },
            front_left: FrontLeft { front_boundary, left_boundary },
            back_left: BackLeft { back_boundary, left_boundary },
            back_right: BackRight { back_boundary, right_boundary },
        };

        let corners = make_corners(
            right_boundary,
            left_boundary,
            top_boundary,
            bot_boundary,
            front_boundary,
            back_boundary,
        );

        BoundaryConditions { walls, edges, corners, internal: InternalConduction }
    }
}

/// Builds the rules of the eight corners from the six face conditions.
fn make_corners<T: Copy>(
    right_condition: BoundaryCondition<T>,
    left_condition: BoundaryCondition<T>,
    top_condition: BoundaryCondition<T>,
    bot_condition: BoundaryCondition<T>,
    front_condition: BoundaryCondition<T>,
    back_condition: BoundaryCondition<T>,
) -> (r: CornerConditions<T>)
    ensures
        r.right_top_back.right_condition == right_condition,
        r.right_top_back.top_condition == top_condition,
        r.right_top_back.back_condition == back_condition,
        r.right_top_front.right_condition == right_condition,
        r.right_top_front.top_condition == top_condition,
        r.right_top_front.front_condition == front_condition,
        r.right_bot_back.right_condition == right_condition,
        r.right_bot_back.bot_condition == bot_condition,
        r.right_bot_back.back_condition == back_condition,
        r.right_bot_front.right_condition == right_condition,
        r.right_bot_front.bot_condition == bot_condition,
        r.right_bot_front.front_condition == front_condition,
        r.left_top_back.left_condition == left_condition,
        r.left_top_back.top_condition == top_condition,
        r.left_top_back.back_condition == back_condition,
        r.left_top_front.left_condition == left_condition,
        r.left_top_front.top_condition == top_condition,
        r.left_top_front.front_condition == front_condition,
        r.left_bot_back.left_condition == left_condition,
        r.left_bot_back.bot_condition == bot_condition,
        r.left_bot_back.back_condition == back_condition,
        r.left_bot_front.left_condition == left_condition,
        r.left_bot_front.bot_condition == bot_condition,
        r.left_bot_front.front_condition == front_condition,
{
    CornerConditions {
        right_top_back: RightTopBack { right_condition, top_condition, back_condition },
        right_top_front: RightTopFront { right_condition, top_condition, front_condition },
        right_bot_back: RightBottomBack { right_condition, bot_condition, back_condition },
        right_bot_front: RightBottomFront { right_condition, bot_condition, front_condition },
        left_top_back: LeftTopBack { left_condition, top_condition, back_condition },
        left_top_front: LeftTopFront { left_condition, top_condition, front_condition },
        left_bot_back: LeftBottomBack { left_condition, bot_condition, back_condition },
        left_bot_front: LeftBottomFront { left_condition, bot_condition, front_condition },
    }
}

} // verus!
