use vstd::prelude::*;
use crate::fixed::{POS_LIMIT, SCALE};
use crate::math::{Point2, Vec3};

verus! {

/// A world-space placement: translation, a rotation kept as Euler
/// angles, a non-uniform scale, and a cached 2D position for quick
/// spatial queries.
#[derive(Debug, Clone, Copy, PartialEq, Eq, Structural)]
pub struct Component {
    pub translation: Vec3,
    pub rotation: Vec3,
    pub scale: Vec3,
    pub pos: Point2,
}

impl Component {
    /// The cached position always equals the translation projected
    /// to 2D, and the translation stays inside the world bounds.
    pub open spec fn wf(&self) -> bool {
        self.pos.x == self.translation.x && self.pos.y == self.translation.y
            && self.translation.in_world()
    }

    pub fn new(translation: Vec3, rotation: Vec3, scale: Vec3) -> (r: Component)
        requires
            translation.in_world(),
        ensures
            r.translation == translation,
            r.rotation == rotation,
            r.scale == scale,
            r.wf(),
    {
        Component {
            translation,
            rotation,
            scale,
            pos: Point2 { x: translation.x, y: translation.y },
        }
    }

    /// The identity placement: no offset, no rotation, unit scale.
    pub fn new_identity() -> (r: Component)
        ensures
            r.translation == (Vec3 { x: 0, y: 0, z: 0 }),
            r.rotation == (Vec3 { x: 0, y: 0, z: 0 }),
            r.scale == (Vec3 { x: SCALE, y: SCALE, z: SCALE }),
            r.wf(),
    {
        Component::new(
            Vec3 { x: 0, y: 0, z: 0 },
            Vec3 { x: 0, y: 0, z: 0 },
            Vec3 { x: SCALE, y: SCALE, z: SCALE },
        )
    }

    pub fn set_position(&mut self, pos: Point2)
        requires
            old(self).wf(),
            pos.in_world(),
        ensures
            final(self).translation == (Vec3 { x: pos.x, y: pos.y, z: old(self).translation.z }),
            final(self).rotation == old(self).rotation,
            final(self).scale == old(self).scale,
            final(self).wf(),
    {
        self.translation.x = pos.x;
        self.translation.y = pos.y;
        self.pos = pos;
    }

    pub fn add_position(&mut self, pos_delta: Point2)
        requires
            old(self).wf(),
            -POS_LIMIT <= old(self).translation.x + pos_delta.x <= POS_LIMIT,
            -POS_LIMIT <= old(self).translation.y + pos_delta.y <= POS_LIMIT,
        ensures
            final(self).translation == (Vec3 {
                x: (old(self).translation.x + pos_delta.x) as i64,
                y: (old(self).translation.y + pos_delta.y) as i64,
                z: old(self).translation.z,
            }),
            final(self).rotation == old(self).rotation,
            final(self).scale == old(self).scale,
            final(self).wf(),
    {
        self.translation.x = self.translation.x + pos_delta.x;
        self.translation.y = self.translation.y + pos_delta.y;
        self.pos = Point2 { x: self.translation.x, y: self.translation.y };
    }

    pub fn get_pos(&self) -> (r: Point2)
        requires
            self.wf(),
        ensures
            r == (Point2 { x: self.translation.x, y: self.translation.y }),
    {
        self.pos
    }

    /// The offset that carries a world point into this entity's
    /// object space: the negated 2D translation.
    pub fn get_gui_offset(&self) -> (r: Point2)
        requires
            self.wf(),
        ensures
            r.x == -self.translation.x,
            r.y == -self.translation.y,
    {
        Point2 { x: -self.translation.x, y: -self.translation.y }
    }
}

} // verus!
