use vstd::prelude::*;
use crate::math::Rect;

verus! {

/// A clickable region: a hitbox in object space and the latch set by
/// hit-testing the most recent click against it.
#[derive(Debug, Clone, Copy, PartialEq, Eq, Structural)]
pub struct Component {
    pub clicked: bool,
    pub hitbox: Rect,
}

impl Component {
    pub open spec fn wf(&self) -> bool {
        self.hitbox.wf()
    }

    pub fn new(hitbox: Rect) -> (r: Component)
        requires
            hitbox.wf(),
        ensures
            r.hitbox == hitbox,
            !r.clicked,
            r.wf(),
    {
        Component { clicked: false, hitbox }
    }

    pub fn get_clicked(&self) -> (r: bool)
        ensures
            r == self.clicked,
    {
        self.clicked
    }

    pub fn get_hitbox(&self) -> (r: &Rect)
        ensures
            *r == self.hitbox,
    {
        &self.hitbox
    }

    pub fn set_clicked(&mut self, clicked: bool)
        ensures
            *final(self) == (Component { clicked, ..*old(self) }),
    {
        self.clicked = clicked;
    }
}

} // verus!
