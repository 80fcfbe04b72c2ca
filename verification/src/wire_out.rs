use vstd::prelude::*;
use crate::link::Link;
use crate::math::Point3I;

verus! {

/// A circuit node that takes a signal off the grid: one link to the
/// neighbor it is fed by and one to its own cell in the spatial map,
/// plus the propagated value and a dirty mark.
#[derive(Debug, Clone, Copy, PartialEq, Eq, Structural)]
pub struct Component {
    pub input: Link,
    pub me: Link,
    pub value: u8,
    pub dirty: bool,
}

impl Component {
    /// The propagated value is a single binary signal.
    pub open spec fn wf(&self) -> bool {
        self.value <= 1
    }

    pub fn new(input: Link, me: Link) -> (r: Component)
        ensures
            r.input == input,
            r.me == me,
            r.value == 0,
            r.dirty,
            r.wf(),
    {
        Component { input, me, value: 0, dirty: true }
    }

    pub fn new_from_points(input: Point3I, me: Point3I) -> (r: Component)
        ensures
            r.input == (Link { slow: input, fast: None }),
            r.me == (Link { slow: me, fast: None }),
            r.value == 0,
            r.dirty,
            r.wf(),
    {
        Component::new(Link::new(input), Link::new(me))
    }

    pub fn get_input(&self) -> (r: &Link)
        ensures
            *r == self.input,
    {
        &self.input
    }

    pub fn get_me(&self) -> (r: &Link)
        ensures
            *r == self.me,
    {
        &self.me
    }

    pub fn get_value(&self) -> (r: u8)
        ensures
            r == self.value,
    {
        self.value
    }

    pub fn get_dirty(&self) -> (r: bool)
        ensures
            r == self.dirty,
    {
        self.dirty
    }

    pub fn set_value(&mut self, value: u8)
        requires
            value <= 1,
        ensures
            *final(self) == (Component { value, ..*old(self) }),
            final(self).wf(),
    {
        self.value = value;
    }

    pub fn set_dirty(&mut self, dirty: bool)
        ensures
            *final(self) == (Component { dirty, ..*old(self) }),
    {
        self.dirty = dirty;
    }
}

} // verus!
