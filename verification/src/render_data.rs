use vstd::prelude::*;
use crate::dirty::{take_next, take_result, DirtyFlag};

verus! {

/// Visual attributes of a drawable entity: tint color, draw layer
/// (the sole sort key for draw order, lower layers first), the
/// sub-rectangle into a shared texture atlas, the atlas's total
/// size, and mirror flags. Colors and rectangle coordinates are in
/// fixed-point steps. Mutations are tracked with the double-buffered
/// dirty mark.
#[derive(Debug, Clone, Copy)]
pub struct Component {
    pub tint: [i64; 4],
    pub layer: u8,
    pub spritesheet_rect: [i64; 4],
    pub spritesheet_size: [i64; 2],
    pub mirror_x: bool,
    pub mirror_y: bool,
    pub dirty: DirtyFlag,
}

impl Component {
    pub open spec fn wf(&self) -> bool {
        self.dirty.wf()
    }

    pub fn new(layer: u8, tint: [i64; 4], spritesheet_rect: [i64; 4], spritesheet_size: [i64; 2])
        -> (r: Component)
        ensures
            r.layer == layer,
            r.tint@ == tint@,
            r.spritesheet_rect@ == spritesheet_rect@,
            r.spritesheet_size@ == spritesheet_size@,
            !r.mirror_x,
            !r.mirror_y,
            r.dirty.frames == 2,
            r.wf(),
    {
        Component {
            tint,
            layer,
            spritesheet_rect,
            spritesheet_size,
            mirror_x: false,
            mirror_y: false,
            dirty: DirtyFlag::new_dirty(),
        }
    }

    pub fn set_layer(&mut self, layer: u8)
        ensures
            *final(self) == (Component { layer, dirty: DirtyFlag { frames: 2 }, ..*old(self) }),
            final(self).wf(),
    {
        self.layer = layer;
        self.dirty.mark();
    }

    pub fn set_mirror_x(&mut self, mirror: bool)
        ensures
            *final(self) == (Component {
                mirror_x: mirror,
                dirty: DirtyFlag { frames: 2 },
                ..*old(self)
            }),
            final(self).wf(),
    {
        self.mirror_x = mirror;
        self.dirty.mark();
    }

    pub fn set_mirror_y(&mut self, mirror: bool)
        ensures
            *final(self) == (Component {
                mirror_y: mirror,
                dirty: DirtyFlag { frames: 2 },
                ..*old(self)
            }),
            final(self).wf(),
    {
        self.mirror_y = mirror;
        self.dirty.mark();
    }

    pub fn set_spritesheet_rect(&mut self, spritesheet_rect: [i64; 4])
        ensures
            *final(self) == (Component {
                spritesheet_rect,
                dirty: DirtyFlag { frames: 2 },
                ..*old(self)
            }),
            final(self).wf(),
    {
        self.spritesheet_rect = spritesheet_rect;
        self.dirty.mark();
    }

    pub fn set_tint(&mut self, tint: [i64; 4])
        ensures
            *final(self) == (Component { tint, dirty: DirtyFlag { frames: 2 }, ..*old(self) }),
            final(self).wf(),
    {
        self.tint = tint;
        self.dirty.mark();
    }

    pub fn get_layer(&self) -> (r: u8)
        ensures
            r == self.layer,
    {
        self.layer
    }

    pub fn get_mirror_x(&self) -> (r: bool)
        ensures
            r == self.mirror_x,
    {
        self.mirror_x
    }

    pub fn get_mirror_y(&self) -> (r: bool)
        ensures
            r == self.mirror_y,
    {
        self.mirror_y
    }

    pub fn get_mirror(&self) -> (r: (bool, bool))
        ensures
            r == (self.mirror_x, self.mirror_y),
    {
        (self.mirror_x, self.mirror_y)
    }

    pub fn get_tint(&self) -> (r: [i64; 4])
        ensures
            r@ == self.tint@,
    {
        self.tint
    }

    pub fn get_spritesheet_rect(&self) -> (r: [i64; 4])
        ensures
            r@ == self.spritesheet_rect@,
    {
        self.spritesheet_rect
    }

    pub fn get_spritesheet_size(&self) -> (r: [i64; 2])
        ensures
            r@ == self.spritesheet_size@,
    {
        self.spritesheet_size
    }

    /// Polls the double-buffered dirty mark, consuming one owed
    /// report.
    pub fn take_dirty(&mut self) -> (r: bool)
        ensures
            r == take_result(old(self).dirty),
            *final(self) == (Component { dirty: take_next(old(self).dirty), ..*old(self) }),
            old(self).wf() ==> final(self).wf(),
    {
        self.dirty.take()
    }
}

} // verus!
