use vstd::prelude::*;
use vstd::arithmetic::div_mod::lemma_div_is_ordered;
use crate::dirty::{take_next, take_result, DirtyFlag};
use crate::fixed::{
    abs_int, div_trunc, lemma_div_trunc_bound, lemma_mul_bound, fx_div, ASPECT_MAX, ORTHO_LIMIT,
    SCALE, SCREEN_LIMIT,
};
use crate::math::{Point2, Vec3};
use crate::ortho_helper::OrthographicHelper;

verus! {

/// The camera's view of the unprojection of a normalized screen x
/// coordinate: `((sx * 2 - 1) * depth) * 4 / 5 + ox` carried out in
/// fixed-point steps with truncating division. The factor of 4/5 is
/// an empirical correction matching the projection setup and must be
/// kept exactly for hit-testing to line up with rendering.
pub open spec fn unproject_x(sx: int, depth: int, ox: int) -> int {
    div_trunc(div_trunc((sx * 2 - SCALE) * depth, SCALE as int) * 4, 5) + ox
}

/// The unprojection of a normalized screen y coordinate:
/// `(((1 - sy) * 2 - 1) * depth / aspect) * 4 / 5 + oy` in
/// fixed-point steps, with the same 4/5 correction.
pub open spec fn unproject_y(sy: int, depth: int, aspect: int, oy: int) -> int {
    div_trunc(div_trunc(((SCALE - sy) * 2 - SCALE) * depth, aspect) * 4, 5) + oy
}

/// View and projection state: eye, target and up vector, the
/// orthographic projection parameters, the aspect ratio, the flag
/// marking the single main camera, and the double-buffered dirty
/// mark that carries changes to the renderer.
#[derive(Debug, Clone, Copy)]
pub struct Component {
    pub eye: Vec3,
    pub target: Vec3,
    pub up: Vec3,
    pub ortho: OrthographicHelper,
    pub aspect_ratio: i64,
    pub is_main: bool,
    pub dirty: DirtyFlag,
}

impl Component {
    pub open spec fn wf(&self) -> bool {
        self.eye.in_world() && self.target.in_world() && self.ortho.wf() && 1 <= self.aspect_ratio
            <= ASPECT_MAX && self.dirty.wf()
    }

    pub fn new(
        eye: Vec3,
        target: Vec3,
        up: Vec3,
        ortho: OrthographicHelper,
        aspect_ratio: i64,
        is_main: bool,
    ) -> (r: Component)
        requires
            eye.in_world(),
            target.in_world(),
            ortho.wf(),
            1 <= aspect_ratio <= ASPECT_MAX,
        ensures
            r.eye == eye,
            r.target == target,
            r.up == up,
            r.ortho == ortho,
            r.aspect_ratio == aspect_ratio,
            r.is_main == is_main,
            r.dirty.frames == 2,
            r.wf(),
    {
        Component { eye, target, up, ortho, aspect_ratio, is_main, dirty: DirtyFlag::new_dirty() }
    }

    pub fn new_from_proj_args(
        eye: Vec3,
        target: Vec3,
        up: Vec3,
        aspect_ratio: i64,
        fov: i64,
        near: i64,
        far: i64,
        is_main: bool,
    ) -> (r: Component)
        requires
            eye.in_world(),
            target.in_world(),
            1 <= aspect_ratio <= ASPECT_MAX,
            -ORTHO_LIMIT <= fov <= ORTHO_LIMIT,
            -ORTHO_LIMIT <= near <= ORTHO_LIMIT,
            -ORTHO_LIMIT <= far <= ORTHO_LIMIT,
            near <= far,
        ensures
            r.eye == eye,
            r.target == target,
            r.up == up,
            r.ortho == (OrthographicHelper { aspect_ratio, fov, znear: near, zfar: far }),
            r.aspect_ratio == aspect_ratio,
            r.is_main == is_main,
            r.dirty.frames == 2,
            r.wf(),
    {
        Component::new(
            eye,
            target,
            up,
            OrthographicHelper::new(aspect_ratio, fov, near, far),
            aspect_ratio,
            is_main,
        )
    }

    pub fn new_from_ortho_helper(
        eye: Vec3,
        target: Vec3,
        up: Vec3,
        ortho_helper: &OrthographicHelper,
        is_main: bool,
    ) -> (r: Component)
        requires
            eye.in_world(),
            target.in_world(),
            ortho_helper.wf(),
        ensures
            r.eye == eye,
            r.target == target,
            r.up == up,
            r.ortho == *ortho_helper,
            r.aspect_ratio == ortho_helper.aspect_ratio,
            r.is_main == is_main,
            r.dirty.frames == 2,
            r.wf(),
    {
        Component::new(
            eye,
            target,
            up,
            *ortho_helper,
            ortho_helper.get_aspect_ratio(),
            is_main,
        )
    }

    /// Moves the camera so that it looks straight down at the given
    /// 2D offset, eye two units above the plane.
    pub fn set_offset(&mut self, offset: Point2)
        requires
            old(self).wf(),
            offset.in_world(),
        ensures
            final(self).eye == (Vec3 { x: offset.x, y: offset.y, z: ((2 * SCALE) as i64) }),
            final(self).target == (Vec3 { x: offset.x, y: offset.y, z: 0 }),
            final(self).up == old(self).up,
            final(self).ortho == old(self).ortho,
            final(self).aspect_ratio == old(self).aspect_ratio,
            final(self).is_main == old(self).is_main,
            final(self).dirty.frames == 2,
            final(self).wf(),
    {
        self.eye = Vec3 { x: offset.x, y: offset.y, z: 2 * SCALE };
        self.target = Vec3 { x: offset.x, y: offset.y, z: 0 };
        self.dirty.mark();
    }

    pub fn get_offset(&self) -> (r: Point2)
        ensures
            r == (Point2 { x: self.eye.x, y: self.eye.y }),
    {
        Point2 { x: self.eye.x, y: self.eye.y }
    }

    /// Takes a new projection, refreshing the aspect ratio with it.
    pub fn set_proj(&mut self, ortho_helper: &OrthographicHelper)
        requires
            old(self).wf(),
            ortho_helper.wf(),
        ensures
            final(self).ortho == *ortho_helper,
            final(self).aspect_ratio == ortho_helper.aspect_ratio,
            final(self).eye == old(self).eye,
            final(self).target == old(self).target,
            final(self).up == old(self).up,
            final(self).is_main == old(self).is_main,
            final(self).dirty.frames == 2,
            final(self).wf(),
    {
        self.ortho = *ortho_helper;
        self.aspect_ratio = ortho_helper.get_aspect_ratio();
        self.dirty.mark();
    }

    pub fn is_main(&self) -> (r: bool)
        ensures
            r == self.is_main,
    {
        self.is_main
    }

    /// Unprojects a normalized screen point into the world plane the
    /// camera looks at.
    pub fn screen_to_world_point(&self, screen_point: Point2) -> (r: Point2)
        requires
            self.wf(),
            -SCREEN_LIMIT <= screen_point.x <= SCREEN_LIMIT,
            -SCREEN_LIMIT <= screen_point.y <= SCREEN_LIMIT,
        ensures
            r.x == unproject_x(
                screen_point.x as int,
                self.ortho.zfar - self.ortho.znear,
                self.eye.x as int,
            ),
            r.y == unproject_y(
                screen_point.y as int,
                self.ortho.zfar - self.ortho.znear,
                self.aspect_ratio as int,
                self.eye.y as int,
            ),
            -0x4000_0000_0000_0000 <= r.x <= 0x4000_0000_0000_0000,
            -0x4000_0000_0000_0000 <= r.y <= 0x4000_0000_0000_0000,
    {
        let depth = self.ortho.get_view_depth();

        let vx = screen_point.x * 2 - SCALE;
        proof {
            lemma_mul_bound(vx as int, depth as int, 0x8001_0000, 0x800_0000);
        }
        let px = vx * depth;
        let qx = fx_div(px, SCALE);
        proof {
            lemma_div_trunc_bound(px as int, SCALE as int);
            lemma_div_is_ordered(abs_int(px as int), 0x4000_8000_0000_0000, SCALE as int);
        }
        let rx = fx_div(qx * 4, 5);
        proof {
            lemma_div_trunc_bound(qx as int * 4, 5);
        }
        let wx = rx + self.eye.x;

        let vy = (SCALE - screen_point.y) * 2 - SCALE;
        proof {
            lemma_mul_bound(vy as int, depth as int, 0x8003_0000, 0x800_0000);
        }
        let py = vy * depth;
        let qy = fx_div(py, self.aspect_ratio);
        proof {
            lemma_div_trunc_bound(py as int, self.aspect_ratio as int);
        }
        let ry = fx_div(qy * 4, 5);
        proof {
            lemma_div_trunc_bound(qy as int * 4, 5);
        }
        let wy = ry + self.eye.y;

        Point2 { x: wx, y: wy }
    }

    /// Polls the double-buffered dirty mark, consuming one owed
    /// report.
    pub fn take_dirty(&mut self) -> (r: bool)
        ensures
            r == take_result(old(self).dirty),
            *final(self) == (Component { dirty: take_next(old(self).dirty), ..*old(self) }),
            old(self).wf() ==> final(self).wf(),
    {
        self.dirty.take()
    }
}

} // verus!
