use vstd::prelude::*;
use crate::fixed::{ASPECT_MAX, ORTHO_LIMIT};

verus! {

/// The parameters an orthographic projection is built from. The
/// projection matrix itself is derived outside the core; the systems
/// only read these plain values.
#[derive(Debug, Clone, Copy, PartialEq, Eq, Structural)]
pub struct OrthographicHelper {
    pub aspect_ratio: i64,
    pub fov: i64,
    pub znear: i64,
    pub zfar: i64,
}

impl OrthographicHelper {
    pub open spec fn wf(&self) -> bool {
        1 <= self.aspect_ratio <= ASPECT_MAX && -ORTHO_LIMIT <= self.fov <= ORTHO_LIMIT
            && -ORTHO_LIMIT <= self.znear <= ORTHO_LIMIT && -ORTHO_LIMIT <= self.zfar <= ORTHO_LIMIT
            && self.znear <= self.zfar
    }

    pub fn new(aspect_ratio: i64, fov: i64, znear: i64, zfar: i64) -> (r: OrthographicHelper)
        requires
            1 <= aspect_ratio <= ASPECT_MAX,
            -ORTHO_LIMIT <= fov <= ORTHO_LIMIT,
            -ORTHO_LIMIT <= znear <= ORTHO_LIMIT,
            -ORTHO_LIMIT <= zfar <= ORTHO_LIMIT,
            znear <= zfar,
        ensures
            r == (OrthographicHelper { aspect_ratio, fov, znear, zfar }),
            r.wf(),
    {
        OrthographicHelper { aspect_ratio, fov, znear, zfar }
    }

    pub fn set_aspect_ratio(&mut self, aspect_ratio: i64)
        requires
            1 <= aspect_ratio <= ASPECT_MAX,
        ensures
            *final(self) == (OrthographicHelper { aspect_ratio, ..*old(self) }),
            old(self).wf() ==> final(self).wf(),
    {
        self.aspect_ratio = aspect_ratio;
    }

    pub fn get_aspect_ratio(&self) -> (r: i64)
        ensures
            r == self.aspect_ratio,
    {
        self.aspect_ratio
    }

    pub fn get_fov(&self) -> (r: i64)
        ensures
            r == self.fov,
    {
        self.fov
    }

    pub fn get_znear(&self) -> (r: i64)
        ensures
            r == self.znear,
    {
        self.znear
    }

    pub fn get_zfar(&self) -> (r: i64)
        ensures
            r == self.zfar,
    {
        self.zfar
    }

    /// The depth of the view volume.
    pub fn get_view_depth(&self) -> (r: i64)
        requires
            self.wf(),
        ensures
            r == self.zfar - self.znear,
            0 <= r <= 2 * ORTHO_LIMIT,
    {
        self.zfar - self.znear
    }
}

} // verus!
