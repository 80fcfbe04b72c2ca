use vstd::prelude::*;
use std::sync::mpsc::{Receiver, Sender};
use crate::channel::{send_value, try_recv_value, Polled, DRAIN_LIMIT};
use crate::fixed::{
    clamp_int, div_trunc, fx_div, lemma_div_trunc_bound, ASPECT_MAX, DELTA_MAX, POS_LIMIT, SCALE,
    SCREEN_LIMIT, SPEED_MAX,
};
use crate::camera::{unproject_x, unproject_y};
use crate::dirty::DirtyFlag;
use crate::math::{Point2, Vec3};
use crate::ortho_helper::OrthographicHelper;
use crate::world::{is_first_main_camera, World};

verus! {

/// The mouse button a click event names.
#[derive(Debug, Clone, Copy, PartialEq, Eq, Structural)]
pub enum MouseButton {
    Left,
    Right,
    Middle,
    Other,
}

/// Discrete input events delivered to the control system: latched
/// key presses and releases for the four movement directions, mouse
/// movement in pixels, mouse button changes, window resizes, and the
/// exit request.
#[derive(Debug, Clone, Copy, PartialEq, Eq, Structural)]
pub enum RecvEvent {
    Right(bool),
    Left(bool),
    Up(bool),
    Down(bool),
    Resize(u32, u32),
    MouseMoved(u32, u32),
    MouseInput(bool, MouseButton),
    Exit,
}

/// What the control system reports back to the window loop.
#[derive(Debug, Clone, Copy, PartialEq, Eq, Structural)]
pub enum SendEvent {
    Resize,
    Exited,
}

/// The control system's end of its channel pair.
pub type Channel = (Sender<SendEvent>, Receiver<RecvEvent>);

/// The held movement direction on one axis.
#[derive(Debug, Clone, Copy, PartialEq, Eq, Structural)]
pub enum Sign {
    Pos,
    Zero,
    Neg,
}

pub open spec fn sign_value(s: Sign) -> int {
    match s {
        Sign::Pos => 1,
        Sign::Zero => 0,
        Sign::Neg => -1,
    }
}

/// One latched key transition on one movement axis: a press takes
/// that key's direction; a release clears the axis only if that
/// key's direction is the one currently active.
pub open spec fn axis_step(s: Sign, positive_key: bool, pressed: bool) -> Sign {
    if pressed {
        if positive_key {
            Sign::Pos
        } else {
            Sign::Neg
        }
    } else {
        if positive_key {
            if s is Pos {
                Sign::Zero
            } else {
                s
            }
        } else {
            if s is Neg {
                Sign::Zero
            } else {
                s
            }
        }
    }
}

/// The axis state after a whole sequence of key events, each a pair
/// of (is it the positive key, was it pressed).
pub open spec fn axis_after(s0: Sign, events: Seq<(bool, bool)>) -> Sign
    decreases events.len(),
{
    if events.len() == 0 {
        s0
    } else {
        axis_step(axis_after(s0, events.drop_last()), events.last().0, events.last().1)
    }
}

/// The most recent press wins the axis, whatever came before it.
pub proof fn lemma_last_press_wins(s0: Sign, events: Seq<(bool, bool)>, positive_key: bool)
    ensures
        axis_after(s0, events.push((positive_key, true))) == if positive_key {
            Sign::Pos
        } else {
            Sign::Neg
        },
{
    assert(events.push((positive_key, true)).drop_last() =~= events);
}

/// Releasing a key whose direction is not the active one leaves the
/// axis exactly as it was.
pub proof fn lemma_release_of_inactive_key_keeps_axis(
    s0: Sign,
    events: Seq<(bool, bool)>,
    positive_key: bool,
)
    requires
        axis_after(s0, events) != (if positive_key {
            Sign::Pos
        } else {
            Sign::Neg
        }),
    ensures
        axis_after(s0, events.push((positive_key, false))) == axis_after(s0, events),
{
    assert(events.push((positive_key, false)).drop_last() =~= events);
}

/// Releasing the key whose press set the current direction zeroes
/// the axis.
pub proof fn lemma_release_of_active_key_clears_axis(
    s0: Sign,
    events: Seq<(bool, bool)>,
    positive_key: bool,
)
    requires
        axis_after(s0, events) == (if positive_key {
            Sign::Pos
        } else {
            Sign::Neg
        }),
    ensures
        axis_after(s0, events.push((positive_key, false))) == Sign::Zero,
{
    assert(events.push((positive_key, false)).drop_last() =~= events);
}

/// A pixel coordinate normalized to a fixed-point fraction of the
/// viewport, clamped into the supported screen range.
pub open spec fn normalize_px(px: u32, res: int) -> int
    recommends
        res >= 1,
{
    clamp_int(div_trunc(px as int * SCALE, res), 0, SCREEN_LIMIT as int)
}

/// A resize dimension as stored for normalization: at least one
/// pixel.
pub open spec fn res_dim(d: u32) -> int {
    if d == 0 {
        1
    } else {
        d as int
    }
}

/// The aspect ratio a resize produces, dimensions clamped to the
/// supported window range.
pub open spec fn aspect_of(w: u32, h: u32) -> int {
    div_trunc(clamp_int(w as int, 1, 65535) * SCALE, clamp_int(h as int, 1, 65535))
}

/// The main camera after the held movement of one tick: each axis
/// contributes its sign times the elapsed time scaled by the speed
/// multiplier, and the camera re-aims at the new offset, clamped to
/// the world bounds; with both axes at rest the camera is untouched.
pub open spec fn camera_after_move(
    c: crate::Camera,
    h: Sign,
    v: Sign,
    mult: Point2,
    delta: int,
) -> crate::Camera {
    if h is Zero && v is Zero {
        c
    } else {
        let ox = clamp_int(
            sign_value(h) * div_trunc(delta * mult.x, SCALE as int) + c.eye.x,
            -POS_LIMIT as int,
            POS_LIMIT as int,
        );
        let oy = clamp_int(
            sign_value(v) * div_trunc(delta * mult.y, SCALE as int) + c.eye.y,
            -POS_LIMIT as int,
            POS_LIMIT as int,
        );
        crate::Camera {
            eye: Vec3 { x: ox as i64, y: oy as i64, z: (2 * SCALE) as i64 },
            target: Vec3 { x: ox as i64, y: oy as i64, z: 0 },
            dirty: DirtyFlag { frames: 2 },
            ..c
        }
    }
}

/// The main camera after the queued resizes of one tick: only the
/// last queued resize matters, and it rebuilds the projection from
/// the control system's parameters at the new aspect ratio.
pub open spec fn camera_after_resize(
    c: crate::Camera,
    base: OrthographicHelper,
    resize: Seq<(u32, u32)>,
) -> crate::Camera {
    if resize.len() == 0 {
        c
    } else {
        let a = aspect_of(resize.last().0, resize.last().1);
        crate::Camera {
            ortho: OrthographicHelper { aspect_ratio: a as i64, ..base },
            aspect_ratio: a as i64,
            dirty: DirtyFlag { frames: 2 },
            ..c
        }
    }
}

/// The control system's own projection parameters after the queued
/// resizes.
pub open spec fn ortho_after_resize(
    base: OrthographicHelper,
    resize: Seq<(u32, u32)>,
) -> OrthographicHelper {
    if resize.len() == 0 {
        base
    } else {
        OrthographicHelper {
            aspect_ratio: aspect_of(resize.last().0, resize.last().1) as i64,
            ..base
        }
    }
}

/// The stored screen resolution after the queued resizes.
pub open spec fn resolution_after_resize(res: Point2, resize: Seq<(u32, u32)>) -> Point2 {
    if resize.len() == 0 {
        res
    } else {
        Point2 { x: res_dim(resize.last().0) as i64, y: res_dim(resize.last().1) as i64 }
    }
}

/// A world point carried into an entity's object space: the click
/// point offset by the entity's gui offset.
pub open spec fn click_point(base: Point2, t: crate::Transform) -> Point2 {
    Point2 { x: (base.x - t.translation.x) as i64, y: (base.y - t.translation.y) as i64 }
}

/// What one click pass leaves a clickable as: its latch records
/// exactly whether the click fell inside its hitbox.
pub open spec fn click_step(c: crate::Clickable, t: crate::Transform, base: Point2)
    -> crate::Clickable {
    crate::Clickable { clicked: c.hitbox.contains(click_point(base, t)), ..c }
}

/// Whether this tick processes a click: the most recent queued mouse
/// button event, and only it, counts, and only a left press.
pub open spec fn click_pass(s: System) -> bool {
    s.mouse_button@.len() > 0 && s.mouse_button@.last() == (true, MouseButton::Left)
}

/// Where the camera unprojects the stored mouse location to.
pub open spec fn unprojected_mouse(c: crate::Camera, mouse: Point2) -> Point2 {
    Point2 {
        x: unproject_x(mouse.x as int, c.ortho.zfar - c.ortho.znear, c.eye.x as int) as i64,
        y: unproject_y(
            mouse.y as int,
            c.ortho.zfar - c.ortho.znear,
            c.aspect_ratio as int,
            c.eye.y as int,
        ) as i64,
    }
}

/// The control system: translates the drained input events into
/// camera movement, projection updates and click hit-testing. The
/// movement state is one latched sign per axis; pending clicks and
/// resizes queue up until the next tick applies them.
pub struct System {
    pub channel: Channel,
    pub move_h: Sign,
    pub move_v: Sign,
    pub move_speed_mult: Point2,
    pub resize: Vec<(u32, u32)>,
    pub mouse_location: Point2,
    pub mouse_button: Vec<(bool, MouseButton)>,
    pub screen_resolution: Point2,
    pub ortho_helper: OrthographicHelper,
    pub exited: bool,
}

impl System {
    pub open spec fn wf(&self) -> bool {
        &&& -SPEED_MAX <= self.move_speed_mult.x <= SPEED_MAX
        &&& -SPEED_MAX <= self.move_speed_mult.y <= SPEED_MAX
        &&& 0 <= self.mouse_location.x <= SCREEN_LIMIT
        &&& 0 <= self.mouse_location.y <= SCREEN_LIMIT
        &&& 1 <= self.screen_resolution.x <= 0x1_0000_0000
        &&& 1 <= self.screen_resolution.y <= 0x1_0000_0000
        &&& self.ortho_helper.wf()
    }

    pub fn new(
        channel: Channel,
        move_speed_mult: Point2,
        mouse_location: Point2,
        screen_resolution: Point2,
        ortho_helper: OrthographicHelper,
    ) -> (r: System)
        requires
            -SPEED_MAX <= move_speed_mult.x <= SPEED_MAX,
            -SPEED_MAX <= move_speed_mult.y <= SPEED_MAX,
            0 <= mouse_location.x <= SCREEN_LIMIT,
            0 <= mouse_location.y <= SCREEN_LIMIT,
            1 <= screen_resolution.x <= 0x1_0000_0000,
            1 <= screen_resolution.y <= 0x1_0000_0000,
            ortho_helper.wf(),
        ensures
            r.channel == channel,
            r.move_h is Zero,
            r.move_v is Zero,
            r.move_speed_mult == move_speed_mult,
            r.resize@.len() == 0,
            r.mouse_location == mouse_location,
            r.mouse_button@.len() == 0,
            r.screen_resolution == screen_resolution,
            r.ortho_helper == ortho_helper,
            !r.exited,
            r.wf(),
    {
        System {
            channel,
            move_h: Sign::Zero,
            move_v: Sign::Zero,
            move_speed_mult,
            resize: Vec::new(),
            mouse_location,
            mouse_button: Vec::new(),
            screen_resolution,
            ortho_helper,
            exited: false,
        }
    }

    /// Folds one input event into the control state; resize and exit
    /// events are also reported back over the channel at once.
    pub fn apply_event(&mut self, event: RecvEvent)
        requires
            old(self).wf(),
        ensures
            final(self).wf(),
            final(self).move_speed_mult == old(self).move_speed_mult,
            final(self).screen_resolution == old(self).screen_resolution,
            final(self).ortho_helper == old(self).ortho_helper,
            final(self).move_h == (match event {
                RecvEvent::Right(p) => axis_step(old(self).move_h, true, p),
                RecvEvent::Left(p) => axis_step(old(self).move_h, false, p),
                _ => old(self).move_h,
            }),
            final(self).move_v == (match event {
                RecvEvent::Up(p) => axis_step(old(self).move_v, true, p),
                RecvEvent::Down(p) => axis_step(old(self).move_v, false, p),
                _ => old(self).move_v,
            }),
            final(self).mouse_location == (match event {
                RecvEvent::MouseMoved(x, y) => Point2 {
                    x: normalize_px(x, old(self).screen_resolution.x as int) as i64,
                    y: normalize_px(y, old(self).screen_resolution.y as int) as i64,
                },
                _ => old(self).mouse_location,
            }),
            final(self).mouse_button@ == (match event {
                RecvEvent::MouseInput(p, b) => old(self).mouse_button@.push((p, b)),
                _ => old(self).mouse_button@,
            }),
            final(self).resize@ == (match event {
                RecvEvent::Resize(w, h) => old(self).resize@.push((w, h)),
                _ => old(self).resize@,
            }),
            final(self).exited == (match event {
                RecvEvent::Exit => true,
                _ => old(self).exited,
            }),
    {
        match event {
            RecvEvent::MouseMoved(x, y) => {
                let nx = Self::normalize_px_exec(x, self.screen_resolution.x);
                let ny = Self::normalize_px_exec(y, self.screen_resolution.y);
                self.mouse_location = Point2 { x: nx, y: ny };
            },
            RecvEvent::MouseInput(pressed, mouse_button) => {
                self.mouse_button.push((pressed, mouse_button));
            },
            RecvEvent::Right(pressed) => {
                if pressed {
                    self.move_h = Sign::Pos;
                } else {
                    if matches!(self.move_h, Sign::Pos) {
                        self.move_h = Sign::Zero;
                    }
                }
            },
            RecvEvent::Left(pressed) => {
                if pressed {
                    self.move_h = Sign::Neg;
                } else {
                    if matches!(self.move_h, Sign::Neg) {
                        self.move_h = Sign::Zero;
                    }
                }
            },
            RecvEvent::Up(pressed) => {
                if pressed {
                    self.move_v = Sign::Pos;
                } else {
                    if matches!(self.move_v, Sign::Pos) {
                        self.move_v = Sign::Zero;
                    }
                }
            },
            RecvEvent::Down(pressed) => {
                if pressed {
                    self.move_v = Sign::Neg;
                } else {
                    if matches!(self.move_v, Sign::Neg) {
                        self.move_v = Sign::Zero;
                    }
                }
            },
            RecvEvent::Resize(width, height) => {
                send_value(&self.channel.0, SendEvent::Resize);
                self.resize.push((width, height));
            },
            RecvEvent::Exit => {
                send_value(&self.channel.0, SendEvent::Exited);
                self.exited = true;
            },
        }
    }

    /// Normalizes one pixel coordinate against one resolution
    /// dimension.
    fn normalize_px_exec(px: u32, res: i64) -> (r: i64)
        requires
            1 <= res <= 0x1_0000_0000,
        ensures
            r == normalize_px(px, res as int),
            0 <= r <= SCREEN_LIMIT,
    {
        let scaled = (px as i64) * SCALE;
        let q = fx_div(scaled, res);
        proof {
            lemma_div_trunc_bound(scaled as int, res as int);
        }
        crate::fixed::clamp(q, 0, SCREEN_LIMIT)
    }

    /// Applies the held movement and the queued resizes to the main
    /// camera, consuming the resize queue; returns the camera as it
    /// was written back.
    pub fn update_main_camera(&mut self, world: &mut World, delta_time: i64) -> (cam:
        crate::Camera)
        requires
            old(self).wf(),
            old(world).wf(),
            old(world).has_main_camera(),
            0 <= delta_time <= DELTA_MAX,
        ensures
            final(self).wf(),
            final(world).wf(),
            final(world).has_main_camera(),
            final(self).channel == old(self).channel,
            final(self).move_h == old(self).move_h,
            final(self).move_v == old(self).move_v,
            final(self).move_speed_mult == old(self).move_speed_mult,
            final(self).mouse_location == old(self).mouse_location,
            final(self).mouse_button@ == old(self).mouse_button@,
            final(self).exited == old(self).exited,
            final(self).resize@.len() == 0,
            final(self).ortho_helper == ortho_after_resize(
                old(self).ortho_helper,
                old(self).resize@,
            ),
            final(self).screen_resolution == resolution_after_resize(
                old(self).screen_resolution,
                old(self).resize@,
            ),
            final(world).render_ids@ == old(world).render_ids@,
            final(world).transforms@ == old(world).transforms@,
            final(world).render_datas@ == old(world).render_datas@,
            final(world).clickables@ == old(world).clickables@,
            final(world).wires@ == old(world).wires@,
            final(world).wires_in@ == old(world).wires_in@,
            final(world).wires_out@ == old(world).wires_out@,
            final(world).map == old(world).map,
            final(world).cameras@.len() == old(world).cameras@.len(),
            forall|i: int|
                0 <= i < old(world).cameras@.len() && !is_first_main_camera(*old(world), i)
                    ==> final(world).cameras@[i] == old(world).cameras@[i],
            forall|i: int|
                is_first_main_camera(*old(world), i) ==> final(world).cameras@[i] == Some(cam),
            forall|i: int|
                is_first_main_camera(*old(world), i) ==> cam == camera_after_resize(
                    camera_after_move(
                        old(world).cameras@[i].unwrap(),
                        old(self).move_h,
                        old(self).move_v,
                        old(self).move_speed_mult,
                        delta_time as int,
                    ),
                    old(self).ortho_helper,
                    old(self).resize@,
                ),
            cam.wf(),
    {
        let idx = world.find_main_camera();
        let mut cam = world.cameras[idx].unwrap();
        let ghost cam0 = cam;

        let h_zero = matches!(self.move_h, Sign::Zero);
        let v_zero = matches!(self.move_v, Sign::Zero);
        if !(h_zero && v_zero) {
            let mh: i64 = match self.move_h {
                Sign::Pos => 1,
                Sign::Zero => 0,
                Sign::Neg => -1,
            };
            let mv: i64 = match self.move_v {
                Sign::Pos => 1,
                Sign::Zero => 0,
                Sign::Neg => -1,
            };
            proof {
                crate::fixed::lemma_mul_bound(
                    delta_time as int,
                    self.move_speed_mult.x as int,
                    DELTA_MAX as int,
                    SPEED_MAX as int,
                );
                crate::fixed::lemma_mul_bound(
                    delta_time as int,
                    self.move_speed_mult.y as int,
                    DELTA_MAX as int,
                    SPEED_MAX as int,
                );
            }
            let px = delta_time * self.move_speed_mult.x;
            let py = delta_time * self.move_speed_mult.y;
            let sx = fx_div(px, SCALE);
            let sy = fx_div(py, SCALE);
            proof {
                lemma_div_trunc_bound(px as int, SCALE as int);
                lemma_div_trunc_bound(py as int, SCALE as int);
                vstd::arithmetic::div_mod::lemma_div_is_ordered(
                    crate::fixed::abs_int(px as int),
                    0x4000_0000_0000_0000,
                    SCALE as int,
                );
                vstd::arithmetic::div_mod::lemma_div_is_ordered(
                    crate::fixed::abs_int(py as int),
                    0x4000_0000_0000_0000,
                    SCALE as int,
                );
                crate::fixed::lemma_mul_bound(mh as int, sx as int, 1, 0x4000_0000_0000);
                crate::fixed::lemma_mul_bound(mv as int, sy as int, 1, 0x4000_0000_0000);
            }
            let ox = crate::fixed::clamp(mh * sx + cam.eye.x, -POS_LIMIT, POS_LIMIT);
            let oy = crate::fixed::clamp(mv * sy + cam.eye.y, -POS_LIMIT, POS_LIMIT);
            cam.set_offset(Point2 { x: ox, y: oy });
            proof {
                assert(cam == camera_after_move(
                    cam0,
                    self.move_h,
                    self.move_v,
                    self.move_speed_mult,
                    delta_time as int,
                ));
            }
        }
        let ghost cam_moved = cam;
        let ghost ortho0 = self.ortho_helper;
        let ghost res0 = self.screen_resolution;

        let rn = self.resize.len();
        let mut k: usize = 0;
        while k < rn
            invariant
                k <= rn,
                rn == self.resize@.len(),
                self.resize@ == old(self).resize@,
                self.channel == old(self).channel,
                self.move_h == old(self).move_h,
                self.move_v == old(self).move_v,
                self.move_speed_mult == old(self).move_speed_mult,
                self.mouse_location == old(self).mouse_location,
                self.mouse_button@ == old(self).mouse_button@,
                self.exited == old(self).exited,
                old(self).wf(),
                ortho0 == old(self).ortho_helper,
                res0 == old(self).screen_resolution,
                cam_moved.wf(),
                k == 0 ==> self.ortho_helper == ortho0 && cam == cam_moved
                    && self.screen_resolution == res0,
                k > 0 ==> {
                    let a = aspect_of(self.resize@[k - 1].0, self.resize@[k - 1].1);
                    &&& self.ortho_helper == (OrthographicHelper {
                        aspect_ratio: a as i64,
                        ..ortho0
                    })
                    &&& cam == (crate::Camera {
                        ortho: self.ortho_helper,
                        aspect_ratio: a as i64,
                        dirty: DirtyFlag { frames: 2 },
                        ..cam_moved
                    })
                    &&& self.screen_resolution == (Point2 {
                        x: res_dim(self.resize@[k - 1].0) as i64,
                        y: res_dim(self.resize@[k - 1].1) as i64,
                    })
                },
                self.wf(),
                cam.wf(),
            decreases rn - k,
        {
            let (w, h) = self.resize[k];
            let a = Self::compute_aspect(w, h);
            self.ortho_helper.set_aspect_ratio(a);
            cam.set_proj(&self.ortho_helper);
            let rw: i64 = if w == 0 {
                1
            } else {
                w as i64
            };
            let rh: i64 = if h == 0 {
                1
            } else {
                h as i64
            };
            self.screen_resolution = Point2 { x: rw, y: rh };
            k = k + 1;
        }
        self.resize.clear();

        world.cameras[idx] = Some(cam);
        proof {
            assert(cam == camera_after_resize(cam_moved, ortho0, old(self).resize@));
            assert(cam.is_main == cam0.is_main);
            assert(is_first_main_camera(*old(world), idx as int));
            assert(world.cameras@[idx as int] matches Some(c) && c.is_main);
        }
        cam
    }

    /// The aspect ratio a resize event produces.
    fn compute_aspect(w: u32, h: u32) -> (r: i64)
        ensures
            r == aspect_of(w, h),
            1 <= r <= ASPECT_MAX,
    {
        let wc = crate::fixed::clamp(w as i64, 1, 65535);
        let hc = crate::fixed::clamp(h as i64, 1, 65535);
        let num = wc * SCALE;
        let r = fx_div(num, hc);
        proof {
            lemma_div_trunc_bound(num as int, hc as int);
            vstd::arithmetic::div_mod::lemma_div_by_self(hc as int);
            vstd::arithmetic::div_mod::lemma_div_is_ordered(hc as int, num as int, hc as int);
        }
        r
    }

    /// Hit-tests one click, already unprojected into world space,
    /// against every clickable entity: each latch is set when the
    /// click falls inside that entity's offset hitbox and cleared
    /// when it does not.
    pub fn apply_click(world: &mut World, base: Point2)
        requires
            old(world).wf(),
            -0x4000_0000_0000_0000 <= base.x <= 0x4000_0000_0000_0000,
            -0x4000_0000_0000_0000 <= base.y <= 0x4000_0000_0000_0000,
        ensures
            final(world).wf(),
            forall|i: int|
                0 <= i < old(world).clickables@.len() ==> final(world).clickables@[i] == (match (
                    old(world).clickables@[i],
                    old(world).transforms@[i],
                ) {
                    (Some(c), Some(t)) => Some(click_step(c, t, base)),
                    _ => old(world).clickables@[i],
                }),
            final(world).render_ids@ == old(world).render_ids@,
            final(world).transforms@ == old(world).transforms@,
            final(world).cameras@ == old(world).cameras@,
            final(world).render_datas@ == old(world).render_datas@,
            final(world).wires@ == old(world).wires@,
            final(world).wires_in@ == old(world).wires_in@,
            final(world).wires_out@ == old(world).wires_out@,
            final(world).map == old(world).map,
    {
        let ghost w0 = *world;
        let n = world.clickables.len();
        let mut i: usize = 0;
        while i < n
            invariant
                i <= n,
                n == w0.clickables@.len(),
                w0.wf(),
                -0x4000_0000_0000_0000 <= base.x <= 0x4000_0000_0000_0000,
                -0x4000_0000_0000_0000 <= base.y <= 0x4000_0000_0000_0000,
                world.clickables@.len() == n,
                forall|j: int|
                    0 <= j < i ==> world.clickables@[j] == (match (
                        w0.clickables@[j],
                        w0.transforms@[j],
                    ) {
                        (Some(c), Some(t)) => Some(click_step(c, t, base)),
                        _ => w0.clickables@[j],
                    }),
                forall|j: int| i <= j < n ==> world.clickables@[j] == w0.clickables@[j],
                world.render_ids@ == w0.render_ids@,
                world.transforms@ == w0.transforms@,
                world.cameras@ == w0.cameras@,
                world.render_datas@ == w0.render_datas@,
                world.wires@ == w0.wires@,
                world.wires_in@ == w0.wires_in@,
                world.wires_out@ == w0.wires_out@,
                world.map == w0.map,
            decreases n - i,
        {
            let copt = world.clickables[i];
            let topt = world.transforms[i];
            match (copt, topt) {
                (Some(mut c), Some(t)) => {
                    let off = t.get_gui_offset();
                    let pt = base.plus(&off);
                    proof {
                        assert(pt == click_point(base, t));
                    }
                    let hit = c.hitbox.check_collide_point(pt);
                    c.clicked = hit;
                    world.clickables[i] = Some(c);
                },
                _ => {},
            }
            i = i + 1;
        }
    }

    /// Applies the drained control state to the world for one tick:
    /// movement and resizes go to the main camera, and the most
    /// recent queued click, if it was a left press, is hit-tested
    /// against every clickable; older queued clicks are discarded.
    pub fn apply_to_world(&mut self, world: &mut World, delta_time: i64)
        requires
            old(self).wf(),
            old(world).wf(),
            old(world).has_main_camera(),
            0 <= delta_time <= DELTA_MAX,
        ensures
            final(self).wf(),
            final(world).wf(),
            final(world).has_main_camera(),
            final(self).move_h == old(self).move_h,
            final(self).move_v == old(self).move_v,
            final(self).move_speed_mult == old(self).move_speed_mult,
            final(self).mouse_location == old(self).mouse_location,
            final(self).exited == old(self).exited,
            final(self).resize@.len() == 0,
            final(self).mouse_button@.len() == 0,
            final(self).ortho_helper == ortho_after_resize(
                old(self).ortho_helper,
                old(self).resize@,
            ),
            final(self).screen_resolution == resolution_after_resize(
                old(self).screen_resolution,
                old(self).resize@,
            ),
            final(world).render_ids@ == old(world).render_ids@,
            final(world).transforms@ == old(world).transforms@,
            final(world).render_datas@ == old(world).render_datas@,
            final(world).wires@ == old(world).wires@,
            final(world).wires_in@ == old(world).wires_in@,
            final(world).wires_out@ == old(world).wires_out@,
            final(world).map == old(world).map,
            final(world).cameras@.len() == old(world).cameras@.len(),
            forall|i: int|
                0 <= i < old(world).cameras@.len() && !is_first_main_camera(*old(world), i)
                    ==> final(world).cameras@[i] == old(world).cameras@[i],
            forall|i: int|
                is_first_main_camera(*old(world), i) ==> final(world).cameras@[i] == Some(
                    camera_after_resize(
                        camera_after_move(
                            old(world).cameras@[i].unwrap(),
                            old(self).move_h,
                            old(self).move_v,
                            old(self).move_speed_mult,
                            delta_time as int,
                        ),
                        old(self).ortho_helper,
                        old(self).resize@,
                    ),
                ),
            !click_pass(*old(self)) ==> final(world).clickables@ == old(world).clickables@,
            click_pass(*old(self)) ==> (forall|k: int|
                is_first_main_camera(*old(world), k) ==> (forall|i: int|
                    0 <= i < old(world).clickables@.len() ==> final(world).clickables@[i] == (
                    match (old(world).clickables@[i], old(world).transforms@[i]) {
                        (Some(c), Some(t)) => Some(
                            click_step(
                                c,
                                t,
                                unprojected_mouse(
                                    camera_after_resize(
                                        camera_after_move(
                                            old(world).cameras@[k].unwrap(),
                                            old(self).move_h,
                                            old(self).move_v,
                                            old(self).move_speed_mult,
                                            delta_time as int,
                                        ),
                                        old(self).ortho_helper,
                                        old(self).resize@,
                                    ),
                                    old(self).mouse_location,
                                ),
                            ),
                        ),
                        _ => old(world).clickables@[i],
                    }))),
    {
        let cam = self.update_main_camera(world, delta_time);

        let mut clicked: Option<(bool, MouseButton)> = None;
        if self.mouse_button.len() > 0 {
            clicked = Some(self.mouse_button[self.mouse_button.len() - 1]);
        }
        self.mouse_button.clear();

        match clicked {
            Some((true, MouseButton::Left)) => {
                let base = cam.screen_to_world_point(self.mouse_location);
                Self::apply_click(world, base);
                proof {
                    assert(base == unprojected_mouse(cam, old(self).mouse_location));
                }
            },
            _ => {},
        }
    }

    /// One frame of the control system: drains the pending input,
    /// and unless an exit request or a dead channel ended the
    /// system's participation, applies the resulting state to the
    /// world.
    pub fn run(&mut self, world: &mut World, delta_time: i64)
        requires
            old(self).wf(),
            old(world).wf(),
            old(world).has_main_camera(),
            0 <= delta_time <= DELTA_MAX,
        ensures
            final(self).wf(),
            final(world).wf(),
            final(world).has_main_camera(),
            final(world).render_ids@ == old(world).render_ids@,
            final(world).transforms@ == old(world).transforms@,
            final(world).render_datas@ == old(world).render_datas@,
            final(world).wires@ == old(world).wires@,
            final(world).wires_in@ == old(world).wires_in@,
            final(world).wires_out@ == old(world).wires_out@,
            final(world).map == old(world).map,
            final(world).cameras@.len() == old(world).cameras@.len(),
            final(world).clickables@.len() == old(world).clickables@.len(),
            forall|i: int|
                0 <= i < old(world).cameras@.len() ==> ((final(world).cameras@[i] is Some) == (
                old(world).cameras@[i] is Some) && (final(world).cameras@[i] matches Some(c)
                    ==> c.is_main == old(world).cameras@[i].unwrap().is_main)),
            final(self).exited ==> *final(world) == *old(world),
            old(self).exited ==> final(self).exited,
            forall|i: int|
                0 <= i < old(world).cameras@.len() && !is_first_main_camera(*old(world), i)
                    ==> final(world).cameras@[i] == old(world).cameras@[i],
            !final(self).exited ==> final(self).resize@.len() == 0
                && final(self).mouse_button@.len() == 0,
    {
        self.check_input();
        if self.exited {
            return ;
        }
        self.apply_to_world(world, delta_time);
        proof {
            assert forall|i: int| 0 <= i < old(world).cameras@.len() implies ((
            final(world).cameras@[i] is Some) == (old(world).cameras@[i] is Some) && (
            final(world).cameras@[i] matches Some(c) ==> c.is_main == old(
                world,
            ).cameras@[i].unwrap().is_main)) by {
                if is_first_main_camera(*old(world), i) {
                } else {
                }
            }
        }
    }

    /// Drains the pending input events, newest last, folding each
    /// into the control state. An empty queue ends the drain; a
    /// disconnected queue is fatal and ends the system's
    /// participation, as does an exit request.
    pub fn check_input(&mut self)
        requires
            old(self).wf(),
        ensures
            final(self).wf(),
            final(self).move_speed_mult == old(self).move_speed_mult,
            final(self).screen_resolution == old(self).screen_resolution,
            final(self).ortho_helper == old(self).ortho_helper,
            old(self).exited ==> final(self).exited,
    {
        let mut fuel: usize = DRAIN_LIMIT;
        while fuel > 0
            invariant
                self.wf(),
                self.move_speed_mult == old(self).move_speed_mult,
                self.screen_resolution == old(self).screen_resolution,
                self.ortho_helper == old(self).ortho_helper,
                old(self).exited ==> self.exited,
            decreases fuel,
        {
            fuel = fuel - 1;
            match try_recv_value(&self.channel.1) {
                Polled::Event(event) => {
                    self.apply_event(event);
                    if self.exited {
                        return ;
                    }
                },
                Polled::Empty => {
                    return ;
                },
                Polled::Closed => {
                    self.exited = true;
                    return ;
                },
            }
        }
    }
}

} // verus!
