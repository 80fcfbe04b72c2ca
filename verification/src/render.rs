use vstd::prelude::*;
use std::sync::mpsc::{Receiver, Sender};
use crate::channel::{recv_value, send_value, DRAIN_LIMIT};
use crate::dirty::{take_next, take_result};
use crate::math::Vec3;
use crate::ortho_helper::OrthographicHelper;
use crate::world::{is_first_main_camera, World};

verus! {

/// An opaque handle to one of the command buffers circulating
/// between the window loop and the render system; the buffers
/// themselves live with the renderer.
#[derive(Debug, Clone, Copy, PartialEq, Eq, Structural)]
pub struct Encoder {
    pub id: u64,
}

/// An opaque handle to the render target pair currently drawn into.
#[derive(Debug, Clone, Copy, PartialEq, Eq, Structural)]
pub struct GraphicsData {
    pub id: u64,
}

/// What the render system sends back to the window loop.
#[derive(Debug, Clone, Copy, PartialEq, Eq, Structural)]
pub enum SendEvent {
    Encoder(Encoder),
    Exited,
}

/// What the render system receives: a command buffer to fill, new
/// render targets after a resize, or the exit request.
#[derive(Debug, Clone, Copy, PartialEq, Eq, Structural)]
pub enum RecvEvent {
    Encoder(Encoder),
    GraphicsData(GraphicsData),
    Exit,
}

/// The render system's end of its channel pair.
pub type Channel = (Sender<SendEvent>, Receiver<RecvEvent>);

/// The texture attributes re-uploaded for a drawable whose render
/// data changed within the last two ticks.
#[derive(Debug, Clone, Copy)]
pub struct TextureData {
    pub tint: [i64; 4],
    pub spritesheet_rect: [i64; 4],
    pub spritesheet_size: [i64; 2],
    pub mirror: (bool, bool),
}

/// The transform and camera payload re-uploaded for a drawable while
/// the camera changed within the last two ticks.
#[derive(Debug, Clone, Copy)]
pub struct ProjectionData {
    pub model_translation: Vec3,
    pub model_rotation: Vec3,
    pub model_scale: Vec3,
    pub eye: Vec3,
    pub target: Vec3,
    pub up: Vec3,
    pub ortho: OrthographicHelper,
}

/// One emitted draw command: the bundle to draw, the layer it sorts
/// by, and the updates owed to the renderer this tick.
#[derive(Debug, Clone, Copy)]
pub struct DrawItem {
    pub id: usize,
    pub layer: u8,
    pub texture_data: Option<TextureData>,
    pub projection_data: Option<ProjectionData>,
}

/// The texture payload of a render data component.
pub open spec fn texture_of(rd: crate::RenderData) -> TextureData {
    TextureData {
        tint: rd.tint,
        spritesheet_rect: rd.spritesheet_rect,
        spritesheet_size: rd.spritesheet_size,
        mirror: (rd.mirror_x, rd.mirror_y),
    }
}

/// The projection payload of a transform under a camera.
pub open spec fn projection_of(t: crate::Transform, cam: crate::Camera) -> ProjectionData {
    ProjectionData {
        model_translation: t.translation,
        model_rotation: t.rotation,
        model_scale: t.scale,
        eye: cam.eye,
        target: cam.target,
        up: cam.up,
        ortho: cam.ortho,
    }
}

/// Entity `i` is drawable: it carries a render id, a transform and
/// render data.
pub open spec fn drawable(w: World, i: int) -> bool {
    &&& 0 <= i < w.len()
    &&& w.render_ids@[i] is Some
    &&& w.transforms@[i] is Some
    &&& w.render_datas@[i] is Some
}

/// The draw command entity `i` contributes.
pub open spec fn draw_item_of(w: World, i: int, cam_dirty: bool, cam: crate::Camera) -> DrawItem {
    DrawItem {
        id: w.render_ids@[i].unwrap().id,
        layer: w.render_datas@[i].unwrap().layer,
        texture_data: if take_result(w.render_datas@[i].unwrap().dirty) {
            Some(texture_of(w.render_datas@[i].unwrap()))
        } else {
            None
        },
        projection_data: if cam_dirty {
            Some(projection_of(w.transforms@[i].unwrap(), cam))
        } else {
            None
        },
    }
}

/// The draw commands of the first `n` entities, in entity order,
/// before sorting.
pub open spec fn gather_upto(w: World, n: int, cam_dirty: bool, cam: crate::Camera) -> Seq<
    DrawItem,
>
    decreases n,
{
    if n <= 0 {
        Seq::empty()
    } else {
        let rest = gather_upto(w, n - 1, cam_dirty, cam);
        if drawable(w, n - 1) {
            rest.push(draw_item_of(w, n - 1, cam_dirty, cam))
        } else {
            rest
        }
    }
}

/// The whole unsorted draw list of a world.
pub open spec fn gathered(w: World, cam_dirty: bool, cam: crate::Camera) -> Seq<DrawItem> {
    gather_upto(w, w.len(), cam_dirty, cam)
}

/// The items of one layer, keeping their relative order.
pub open spec fn of_layer(s: Seq<DrawItem>, l: int) -> Seq<DrawItem>
    decreases s.len(),
{
    if s.len() == 0 {
        Seq::empty()
    } else if s.last().layer == l {
        of_layer(s.drop_last(), l).push(s.last())
    } else {
        of_layer(s.drop_last(), l)
    }
}

/// The items whose layer lies below `l`, grouped by ascending layer,
/// each group keeping its original order.
pub open spec fn layers_upto(s: Seq<DrawItem>, l: int) -> Seq<DrawItem>
    decreases l,
{
    if l <= 0 {
        Seq::empty()
    } else {
        layers_upto(s, l - 1) + of_layer(s, l - 1)
    }
}

/// The stable sort of a draw list by ascending layer.
pub open spec fn stable_sorted(s: Seq<DrawItem>) -> Seq<DrawItem> {
    layers_upto(s, 256)
}

/// Draw order is by ascending layer.
pub open spec fn sorted_by_layer(s: Seq<DrawItem>) -> bool {
    forall|a: int, b: int| 0 <= a < b < s.len() ==> s[a].layer <= s[b].layer
}

/// Every item of a layer group carries that layer.
proof fn lemma_of_layer_members(s: Seq<DrawItem>, l: int)
    ensures
        forall|i: int| 0 <= i < of_layer(s, l).len() ==> (#[trigger] of_layer(s, l)[i]).layer == l,
    decreases s.len(),
{
    if s.len() > 0 {
        lemma_of_layer_members(s.drop_last(), l);
    }
}

/// Below-`l` groups only hold items of layers below `l`, and they
/// stand in ascending layer order.
proof fn lemma_layers_upto_sorted(s: Seq<DrawItem>, l: int)
    ensures
        forall|i: int|
            0 <= i < layers_upto(s, l).len() ==> (#[trigger] layers_upto(s, l)[i]).layer < l,
        sorted_by_layer(layers_upto(s, l)),
    decreases l,
{
    if l > 0 {
        lemma_layers_upto_sorted(s, l - 1);
        lemma_of_layer_members(s, l - 1);
    }
}

/// The emitted draw order is by ascending layer, whatever order the
/// entities were created in.
pub proof fn lemma_stable_sort_is_sorted(s: Seq<DrawItem>)
    ensures
        sorted_by_layer(stable_sorted(s)),
{
    lemma_layers_upto_sorted(s, 256);
}

/// The stable sort keeps each layer's items exactly, in their
/// original relative order.
pub proof fn lemma_stable_sort_keeps_layers(s: Seq<DrawItem>, l: int)
    requires
        0 <= l < 256,
    ensures
        of_layer(stable_sorted(s), l) == of_layer(s, l),
{
    lemma_layers_upto_sorted(s, 256);
    lemma_of_layer_flat(stable_sorted(s), s, l);
}

/// In a list that is already grouped as `layers_upto` builds it,
/// filtering a layer recovers the original group.
proof fn lemma_of_layer_flat(t: Seq<DrawItem>, s: Seq<DrawItem>, l: int)
    requires
        t == stable_sorted(s),
        0 <= l < 256,
    ensures
        of_layer(t, l) == of_layer(s, l),
{
    lemma_of_layer_of_upto(s, 256, l);
}

/// Filtering layer `l` out of the below-`m` grouping gives the
/// original group once `m` exceeds `l`, and nothing before that.
proof fn lemma_of_layer_of_upto(s: Seq<DrawItem>, m: int, l: int)
    requires
        0 <= l,
    ensures
        l < m ==> of_layer(layers_upto(s, m), l) == of_layer(s, l),
        l >= m ==> of_layer(layers_upto(s, m), l) == Seq::<DrawItem>::empty(),
    decreases m,
{
    if m > 0 {
        lemma_of_layer_of_upto(s, m - 1, l);
        lemma_of_layer_members(s, m - 1);
        if l == m - 1 {
            lemma_of_layer_append_all(layers_upto(s, m - 1), of_layer(s, m - 1), l);
        } else {
            lemma_of_layer_append_none(layers_upto(s, m - 1), of_layer(s, m - 1), l);
        }
    }
}

/// Appending items that all carry layer `l` to a list with none of
/// layer `l` makes filtering `l` return exactly the appended items.
proof fn lemma_of_layer_append_all(a: Seq<DrawItem>, b: Seq<DrawItem>, l: int)
    requires
        of_layer(a, l) == Seq::<DrawItem>::empty(),
        forall|i: int| 0 <= i < b.len() ==> (#[trigger] b[i]).layer == l,
    ensures
        of_layer(a + b, l) == b,
    decreases b.len(),
{
    if b.len() == 0 {
        assert(a + b =~= a);
    } else {
        assert((a + b).drop_last() =~= a + b.drop_last());
        lemma_of_layer_append_all(a, b.drop_last(), l);
        assert(of_layer(a + b, l) =~= b);
    }
}

/// Appending items none of which carry layer `l` leaves the `l`
/// filter unchanged.
proof fn lemma_of_layer_append_none(a: Seq<DrawItem>, b: Seq<DrawItem>, l: int)
    requires
        forall|i: int| 0 <= i < b.len() ==> (#[trigger] b[i]).layer != l,
    ensures
        of_layer(a + b, l) == of_layer(a, l),
    decreases b.len(),
{
    if b.len() == 0 {
        assert(a + b =~= a);
    } else {
        assert((a + b).drop_last() =~= a + b.drop_last());
        lemma_of_layer_append_none(a, b.drop_last(), l);
    }
}

/// The render-submission system: each tick it takes a command
/// buffer, gathers every drawable entity, stable-sorts the list by
/// ascending layer, emits per-item updates only while their
/// double-buffered dirty marks still owe them, and hands the buffer
/// back. It also allocates the bundle handles the renderer compiles
/// draw packets into.
pub struct System {
    pub channel: Channel,
    pub graphics_data: Option<GraphicsData>,
    pub bundle_count: usize,
    pub exited: bool,
}

impl System {
    /// Waits for the initial render targets; any other first message
    /// is a misconfigured pipeline and yields `None`.
    pub fn new(channel: Channel) -> (r: Option<System>)
        ensures
            r matches Some(s) ==> {
                &&& s.channel == channel
                &&& s.graphics_data is Some
                &&& s.bundle_count == 0
                &&& !s.exited
            },
    {
        let first = recv_value(&channel.1);
        match first {
            Some(RecvEvent::GraphicsData(g)) => Some(
                System { channel, graphics_data: Some(g), bundle_count: 0, exited: false },
            ),
            _ => None,
        }
    }

    /// Allocates the next bundle handle for a compiled draw packet.
    pub fn add_render_spritesheet(&mut self) -> (r: crate::RenderId)
        requires
            old(self).bundle_count < usize::MAX,
        ensures
            r.id == old(self).bundle_count,
            final(self).bundle_count == old(self).bundle_count + 1,
            final(self).channel == old(self).channel,
            final(self).graphics_data == old(self).graphics_data,
            final(self).exited == old(self).exited,
    {
        let id = self.bundle_count;
        self.bundle_count = self.bundle_count + 1;
        crate::RenderId { id }
    }

    /// Builds one tick's draw list: consumes one owed report of the
    /// main camera's and each drawable's dirty mark, gathers the
    /// drawables in entity order and stable-sorts them by ascending
    /// layer.
    pub fn build_draw_list(world: &mut World) -> (r: Vec<DrawItem>)
        requires
            old(world).wf(),
            old(world).has_main_camera(),
        ensures
            final(world).wf(),
            final(world).has_main_camera(),
            final(world).len() == old(world).len(),
            final(world).render_ids@ == old(world).render_ids@,
            final(world).transforms@ == old(world).transforms@,
            final(world).clickables@ == old(world).clickables@,
            final(world).wires@ == old(world).wires@,
            final(world).wires_in@ == old(world).wires_in@,
            final(world).wires_out@ == old(world).wires_out@,
            final(world).map == old(world).map,
            forall|i: int|
                0 <= i < old(world).cameras@.len() && !is_first_main_camera(*old(world), i)
                    ==> final(world).cameras@[i] == old(world).cameras@[i],
            forall|i: int|
                is_first_main_camera(*old(world), i) ==> final(world).cameras@[i] == Some(
                    crate::Camera {
                        dirty: take_next(old(world).cameras@[i].unwrap().dirty),
                        ..old(world).cameras@[i].unwrap()
                    },
                ),
            forall|i: int|
                0 <= i < old(world).render_datas@.len() ==> final(world).render_datas@[i] == (
                if drawable(*old(world), i) {
                    Some(
                        crate::RenderData {
                            dirty: take_next(old(world).render_datas@[i].unwrap().dirty),
                            ..old(world).render_datas@[i].unwrap()
                        },
                    )
                } else {
                    old(world).render_datas@[i]
                }),
            forall|i: int|
                is_first_main_camera(*old(world), i) ==> r@ == stable_sorted(
                    gathered(
                        *old(world),
                        take_result(old(world).cameras@[i].unwrap().dirty),
                        old(world).cameras@[i].unwrap(),
                    ),
                ),
            sorted_by_layer(r@),
    {
        let ghost w0 = *world;
        let idx = world.find_main_camera();
        let mut cam = world.cameras[idx].unwrap();
        let ghost cam0 = cam;
        let cam_dirty = cam.take_dirty();
        world.cameras[idx] = Some(cam);

        let n = world.render_ids.len();
        let mut data: Vec<DrawItem> = Vec::new();
        let mut i: usize = 0;
        while i < n
            invariant
                i <= n,
                n == w0.len(),
                w0.wf(),
                cam0 == w0.cameras@[idx as int].unwrap(),
                is_first_main_camera(w0, idx as int),
                cam_dirty == take_result(cam0.dirty),
                cam == (crate::Camera { dirty: take_next(cam0.dirty), ..cam0 }),
                world.render_ids@ == w0.render_ids@,
                world.transforms@ == w0.transforms@,
                world.clickables@ == w0.clickables@,
                world.wires@ == w0.wires@,
                world.wires_in@ == w0.wires_in@,
                world.wires_out@ == w0.wires_out@,
                world.map == w0.map,
                world.cameras@ == w0.cameras@.update(
                    idx as int,
                    Some(crate::Camera { dirty: take_next(cam0.dirty), ..cam0 }),
                ),
                world.render_datas@.len() == n,
                forall|j: int|
                    0 <= j < i ==> world.render_datas@[j] == (if drawable(w0, j) {
                        Some(
                            crate::RenderData {
                                dirty: take_next(w0.render_datas@[j].unwrap().dirty),
                                ..w0.render_datas@[j].unwrap()
                            },
                        )
                    } else {
                        w0.render_datas@[j]
                    }),
                forall|j: int| i <= j < n ==> world.render_datas@[j] == w0.render_datas@[j],
                data@ == gather_upto(w0, i as int, cam_dirty, cam0),
            decreases n - i,
        {
            let d = world.render_ids[i];
            let t = world.transforms[i];
            let rd = world.render_datas[i];
            match (d, t, rd) {
                (Some(d), Some(t), Some(mut rd)) => {
                    let ghost rd0 = rd;
                    let dirty = rd.take_dirty();
                    world.render_datas[i] = Some(rd);

                    let texture_data = if dirty {
                        Some(
                            TextureData {
                                tint: rd.tint,
                                spritesheet_rect: rd.spritesheet_rect,
                                spritesheet_size: rd.spritesheet_size,
                                mirror: rd.get_mirror(),
                            },
                        )
                    } else {
                        None
                    };
                    let projection_data = if cam_dirty {
                        Some(
                            ProjectionData {
                                model_translation: t.translation,
                                model_rotation: t.rotation,
                                model_scale: t.scale,
                                eye: cam.eye,
                                target: cam.target,
                                up: cam.up,
                                ortho: cam.ortho,
                            },
                        )
                    } else {
                        None
                    };
                    data.push(
                        DrawItem { id: d.id, layer: rd.get_layer(), texture_data, projection_data },
                    );
                    proof {
                        assert(texture_of(rd0) == texture_of(rd));
                        assert(projection_of(t, cam0) == projection_of(t, cam));
                        assert(data@.last() == draw_item_of(w0, i as int, cam_dirty, cam0));
                    }
                },
                _ => {},
            }
            i = i + 1;
        }

        let r = Self::stable_sort_by_layer(data);
        proof {
            lemma_stable_sort_is_sorted(gathered(w0, cam_dirty, cam0));
        }
        r
    }

    /// Stable sort by ascending layer: walks the 256 layers in order
    /// and keeps each layer's items in their original order.
    fn stable_sort_by_layer(v: Vec<DrawItem>) -> (r: Vec<DrawItem>)
        ensures
            r@ == stable_sorted(v@),
    {
        let mut out: Vec<DrawItem> = Vec::new();
        let mut l: u16 = 0;
        while l < 256
            invariant
                l <= 256,
                out@ == layers_upto(v@, l as int),
            decreases 256 - l,
        {
            let n = v.len();
            let mut j: usize = 0;
            while j < n
                invariant
                    j <= n,
                    n == v@.len(),
                    l < 256,
                    out@ == layers_upto(v@, l as int) + of_layer(v@.take(j as int), l as int),
                decreases n - j,
            {
                let it = v[j];
                proof {
                    assert(v@.take(j + 1).last() == v@[j as int]);
                    assert(v@.take(j + 1).drop_last() =~= v@.take(j as int));
                }
                if (it.layer as u16) == l {
                    out.push(it);
                }
                j = j + 1;
            }
            proof {
                assert(v@.take(n as int) =~= v@);
            }
            l = l + 1;
        }
        out
    }

    /// Renders one tick: builds the sorted draw list, consuming one
    /// owed report of the dirty marks, and hands the command buffer
    /// back to the window loop.
    pub fn render(&mut self, world: &mut World, encoder: Encoder) -> (r: Vec<DrawItem>)
        requires
            old(world).wf(),
            old(world).has_main_camera(),
        ensures
            final(world).wf(),
            final(world).has_main_camera(),
            final(world).len() == old(world).len(),
            final(world).render_ids@ == old(world).render_ids@,
            final(world).transforms@ == old(world).transforms@,
            final(world).clickables@ == old(world).clickables@,
            final(world).wires@ == old(world).wires@,
            final(world).wires_in@ == old(world).wires_in@,
            final(world).wires_out@ == old(world).wires_out@,
            final(world).map == old(world).map,
            forall|i: int|
                0 <= i < old(world).cameras@.len() && !is_first_main_camera(*old(world), i)
                    ==> final(world).cameras@[i] == old(world).cameras@[i],
            forall|i: int|
                is_first_main_camera(*old(world), i) ==> final(world).cameras@[i] == Some(
                    crate::Camera {
                        dirty: take_next(old(world).cameras@[i].unwrap().dirty),
                        ..old(world).cameras@[i].unwrap()
                    },
                ),
            forall|i: int|
                0 <= i < old(world).render_datas@.len() ==> final(world).render_datas@[i] == (
                if drawable(*old(world), i) {
                    Some(
                        crate::RenderData {
                            dirty: take_next(old(world).render_datas@[i].unwrap().dirty),
                            ..old(world).render_datas@[i].unwrap()
                        },
                    )
                } else {
                    old(world).render_datas@[i]
                }),
            forall|i: int|
                is_first_main_camera(*old(world), i) ==> r@ == stable_sorted(
                    gathered(
                        *old(world),
                        take_result(old(world).cameras@[i].unwrap().dirty),
                        old(world).cameras@[i].unwrap(),
                    ),
                ),
            sorted_by_layer(r@),
            final(self).channel == old(self).channel,
            final(self).graphics_data == old(self).graphics_data,
            final(self).bundle_count == old(self).bundle_count,
            final(self).exited == old(self).exited,
    {
        let r = Self::build_draw_list(world);
        send_value(&self.channel.0, SendEvent::Encoder(encoder));
        r
    }

    /// Handles one message: a command buffer means draw and stop
    /// polling, new render targets are stored and polling goes on,
    /// and the exit request acknowledges and ends participation.
    pub fn process_event(&mut self, world: &mut World, event: RecvEvent) -> (r: (
        bool,
        Option<Vec<DrawItem>>,
    ))
        requires
            old(world).wf(),
            old(world).has_main_camera(),
        ensures
            final(world).wf(),
            final(world).has_main_camera(),
            final(world).len() == old(world).len(),
            final(world).render_ids@ == old(world).render_ids@,
            final(world).transforms@ == old(world).transforms@,
            final(world).clickables@ == old(world).clickables@,
            final(world).wires@ == old(world).wires@,
            final(world).wires_in@ == old(world).wires_in@,
            final(world).wires_out@ == old(world).wires_out@,
            final(world).map == old(world).map,
            r.0 == (event is GraphicsData),
            event matches RecvEvent::GraphicsData(g) ==> final(self).graphics_data == Some(g)
                && *final(world) == *old(world),
            event is Exit ==> final(self).exited && *final(world) == *old(world),
            forall|i: int|
                0 <= i < old(world).cameras@.len() && !is_first_main_camera(*old(world), i)
                    ==> final(world).cameras@[i] == old(world).cameras@[i],
            event is Encoder ==> (forall|i: int|
                is_first_main_camera(*old(world), i) ==> final(world).cameras@[i] == Some(
                    crate::Camera {
                        dirty: take_next(old(world).cameras@[i].unwrap().dirty),
                        ..old(world).cameras@[i].unwrap()
                    },
                )),
            event is Encoder ==> (forall|i: int|
                0 <= i < old(world).render_datas@.len() ==> final(world).render_datas@[i] == (
                if drawable(*old(world), i) {
                    Some(
                        crate::RenderData {
                            dirty: take_next(old(world).render_datas@[i].unwrap().dirty),
                            ..old(world).render_datas@[i].unwrap()
                        },
                    )
                } else {
                    old(world).render_datas@[i]
                })),
            event is Encoder ==> r.1 is Some,
            !(event is Encoder) ==> r.1 is None,
            event is Encoder ==> (forall|i: int|
                is_first_main_camera(*old(world), i) ==> r.1.unwrap()@ == stable_sorted(
                    gathered(
                        *old(world),
                        take_result(old(world).cameras@[i].unwrap().dirty),
                        old(world).cameras@[i].unwrap(),
                    ),
                )),
            r.1 matches Some(list) ==> sorted_by_layer(list@),
    {
        match event {
            RecvEvent::Encoder(encoder) => {
                let list = self.render(world, encoder);
                (false, Some(list))
            },
            RecvEvent::GraphicsData(g) => {
                self.graphics_data = Some(g);
                (true, None)
            },
            RecvEvent::Exit => {
                send_value(&self.channel.0, SendEvent::Exited);
                self.exited = true;
                (false, None)
            },
        }
    }

    /// One frame of the render system: blocks for messages until a
    /// command buffer has been filled or an exit ends participation;
    /// returns the draw list that was submitted, if one was. The
    /// world is either untouched (no buffer arrived, or the system
    /// had exited) or evolved by exactly one draw-list build, whose
    /// list is the result.
    pub fn run(&mut self, world: &mut World) -> (r: Option<Vec<DrawItem>>)
        requires
            old(world).wf(),
            old(world).has_main_camera(),
        ensures
            final(world).wf(),
            final(world).has_main_camera(),
            final(world).len() == old(world).len(),
            final(world).render_ids@ == old(world).render_ids@,
            final(world).transforms@ == old(world).transforms@,
            final(world).clickables@ == old(world).clickables@,
            final(world).wires@ == old(world).wires@,
            final(world).wires_in@ == old(world).wires_in@,
            final(world).wires_out@ == old(world).wires_out@,
            final(world).map == old(world).map,
            old(self).exited ==> r is None,
            r is None ==> *final(world) == *old(world),
            forall|i: int|
                0 <= i < old(world).cameras@.len() && !is_first_main_camera(*old(world), i)
                    ==> final(world).cameras@[i] == old(world).cameras@[i],
            r matches Some(list) ==> {
                &&& sorted_by_layer(list@)
                &&& (forall|i: int|
                    is_first_main_camera(*old(world), i) ==> final(world).cameras@[i] == Some(
                        crate::Camera {
                            dirty: take_next(old(world).cameras@[i].unwrap().dirty),
                            ..old(world).cameras@[i].unwrap()
                        },
                    ))
                &&& (forall|i: int|
                    0 <= i < old(world).render_datas@.len() ==> final(world).render_datas@[i] == (
                    if drawable(*old(world), i) {
                        Some(
                            crate::RenderData {
                                dirty: take_next(old(world).render_datas@[i].unwrap().dirty),
                                ..old(world).render_datas@[i].unwrap()
                            },
                        )
                    } else {
                        old(world).render_datas@[i]
                    }))
                &&& (forall|i: int|
                    is_first_main_camera(*old(world), i) ==> list@ == stable_sorted(
                        gathered(
                            *old(world),
                            take_result(old(world).cameras@[i].unwrap().dirty),
                            old(world).cameras@[i].unwrap(),
                        ),
                    ))
            },
    {
        if self.exited {
            return None;
        }
        let mut fuel: usize = DRAIN_LIMIT;
        while fuel > 0
            invariant
                !old(self).exited,
                old(world).wf(),
                old(world).has_main_camera(),
                *world == *old(world),
            decreases fuel,
        {
            fuel = fuel - 1;
            match recv_value(&self.channel.1) {
                Some(event) => {
                    let (keep_going, list) = self.process_event(world, event);
                    if !keep_going {
                        return list;
                    }
                },
                None => {
                    self.exited = true;
                    return None;
                },
            }
        }
        None
    }
}

} // verus!
