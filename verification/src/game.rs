use vstd::prelude::*;
use std::sync::mpsc::{Receiver, Sender};
use vstd::arithmetic::div_mod::lemma_fundamental_div_mod_converse;
use crate::channel::{try_recv_value, Polled};
use crate::control;
use crate::event::GameEventHub;
use crate::fixed::{DELTA_MAX, SCALE, SCREEN_LIMIT};
use crate::dirty::take_next;
use crate::link_connector;
use crate::link_connector::{connect_wire_in_opt, connect_wire_opt, connect_wire_out_opt};
use crate::mapper;
use crate::math::{LineSeg, Point2, Rect, Vec3};
use crate::ortho_helper::OrthographicHelper;
use crate::render;
use crate::render::{sorted_by_layer, DrawItem};
use crate::wire_flow;
use crate::wire_flow::flow_wire_in_opt;
use crate::world::{is_first_main_camera, lemma_first_main_agrees, Components, World};

verus! {

/// What the window loop sends the game loop: only the exit request.
#[derive(Debug, Clone, Copy, PartialEq, Eq, Structural)]
pub enum RecvEvent {
    Exit,
}

/// What the game loop reports back.
#[derive(Debug, Clone, Copy, PartialEq, Eq, Structural)]
pub enum SendEvent {
    Exited,
}

/// The game loop's end of its channel pair.
pub type Channel = (Sender<SendEvent>, Receiver<RecvEvent>);

/// Relies on time::precise_time_ns: the current value of a
/// high-resolution monotonic counter in nanoseconds since an
/// unspecified epoch; nothing is promised of the value itself.
#[verifier::external_body]
fn now_ns() -> u64 {
    time::precise_time_ns()
}

/// How many grid tiles the starting world holds, plus the camera.
pub const WORLD_SIZE: usize = 442;

/// The transform every starting grid tile is created with: tile
/// `e` (counting the camera as entity zero) sits at the grid cell
/// whose column is `(e - 1) % 21 - 10` and whose row is
/// `(e - 1) / 21 - 10`, at unit scale and no rotation.
pub open spec fn tile_transform(e: int) -> crate::Transform {
    let tx = ((((e - 1) % 21) - 10) * SCALE) as i64;
    let ty = ((((e - 1) / 21) - 10) * SCALE) as i64;
    crate::Transform {
        translation: Vec3 { x: tx, y: ty, z: 0 },
        rotation: Vec3 { x: 0, y: 0, z: 0 },
        scale: Vec3 { x: SCALE, y: SCALE, z: SCALE },
        pos: Point2 { x: tx, y: ty },
    }
}

/// The clickable every starting grid tile is created with: a unit
/// square hitbox, not yet clicked.
pub open spec fn tile_clickable(c: crate::Clickable) -> bool {
    &&& !c.clicked
    &&& c.hitbox == (Rect {
        corners: LineSeg { a: Point2 { x: 0, y: 0 }, b: Point2 { x: SCALE, y: SCALE } },
    })
}

/// The render data every starting grid tile is created with: the
/// empty-tile layer and spritesheet, half-bright, unmirrored, owing
/// both in-flight frames its state.
pub open spec fn tile_render_data(rd: crate::RenderData) -> bool {
    &&& rd.layer == crate::art::layers::EMPTY
    &&& !rd.mirror_x
    &&& !rd.mirror_y
    &&& rd.dirty.frames == 2
    &&& rd.tint@ == seq![(SCALE / 2) as i64, (SCALE / 2) as i64, (SCALE / 2) as i64, SCALE]
    &&& rd.spritesheet_rect@ == seq![
        0i64,
        0i64,
        ((32 * SCALE) as i64),
        ((32 * SCALE) as i64),
    ]
    &&& rd.spritesheet_size@ == seq![((32 * SCALE) as i64), ((32 * SCALE) as i64)]
}

/// Entity `e` of a freshly built world is one of the starting grid
/// tiles.
pub open spec fn is_start_tile(w: World, e: int) -> bool {
    &&& w.render_ids@[e] == Some(crate::RenderId { id: 0 })
    &&& w.transforms@[e] == Some(tile_transform(e))
    &&& (w.clickables@[e] matches Some(c) && tile_clickable(c))
    &&& (w.render_datas@[e] matches Some(rd) && tile_render_data(rd))
    &&& w.cameras@[e] is None
    &&& w.wires@[e] is None
    &&& w.wires_in@[e] is None
    &&& w.wires_out@[e] is None
}

/// How one tick evolves the wire-in table: the table of `post` came
/// from that of `pre` by one link-resolution pass against the map
/// the tick ended with, through the intermediate world `mid`, and
/// then one single-hop wire-flow step whose upstream values are read
/// from `mid`.
pub open spec fn wires_in_pipeline(pre: World, mid: World, post: World) -> bool {
    &&& mid.wires_in@.len() == pre.wires_in@.len()
    &&& forall|i: int|
        0 <= i < pre.wires_in@.len() ==> #[trigger] mid.wires_in@[i] == connect_wire_in_opt(
            pre.wires_in@[i],
            post.map,
        )
    &&& forall|i: int|
        0 <= i < pre.wires_in@.len() ==> #[trigger] post.wires_in@[i] == flow_wire_in_opt(
            mid.wires_in@[i],
            mid,
        )
}

/// The game loop: the world, the per-tick systems in their fixed
/// order, the clock sample the next delta is measured from, and the
/// channels the loop is driven over.
pub struct Game {
    pub world: World,
    pub control: control::System,
    pub mapper: mapper::System,
    pub link_connector: link_connector::System,
    pub wire_flow: wire_flow::System,
    pub renderer: render::System,
    pub last_time: u64,
    pub channel: Channel,
    pub mapper_channel: mapper::GameEnd,
    pub wires_render: crate::RenderId,
    pub last_draw_list: Option<Vec<DrawItem>>,
}

impl Game {
    pub open spec fn wf(&self) -> bool {
        self.world.wf() && self.world.has_main_camera() && self.control.wf()
    }

    /// Builds the starting world: the main camera at the origin and
    /// a 21-by-21 grid of clickable empty tiles, wires the systems
    /// to their channels, and reserves the two spritesheet bundles.
    /// `None` when the hub has already given a channel away or the
    /// render channel's first message was not the render targets,
    /// which mark a misconfigured startup.
    pub fn new(
        game_event_hub: GameEventHub,
        mouse_location: Point2,
        screen_resolution: Point2,
        ortho_helper: OrthographicHelper,
    ) -> (r: Option<Game>)
        requires
            0 <= mouse_location.x <= SCREEN_LIMIT,
            0 <= mouse_location.y <= SCREEN_LIMIT,
            1 <= screen_resolution.x <= 0x1_0000_0000,
            1 <= screen_resolution.y <= 0x1_0000_0000,
            ortho_helper.wf(),
        ensures
            (game_event_hub.control_channel is None || game_event_hub.render_channel is None
                || game_event_hub.game_channel is None || game_event_hub.mapper_channel_mapper
                is None || game_event_hub.mapper_channel_game is None) ==> r is None,
            r matches Some(g) ==> {
                &&& g.wf()
                &&& g.world.len() == WORLD_SIZE
                &&& is_first_main_camera(g.world, 0)
                &&& g.world.cameras@[0] == Some(
                    crate::Camera {
                        eye: Vec3 { x: 0, y: 0, z: ((2 * SCALE) as i64) },
                        target: Vec3 { x: 0, y: 0, z: 0 },
                        up: Vec3 { x: 0, y: SCALE, z: 0 },
                        ortho: ortho_helper,
                        aspect_ratio: ortho_helper.aspect_ratio,
                        is_main: true,
                        dirty: crate::dirty::DirtyFlag { frames: 2 },
                    },
                )
                &&& forall|e: int| 1 <= e < WORLD_SIZE ==> is_start_tile(g.world, e)
                &&& g.world.map.pairs@.len() == 0
                &&& g.wires_render == (crate::RenderId { id: 1 })
                &&& !g.control.exited
                &&& g.control.move_h is Zero
                &&& g.control.move_v is Zero
            },
    {
        let GameEventHub {
            control_channel,
            render_channel,
            game_channel,
            mapper_channel_mapper,
            mapper_channel_game,
        } = game_event_hub;

        let render_channel = match render_channel {
            Some(c) => c,
            None => {
                return None;
            },
        };
        let control_channel = match control_channel {
            Some(c) => c,
            None => {
                return None;
            },
        };
        let game_channel = match game_channel {
            Some(c) => c,
            None => {
                return None;
            },
        };
        let mapper_channel_mapper = match mapper_channel_mapper {
            Some(c) => c,
            None => {
                return None;
            },
        };
        let mapper_channel_game = match mapper_channel_game {
            Some(c) => c,
            None => {
                return None;
            },
        };

        let mut renderer = match render::System::new(render_channel) {
            Some(r) => r,
            None => {
                return None;
            },
        };

        let mut world = World::new();

        let camera = crate::Camera::new_from_ortho_helper(
            Vec3 { x: 0, y: 0, z: 2 * SCALE },
            Vec3 { x: 0, y: 0, z: 0 },
            Vec3 { x: 0, y: SCALE, z: 0 },
            &ortho_helper,
            true,
        );
        world.create_now(Components::empty().with_camera(camera));

        let empty_render = renderer.add_render_spritesheet();

        let mut y: i64 = -10;
        while y < 11
            invariant
                -10 <= y <= 11,
                world.wf(),
                world.len() == 1 + (y + 10) * 21,
                world.cameras@[0] is Some,
                world.cameras@[0] == Some(camera),
                forall|e: int| 1 <= e < world.len() ==> is_start_tile(world, e),
                world.map.pairs@.len() == 0,
                empty_render == (crate::RenderId { id: 0 }),
                camera.is_main,
            decreases 11 - y,
        {
            let mut x: i64 = -10;
            while x < 11
                invariant
                    -10 <= y < 11,
                    -10 <= x <= 11,
                    world.wf(),
                    world.len() == 1 + (y + 10) * 21 + (x + 10),
                    world.cameras@[0] is Some,
                    world.cameras@[0] == Some(camera),
                    forall|e: int| 1 <= e < world.len() ==> is_start_tile(world, e),
                    world.map.pairs@.len() == 0,
                    empty_render == (crate::RenderId { id: 0 }),
                    camera.is_main,
                decreases 11 - x,
            {
                let transform = crate::Transform::new(
                    Vec3 { x: x * SCALE, y: y * SCALE, z: 0 },
                    Vec3 { x: 0, y: 0, z: 0 },
                    Vec3 { x: SCALE, y: SCALE, z: SCALE },
                );
                let clickable = crate::Clickable::new(
                    Rect::new_from_coords(0, 0, SCALE, SCALE),
                );
                let render_data = crate::RenderData::new(
                    crate::art::layers::EMPTY,
                    crate::art::empty::default_tint(),
                    crate::art::empty::rect(),
                    crate::art::empty::size(),
                );
                let ghost w_prev = world;
                let e = world.create_now(
                    Components::empty()
                        .with_render_id(empty_render)
                        .with_transform(transform)
                        .with_clickable(clickable)
                        .with_render_data(render_data),
                );
                proof {
                    assert forall|e2: int| 1 <= e2 < world.len() - 1 implies is_start_tile(
                        world,
                        e2,
                    ) by {
                        assert(is_start_tile(w_prev, e2));
                        assert(world.render_ids@[e2] == w_prev.render_ids@[e2]);
                        assert(world.transforms@[e2] == w_prev.transforms@[e2]);
                        assert(world.clickables@[e2] == w_prev.clickables@[e2]);
                        assert(world.render_datas@[e2] == w_prev.render_datas@[e2]);
                        assert(world.cameras@[e2] == w_prev.cameras@[e2]);
                        assert(world.wires@[e2] == w_prev.wires@[e2]);
                        assert(world.wires_in@[e2] == w_prev.wires_in@[e2]);
                        assert(world.wires_out@[e2] == w_prev.wires_out@[e2]);
                    }
                    lemma_fundamental_div_mod_converse(e - 1, 21, y + 10, x + 10);
                    assert(render_data.tint@ =~= seq![
                        (SCALE / 2) as i64,
                        (SCALE / 2) as i64,
                        (SCALE / 2) as i64,
                        SCALE,
                    ]);
                    assert(render_data.spritesheet_rect@ =~= seq![
                        0i64,
                        0i64,
                        ((32 * SCALE) as i64),
                        ((32 * SCALE) as i64),
                    ]);
                    assert(render_data.spritesheet_size@ =~= seq![
                        ((32 * SCALE) as i64),
                        ((32 * SCALE) as i64),
                    ]);
                    assert(is_start_tile(world, e as int));
                }
                x = x + 1;
            }
            y = y + 1;
        }

        let wires_render = renderer.add_render_spritesheet();

        let control = control::System::new(
            control_channel,
            Point2 { x: 10 * SCALE, y: 10 * SCALE },
            mouse_location,
            screen_resolution,
            ortho_helper,
        );

        let mapper = mapper::System::new(mapper_channel_mapper);

        Some(
            Game {
                world,
                control,
                mapper,
                link_connector: link_connector::System::new(),
                wire_flow: wire_flow::System::new(),
                renderer,
                last_time: now_ns(),
                channel: game_channel,
                mapper_channel: mapper_channel_game,
                wires_render,
                last_draw_list: None,
            },
        )
    }

    /// One pass of the fixed system pipeline, highest priority
    /// first: control, mapper, link connector, wire flow, render
    /// submission. The draw list the render system submitted, if
    /// any, is kept for the embedder.
    pub fn dispatch(&mut self, delta_time: i64)
        requires
            old(self).wf(),
            0 <= delta_time <= DELTA_MAX,
        ensures
            final(self).wf(),
            final(self).world.len() == old(self).world.len(),
            final(self).world.render_ids@ == old(self).world.render_ids@,
            final(self).world.transforms@ == old(self).world.transforms@,
            final(self).world.cameras@.len() == old(self).world.cameras@.len(),
            final(self).world.clickables@.len() == old(self).world.clickables@.len(),
            final(self).last_time == old(self).last_time,
            final(self).channel == old(self).channel,
            final(self).wires_render == old(self).wires_render,
            forall|i: int|
                0 <= i < old(self).world.cameras@.len() && !is_first_main_camera(
                    old(self).world,
                    i,
                ) ==> final(self).world.cameras@[i] == old(self).world.cameras@[i],
            forall|i: int|
                0 <= i < old(self).world.render_datas@.len() ==> (
                final(self).world.render_datas@[i] == old(self).world.render_datas@[i] || (
                old(self).world.render_datas@[i] is Some && final(self).world.render_datas@[i]
                    == Some(
                    crate::RenderData {
                        dirty: take_next(old(self).world.render_datas@[i].unwrap().dirty),
                        ..old(self).world.render_datas@[i].unwrap()
                    },
                ))),
            final(self).last_draw_list matches Some(list) ==> sorted_by_layer(list@),
            forall|i: int|
                0 <= i < old(self).world.len() ==> final(self).world.wires@[i]
                    == connect_wire_opt(old(self).world.wires@[i], final(self).world.map),
            forall|i: int|
                0 <= i < old(self).world.len() ==> final(self).world.wires_out@[i]
                    == connect_wire_out_opt(old(self).world.wires_out@[i], final(self).world.map),
            exists|mid: World| wires_in_pipeline(old(self).world, mid, final(self).world),
    {
        let ghost w0 = self.world;
        self.control.run(&mut self.world, delta_time);
        let ghost w1 = self.world;
        self.mapper.run(&mut self.world);
        let ghost w2 = self.world;
        self.link_connector.run(&mut self.world);
        let ghost w3 = self.world;
        self.wire_flow.run(&mut self.world);
        let ghost w4 = self.world;
        proof {
            assert forall|j: int|
                0 <= j < w0.cameras@.len() implies (((#[trigger] w0.cameras@[j]) matches Some(c)
                && c.is_main) == (w4.cameras@[j] matches Some(c2) && c2.is_main)) by {
                assert(w4.cameras@[j] == w1.cameras@[j]);
            }
            lemma_first_main_agrees(w0, w4);
        }
        self.last_draw_list = self.renderer.run(&mut self.world);
        proof {
            assert(self.world.map == w2.map);
            assert(wires_in_pipeline(w0, w3, self.world)) by {
                assert forall|i: int|
                    0 <= i < w0.wires_in@.len() implies #[trigger] w3.wires_in@[i]
                    == connect_wire_in_opt(w0.wires_in@[i], self.world.map) by {
                    assert(w2.wires_in@[i] == w0.wires_in@[i]);
                }
                assert forall|i: int|
                    0 <= i < w0.wires_in@.len() implies #[trigger] self.world.wires_in@[i]
                    == flow_wire_in_opt(w3.wires_in@[i], w3) by {
                    assert(self.world.wires_in@[i] == w4.wires_in@[i]);
                }
            }
            assert forall|i: int|
                0 <= i < w0.len() implies #[trigger] self.world.wires@[i] == connect_wire_opt(
                w0.wires@[i],
                self.world.map,
            ) by {
                assert(w2.wires@[i] == w0.wires@[i]);
                assert(self.world.wires@[i] == w3.wires@[i]);
            }
            assert forall|i: int|
                0 <= i < w0.len() implies #[trigger] self.world.wires_out@[i]
                == connect_wire_out_opt(w0.wires_out@[i], self.world.map) by {
                assert(w2.wires_out@[i] == w0.wires_out@[i]);
                assert(self.world.wires_out@[i] == w3.wires_out@[i]);
            }
            assert forall|i: int|
                0 <= i < w0.cameras@.len() && !is_first_main_camera(w0, i) implies
                self.world.cameras@[i] == w0.cameras@[i] by {
                assert(!is_first_main_camera(w4, i));
                assert(w4.cameras@[i] == w1.cameras@[i]);
            }
            assert forall|i: int|
                0 <= i < w0.render_datas@.len() implies (self.world.render_datas@[i]
                == w0.render_datas@[i] || (w0.render_datas@[i] is Some
                && self.world.render_datas@[i] == Some(
                    crate::RenderData {
                        dirty: take_next(w0.render_datas@[i].unwrap().dirty),
                        ..w0.render_datas@[i].unwrap()
                    },
                ))) by {
                assert(w4.render_datas@[i] == w0.render_datas@[i]);
                if self.last_draw_list is Some {
                    assert(crate::render::drawable(w4, i) == crate::render::drawable(w0, i));
                }
            }
        }
    }

    /// One frame: samples the monotonic clock for the elapsed time,
    /// then polls the exit channel; while it stays empty one whole
    /// pipeline tick is dispatched and the loop goes on, and an exit
    /// request or a disconnected channel ends it, leaving the world
    /// exactly as it was.
    pub fn frame(&mut self) -> (keep_running: bool)
        requires
            old(self).wf(),
        ensures
            final(self).wf(),
            !keep_running ==> final(self).world == old(self).world,
            final(self).world.len() == old(self).world.len(),
            final(self).world.render_ids@ == old(self).world.render_ids@,
            final(self).world.transforms@ == old(self).world.transforms@,
            final(self).wires_render == old(self).wires_render,
            keep_running ==> (forall|i: int|
                0 <= i < old(self).world.cameras@.len() && !is_first_main_camera(
                    old(self).world,
                    i,
                ) ==> final(self).world.cameras@[i] == old(self).world.cameras@[i]),
            keep_running ==> (forall|i: int|
                0 <= i < old(self).world.render_datas@.len() ==> (
                final(self).world.render_datas@[i] == old(self).world.render_datas@[i] || (
                old(self).world.render_datas@[i] is Some && final(self).world.render_datas@[i]
                    == Some(
                    crate::RenderData {
                        dirty: take_next(old(self).world.render_datas@[i].unwrap().dirty),
                        ..old(self).world.render_datas@[i].unwrap()
                    },
                )))),
            keep_running ==> (final(self).last_draw_list matches Some(list) ==> sorted_by_layer(
                list@,
            )),
            keep_running ==> (forall|i: int|
                0 <= i < old(self).world.len() ==> final(self).world.wires@[i]
                    == connect_wire_opt(old(self).world.wires@[i], final(self).world.map)),
            keep_running ==> (forall|i: int|
                0 <= i < old(self).world.len() ==> final(self).world.wires_out@[i]
                    == connect_wire_out_opt(old(self).world.wires_out@[i], final(self).world.map)),
            keep_running ==> (exists|mid: World|
                wires_in_pipeline(old(self).world, mid, final(self).world)),
    {
        let new_time = now_ns();
        let delta_ns: u64 = if new_time > self.last_time {
            new_time - self.last_time
        } else {
            0
        };
        self.last_time = new_time;
        let capped: u64 = if delta_ns > 0x100_0000_0000 {
            0x100_0000_0000
        } else {
            delta_ns
        };
        let delta_fx: i64 = (capped * 65536 / 1000000000) as i64;

        match try_recv_value(&self.channel.1) {
            Polled::Empty => {
                self.dispatch(delta_fx);
                true
            },
            Polled::Event(RecvEvent::Exit) => false,
            Polled::Closed => false,
        }
    }
}

} // verus!
