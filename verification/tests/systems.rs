use explore::control::{MouseButton, RecvEvent};
use explore::math::{Point2, Point3I, Rect, Vec3};
use explore::ortho_helper::OrthographicHelper;
use explore::world::Components;
use explore::{
    Camera, Clickable, Control, LinkConnector, Mapper, RenderData, Render, SpatialMap, Transform,
    Wire, WireFlow, WireIn, World, SCALE,
};

#[test]
fn spatial_map_insert_then_lookup() {
    let mut m = SpatialMap::new();
    let c = Point3I::new(1, -2, 3);
    assert_eq!(m.lookup(&c), None);
    m.insert(c, 7);
    assert_eq!(m.lookup(&c), Some(7));
    // A second insert at the same coordinate overwrites the first.
    m.insert(c, 9);
    assert_eq!(m.lookup(&c), Some(9));
    // Other coordinates are untouched.
    let d = Point3I::new(0, 0, 0);
    m.insert(d, 1);
    assert_eq!(m.lookup(&c), Some(9));
    assert_eq!(m.lookup(&d), Some(1));
}

fn test_ortho() -> OrthographicHelper {
    OrthographicHelper::new(SCALE, 90 * SCALE, 0, 10 * SCALE)
}

fn main_camera() -> Camera {
    Camera::new_from_ortho_helper(
        Vec3::new(0, 0, 2 * SCALE),
        Vec3::new(0, 0, 0),
        Vec3::new(0, SCALE, 0),
        &test_ortho(),
        true,
    )
}

fn control_channel() -> (
    std::sync::mpsc::Sender<RecvEvent>,
    std::sync::mpsc::Receiver<explore::control::SendEvent>,
    explore::control::Channel,
) {
    let (to_control, from_dev) = std::sync::mpsc::channel();
    let (to_dev, from_control) = std::sync::mpsc::channel();
    (to_control, from_control, (to_dev, from_dev))
}

fn test_control(channel: explore::control::Channel) -> Control {
    Control::new(
        channel,
        Point2::new(10 * SCALE, 10 * SCALE),
        Point2::new(0, 0),
        Point2::new(640, 480),
        test_ortho(),
    )
}

#[test]
fn axis_sign_follows_last_pressed_key() {
    let (_tx, _rx, ch) = control_channel();
    let mut c = test_control(ch);
    c.apply_event(RecvEvent::Right(true));
    assert!(matches!(c.move_h, explore::control::Sign::Pos));
    // A later press wins the axis even while the first key is held.
    c.apply_event(RecvEvent::Left(true));
    assert!(matches!(c.move_h, explore::control::Sign::Neg));
    // Releasing the key that is not the active one keeps the axis.
    c.apply_event(RecvEvent::Right(false));
    assert!(matches!(c.move_h, explore::control::Sign::Neg));
    // Releasing the active key clears it.
    c.apply_event(RecvEvent::Left(false));
    assert!(matches!(c.move_h, explore::control::Sign::Zero));
    // The vertical axis works the same way, independently.
    c.apply_event(RecvEvent::Up(true));
    c.apply_event(RecvEvent::Down(true));
    c.apply_event(RecvEvent::Up(false));
    assert!(matches!(c.move_v, explore::control::Sign::Neg));
}

#[test]
fn control_moves_main_camera_by_held_sign() {
    let (tx, _rx, ch) = control_channel();
    let mut c = test_control(ch);
    let mut w = World::new();
    w.create_now(Components::empty().with_camera(main_camera()));
    tx.send(RecvEvent::Right(true)).unwrap();
    tx.send(RecvEvent::Up(false)).unwrap();
    // One second at speed 10 moves the camera 10 units right.
    c.run(&mut w, SCALE);
    let cam = w.get_camera(0).unwrap();
    assert_eq!(cam.eye.x, 10 * SCALE);
    assert_eq!(cam.eye.y, 0);
    assert_eq!(cam.target.x, 10 * SCALE);
}

#[test]
fn control_resize_recomputes_aspect_ratio() {
    let (tx, rx, ch) = control_channel();
    let mut c = test_control(ch);
    let mut w = World::new();
    w.create_now(Components::empty().with_camera(main_camera()));
    tx.send(RecvEvent::Resize(800, 600)).unwrap();
    c.run(&mut w, 0);
    let cam = w.get_camera(0).unwrap();
    assert_eq!(cam.aspect_ratio, 800 * SCALE / 600);
    assert_eq!(c.screen_resolution, Point2::new(800, 600));
    // The resize was also reported back at once.
    assert!(matches!(rx.try_recv(), Ok(explore::control::SendEvent::Resize)));
}

#[test]
fn control_exit_ends_participation() {
    let (tx, rx, ch) = control_channel();
    let mut c = test_control(ch);
    let mut w = World::new();
    w.create_now(Components::empty().with_camera(main_camera()));
    tx.send(RecvEvent::Right(true)).unwrap();
    tx.send(RecvEvent::Exit).unwrap();
    c.run(&mut w, SCALE);
    assert!(c.exited);
    // The world is untouched once the exit arrived.
    assert_eq!(w.get_camera(0).unwrap().eye.x, 0);
    assert!(matches!(rx.try_recv(), Ok(explore::control::SendEvent::Exited)));
}

#[test]
fn click_hit_test_sets_and_clears_latch() {
    let mut w = World::new();
    w.create_now(Components::empty().with_camera(main_camera()));
    let t = Transform::new(Vec3::new(0, 0, 0), Vec3::new(0, 0, 0), Vec3::new(SCALE, SCALE, SCALE));
    let hit = Clickable::new(Rect::new_from_coords(0, 0, SCALE, SCALE));
    let e = w.create_now(Components::empty().with_transform(t).with_clickable(hit));
    // A click unprojected to (0.5, 0.5) lands inside the unit hitbox.
    Control::apply_click(&mut w, Point2::new(SCALE / 2, SCALE / 2));
    assert!(w.get_clickable(e).unwrap().get_clicked());
    // A later click at (5, 5) falls outside and clears the latch.
    Control::apply_click(&mut w, Point2::new(5 * SCALE, 5 * SCALE));
    assert!(!w.get_clickable(e).unwrap().get_clicked());
}

#[test]
fn full_click_path_through_mouse_events() {
    let (tx, _rx, ch) = control_channel();
    let mut c = test_control(ch);
    let mut w = World::new();
    w.create_now(Components::empty().with_camera(main_camera()));
    // A hitbox around the point the screen center unprojects to.
    let t = Transform::new(Vec3::new(0, 0, 0), Vec3::new(0, 0, 0), Vec3::new(SCALE, SCALE, SCALE));
    let hit = Clickable::new(Rect::new_from_coords(-SCALE, -SCALE, SCALE, SCALE));
    let e = w.create_now(Components::empty().with_transform(t).with_clickable(hit));
    // Move the mouse to the screen center, then left-click.
    tx.send(RecvEvent::MouseMoved(320, 240)).unwrap();
    tx.send(RecvEvent::MouseInput(true, MouseButton::Left)).unwrap();
    c.run(&mut w, 0);
    assert!(w.get_clickable(e).unwrap().get_clicked());
}

#[test]
fn click_path_hits_then_misses_through_run() {
    let (tx, _rx, ch) = control_channel();
    // A 32x32-pixel viewport makes the unprojection land on exact
    // fixed-point values: pixel (17, 15) unprojects to world point
    // (0.5, 0.5) and pixel (26, 6) to (5, 5).
    let mut c = Control::new(
        ch,
        Point2::new(10 * SCALE, 10 * SCALE),
        Point2::new(0, 0),
        Point2::new(32, 32),
        test_ortho(),
    );
    let mut w = World::new();
    w.create_now(Components::empty().with_camera(main_camera()));
    let t = Transform::new(Vec3::new(0, 0, 0), Vec3::new(0, 0, 0), Vec3::new(SCALE, SCALE, SCALE));
    let hit = Clickable::new(Rect::new_from_coords(0, 0, SCALE, SCALE));
    let e = w.create_now(Components::empty().with_transform(t).with_clickable(hit));

    // A left click unprojecting to (0.5, 0.5) lands inside the
    // (0,0)-(1,1) hitbox and sets the latch.
    tx.send(RecvEvent::MouseMoved(17, 15)).unwrap();
    tx.send(RecvEvent::MouseInput(true, MouseButton::Left)).unwrap();
    c.run(&mut w, 0);
    assert!(w.get_clickable(e).unwrap().get_clicked());

    // A later left click unprojecting to (5, 5) misses and clears
    // the latch on the entity that was clicked before.
    tx.send(RecvEvent::MouseMoved(26, 6)).unwrap();
    tx.send(RecvEvent::MouseInput(true, MouseButton::Left)).unwrap();
    c.run(&mut w, 0);
    assert!(!w.get_clickable(e).unwrap().get_clicked());
}

#[test]
fn link_resolution_is_permanent() {
    let mut w = World::new();
    let upstream = Point3I::new(-1, 0, 0);
    let e1 = w.create_now(Components::empty().with_wire(Wire::new_from_points(
        Point3I::new(-2, 0, 0),
        Point3I::new(0, 0, 0),
        upstream,
    )));
    let e_in = w.create_now(Components::empty().with_wire_in(WireIn::new_from_points(
        upstream,
        Point3I::new(0, 0, 0),
    )));
    let mut connector = LinkConnector::new();

    // Unresolved until the mapper has inserted the coordinate.
    connector.run(&mut w);
    assert_eq!(w.get_wire_in(e_in).unwrap().get_output().get_fast(), None);

    Mapper::apply_mapping(&mut w, upstream, e1);
    connector.run(&mut w);
    assert_eq!(w.get_wire_in(e_in).unwrap().get_output().get_fast(), Some(&e1));

    // A later insert at the same coordinate does not rewrite the cache.
    let e2 = w.create_now(Components::empty());
    Mapper::apply_mapping(&mut w, upstream, e2);
    connector.run(&mut w);
    assert_eq!(w.get_wire_in(e_in).unwrap().get_output().get_fast(), Some(&e1));
}

#[test]
fn wire_flow_propagates_one_hop_then_settles() {
    let mut w = World::new();
    let upstream_coord = Point3I::new(-1, 0, 0);
    let mut upstream = Wire::new_from_points(
        Point3I::new(-2, 0, 0),
        Point3I::new(0, 0, 0),
        upstream_coord,
    );
    upstream.set_value(1);
    let e_up = w.create_now(Components::empty().with_wire(upstream));
    let e_in = w.create_now(Components::empty().with_wire_in(WireIn::new_from_points(
        upstream_coord,
        Point3I::new(0, 0, 0),
    )));

    Mapper::apply_mapping(&mut w, upstream_coord, e_up);
    LinkConnector::new().run(&mut w);

    let mut flow = WireFlow::new();
    flow.run(&mut w);
    let win = w.get_wire_in(e_in).unwrap();
    assert_eq!(win.get_value(), 1);
    assert!(win.get_dirty());

    // The next tick sees no upstream change: value kept, mark cleared.
    flow.run(&mut w);
    let win = w.get_wire_in(e_in).unwrap();
    assert_eq!(win.get_value(), 1);
    assert!(!win.get_dirty());
}

#[test]
fn wire_flow_skips_unresolved_links() {
    let mut w = World::new();
    let e_in = w.create_now(Components::empty().with_wire_in(WireIn::new_from_points(
        Point3I::new(-1, 0, 0),
        Point3I::new(0, 0, 0),
    )));
    let before = *w.get_wire_in(e_in).unwrap();
    WireFlow::new().run(&mut w);
    assert_eq!(*w.get_wire_in(e_in).unwrap(), before);
}

fn tile_render_data(layer: u8) -> RenderData {
    RenderData::new(
        layer,
        [SCALE / 2, SCALE / 2, SCALE / 2, SCALE],
        [0, 0, 32 * SCALE, 32 * SCALE],
        [32 * SCALE, 32 * SCALE],
    )
}

#[test]
fn draw_list_sorts_by_ascending_layer() {
    let mut w = World::new();
    w.create_now(Components::empty().with_camera(main_camera()));
    let t = Transform::new(Vec3::new(0, 0, 0), Vec3::new(0, 0, 0), Vec3::new(SCALE, SCALE, SCALE));
    for (id, layer) in [(10usize, 3u8), (11, 1), (12, 2)] {
        w.create_now(
            Components::empty()
                .with_render_id(explore::RenderId { id })
                .with_transform(t)
                .with_render_data(tile_render_data(layer)),
        );
    }
    let list = Render::build_draw_list(&mut w);
    let layers: Vec<u8> = list.iter().map(|d| d.layer).collect();
    let ids: Vec<usize> = list.iter().map(|d| d.id).collect();
    assert_eq!(layers, vec![1, 2, 3]);
    assert_eq!(ids, vec![11, 12, 10]);
}

#[test]
fn draw_list_emits_updates_for_two_ticks_only() {
    let mut w = World::new();
    w.create_now(Components::empty().with_camera(main_camera()));
    let t = Transform::new(Vec3::new(0, 0, 0), Vec3::new(0, 0, 0), Vec3::new(SCALE, SCALE, SCALE));
    w.create_now(
        Components::empty()
            .with_render_id(explore::RenderId { id: 0 })
            .with_transform(t)
            .with_render_data(tile_render_data(0)),
    );
    let first = Render::build_draw_list(&mut w);
    assert!(first[0].texture_data.is_some());
    assert!(first[0].projection_data.is_some());
    let second = Render::build_draw_list(&mut w);
    assert!(second[0].texture_data.is_some());
    assert!(second[0].projection_data.is_some());
    let third = Render::build_draw_list(&mut w);
    assert!(third[0].texture_data.is_none());
    assert!(third[0].projection_data.is_none());
}
