use explore::dirty::DirtyFlag;
use explore::fixed::{clamp, fx_div, fx_mul};
use explore::math::{LineSeg, Point2, Point3I, Rect, Vec3};
use explore::ortho_helper::OrthographicHelper;
use explore::{Camera, RenderData, Shaders, SCALE};

#[test]
fn fx_div_truncates_toward_zero() {
    assert_eq!(fx_div(7, 2), 3);
    assert_eq!(fx_div(-7, 2), -3);
    assert_eq!(fx_div(0, 5), 0);
    assert_eq!(fx_div(-1, 5), 0);
}

#[test]
fn fx_mul_rescales() {
    // 1.5 * 2.0 == 3.0 in fixed-point steps.
    assert_eq!(fx_mul(3 * SCALE / 2, 2 * SCALE), 3 * SCALE);
    assert_eq!(fx_mul(-SCALE, SCALE / 2), -SCALE / 2);
}

#[test]
fn clamp_holds_bounds() {
    assert_eq!(clamp(5, 0, 10), 5);
    assert_eq!(clamp(-5, 0, 10), 0);
    assert_eq!(clamp(15, 0, 10), 10);
}

#[test]
fn rect_collides_inside_and_on_borders() {
    let r = Rect::new_from_coords(0, 0, SCALE, SCALE);
    assert!(r.check_collide_point(Point2::new(SCALE / 2, SCALE / 2)));
    assert!(r.check_collide_point(Point2::new(0, 0)));
    assert!(r.check_collide_point(Point2::new(SCALE, SCALE)));
    assert!(!r.check_collide_point(Point2::new(SCALE + 1, SCALE / 2)));
    assert!(!r.check_collide_point(Point2::new(SCALE / 2, -1)));
}

#[test]
fn rect_accessors_return_corners() {
    let r = Rect::new(LineSeg::new(Point2::new(1, 2), Point2::new(3, 4)));
    assert_eq!(r.get_bot_left(), Point2::new(1, 2));
    assert_eq!(r.get_top_right(), Point2::new(3, 4));
    assert_eq!(r.get_corners().get_a(), Point2::new(1, 2));
}

#[test]
fn point3i_accessors() {
    let p = Point3I::new(-1, 2, 3);
    assert_eq!(p.get_x(), -1);
    assert_eq!(p.get_y(), 2);
    assert_eq!(p.get_z(), 3);
    assert_eq!(Point3I::zero(), Point3I::new(0, 0, 0));
}

#[test]
fn dirty_flag_reports_exactly_twice() {
    let mut f = DirtyFlag::new_dirty();
    assert!(f.take());
    assert!(f.take());
    assert!(!f.take());
    assert!(!f.take());
    f.mark();
    assert!(f.take());
    assert!(f.take());
    assert!(!f.take());
}

fn test_ortho() -> OrthographicHelper {
    // 640x480 window: aspect 4/3, fov 90, depth 10 world units.
    OrthographicHelper::new(640 * SCALE / 480, 90 * SCALE, 0, 10 * SCALE)
}

fn test_camera(main: bool) -> Camera {
    Camera::new_from_ortho_helper(
        Vec3::new(0, 0, 2 * SCALE),
        Vec3::new(0, 0, 0),
        Vec3::new(0, SCALE, 0),
        &test_ortho(),
        main,
    )
}

#[test]
fn camera_take_dirty_follows_double_buffer() {
    let mut c = test_camera(true);
    assert!(c.take_dirty());
    assert!(c.take_dirty());
    assert!(!c.take_dirty());
    c.set_offset(Point2::new(SCALE, SCALE));
    assert!(c.take_dirty());
    assert!(c.take_dirty());
    assert!(!c.take_dirty());
}

#[test]
fn camera_set_proj_refreshes_aspect_and_dirty() {
    let mut c = test_camera(true);
    while c.take_dirty() {}
    let o = OrthographicHelper::new(2 * SCALE, 90 * SCALE, 0, 10 * SCALE);
    c.set_proj(&o);
    assert_eq!(c.aspect_ratio, 2 * SCALE);
    assert!(c.take_dirty());
    assert!(c.take_dirty());
    assert!(!c.take_dirty());
}

#[test]
fn unprojection_center_of_screen_is_camera_offset() {
    let c = test_camera(true);
    let p = c.screen_to_world_point(Point2::new(SCALE / 2, SCALE / 2));
    assert_eq!(p, Point2::new(0, 0));
}

#[test]
fn unprojection_left_edge_exact_value() {
    // aspect exactly 1 to keep the y formula's division trivial.
    let ortho = OrthographicHelper::new(SCALE, 90 * SCALE, 0, 10 * SCALE);
    let c = Camera::new_from_ortho_helper(
        Vec3::new(0, 0, 2 * SCALE),
        Vec3::new(0, 0, 0),
        Vec3::new(0, SCALE, 0),
        &ortho,
        true,
    );
    let p = c.screen_to_world_point(Point2::new(0, SCALE / 2));
    // ((0*2 - 1) * 10) * 4/5 == -8 world units.
    assert_eq!(p.x, -8 * SCALE);
    assert_eq!(p.y, 0);
}

#[test]
fn unprojection_divides_by_aspect() {
    let ortho = OrthographicHelper::new(2 * SCALE, 90 * SCALE, 0, 10 * SCALE);
    let c = Camera::new_from_ortho_helper(
        Vec3::new(0, 0, 2 * SCALE),
        Vec3::new(0, 0, 0),
        Vec3::new(0, SCALE, 0),
        &ortho,
        true,
    );
    let p = c.screen_to_world_point(Point2::new(SCALE / 2, 0));
    // ((1 - 0)*2 - 1) * 10 / 2 * 4/5 == 4 world units.
    assert_eq!(p.y, 4 * SCALE);
    assert_eq!(p.x, 0);
}

#[test]
fn render_data_take_dirty_follows_double_buffer() {
    let mut rd = RenderData::new(
        3,
        [SCALE, SCALE, SCALE, SCALE],
        [0, 0, 32 * SCALE, 32 * SCALE],
        [32 * SCALE, 32 * SCALE],
    );
    assert!(rd.take_dirty());
    assert!(rd.take_dirty());
    assert!(!rd.take_dirty());
    rd.set_tint([0, 0, 0, SCALE]);
    assert!(rd.take_dirty());
    assert!(rd.take_dirty());
    assert!(!rd.take_dirty());
}

#[test]
fn render_data_setters_update_fields() {
    let mut rd = RenderData::new(3, [0, 0, 0, SCALE], [0, 0, SCALE, SCALE], [SCALE, SCALE]);
    rd.set_layer(7);
    assert_eq!(rd.get_layer(), 7);
    rd.set_mirror_x(true);
    rd.set_mirror_y(true);
    assert_eq!(rd.get_mirror(), (true, true));
    rd.set_tint([1, 2, 3, 4]);
    assert_eq!(rd.get_tint(), [1, 2, 3, 4]);
    rd.set_spritesheet_rect([5, 6, 7, 8]);
    assert_eq!(rd.get_spritesheet_rect(), [5, 6, 7, 8]);
    assert_eq!(rd.get_spritesheet_size(), [SCALE, SCALE]);
}

#[test]
fn ortho_helper_view_depth() {
    let o = OrthographicHelper::new(SCALE, 90 * SCALE, 2 * SCALE, 10 * SCALE);
    assert_eq!(o.get_view_depth(), 8 * SCALE);
    assert_eq!(o.get_znear(), 2 * SCALE);
    assert_eq!(o.get_zfar(), 10 * SCALE);
    assert_eq!(o.get_fov(), 90 * SCALE);
}

#[test]
fn shaders_hand_back_their_bytes() {
    let s = Shaders::new(vec![1, 2, 3], vec![4, 5]);
    assert_eq!(s.get_vertex_shader(), &[1, 2, 3]);
    assert_eq!(s.get_fragment_shader(), &[4, 5]);
}
