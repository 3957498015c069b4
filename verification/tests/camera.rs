use nalgebra_glm as glm;
use rtengine::camera::Camera;
use rtengine::camera::Frame;
use rtengine::camera::Pose;
use rtengine::render::frame_intent;
use rtengine::render::limit_pitch;
use rtengine::render::Control;
use rtengine::render::Intent;
use rtengine::scalar::Scalar;
use rtengine::vector::Mat4;
use rtengine::vector::Vec3;
use rtengine::vector::Vec4;

fn s(x: f32) -> Scalar {
    Scalar::from_bits(x.to_bits())
}

fn f(x: Scalar) -> f32 {
    f32::from_bits(x.to_bits())
}

fn v3(x: f32, y: f32, z: f32) -> Vec3 {
    Vec3::new(s(x), s(y), s(z))
}

fn to_glm(v: Vec3) -> glm::Vec3 {
    glm::vec3(f(v.x), f(v.y), f(v.z))
}

fn from_glm(v: &glm::Vec3) -> Vec3 {
    v3(v.x, v.y, v.z)
}

fn column(m: &glm::Mat4, i: usize) -> Vec4 {
    let c = m.column(i);
    Vec4::new(s(c[0]), s(c[1]), s(c[2]), s(c[3]))
}

fn matrix(m: &glm::Mat4) -> Mat4 {
    Mat4::from_columns(column(m, 0), column(m, 1), column(m, 2), column(m, 3))
}

fn rotation_of(ang: &glm::Vec3) -> glm::Mat4 {
    let rotation_x = glm::rotation(ang.x, &glm::vec3(1.0, 0.0, 0.0));
    let rotation_y = glm::rotation(ang.y, &glm::vec3(0.0, 1.0, 0.0));
    let rotation_z = glm::rotation(ang.z, &glm::vec3(0.0, 0.0, 1.0));
    rotation_y * rotation_x * rotation_z
}

fn frame_of(m: &glm::Mat4) -> Frame {
    Frame {
        rts: matrix(m),
        left: from_glm(&m.column(0).xyz().normalize()),
        up: from_glm(&m.column(1).xyz().normalize()),
        front: from_glm(&m.column(2).xyz().normalize()),
    }
}

fn local_to_world(pose: Pose) -> Frame {
    let translation = glm::translation(&to_glm(pose.pos));
    let rotation = rotation_of(&to_glm(pose.ang));
    let scale = glm::scaling(&glm::vec3(1.0, 1.0, 1.0));
    frame_of(&(scale * translation * rotation))
}

fn view_projection(pose: Pose) -> Frame {
    let offset = glm::vec3(0.0, 0.0, -1.0);
    let translation = glm::translation(&(offset - to_glm(pose.pos)));
    let rotation = rotation_of(&to_glm(pose.ang));
    let projection = glm::perspective(720.0 / 400.0, f(pose.fov), f(pose.z_near), f(pose.z_far));
    frame_of(&(projection * rotation * translation))
}

fn mat4_numbers(m: &Mat4) -> [f32; 16] {
    let mut out = [0.0f32; 16];
    for (i, c) in [m.c0, m.c1, m.c2, m.c3].iter().enumerate() {
        out[4 * i] = f(c.x);
        out[4 * i + 1] = f(c.y);
        out[4 * i + 2] = f(c.z);
        out[4 * i + 3] = f(c.w);
    }
    out
}

fn close(v: Vec3, x: f32, y: f32, z: f32) -> bool {
    (f(v.x) - x).abs() < 1e-5 && (f(v.y) - y).abs() < 1e-5 && (f(v.z) - z).abs() < 1e-5
}

#[test]
fn new_camera_has_default_pose_and_the_world_axes() {
    let camera = Camera::new();
    assert_eq!(camera.pos(), v3(0.0, 0.0, 0.0));
    assert_eq!(camera.ang(), v3(0.0, 0.0, 0.0));
    assert_eq!(f(camera.fov()), 90.0);
    assert_eq!(f(camera.z_near()), 1.0);
    assert_eq!(f(camera.z_far()), 1000.0);
    assert_eq!(camera.rts(), matrix(&glm::Mat4::identity()));
    assert_eq!(camera.left(), v3(1.0, 0.0, 0.0));
    assert_eq!(camera.up(), v3(0.0, 1.0, 0.0));
    assert_eq!(camera.front(), v3(0.0, 0.0, 1.0));
}

#[test]
fn new_camera_has_the_columns_of_its_transform_as_basis() {
    let camera = Camera::new();
    let m = camera.rts();
    assert_eq!(camera.left(), m.c0.xyz());
    assert_eq!(camera.up(), m.c1.xyz());
    assert_eq!(camera.front(), m.c2.xyz());
    let basis = [camera.left(), camera.up(), camera.front()];
    for v in basis.iter() {
        let n = (f(v.x) * f(v.x) + f(v.y) * f(v.y) + f(v.z) * f(v.z)).sqrt();
        assert_eq!(n, 1.0);
    }
}

#[test]
fn new_camera_agrees_with_the_derivation_of_its_pose() {
    let camera = Camera::new();
    let pose = Pose {
        pos: camera.pos(),
        ang: camera.ang(),
        fov: camera.fov(),
        z_near: camera.z_near(),
        z_far: camera.z_far(),
    };
    let derived = local_to_world(pose);
    assert!(close(derived.left, f(camera.left().x), f(camera.left().y), f(camera.left().z)));
    assert!(close(derived.up, f(camera.up().x), f(camera.up().y), f(camera.up().z)));
    assert!(close(derived.front, f(camera.front().x), f(camera.front().y), f(camera.front().z)));
    let stored = mat4_numbers(&camera.rts());
    let again = mat4_numbers(&derived.rts);
    for i in 0..16 {
        assert!((stored[i] - again[i]).abs() < 1e-5);
    }
}

#[test]
fn unturned_camera_at_origin_has_world_axes_as_basis() {
    let mut camera = Camera::new();
    let frame = camera.set_view_params(
        v3(0.0, 0.0, 0.0),
        v3(0.0, 0.0, 0.0),
        s(90.0),
        s(1.0),
        s(10.0),
        local_to_world,
    );
    assert!(close(camera.left(), 1.0, 0.0, 0.0) || close(camera.left(), -1.0, 0.0, 0.0));
    assert!(close(camera.up(), 0.0, 1.0, 0.0));
    assert!(close(camera.front(), 0.0, 0.0, 1.0));
    assert_eq!(frame.left, camera.left());
    assert_eq!(frame.up, camera.up());
    assert_eq!(frame.front, camera.front());
    assert_eq!(frame.rts, camera.rts());
    assert_eq!(f(camera.fov()), 90.0);
    assert_eq!(f(camera.z_near()), 1.0);
    assert_eq!(f(camera.z_far()), 10.0);
}

#[test]
fn set_view_params_stores_every_property() {
    let mut camera = Camera::new();
    camera.set_view_params(
        v3(1.0, 2.0, 3.0),
        v3(0.1, 0.2, 0.3),
        s(60.0),
        s(0.5),
        s(250.0),
        local_to_world,
    );
    assert_eq!(camera.pos(), v3(1.0, 2.0, 3.0));
    assert_eq!(camera.ang(), v3(0.1, 0.2, 0.3));
    assert_eq!(f(camera.fov()), 60.0);
    assert_eq!(f(camera.z_near()), 0.5);
    assert_eq!(f(camera.z_far()), 250.0);
}

#[test]
fn set_vars_overwrites_only_what_is_given() {
    let mut camera = Camera::new();
    camera.set_vars(None, Some(v3(0.25, -0.5, 0.0)), None, Some(s(2.0)), None, local_to_world);
    assert_eq!(camera.pos(), v3(0.0, 0.0, 0.0));
    assert_eq!(camera.ang(), v3(0.25, -0.5, 0.0));
    assert_eq!(f(camera.fov()), 90.0);
    assert_eq!(f(camera.z_near()), 2.0);
    assert_eq!(f(camera.z_far()), 1000.0);
    camera.set_vars(Some(v3(4.0, 5.0, 6.0)), None, Some(s(45.0)), None, Some(s(99.0)), local_to_world);
    assert_eq!(camera.pos(), v3(4.0, 5.0, 6.0));
    assert_eq!(camera.ang(), v3(0.25, -0.5, 0.0));
    assert_eq!(f(camera.fov()), 45.0);
    assert_eq!(f(camera.z_near()), 2.0);
    assert_eq!(f(camera.z_far()), 99.0);
}

#[test]
fn set_vars_with_nothing_given_still_derives() {
    let mut camera = Camera::new();
    let turned = |pose: Pose| {
        let mut frame = local_to_world(pose);
        frame.front = v3(0.0, 0.0, -1.0);
        frame
    };
    assert_eq!(camera.front(), v3(0.0, 0.0, 1.0));
    let frame = camera.set_vars(None, None, None, None, None, turned);
    assert_eq!(frame.front, v3(0.0, 0.0, -1.0));
    assert_eq!(camera.front(), v3(0.0, 0.0, -1.0));
    assert_eq!(camera.pos(), v3(0.0, 0.0, 0.0));
    let frame = camera.set_vars(None, None, None, None, None, local_to_world);
    assert!(close(frame.front, 0.0, 0.0, 1.0));
    assert!(close(camera.front(), 0.0, 0.0, 1.0));
}

#[test]
fn rederiving_from_the_stored_pose_gives_the_stored_frame() {
    let mut camera = Camera::new();
    camera.set_view_params(
        v3(3.0, -2.0, 7.5),
        v3(0.4, 1.3, -0.2),
        s(70.0),
        s(1.0),
        s(10.0),
        local_to_world,
    );
    camera.set_vars(Some(v3(-1.0, 0.5, 2.0)), None, None, None, None, local_to_world);
    camera.set_vars(None, Some(v3(-0.7, 2.9, 0.1)), None, None, None, local_to_world);
    let stored = Frame {
        rts: camera.rts(),
        left: camera.left(),
        up: camera.up(),
        front: camera.front(),
    };
    let pose = Pose {
        pos: camera.pos(),
        ang: camera.ang(),
        fov: camera.fov(),
        z_near: camera.z_near(),
        z_far: camera.z_far(),
    };
    assert_eq!(local_to_world(pose), stored);
    let again = camera.set_vars(None, None, None, None, None, local_to_world);
    assert_eq!(again, stored);
}

#[test]
fn setting_the_position_alone_keeps_orientation_and_optics() {
    let mut camera = Camera::new();
    camera.set_view_params(
        v3(0.0, 0.0, 0.0),
        v3(0.3, -1.1, 0.6),
        s(75.0),
        s(0.25),
        s(500.0),
        local_to_world,
    );
    let ang = camera.ang();
    let fov = camera.fov();
    let near = camera.z_near();
    let far = camera.z_far();
    let left = camera.left();
    let up = camera.up();
    let front = camera.front();
    let before = camera.rts();
    camera.set_vars(Some(v3(10.0, -20.0, 30.0)), None, None, None, None, local_to_world);
    assert_eq!(camera.pos(), v3(10.0, -20.0, 30.0));
    assert_eq!(camera.ang(), ang);
    assert_eq!(camera.fov(), fov);
    assert_eq!(camera.z_near(), near);
    assert_eq!(camera.z_far(), far);
    assert_eq!(camera.left(), left);
    assert_eq!(camera.up(), up);
    assert_eq!(camera.front(), front);
    assert_eq!(camera.rts().c0, before.c0);
    assert_eq!(camera.rts().c1, before.c1);
    assert_eq!(camera.rts().c2, before.c2);
    assert_eq!(camera.rts().c3, Vec4::new(s(10.0), s(-20.0), s(30.0), s(1.0)));
}

#[test]
fn local_to_world_places_the_camera_in_the_last_column() {
    let mut camera = Camera::new();
    camera.set_vars(Some(v3(1.5, 2.5, -3.5)), None, None, None, None, local_to_world);
    let m = camera.rts();
    assert_eq!(m.c3, Vec4::new(s(1.5), s(2.5), s(-3.5), s(1.0)));
    assert_eq!(m.c0, Vec4::new(s(1.0), s(0.0), s(0.0), s(0.0)));
}

#[test]
fn yaw_of_a_quarter_turn_swings_front_onto_the_x_axis() {
    let mut camera = Camera::new();
    camera.set_vars(
        None,
        Some(v3(0.0, std::f32::consts::FRAC_PI_2, 0.0)),
        None,
        None,
        None,
        local_to_world,
    );
    assert!(close(camera.front(), 1.0, 0.0, 0.0));
    assert!(close(camera.up(), 0.0, 1.0, 0.0));
    assert!(close(camera.left(), 0.0, 0.0, -1.0));
}

#[test]
fn the_two_derivations_give_different_transforms() {
    let mut traced = Camera::new();
    let mut rastered = Camera::new();
    traced.set_vars(Some(v3(0.0, 0.0, 5.0)), None, None, Some(s(1.0)), Some(s(10.0)), local_to_world);
    rastered.set_vars(
        Some(v3(0.0, 0.0, 5.0)),
        None,
        None,
        Some(s(1.0)),
        Some(s(10.0)),
        view_projection,
    );
    assert_eq!(traced.pos(), rastered.pos());
    assert_ne!(traced.rts(), rastered.rts());
    assert_eq!(f(traced.rts().c3.z), 5.0);
    let basis = [rastered.left(), rastered.up(), rastered.front()];
    for v in basis.iter() {
        let n = (f(v.x) * f(v.x) + f(v.y) * f(v.y) + f(v.z) * f(v.z)).sqrt();
        assert!((n - 1.0).abs() < 1e-5);
    }
}

#[test]
fn non_finite_input_is_accepted_and_carried_through() {
    let mut camera = Camera::new();
    camera.set_vars(Some(v3(f32::NAN, f32::INFINITY, 0.0)), None, None, None, None, local_to_world);
    assert!(f(camera.pos().x).is_nan());
    assert_eq!(f(camera.pos().y), f32::INFINITY);
    assert!(f(camera.rts().c3.x).is_nan());
}

fn advance(camera: &mut Camera, intent: Intent, dt: f32, move_speed: f32, rotation_speed: f32) {
    let step = dt * move_speed;
    let movement = to_glm(camera.left()) * (intent.left as f32 * step)
        + to_glm(camera.front()) * (intent.front as f32 * step)
        + to_glm(camera.up()) * (intent.up as f32 * step);
    let mut ang = to_glm(camera.ang());
    ang.y += intent.yaw as f32 * dt * rotation_speed;
    let proposed = ang.x + intent.pitch as f32 * dt * rotation_speed;
    ang.x = f(limit_pitch(s(ang.x), s(proposed)));
    let pos = to_glm(camera.pos()) + movement;
    camera.set_vars(Some(from_glm(&pos)), Some(from_glm(&ang)), None, None, None, local_to_world);
}

#[test]
fn frame_that_would_pass_the_pitch_limit_leaves_the_camera_as_it_was() {
    let epsilon = 1.0e-3f32;
    let pitch = std::f32::consts::FRAC_PI_2 - epsilon;
    let mut camera = Camera::new();
    camera.set_view_params(
        v3(2.0, 3.0, 4.0),
        v3(pitch, 0.75, 0.125),
        s(90.0),
        s(1.0),
        s(10.0),
        local_to_world,
    );
    let before = camera;
    let held = vec![Control::Down.id()];
    advance(&mut camera, frame_intent(&held), 0.016, 5.0, 3.0);
    assert_eq!(camera.ang(), before.ang());
    assert_eq!(f(camera.ang().x), pitch);
    assert_eq!(camera.pos(), before.pos());
    assert_eq!(camera.rts(), before.rts());
    assert_eq!(camera.left(), before.left());
    assert_eq!(camera.up(), before.up());
    assert_eq!(camera.front(), before.front());
    let held = vec![Control::Up.id()];
    advance(&mut camera, frame_intent(&held), 0.016, 5.0, 3.0);
    assert_eq!(f(camera.ang().x), pitch - 0.016 * 3.0);
    assert_eq!(camera.ang().y, before.ang().y);
    assert_eq!(camera.ang().z, before.ang().z);
}

#[test]
fn setting_nothing_twice_leaves_all_nine_properties() {
    let mut camera = Camera::new();
    camera.set_view_params(
        v3(-4.0, 0.5, 9.0),
        v3(0.9, -2.2, 0.3),
        s(50.0),
        s(0.1),
        s(77.0),
        local_to_world,
    );
    let before = camera;
    camera.set_vars(None, None, None, None, None, local_to_world);
    camera.set_vars(None, None, None, None, None, local_to_world);
    assert_eq!(camera.pos(), before.pos());
    assert_eq!(camera.ang(), before.ang());
    assert_eq!(camera.fov(), before.fov());
    assert_eq!(camera.z_near(), before.z_near());
    assert_eq!(camera.z_far(), before.z_far());
    assert_eq!(camera.rts(), before.rts());
    assert_eq!(camera.left(), before.left());
    assert_eq!(camera.up(), before.up());
    assert_eq!(camera.front(), before.front());
}
