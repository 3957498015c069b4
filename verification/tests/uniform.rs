use rtengine::raytracing::RTCamera;
use rtengine::raytracing::RTSettings;
use rtengine::raytracing::Vec3a16;
use rtengine::scalar::Scalar;
use rtengine::uniform::uniform_field_name;
use rtengine::uniform::UniformValue;
use rtengine::vector::Mat4;
use rtengine::vector::Vec2;
use rtengine::vector::Vec3;

fn s(x: f32) -> Scalar {
    Scalar::from_bits(x.to_bits())
}

#[test]
fn field_name_is_block_dot_field() {
    assert_eq!(uniform_field_name("camera", "fov"), "camera.fov");
    assert_eq!(uniform_field_name("", "x"), ".x");
    assert_eq!(uniform_field_name("a.b", ""), "a.b.");
}

#[test]
fn settings_are_sent_under_three_names() {
    let settings = RTSettings { max_bounces: 4, rays_per_frag: 16, diverge_strength: s(0.03) };
    let list = settings.uniforms("settings");
    let names: Vec<&str> = list.iter().map(|u| u.name.as_str()).collect();
    assert_eq!(names, vec!["settings.maxBounces", "settings.raysPerFrag", "settings.divergeStrength"]);
    assert_eq!(list[0].value, UniformValue::UInt(4));
    assert_eq!(list[1].value, UniformValue::UInt(16));
    assert_eq!(list[2].value, UniformValue::Float(s(0.03)));
}

#[test]
fn camera_is_sent_under_five_names() {
    let camera = RTCamera {
        screen_size: Vec2::new(s(720.0), s(400.0)),
        fov: s(60.0),
        focus_distance: s(1.0),
        pos: Vec3a16::new(s(1.0), s(2.0), s(3.0)),
        local_to_world: Mat4::identity(),
    };
    let list = camera.uniforms("camera");
    let names: Vec<&str> = list.iter().map(|u| u.name.as_str()).collect();
    assert_eq!(
        names,
        vec![
            "camera.screenSize",
            "camera.fov",
            "camera.focusDistance",
            "camera.pos",
            "camera.localToWorld"
        ]
    );
    assert_eq!(list[0].value, UniformValue::Float2(Vec2::new(s(720.0), s(400.0))));
    assert_eq!(list[1].value, UniformValue::Float(s(60.0)));
    assert_eq!(list[2].value, UniformValue::Float(s(1.0)));
    assert_eq!(list[3].value, UniformValue::Float3(Vec3::new(s(1.0), s(2.0), s(3.0))));
    assert_eq!(list[4].value, UniformValue::Matrix4(Mat4::identity()));
}
