use rtengine::render::frame_intent;
use rtengine::render::is_pitch_allowed;
use rtengine::render::limit_pitch;
use rtengine::render::Control;
use rtengine::render::Intent;
use rtengine::scalar::Scalar;

fn s(x: f32) -> Scalar {
    Scalar::from_bits(x.to_bits())
}

fn f(x: Scalar) -> f32 {
    f32::from_bits(x.to_bits())
}

const ALL: [Control; 10] = [
    Control::A,
    Control::D,
    Control::W,
    Control::S,
    Control::Space,
    Control::LShift,
    Control::Right,
    Control::Left,
    Control::Up,
    Control::Down,
];

#[test]
fn identifiers_and_controls_correspond() {
    for (i, c) in ALL.iter().enumerate() {
        assert_eq!(c.id(), i as u32);
        assert_eq!(Control::from_id(c.id()), Some(*c));
    }
    assert_eq!(Control::from_id(10), None);
    assert_eq!(Control::from_id(u32::MAX), None);
}

#[test]
fn no_control_asks_for_nothing() {
    assert_eq!(frame_intent(&Vec::new()), Intent { left: 0, up: 0, front: 0, yaw: 0, pitch: 0 });
    assert_eq!(
        frame_intent(&vec![10, 11, 4000]),
        Intent { left: 0, up: 0, front: 0, yaw: 0, pitch: 0 }
    );
}

#[test]
fn each_control_asks_for_one_step_in_its_direction() {
    let step = |c: Control| frame_intent(&vec![c.id()]);
    assert_eq!(step(Control::A), Intent { left: -1, up: 0, front: 0, yaw: 0, pitch: 0 });
    assert_eq!(step(Control::D), Intent { left: 1, up: 0, front: 0, yaw: 0, pitch: 0 });
    assert_eq!(step(Control::W), Intent { left: 0, up: 0, front: 1, yaw: 0, pitch: 0 });
    assert_eq!(step(Control::S), Intent { left: 0, up: 0, front: -1, yaw: 0, pitch: 0 });
    assert_eq!(step(Control::Space), Intent { left: 0, up: 1, front: 0, yaw: 0, pitch: 0 });
    assert_eq!(step(Control::LShift), Intent { left: 0, up: -1, front: 0, yaw: 0, pitch: 0 });
    assert_eq!(step(Control::Right), Intent { left: 0, up: 0, front: 0, yaw: 1, pitch: 0 });
    assert_eq!(step(Control::Left), Intent { left: 0, up: 0, front: 0, yaw: -1, pitch: 0 });
    assert_eq!(step(Control::Up), Intent { left: 0, up: 0, front: 0, yaw: 0, pitch: -1 });
    assert_eq!(step(Control::Down), Intent { left: 0, up: 0, front: 0, yaw: 0, pitch: 1 });
}

#[test]
fn opposed_controls_cancel() {
    let held = vec![Control::A.id(), Control::W.id(), Control::D.id(), Control::Up.id(), 77];
    assert_eq!(frame_intent(&held), Intent { left: 0, up: 0, front: 1, yaw: 0, pitch: -1 });
    let all: Vec<u32> = ALL.iter().map(|c| c.id()).collect();
    assert_eq!(frame_intent(&all), Intent { left: 0, up: 0, front: 0, yaw: 0, pitch: 0 });
}

#[test]
fn repeated_identifier_counts_once() {
    let held = vec![Control::D.id(), Control::D.id(), Control::D.id()];
    assert_eq!(frame_intent(&held).left, 1);
}

#[test]
fn pitch_limit_is_a_quarter_turn_either_way() {
    let quarter = std::f32::consts::FRAC_PI_2;
    assert!(is_pitch_allowed(s(0.0)));
    assert!(is_pitch_allowed(s(-0.0)));
    assert!(is_pitch_allowed(s(1.5)));
    assert!(is_pitch_allowed(s(-1.5)));
    assert!(!is_pitch_allowed(s(quarter)));
    assert!(!is_pitch_allowed(s(-quarter)));
    assert!(!is_pitch_allowed(s(2.0)));
    assert!(!is_pitch_allowed(s(-2.0)));
    assert!(!is_pitch_allowed(s(f32::INFINITY)));
    assert!(!is_pitch_allowed(s(f32::NEG_INFINITY)));
    assert!(!is_pitch_allowed(s(f32::NAN)));
    let below = f32::from_bits(quarter.to_bits() - 1);
    assert!(is_pitch_allowed(s(below)));
    assert!(is_pitch_allowed(s(-below)));
}

#[test]
fn turn_past_the_limit_is_dropped() {
    let quarter = std::f32::consts::FRAC_PI_2;
    let epsilon = 1.0e-3f32;
    let pitch = s(quarter - epsilon);
    let proposed = s(f(pitch) + 3.0 * 0.016);
    assert_eq!(limit_pitch(pitch, proposed), pitch);
    let down = s(-(quarter - epsilon));
    let proposed = s(f(down) - 3.0 * 0.016);
    assert_eq!(limit_pitch(down, proposed), down);
    let exactly = s(quarter);
    assert_eq!(limit_pitch(pitch, exactly), pitch);
}

#[test]
fn turn_within_the_limit_is_taken_whole() {
    let pitch = s(0.5);
    let proposed = s(0.5 + 3.0 * 0.016);
    assert_eq!(limit_pitch(pitch, proposed), proposed);
    let back = s(1.2);
    assert_eq!(limit_pitch(s(1.5703), back), back);
    assert_eq!(limit_pitch(s(3.0), s(1.0)), s(1.0));
}

#[test]
fn turn_to_no_number_is_dropped() {
    assert_eq!(limit_pitch(s(0.25), s(f32::NAN)), s(0.25));
}
