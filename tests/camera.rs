use nbodies::camera::{actions_of, frame_speed, frame_steps, sign_of, FrameActions, InputFrame, Sign, Step, BOOST_FACTOR};
use nbodies::config::WorldConfig;

fn idle() -> InputFrame {
    InputFrame { forward: false, backward: false, strafe_left: false, strafe_right: false, up: false, down: false, boost: false }
}

#[test]
fn sign_of_pairs() {
    assert_eq!(sign_of(true, false), Sign::Positive);
    assert_eq!(sign_of(false, true), Sign::Negative);
    assert_eq!(sign_of(true, true), Sign::Zero);
    assert_eq!(sign_of(false, false), Sign::Zero);
}

#[test]
fn idle_frame_only_faces_target() {
    assert_eq!(frame_steps(&idle()), vec![Step::FaceTarget]);
}

#[test]
fn opposing_inputs_cancel() {
    let i = InputFrame { forward: true, backward: true, strafe_left: true, strafe_right: true, ..idle() };
    assert_eq!(frame_steps(&i), vec![Step::FaceTarget]);
    let j = InputFrame { forward: true, backward: true, up: true, ..idle() };
    assert_eq!(frame_steps(&j), vec![Step::Pitch(Sign::Positive), Step::FaceTarget]);
}

#[test]
fn pure_yaw_plan() {
    let i = InputFrame { strafe_left: true, ..idle() };
    assert_eq!(frame_steps(&i), vec![Step::Yaw(Sign::Positive), Step::FaceTarget]);
    let k = InputFrame { strafe_right: true, ..idle() };
    assert_eq!(frame_steps(&k), vec![Step::Yaw(Sign::Negative), Step::FaceTarget]);
}

#[test]
fn pure_zoom_plan() {
    let i = InputFrame { forward: true, ..idle() };
    assert_eq!(frame_steps(&i), vec![Step::Dolly(Sign::Positive), Step::FaceTarget]);
    let k = InputFrame { backward: true, ..idle() };
    assert_eq!(frame_steps(&k), vec![Step::Dolly(Sign::Negative), Step::FaceTarget]);
}

#[test]
fn full_plan_is_ordered() {
    let i = InputFrame { forward: true, strafe_right: true, down: true, boost: true, ..idle() };
    assert_eq!(
        frame_steps(&i),
        vec![Step::Yaw(Sign::Negative), Step::Pitch(Sign::Negative), Step::Dolly(Sign::Positive), Step::FaceTarget]
    );
    assert_eq!(
        actions_of(&i),
        FrameActions { yaw: Sign::Negative, pitch: Sign::Negative, dolly: Sign::Positive, boosted: true }
    );
}

#[test]
fn boost_triples_speed() {
    assert_eq!(BOOST_FACTOR, 3);
    assert_eq!(frame_speed(100, false), 100);
    assert_eq!(frame_speed(100, true), 300);
    assert_eq!(frame_speed(0, true), 0);
}

#[test]
fn up_frame_from_distance_two_hundred() {
    let c = WorldConfig::new(100, 0).unwrap();
    assert_eq!(c.camera_distance, 200);
    let i = InputFrame { up: true, ..idle() };
    assert_eq!(frame_steps(&i), vec![Step::Pitch(Sign::Positive), Step::FaceTarget]);
    let speed = frame_speed(c.camera_speed, actions_of(&i).boosted);
    assert_eq!(speed, 100);
    let omega = speed as f64 / c.camera_distance as f64;
    assert!((omega * 1.0 - 0.5).abs() < 1e-12);
}
