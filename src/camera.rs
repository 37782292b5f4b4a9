//! Per-frame decisions of the orbit camera: which rotations and which
//! translation a frame of input asks for, in which order they are applied, and
//! at what speed. The geometry itself is carried out by the host engine.
use vstd::prelude::*;

verus! {

/// Factor applied to both the linear and the angular speed while boost is held.
pub const BOOST_FACTOR: i64 = 3;

/// Which directional actions and whether boost are active in one frame.
#[derive(Clone, Copy, Debug, PartialEq, Eq, Structural)]
pub struct InputFrame {
    pub forward: bool,
    pub backward: bool,
    pub strafe_left: bool,
    pub strafe_right: bool,
    pub up: bool,
    pub down: bool,
    pub boost: bool,
}

/// Net direction of a pair of opposing inputs.
#[derive(Clone, Copy, Debug, PartialEq, Eq, Structural)]
pub enum Sign {
    Negative,
    Zero,
    Positive,
}

/// The action set derived once from raw input: the net direction of yaw
/// (about the vertical axis), of pitch (about the camera's right axis), of the
/// dolly along the view axis, and whether boost is held.
#[derive(Clone, Copy, Debug, PartialEq, Eq, Structural)]
pub struct FrameActions {
    pub yaw: Sign,
    pub pitch: Sign,
    pub dolly: Sign,
    pub boosted: bool,
}

/// One stage of a frame's update, applied in the order the plan lists them.
#[derive(Clone, Copy, Debug, PartialEq, Eq, Structural)]
pub enum Step {
    /// Rotate the position about the target, around the world vertical axis,
    /// by the frame's angular step in the given direction.
    Yaw(Sign),
    /// Rotate the position about the target, around the camera's right axis
    /// taken after any yaw of the same frame.
    Pitch(Sign),
    /// Translate the position along the view axis by the frame's linear step;
    /// positive moves towards the target.
    Dolly(Sign),
    /// Turn the camera so that its forward axis points at the target.
    FaceTarget,
}

pub open spec fn sign_value(s: Sign) -> int {
    match s {
        Sign::Negative => -1,
        Sign::Zero => 0,
        Sign::Positive => 1,
    }
}

/// The net of a positive and a negative input: `+1`, `-1`, or `0` when both or
/// neither are active.
pub open spec fn net(positive: bool, negative: bool) -> int {
    (if positive { 1int } else { 0int }) - (if negative { 1int } else { 0int })
}

pub open spec fn spec_actions(input: InputFrame) -> FrameActions {
    FrameActions {
        yaw: spec_sign_of(input.strafe_left, input.strafe_right),
        pitch: spec_sign_of(input.up, input.down),
        dolly: spec_sign_of(input.forward, input.backward),
        boosted: input.boost,
    }
}

pub open spec fn spec_sign_of(positive: bool, negative: bool) -> Sign {
    if net(positive, negative) > 0 {
        Sign::Positive
    } else if net(positive, negative) < 0 {
        Sign::Negative
    } else {
        Sign::Zero
    }
}

/// A single step for a nonzero direction, none otherwise.
pub open spec fn step_if_moving(s: Sign, step: Step) -> Seq<Step> {
    if s == Sign::Zero {
        Seq::empty()
    } else {
        seq![step]
    }
}

/// The update pipeline of a frame: yaw, then pitch about the freshly yawed
/// right axis, then dolly, each only when its direction is nonzero, and always
/// a final turn towards the target.
pub open spec fn planned_steps(a: FrameActions) -> Seq<Step> {
    step_if_moving(a.yaw, Step::Yaw(a.yaw)) + step_if_moving(a.pitch, Step::Pitch(a.pitch))
        + step_if_moving(a.dolly, Step::Dolly(a.dolly)) + seq![Step::FaceTarget]
}

/// Whether a step changes the camera's position (turning in place does not).
pub open spec fn moves_camera(s: Step) -> bool {
    !(s is FaceTarget)
}

/// Net direction of a pair of opposing inputs.
pub fn sign_of(positive: bool, negative: bool) -> (r: Sign)
    ensures
        r == spec_sign_of(positive, negative),
        sign_value(r) == net(positive, negative),
{
    if positive && !negative {
        Sign::Positive
    } else if negative && !positive {
        Sign::Negative
    } else {
        Sign::Zero
    }
}

/// The action set of a frame of input.
pub fn actions_of(input: &InputFrame) -> (r: FrameActions)
    ensures
        r == spec_actions(*input),
        sign_value(r.yaw) == net(input.strafe_left, input.strafe_right),
        sign_value(r.pitch) == net(input.up, input.down),
        sign_value(r.dolly) == net(input.forward, input.backward),
        r.boosted == input.boost,
{
    FrameActions {
        yaw: sign_of(input.strafe_left, input.strafe_right),
        pitch: sign_of(input.up, input.down),
        dolly: sign_of(input.forward, input.backward),
        boosted: input.boost,
    }
}

/// The ordered steps of a frame's update for the given input. The last step
/// always turns the camera towards the target, and no other step does.
pub fn frame_steps(input: &InputFrame) -> (r: Vec<Step>)
    ensures
        r@ == planned_steps(spec_actions(*input)),
        r@.len() >= 1,
        r@.last() == Step::FaceTarget,
        forall|i: int| 0 <= i < r@.len() - 1 ==> moves_camera(#[trigger] r@[i]),
{
    let a = actions_of(input);
    let mut steps: Vec<Step> = Vec::new();
    if a.yaw != Sign::Zero {
        steps.push(Step::Yaw(a.yaw));
    }
    if a.pitch != Sign::Zero {
        steps.push(Step::Pitch(a.pitch));
    }
    if a.dolly != Sign::Zero {
        steps.push(Step::Dolly(a.dolly));
    }
    steps.push(Step::FaceTarget);
    proof {
        assert(steps@ =~= planned_steps(a));
    }
    steps
}

/// Speed for this frame, linear and angular alike: the configured speed,
/// times the boost factor while boost is held.
pub fn frame_speed(base: i64, boosted: bool) -> (r: i64)
    requires
        0 <= base <= i64::MAX / BOOST_FACTOR,
    ensures
        boosted ==> r == BOOST_FACTOR * base,
        !boosted ==> r == base,
{
    if boosted {
        BOOST_FACTOR * base
    } else {
        base
    }
}

/// Where each kind of step can stand in a plan: any yaw first, then any
/// pitch, then any dolly, and the turn to the target last.
pub open spec fn step_ranges(a: FrameActions, i: int) -> bool {
    let y = step_if_moving(a.yaw, Step::Yaw(a.yaw)).len();
    let p = step_if_moving(a.pitch, Step::Pitch(a.pitch)).len();
    let d = step_if_moving(a.dolly, Step::Dolly(a.dolly)).len();
    let s = planned_steps(a)[i];
    &&& (s is Yaw ==> i < y)
    &&& (s is Pitch ==> y <= i < y + p)
    &&& (s is Dolly ==> y + p <= i < y + p + d)
    &&& (s is FaceTarget ==> i == y + p + d)
}

/// The pipeline order: every yaw precedes every pitch, so the right axis of a
/// pitch is taken after the frame's yaw; every pitch precedes every dolly; and
/// the turn to the target comes after all of them, once.
pub proof fn lemma_step_order(a: FrameActions, i: int, j: int)
    requires
        0 <= i < j < planned_steps(a).len(),
    ensures
        !(planned_steps(a)[j] is Yaw && !(planned_steps(a)[i] is Yaw)),
        planned_steps(a)[i] is Pitch ==> planned_steps(a)[j] is Pitch || planned_steps(a)[j] is Dolly
            || planned_steps(a)[j] is FaceTarget,
        planned_steps(a)[i] is Dolly ==> planned_steps(a)[j] is Dolly || planned_steps(a)[j] is FaceTarget,
        !(planned_steps(a)[i] is FaceTarget),
{
    lemma_step_positions(a);
}

proof fn lemma_step_positions(a: FrameActions)
    ensures
        forall|i: int| 0 <= i < planned_steps(a).len() ==> #[trigger] step_ranges(a, i),
        planned_steps(a).len() == step_if_moving(a.yaw, Step::Yaw(a.yaw)).len() + step_if_moving(
            a.pitch,
            Step::Pitch(a.pitch),
        ).len() + step_if_moving(a.dolly, Step::Dolly(a.dolly)).len() + 1,
{
    let steps = planned_steps(a);
    let y = step_if_moving(a.yaw, Step::Yaw(a.yaw));
    let p = step_if_moving(a.pitch, Step::Pitch(a.pitch));
    let d = step_if_moving(a.dolly, Step::Dolly(a.dolly));
    assert(steps =~= y + p + d + seq![Step::FaceTarget]);
    assert forall|i: int| 0 <= i < steps.len() implies #[trigger] step_ranges(a, i) by {
        if i < y.len() {
            assert(steps[i] == y[i]);
        } else if i < y.len() + p.len() {
            assert(steps[i] == p[i - y.len()]);
        } else if i < y.len() + p.len() + d.len() {
            assert(steps[i] == d[i - y.len() - p.len()]);
        } else {
            assert(steps[i] == Step::FaceTarget);
        }
    }
}

/// Opposing inputs cancel: forward with backward gives no dolly, strafe-left
/// with strafe-right gives no yaw, up with down gives no pitch. When every
/// active input is cancelled by its opposite, no step of the frame moves the
/// camera; it only turns towards the target.
pub proof fn lemma_opposing_inputs_cancel(input: InputFrame)
    ensures
        input.forward && input.backward ==> forall|i: int|
            0 <= i < planned_steps(spec_actions(input)).len() ==> !(
            #[trigger] planned_steps(spec_actions(input))[i] is Dolly),
        input.strafe_left && input.strafe_right ==> forall|i: int|
            0 <= i < planned_steps(spec_actions(input)).len() ==> !(
            #[trigger] planned_steps(spec_actions(input))[i] is Yaw),
        input.up && input.down ==> forall|i: int|
            0 <= i < planned_steps(spec_actions(input)).len() ==> !(
            #[trigger] planned_steps(spec_actions(input))[i] is Pitch),
        input.forward == input.backward && input.strafe_left == input.strafe_right && input.up
            == input.down ==> planned_steps(spec_actions(input)) == seq![Step::FaceTarget],
{
    let steps = planned_steps(spec_actions(input));
    lemma_step_positions(spec_actions(input));
    if input.forward == input.backward && input.strafe_left == input.strafe_right && input.up
        == input.down {
        assert(steps =~= seq![Step::FaceTarget]);
    }
}

/// Strafe-left alone asks for exactly one positive yaw about the target, and
/// no pitch or dolly, before the camera turns to the target.
pub proof fn lemma_pure_yaw(input: InputFrame)
    requires
        input.strafe_left,
        !input.strafe_right,
        !input.forward,
        !input.backward,
        !input.up,
        !input.down,
    ensures
        planned_steps(spec_actions(input)) == seq![Step::Yaw(Sign::Positive), Step::FaceTarget],
{
    assert(planned_steps(spec_actions(input)) =~= seq![Step::Yaw(Sign::Positive), Step::FaceTarget]);
}

/// Forward alone asks for exactly one dolly towards the target and no
/// rotation, so the direction from the target to the camera is left as it was.
pub proof fn lemma_pure_zoom(input: InputFrame)
    requires
        input.forward,
        !input.backward,
        !input.strafe_left,
        !input.strafe_right,
        !input.up,
        !input.down,
    ensures
        planned_steps(spec_actions(input)) == seq![Step::Dolly(Sign::Positive), Step::FaceTarget],
{
    assert(planned_steps(spec_actions(input)) =~= seq![Step::Dolly(Sign::Positive), Step::FaceTarget]);
}

/// Up alone asks for exactly one positive pitch about the target before the
/// camera turns to the target.
pub proof fn lemma_pure_pitch(input: InputFrame)
    requires
        input.up,
        !input.down,
        !input.forward,
        !input.backward,
        !input.strafe_left,
        !input.strafe_right,
    ensures
        planned_steps(spec_actions(input)) == seq![Step::Pitch(Sign::Positive), Step::FaceTarget],
{
    assert(planned_steps(spec_actions(input)) =~= seq![Step::Pitch(Sign::Positive), Step::FaceTarget]);
}

} // verus!
