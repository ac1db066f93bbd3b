//! The camera controller: an interpreter of key and pointer events that
//! decides, once per frame, how the camera moves.
//!
//! The controller never computes with coordinates. Pointer samples of the
//! host's type `P` are stored and handed back as they came; the moves
//! themselves are carried out by a function of the host, which the
//! controller calls step by step in a fixed order.

use crate::camera::Camera;
use vstd::prelude::*;

verus! {

/// The keys that the controller reacts to, and `Other` for the rest.
#[derive(Clone, Copy, Debug, PartialEq, Eq, Structural)]
pub enum KeyCode {
    W,
    A,
    S,
    D,
    Up,
    Down,
    Left,
    Right,
    Space,
    LControl,
    LShift,
    Other,
}

/// What a key stands for.
#[derive(Clone, Copy, Debug, PartialEq, Eq, Structural)]
pub enum Control {
    Forward,
    Backward,
    Left,
    Right,
    Up,
    Down,
    Boost,
}

/// How pointer input turns into a look delta.
#[derive(Clone, Copy, Debug, PartialEq, Eq, Structural)]
pub enum LookMode {
    /// Every relative motion of the pointer counts.
    FreeLook,
    /// The pointer's way since a button went down counts, while it is down.
    Drag,
}

/// An input event, reduced to what the controller needs.
#[derive(Clone, Copy, Debug)]
pub enum InputEvent<P> {
    Key { code: KeyCode, pressed: bool },
    /// The pointer moved by `delta`.
    MouseMotion { delta: P },
    /// The pointer is now at `position`.
    CursorMoved { position: P },
    /// The drag button went down or up.
    MouseButton { pressed: bool },
    /// Anything else.
    Other,
}

/// One elementary move of the camera.
#[derive(Clone, Copy, Debug, PartialEq, Eq, Structural)]
pub enum MotionStep {
    Forward,
    Backward,
    Right,
    Left,
    Up,
    Down,
    /// Rotation about the world's up axis.
    Yaw,
    /// Rotation about the camera's horizontal axis, as it is after the yaw.
    Pitch,
}

/// Which controls are held down.
#[derive(Clone, Copy, Debug, PartialEq, Eq, Structural)]
pub struct Pressed {
    pub forward: bool,
    pub backward: bool,
    pub left: bool,
    pub right: bool,
    pub up: bool,
    pub down: bool,
    pub boost: bool,
}

/// What the host measured, on the camera and on the pending look delta,
/// before a frame's update. These are comparisons of lengths, which the
/// controller cannot make itself.
#[derive(Clone, Copy, Debug, PartialEq, Eq, Structural)]
pub struct Measured {
    /// The pending look delta is longer than the noise threshold.
    pub look_exceeds_noise: bool,
    /// The way to the point that the camera looks at is longer than one
    /// step, so that a step forward does not overshoot it.
    pub forward_clear: bool,
}

/// The control that a key is bound to.
pub open spec fn control_of(code: KeyCode) -> Option<Control> {
    match code {
        KeyCode::W | KeyCode::Up => Some(Control::Forward),
        KeyCode::A | KeyCode::Left => Some(Control::Left),
        KeyCode::S | KeyCode::Down => Some(Control::Backward),
        KeyCode::D | KeyCode::Right => Some(Control::Right),
        KeyCode::Space => Some(Control::Up),
        KeyCode::LControl => Some(Control::Down),
        KeyCode::LShift => Some(Control::Boost),
        KeyCode::Other => None,
    }
}

/// `seq![step]` if `on`, else the empty sequence.
pub open spec fn step_if(on: bool, step: MotionStep) -> Seq<MotionStep> {
    if on {
        seq![step]
    } else {
        Seq::<MotionStep>::empty()
    }
}

impl Pressed {
    /// Nothing is held down.
    pub open spec fn none() -> Self {
        Pressed {
            forward: false,
            backward: false,
            left: false,
            right: false,
            up: false,
            down: false,
            boost: false,
        }
    }

    /// `self` with `control` set to `pressed`.
    pub open spec fn with(self, control: Control, pressed: bool) -> Self {
        match control {
            Control::Forward => Pressed { forward: pressed, ..self },
            Control::Backward => Pressed { backward: pressed, ..self },
            Control::Left => Pressed { left: pressed, ..self },
            Control::Right => Pressed { right: pressed, ..self },
            Control::Up => Pressed { up: pressed, ..self },
            Control::Down => Pressed { down: pressed, ..self },
            Control::Boost => Pressed { boost: pressed, ..self },
        }
    }

    /// One of the six direction controls is held down.
    pub open spec fn any_direction(self) -> bool {
        self.forward || self.backward || self.left || self.right || self.up || self.down
    }

    /// The translations of one frame, in the order in which they apply. The
    /// step forward is left out unless the way is clear.
    pub open spec fn translations(self, forward_clear: bool) -> Seq<MotionStep> {
        step_if(self.forward && forward_clear, MotionStep::Forward) + step_if(
            self.backward,
            MotionStep::Backward,
        ) + step_if(self.right, MotionStep::Right) + step_if(self.left, MotionStep::Left)
            + step_if(self.up, MotionStep::Up) + step_if(self.down, MotionStep::Down)
    }

    /// The factor on the base speed: 2 with the boost held down, else 1.
    pub open spec fn speed_factor(self) -> u8 {
        if self.boost {
            2
        } else {
            1
        }
    }
}

impl Pressed {
    /// Sets `control` to `pressed`.
    pub fn set(&mut self, control: Control, pressed: bool)
        ensures
            *final(self) == old(self).with(control, pressed),
    {
        match control {
            Control::Forward => {
                self.forward = pressed;
            },
            Control::Backward => {
                self.backward = pressed;
            },
            Control::Left => {
                self.left = pressed;
            },
            Control::Right => {
                self.right = pressed;
            },
            Control::Up => {
                self.up = pressed;
            },
            Control::Down => {
                self.down = pressed;
            },
            Control::Boost => {
                self.boost = pressed;
            },
        }
    }

    /// One of the six direction controls is held down.
    pub fn is_moving(&self) -> (moving: bool)
        ensures
            moving == self.any_direction(),
    {
        self.forward || self.backward || self.left || self.right || self.up || self.down
    }

    /// The factor on the base speed: 2 with the boost held down, else 1.
    pub fn boost_factor(&self) -> (factor: u8)
        ensures
            factor == self.speed_factor(),
    {
        if self.boost {
            2
        } else {
            1
        }
    }
}

/// Mathematical model of [`CameraController`].
pub struct Controller<P> {
    pub mode: LookMode,
    pub pressed: Pressed,
    /// Free look: the motions that no rotation has used yet, oldest first.
    pub deltas: Seq<P>,
    /// Drag: where the pointer was last seen.
    pub cursor: Option<P>,
    /// Drag: where the current drag started, or where its last rotation
    /// left off.
    pub anchor: Option<P>,
    /// Drag: the button is down.
    pub held: bool,
}

impl<P> Controller<P> {
    /// Each mode keeps only its own pointer state, and a drag has an anchor
    /// exactly while the button is down and the pointer has been seen.
    pub open spec fn wf(self) -> bool {
        match self.mode {
            LookMode::FreeLook => self.cursor is None && self.anchor is None && !self.held,
            LookMode::Drag => {
                &&& self.deltas.len() == 0
                &&& self.anchor is Some <==> self.held && self.cursor is Some
            },
        }
    }

    /// A controller on which nothing has happened yet.
    pub open spec fn initial(mode: LookMode) -> Self {
        Controller {
            mode,
            pressed: Pressed::none(),
            deltas: Seq::empty(),
            cursor: None,
            anchor: None,
            held: false,
        }
    }

    /// The event means something to the controller.
    pub open spec fn consumes(self, event: InputEvent<P>) -> bool {
        match event {
            InputEvent::Key { code, .. } => control_of(code) is Some,
            InputEvent::MouseMotion { .. } => self.mode == LookMode::FreeLook,
            InputEvent::CursorMoved { .. } => self.mode == LookMode::Drag,
            InputEvent::MouseButton { .. } => self.mode == LookMode::Drag,
            InputEvent::Other => false,
        }
    }

    /// The controller after an event. An event that is not consumed changes
    /// nothing.
    pub open spec fn process(self, event: InputEvent<P>) -> Self {
        if !self.consumes(event) {
            self
        } else {
            match event {
                InputEvent::Key { code, pressed } => Controller {
                    pressed: self.pressed.with(control_of(code)->Some_0, pressed),
                    ..self
                },
                InputEvent::MouseMotion { delta } => Controller {
                    deltas: self.deltas.push(delta),
                    ..self
                },
                InputEvent::CursorMoved { position } => Controller {
                    cursor: Some(position),
                    anchor: if self.held && self.anchor is None {
                        Some(position)
                    } else {
                        self.anchor
                    },
                    ..self
                },
                InputEvent::MouseButton { pressed } => Controller {
                    held: pressed,
                    anchor: if pressed {
                        self.cursor
                    } else {
                        None
                    },
                    ..self
                },
                InputEvent::Other => self,
            }
        }
    }

    /// The two ends of the drag in progress: its anchor and the pointer.
    pub open spec fn drag(self) -> Option<(P, P)> {
        if self.mode == LookMode::Drag && self.held && self.anchor is Some && self.cursor is Some {
            Some((self.anchor->Some_0, self.cursor->Some_0))
        } else {
            None
        }
    }

    /// There is pointer input that a rotation could use.
    pub open spec fn has_look(self) -> bool {
        match self.mode {
            LookMode::FreeLook => self.deltas.len() > 0,
            LookMode::Drag => self.drag() is Some,
        }
    }

    /// This frame rotates the camera: there is pointer input, and its look
    /// delta is longer than the noise threshold.
    pub open spec fn rotates(self, measured: Measured) -> bool {
        measured.look_exceeds_noise && self.has_look()
    }

    /// The moves of one frame, in the order in which they apply: first the
    /// translations, then the yaw, last the pitch.
    pub open spec fn steps(self, measured: Measured) -> Seq<MotionStep> {
        self.pressed.translations(measured.forward_clear) + if self.rotates(measured) {
            seq![MotionStep::Yaw, MotionStep::Pitch]
        } else {
            Seq::<MotionStep>::empty()
        }
    }

    /// A direction control is held down, whether or not its step is taken,
    /// or the frame rotates.
    pub open spec fn changed(self, measured: Measured) -> bool {
        self.pressed.any_direction() || self.rotates(measured)
    }

    /// The controller after the frame: a rotation uses up the pointer input,
    /// and nothing else changes.
    pub open spec fn after_update(self, measured: Measured) -> Self {
        if self.rotates(measured) {
            match self.mode {
                LookMode::FreeLook => Controller { deltas: Seq::empty(), ..self },
                LookMode::Drag => Controller { anchor: self.cursor, ..self },
            }
        } else {
            self
        }
    }
}

/// `to` is what `from` becomes when `apply` carries out `steps` one after the
/// other, each on the result of the one before.
pub open spec fn moved<S, F: Fn(Camera<S>, MotionStep) -> Camera<S>>(
    apply: F,
    from: Camera<S>,
    steps: Seq<MotionStep>,
    to: Camera<S>,
) -> bool
    decreases steps.len(),
{
    if steps.len() == 0 {
        to == from
    } else {
        exists|mid: Camera<S>|
            #![trigger call_ensures(apply, (mid, steps.last()), to)]
            moved(apply, from, steps.drop_last(), mid) && call_ensures(
                apply,
                (mid, steps.last()),
                to,
            )
    }
}

impl MotionStep {
    /// The step turns the camera.
    pub open spec fn is_rotation(self) -> bool {
        self == MotionStep::Yaw || self == MotionStep::Pitch
    }
}

/// The translations of a frame hold no rotation, and none at all when no
/// direction control is held down.
pub proof fn lemma_translations(pressed: Pressed, forward_clear: bool)
    ensures
        forall|i: int|
            0 <= i < pressed.translations(forward_clear).len() ==> !(
            #[trigger] pressed.translations(forward_clear)[i]).is_rotation(),
        !pressed.any_direction() ==> pressed.translations(forward_clear).len() == 0,
{
}

/// Idempotence: a frame with no direction control held down and no usable
/// look delta (no pointer input, or none longer than the noise threshold)
/// leaves the camera and the controller as they are and reports no change.
pub proof fn lemma_idle_update<P, S, F: Fn(Camera<S>, MotionStep) -> Camera<S>>(
    controller: Controller<P>,
    measured: Measured,
    apply: F,
    before: Camera<S>,
    after: Camera<S>,
)
    requires
        !controller.pressed.any_direction(),
        !measured.look_exceeds_noise || !controller.has_look(),
        moved(apply, before, controller.steps(measured), after),
    ensures
        controller.steps(measured).len() == 0,
        after == before,
        !controller.changed(measured),
        controller.after_update(measured) == controller,
{
    lemma_translations(controller.pressed, measured.forward_clear);
}

/// Order of a frame's moves: all translations come first; a rotation is the
/// yaw directly followed by the pitch, and they are the last two steps.
pub proof fn lemma_yaw_precedes_pitch<P>(controller: Controller<P>, measured: Measured)
    ensures
        ({
            let steps = controller.steps(measured);
            let shifts = controller.pressed.translations(measured.forward_clear).len() as int;
            &&& forall|i: int| 0 <= i < shifts ==> !(#[trigger] steps[i]).is_rotation()
            &&& controller.rotates(measured) ==> {
                &&& steps.len() == shifts + 2
                &&& steps[shifts] == MotionStep::Yaw
                &&& steps[shifts + 1] == MotionStep::Pitch
            }
            &&& !controller.rotates(measured) ==> steps.len() == shifts
        }),
{
    lemma_translations(controller.pressed, measured.forward_clear);
    let steps = controller.steps(measured);
    let translations = controller.pressed.translations(measured.forward_clear);
    assert forall|i: int| 0 <= i < translations.len() implies !(#[trigger] steps[
        i
    ]).is_rotation() by {
        assert(steps[i] == translations[i]);
    }
}

/// A step forward is taken only with the control held down and the way
/// clear; a blocked step still counts as a change.
pub proof fn lemma_forward_needs_room<P>(controller: Controller<P>, measured: Measured)
    ensures
        controller.steps(measured).contains(MotionStep::Forward) <==> controller.pressed.forward
            && measured.forward_clear,
        controller.pressed.forward ==> controller.changed(measured),
{
    let steps = controller.steps(measured);
    if controller.pressed.forward && measured.forward_clear {
        assert(steps[0] == MotionStep::Forward);
    } else {
        assert forall|i: int| 0 <= i < steps.len() implies steps[i] != MotionStep::Forward by {}
    }
}

/// While the drag button is up there is no look input, and only pressing the
/// button can change that.
pub proof fn lemma_released_drag_stays_idle<P>(controller: Controller<P>, event: InputEvent<P>)
    requires
        controller.mode == LookMode::Drag,
        !controller.held,
        !(event matches InputEvent::MouseButton { pressed } && pressed),
    ensures
        !controller.has_look(),
        !controller.process(event).held,
        !controller.process(event).has_look(),
{
}

/// Releasing the drag button ends the drag: no look input is left.
pub proof fn lemma_release_ends_drag<P>(controller: Controller<P>)
    requires
        controller.mode == LookMode::Drag,
    ensures
        !controller.process(InputEvent::MouseButton { pressed: false }).has_look(),
{
}

/// Events keep a well-formed controller well-formed, and so does a frame.
pub proof fn lemma_wf_is_kept<P>(
    controller: Controller<P>,
    event: InputEvent<P>,
    measured: Measured,
)
    requires
        controller.wf(),
    ensures
        controller.process(event).wf(),
        controller.after_update(measured).wf(),
{
}

/// One more step at the end of a chain of moves.
proof fn lemma_moved_push<S, F: Fn(Camera<S>, MotionStep) -> Camera<S>>(
    apply: F,
    from: Camera<S>,
    steps: Seq<MotionStep>,
    mid: Camera<S>,
    step: MotionStep,
    to: Camera<S>,
)
    requires
        moved(apply, from, steps, mid),
        call_ensures(apply, (mid, step), to),
    ensures
        moved(apply, from, steps.push(step), to),
{
    let longer = steps.push(step);
    assert(longer.drop_last() =~= steps);
    assert(longer.last() == step);
    assert(call_ensures(apply, (mid, longer.last()), to));
}

/// Computes [`control_of`].
pub fn key_control(code: KeyCode) -> (control: Option<Control>)
    ensures
        control == control_of(code),
{
    match code {
        KeyCode::W | KeyCode::Up => Some(Control::Forward),
        KeyCode::A | KeyCode::Left => Some(Control::Left),
        KeyCode::S | KeyCode::Down => Some(Control::Backward),
        KeyCode::D | KeyCode::Right => Some(Control::Right),
        KeyCode::Space => Some(Control::Up),
        KeyCode::LControl => Some(Control::Down),
        KeyCode::LShift => Some(Control::Boost),
        KeyCode::Other => None,
    }
}

/// Appends `step` if `on`.
fn push_if(steps: &mut Vec<MotionStep>, on: bool, step: MotionStep)
    ensures
        final(steps)@ == old(steps)@ + step_if(on, step),
{
    if on {
        steps.push(step);
        assert(steps@ =~= old(steps)@ + seq![step]);
    } else {
        assert(steps@ =~= old(steps)@ + Seq::<MotionStep>::empty());
    }
}

/// Interprets input events and decides, once per frame, how the camera moves.
#[derive(Debug)]
pub struct CameraController<P> {
    mode: LookMode,
    pressed: Pressed,
    deltas: Vec<P>,
    cursor: Option<P>,
    anchor: Option<P>,
    held: bool,
}

impl<P> View for CameraController<P> {
    type V = Controller<P>;

    closed spec fn view(&self) -> Controller<P> {
        Controller {
            mode: self.mode,
            pressed: self.pressed,
            deltas: self.deltas@,
            cursor: self.cursor,
            anchor: self.anchor,
            held: self.held,
        }
    }
}

impl<P: Copy> CameraController<P> {
    /// A controller for the given look mode, with no key down and no pointer
    /// input.
    pub fn new(mode: LookMode) -> (controller: Self)
        ensures
            controller@ == Controller::<P>::initial(mode),
            controller@.wf(),
    {
        CameraController {
            mode,
            pressed: Pressed {
                forward: false,
                backward: false,
                left: false,
                right: false,
                up: false,
                down: false,
                boost: false,
            },
            deltas: Vec::new(),
            cursor: None,
            anchor: None,
            held: false,
        }
    }

    pub fn mode(&self) -> (mode: LookMode)
        ensures
            mode == self@.mode,
    {
        self.mode
    }

    /// The controls that are held down.
    pub fn pressed(&self) -> (pressed: Pressed)
        ensures
            pressed == self@.pressed,
    {
        self.pressed
    }

    /// Free look: the pointer motions that no rotation has used yet, oldest
    /// first. Their sum is the pending look delta.
    pub fn pending_deltas(&self) -> (deltas: &Vec<P>)
        ensures
            deltas@ == self@.deltas,
    {
        &self.deltas
    }

    /// Drag: the anchor of the drag in progress and the pointer's position.
    /// Their difference is the pending look delta.
    pub fn drag(&self) -> (ends: Option<(P, P)>)
        ensures
            ends == self@.drag(),
    {
        match self.mode {
            LookMode::FreeLook => None,
            LookMode::Drag => {
                if !self.held {
                    None
                } else {
                    match (self.anchor, self.cursor) {
                        (Some(anchor), Some(cursor)) => Some((anchor, cursor)),
                        _ => None,
                    }
                }
            },
        }
    }

    /// There is pointer input that a rotation could use.
    pub fn has_look(&self) -> (pending: bool)
        ensures
            pending == self@.has_look(),
    {
        match self.mode {
            LookMode::FreeLook => self.deltas.len() > 0,
            LookMode::Drag => self.drag().is_some(),
        }
    }

    /// Takes note of one event and reports whether it meant anything to the
    /// controller. The camera is not involved.
    pub fn process_events(&mut self, event: &InputEvent<P>) -> (consumed: bool)
        ensures
            consumed == old(self)@.consumes(*event),
            final(self)@ == old(self)@.process(*event),
            old(self)@.wf() ==> final(self)@.wf(),
    {
        match *event {
            InputEvent::Key { code, pressed } => {
                match key_control(code) {
                    Some(control) => {
                        self.pressed.set(control, pressed);
                        true
                    },
                    None => false,
                }
            },
            InputEvent::MouseMotion { delta } => {
                match self.mode {
                    LookMode::FreeLook => {
                        self.deltas.push(delta);
                        true
                    },
                    LookMode::Drag => false,
                }
            },
            InputEvent::CursorMoved { position } => {
                match self.mode {
                    LookMode::FreeLook => false,
                    LookMode::Drag => {
                        self.cursor = Some(position);
                        if self.held && self.anchor.is_none() {
                            self.anchor = Some(position);
                        }
                        true
                    },
                }
            },
            InputEvent::MouseButton { pressed } => {
                match self.mode {
                    LookMode::FreeLook => false,
                    LookMode::Drag => {
                        self.held = pressed;
                        self.anchor = if pressed {
                            self.cursor
                        } else {
                            None
                        };
                        true
                    },
                }
            },
            InputEvent::Other => false,
        }
    }

    /// The moves of one frame, in the order in which they apply.
    pub fn steps(&self, measured: Measured) -> (steps: Vec<MotionStep>)
        ensures
            steps@ == self@.steps(measured),
    {
        let mut steps: Vec<MotionStep> = Vec::new();
        let forward = self.pressed.forward && measured.forward_clear;
        push_if(&mut steps, forward, MotionStep::Forward);
        push_if(&mut steps, self.pressed.backward, MotionStep::Backward);
        push_if(&mut steps, self.pressed.right, MotionStep::Right);
        push_if(&mut steps, self.pressed.left, MotionStep::Left);
        push_if(&mut steps, self.pressed.up, MotionStep::Up);
        push_if(&mut steps, self.pressed.down, MotionStep::Down);
        assert(steps@ == self@.pressed.translations(measured.forward_clear)) by {
            assert(Seq::<MotionStep>::empty() + step_if(forward, MotionStep::Forward) =~= step_if(
                forward,
                MotionStep::Forward,
            ));
        }
        if measured.look_exceeds_noise && self.has_look() {
            let ghost translations = steps@;
            steps.push(MotionStep::Yaw);
            steps.push(MotionStep::Pitch);
            assert(steps@ =~= translations + seq![MotionStep::Yaw, MotionStep::Pitch]);
        } else {
            assert(steps@ =~= steps@ + Seq::<MotionStep>::empty());
        }
        steps
    }

    /// Moves the camera for one frame and reports whether it changed.
    ///
    /// `measured` holds what the host found out about the lengths involved.
    /// `apply` carries out one step on a camera. It is called once for each
    /// step of [`Controller::steps`], in order, each time on the result of
    /// the call before. A rotation uses up the pointer input.
    pub fn update_camera<S: Copy, F: Fn(Camera<S>, MotionStep) -> Camera<S>>(
        &mut self,
        camera: &mut Camera<S>,
        measured: Measured,
        apply: F,
    ) -> (changed: bool)
        requires
            forall|from: Camera<S>, step: MotionStep| call_requires(apply, (from, step)),
        ensures
            changed == old(self)@.changed(measured),
            final(self)@ == old(self)@.after_update(measured),
            moved(apply, *old(camera), old(self)@.steps(measured), *final(camera)),
            old(self)@.wf() ==> final(self)@.wf(),
    {
        let steps = self.steps(measured);
        let rotates = measured.look_exceeds_noise && self.has_look();
        let changed = self.pressed.is_moving() || rotates;
        let ghost start = *camera;
        let mut i: usize = 0;
        while i < steps.len()
            invariant
                i <= steps.len(),
                forall|from: Camera<S>, step: MotionStep| call_requires(apply, (from, step)),
                moved(apply, start, steps@.take(i as int), *camera),
            decreases steps.len() - i,
        {
            let ghost before = *camera;
            let after = apply(*camera, steps[i]);
            *camera = after;
            proof {
                let done = steps@.take(i as int);
                assert(steps@.take(i + 1) =~= done.push(steps@[i as int]));
                lemma_moved_push(apply, start, done, before, steps@[i as int], after);
            }
            i += 1;
        }
        assert(steps@.take(steps.len() as int) =~= steps@);
        if rotates {
            match self.mode {
                LookMode::FreeLook => {
                    self.deltas.clear();
                },
                LookMode::Drag => {
                    self.anchor = self.cursor;
                },
            }
        }
        changed
    }
}

} // verus!
