//! One renderer's state, and what each event of the host's loop does to it.
//!
//! Per frame the host drains its input into the controller, lets the
//! controller move the camera, and dispatches. [`State`] keeps the three in
//! step: a camera that changed or a target that was resized invalidates what
//! has been accumulated before the next dispatch is planned.

use crate::accumulation::{next_count, Accumulation, AccumulationState, FrameParams, Viewport};
use crate::camera::Camera;
use crate::compute_pass::{BackendKind, ComputePass, Dispatch, DEFAULT_DEPTH, PREVIEW_DEPTH};
use crate::controller::{
    moved, CameraController, Controller, InputEvent, LookMode, Measured, MotionStep,
};
use vstd::prelude::*;

verus! {

/// A window event, reduced to what the renderer reacts to.
#[derive(Clone, Copy, Debug, PartialEq, Eq, Structural)]
pub enum WindowInput {
    /// The escape key went down.
    EscapePressed,
    /// The left mouse button went down inside the window.
    LeftButtonPressed,
    /// The window's inner size is now `width` x `height`.
    Resized { width: u32, height: u32 },
    /// The scale factor changed, and with it the inner size.
    ScaleFactorChanged { width: u32, height: u32 },
    /// Anything else.
    Other,
}

/// What the host has to do after a window event.
#[derive(Clone, Copy, Debug, PartialEq, Eq, Structural)]
pub enum WindowAction {
    Nothing,
    /// Let go of the pointer and show it.
    ReleaseCursor,
    /// Confine the pointer to the window and hide it.
    GrabCursor,
    /// Pass the new size on to [`State::resize`].
    Resize { width: u32, height: u32 },
}

/// Mathematical model of [`State`].
pub struct Session<P> {
    pub size: Viewport,
    /// Device events reach the controller only while this holds.
    pub window_focused: bool,
    pub controller: Controller<P>,
    pub accumulation: Accumulation,
    pub compute_pass: ComputePass,
}

impl<P> Session<P> {
    /// The parts are well-formed and agree on the size of the target, and
    /// the backend has a preview pending exactly when it is a mega-kernel
    /// whose target is stale.
    pub open spec fn wf(self) -> bool {
        &&& self.controller.wf()
        &&& self.accumulation.wf()
        &&& self.accumulation.viewport == self.size
        &&& self.compute_pass.config().width == self.size.width
        &&& self.compute_pass.config().height == self.size.height
        &&& self.compute_pass.preview_pending() <==> self.accumulation.stale
            && self.compute_pass.kind() == BackendKind::MegaKernel
    }

    /// A renderer that has just been set up for a `width` x `height` target.
    pub open spec fn created(
        kind: BackendKind,
        mode: LookMode,
        seed: u32,
        width: u32,
        height: u32,
    ) -> Self {
        Session {
            size: Viewport { width, height },
            window_focused: true,
            controller: Controller::initial(mode),
            accumulation: Accumulation::fresh(Viewport { width, height }),
            compute_pass: ComputePass::created(kind, seed, width, height),
        }
    }

    /// A device event reaches the controller if the window has the focus.
    pub open spec fn after_device_event(self, event: InputEvent<P>) -> Self {
        if self.window_focused {
            Session { controller: self.controller.process(event), ..self }
        } else {
            self
        }
    }

    /// Escape gives the focus up, a click of the left button takes it.
    pub open spec fn after_window_event(self, event: WindowInput) -> Self {
        match event {
            WindowInput::EscapePressed => Session { window_focused: false, ..self },
            WindowInput::LeftButtonPressed => Session { window_focused: true, ..self },
            _ => self,
        }
    }

    /// A resize request with a zero dimension is ignored. Any other one
    /// takes effect in all parts, and drops what has been accumulated.
    pub open spec fn after_resize(self, seed: u32, width: u32, height: u32) -> Self {
        if width == 0 || height == 0 {
            self
        } else {
            Session {
                size: Viewport { width, height },
                accumulation: self.accumulation.resize(width, height),
                compute_pass: self.compute_pass.resized(seed, width, height),
                ..self
            }
        }
    }

    /// The frame's camera update; if it changed the camera, what has been
    /// accumulated is dropped and the backend is told.
    pub open spec fn after_update(self, measured: Measured) -> Self {
        if self.controller.changed(measured) {
            Session {
                controller: self.controller.after_update(measured),
                accumulation: self.accumulation.invalidate(),
                compute_pass: self.compute_pass.updated(),
                ..self
            }
        } else {
            Session { controller: self.controller.after_update(measured), ..self }
        }
    }

    /// What the next dispatch is told about the accumulation target.
    pub open spec fn frame_params(self) -> FrameParams {
        self.accumulation.observes(false)
    }

    /// The next dispatch, drawn with `seed`.
    pub open spec fn dispatch(self, seed: u32) -> Dispatch {
        self.compute_pass.dispatch(seed, self.frame_params())
    }

    /// The state after that dispatch.
    pub open spec fn after_render(self, seed: u32) -> Self {
        Session {
            accumulation: self.accumulation.frame(false),
            compute_pass: self.compute_pass.rendered(seed),
            ..self
        }
    }
}

/// What the host has to do after `event`.
pub open spec fn window_action(event: WindowInput) -> WindowAction {
    match event {
        WindowInput::EscapePressed => WindowAction::ReleaseCursor,
        WindowInput::LeftButtonPressed => WindowAction::GrabCursor,
        WindowInput::Resized { width, height } => WindowAction::Resize { width, height },
        WindowInput::ScaleFactorChanged { width, height } => WindowAction::Resize { width, height },
        WindowInput::Other => WindowAction::Nothing,
    }
}

/// The state of one renderer: the size of its target, the input focus, the
/// camera controller, the accumulation bookkeeping and the compute backend.
pub struct State<P> {
    size: Viewport,
    window_focused: bool,
    camera_controller: CameraController<P>,
    accumulation: AccumulationState,
    compute_pass: ComputePass,
}

impl<P> View for State<P> {
    type V = Session<P>;

    closed spec fn view(&self) -> Session<P> {
        Session {
            size: self.size,
            window_focused: self.window_focused,
            controller: self.camera_controller@,
            accumulation: self.accumulation@,
            compute_pass: self.compute_pass,
        }
    }
}

impl<P: Copy> State<P> {
    /// Sets a renderer up for a `width` x `height` target, with a given seed.
    pub fn with_seed(
        kind: BackendKind,
        mode: LookMode,
        seed: u32,
        width: u32,
        height: u32,
    ) -> (state: Self)
        ensures
            state@ == Session::<P>::created(kind, mode, seed, width, height),
            state@.wf(),
    {
        State {
            size: Viewport { width, height },
            window_focused: true,
            camera_controller: CameraController::new(mode),
            accumulation: AccumulationState::new(width, height),
            compute_pass: ComputePass::with_seed(kind, seed, width, height),
        }
    }

    /// Sets a renderer up for a `width` x `height` target.
    pub fn new(kind: BackendKind, mode: LookMode, width: u32, height: u32) -> (state: Self)
        ensures
            state@ == Session::<P>::created(
                kind,
                mode,
                state@.compute_pass.config().seed,
                width,
                height,
            ),
            state@.wf(),
    {
        State {
            size: Viewport { width, height },
            window_focused: true,
            camera_controller: CameraController::new(mode),
            accumulation: AccumulationState::new(width, height),
            compute_pass: ComputePass::new(kind, width, height),
        }
    }

    /// The size of the target.
    pub fn size(&self) -> (size: Viewport)
        ensures
            size == self@.size,
    {
        self.size
    }

    pub fn window_focused(&self) -> (focused: bool)
        ensures
            focused == self@.window_focused,
    {
        self.window_focused
    }

    pub fn camera_controller(&self) -> (controller: &CameraController<P>)
        ensures
            controller@ == self@.controller,
    {
        &self.camera_controller
    }

    pub fn accumulation(&self) -> (accumulation: &AccumulationState)
        ensures
            accumulation@ == self@.accumulation,
    {
        &self.accumulation
    }

    pub fn compute_pass(&self) -> (pass: &ComputePass)
        ensures
            *pass == self@.compute_pass,
    {
        &self.compute_pass
    }

    /// Hands a device event to the controller if the window has the focus.
    /// The event is never claimed: the result is always `false`.
    pub fn input_device_event(&mut self, event: &InputEvent<P>) -> (claimed: bool)
        ensures
            !claimed,
            final(self)@ == old(self)@.after_device_event(*event),
            old(self)@.wf() ==> final(self)@.wf(),
    {
        if self.window_focused {
            let consumed = self.camera_controller.process_events(event);
        }
        false
    }

    /// Takes note of a window event and says what the host has to do.
    pub fn input_window_event(&mut self, event: WindowInput) -> (action: WindowAction)
        ensures
            action == window_action(event),
            final(self)@ == old(self)@.after_window_event(event),
            old(self)@.wf() ==> final(self)@.wf(),
    {
        match event {
            WindowInput::EscapePressed => {
                self.window_focused = false;
                WindowAction::ReleaseCursor
            },
            WindowInput::LeftButtonPressed => {
                self.window_focused = true;
                WindowAction::GrabCursor
            },
            WindowInput::Resized { width, height } => WindowAction::Resize { width, height },
            WindowInput::ScaleFactorChanged { width, height } => WindowAction::Resize {
                width,
                height,
            },
            WindowInput::Other => WindowAction::Nothing,
        }
    }

    /// Handles a resize request with a given seed; see [`State::resize`].
    pub fn resize_with_seed(&mut self, seed: u32, width: u32, height: u32) -> (applied: bool)
        ensures
            applied == (width > 0 && height > 0),
            final(self)@ == old(self)@.after_resize(seed, width, height),
            old(self)@.wf() ==> final(self)@.wf(),
    {
        if width > 0 && height > 0 {
            self.size = Viewport { width, height };
            let accepted = self.accumulation.resize(width, height);
            self.compute_pass.resize_with_seed(seed, width, height);
            true
        } else {
            false
        }
    }

    /// Handles a resize request and reports whether the host has to
    /// reallocate the target and the buffers that are sized by it. A request
    /// with a zero dimension is ignored.
    pub fn resize(&mut self, width: u32, height: u32) -> (applied: bool)
        ensures
            applied == (width > 0 && height > 0),
            final(self)@ == old(self)@.after_resize(
                final(self)@.compute_pass.config().seed,
                width,
                height,
            ),
            old(self)@.wf() ==> final(self)@.wf(),
    {
        if width > 0 && height > 0 {
            self.size = Viewport { width, height };
            let accepted = self.accumulation.resize(width, height);
            self.compute_pass.resize(width, height);
            true
        } else {
            false
        }
    }

    /// Moves the camera for one frame, as [`CameraController::update_camera`]
    /// does, and reports whether it changed. If it did, the host has to
    /// upload the camera again.
    pub fn update<S: Copy, F: Fn(Camera<S>, MotionStep) -> Camera<S>>(
        &mut self,
        camera: &mut Camera<S>,
        measured: Measured,
        apply: F,
    ) -> (changed: bool)
        requires
            forall|from: Camera<S>, step: MotionStep| call_requires(apply, (from, step)),
        ensures
            changed == old(self)@.controller.changed(measured),
            final(self)@ == old(self)@.after_update(measured),
            moved(apply, *old(camera), old(self)@.controller.steps(measured), *final(camera)),
            old(self)@.wf() ==> final(self)@.wf(),
    {
        let changed = self.camera_controller.update_camera(camera, measured, apply);
        if changed {
            self.accumulation.invalidate();
            self.compute_pass.update();
        }
        changed
    }

    /// Plans the frame's dispatch with a given seed; see [`State::render`].
    pub fn render_with_seed(&mut self, seed: u32) -> (dispatch: Dispatch)
        ensures
            dispatch == old(self)@.dispatch(seed),
            final(self)@ == old(self)@.after_render(seed),
            old(self)@.wf() ==> final(self)@.wf(),
    {
        let params = self.accumulation.frame(false);
        self.compute_pass.render_with_seed(seed, params)
    }

    /// Plans the frame's dispatch and counts the frame.
    pub fn render(&mut self) -> (dispatch: Dispatch)
        ensures
            dispatch == old(self)@.dispatch(dispatch.config.seed),
            final(self)@ == old(self)@.after_render(dispatch.config.seed),
            old(self)@.wf() ==> final(self)@.wf(),
    {
        let params = self.accumulation.frame(false);
        self.compute_pass.render(params)
    }
}

/// Invalidation: after a frame whose update changed the camera, and after an
/// accepted resize, the next dispatch is told that the target is stale and
/// holds no samples, and it plans for none.
pub proof fn lemma_invalidation<P>(
    session: Session<P>,
    measured: Measured,
    seed: u32,
    width: u32,
    height: u32,
)
    ensures
        session.controller.changed(measured) ==> {
            let next = session.after_update(measured);
            &&& next.frame_params() == (FrameParams { sample_count: 0, stale: true })
            &&& next.dispatch(seed).sample_count == 0
        },
        width > 0 && height > 0 ==> {
            let next = session.after_resize(seed, width, height);
            &&& next.frame_params() == (FrameParams { sample_count: 0, stale: true })
            &&& next.dispatch(seed).sample_count == 0
        },
{
}

/// Without a change of the camera or a resize in between, each dispatch is
/// told one sample more than the one before.
pub proof fn lemma_refinement<P>(session: Session<P>, seed: u32, measured: Measured)
    requires
        !session.controller.changed(measured),
    ensures
        session.after_render(seed).after_update(measured).frame_params() == (FrameParams {
            sample_count: next_count(session.frame_params().sample_count),
            stale: false,
        }),
{
}

/// The preview of the mega-kernel backend: a frame is traced to depth 1
/// exactly when its dispatch is told that the target is stale, which is the
/// frame that follows a change of the camera or a resize; every other frame
/// is traced to the full depth.
pub proof fn lemma_preview_iff_stale<P>(session: Session<P>, seed: u32)
    requires
        session.wf(),
        session.compute_pass.kind() == BackendKind::MegaKernel,
    ensures
        session.frame_params().stale ==> session.dispatch(seed).config.depth == PREVIEW_DEPTH,
        !session.frame_params().stale ==> session.dispatch(seed).config.depth == DEFAULT_DEPTH,
        !session.after_render(seed).frame_params().stale,
{
}

} // verus!
