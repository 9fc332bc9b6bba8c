//! The frame driver: a state machine that turns window events and the
//! results of GPU work into the next piece of work.
//!
//! The driver performs nothing itself. Its caller hands it one event at a
//! time, carries out the action it returns, and reports how that ended with
//! the next event. A frame runs `Idle -> Acquiring -> Encoding ->
//! Presenting -> Idle`; window events that arrive in between are remembered
//! and take effect once the driver is idle again.

use vstd::prelude::*;
use crate::gpu::same_format;
use crate::pipeline::{frame_pass, RenderError, RenderPass, RenderPipelineState};
use crate::surface::{AcquireOutcome, AcquireStep, SurfaceConfig, SurfaceConfigView};

verus! {

/// Where the driver stands within a frame.
#[derive(Clone, Copy, Debug, PartialEq, Eq, Structural)]
pub enum DriverState {
    /// Between frames.
    Idle,
    /// An image was requested; `retried` tells whether this is the second
    /// request of the frame.
    Acquiring { retried: bool },
    /// The render pass is being recorded and submitted.
    Encoding,
    /// The image was handed over for presentation.
    Presenting,
    /// Rendering has failed for good. No event leaves this state.
    Error,
}

/// How presenting an image ended.
#[derive(Clone, Copy, Debug, PartialEq, Eq, Structural)]
pub enum PresentOutcome {
    /// The image was presented.
    Done,
    /// No memory was left to present it.
    OutOfMemory,
    /// Presenting failed in another way.
    Failed,
}

/// What the driver is told: a window event, or the result of the action it
/// asked for last.
#[derive(Clone, Copy, Debug, PartialEq, Eq, Structural)]
pub enum Event {
    /// The window has a new size (width, height).
    Resized(u32, u32),
    /// The window's scale factor changed; it now has this size.
    ScaleFactorChanged(u32, u32),
    /// The user asked to close the window.
    CloseRequested,
    /// The window wants a new frame.
    RedrawRequested,
    /// All pending window events have been delivered.
    MainEventsCleared,
    /// The request for an image ended.
    Acquired(AcquireOutcome),
    /// The render pass was recorded and submitted.
    Encoded,
    /// Presenting the image ended.
    Presented(PresentOutcome),
}

/// Why a frame was given up.
#[derive(Clone, Copy, Debug, PartialEq, Eq, Structural)]
pub enum FrameFailure {
    /// No image could be acquired; the outcome of the last request tells why.
    Acquire(AcquireOutcome),
    /// The image was rendered but could not be presented.
    Present,
}

/// Why rendering stopped for good.
#[derive(Clone, Copy, Debug, PartialEq, Eq, Structural)]
pub enum FatalError {
    /// No memory was left to acquire an image.
    AcquireOutOfMemory,
    /// No memory was left to present an image.
    PresentOutOfMemory,
}

/// What the caller must do next.
#[derive(Clone, Copy, Debug, PartialEq, Eq, Structural)]
pub enum Action {
    /// Nothing.
    Nothing,
    /// Ask the window for a redraw.
    RequestRedraw,
    /// Configure the surface with the driver's configuration, which has a
    /// new size, and ask the window for a redraw.
    Configure,
    /// Request the next presentable image.
    Acquire,
    /// Configure the surface again with the driver's configuration, then
    /// request the image once more.
    ReconfigureAndAcquire,
    /// Record this pass against the acquired image and submit it.
    Encode(RenderPass),
    /// Present the image.
    Present,
    /// The frame is on screen; nothing is left to do for it.
    FramePresented,
    /// The frame was given up; report the failure and go on.
    FrameDropped(FrameFailure),
    /// Leave the event loop: the window is closing.
    Exit,
    /// Leave the event loop: rendering cannot go on.
    Abort(FatalError),
    /// The driver has failed before; it does nothing any more.
    Halted,
}

/// What a frame driver holds, as a plain record.
pub struct DriverView {
    pub state: DriverState,
    pub config: SurfaceConfigView,
    pub pipeline: RenderPipelineState,
    /// The size of the latest resize that has not taken effect yet.
    pub pending_resize: Option<(u32, u32)>,
    /// Whether closing was requested.
    pub stop_requested: bool,
}

impl DriverView {
    /// The surface has positive dimensions and the format that the pipeline
    /// is bound to, and a remembered size is one that a resize accepts.
    pub open spec fn wf(self) -> bool {
        &&& self.config.wf()
        &&& self.pipeline.bound_color_format == self.config.format
        &&& (self.pending_resize matches Some(size) ==> size.0 > 0 && size.1 > 0)
    }

    /// The driver after it has taken note of a window event: an acceptable
    /// new size is remembered, the latest replacing an earlier one, and so is
    /// a request to close. A size with a zero dimension is ignored.
    pub open spec fn absorb(self, event: Event) -> DriverView {
        match event {
            Event::Resized(w, h) => if w > 0 && h > 0 {
                DriverView { pending_resize: Some((w, h)), ..self }
            } else {
                self
            },
            Event::ScaleFactorChanged(w, h) => if w > 0 && h > 0 {
                DriverView { pending_resize: Some((w, h)), ..self }
            } else {
                self
            },
            Event::CloseRequested => DriverView { stop_requested: true, ..self },
            _ => self,
        }
    }

    /// What an idle driver does with an event, after taking note of it.
    /// A request to close comes first, then a remembered resize, then the
    /// event itself.
    pub open spec fn settle(self, event: Event) -> (DriverView, Action) {
        if self.stop_requested {
            (self, Action::Exit)
        } else if let Some(size) = self.pending_resize {
            (
                DriverView {
                    config: self.config.resized(size.0, size.1),
                    pending_resize: None,
                    ..self
                },
                Action::Configure,
            )
        } else {
            match event {
                Event::RedrawRequested => (
                    DriverView { state: DriverState::Acquiring { retried: false }, ..self },
                    Action::Acquire,
                ),
                Event::MainEventsCleared => (self, Action::RequestRedraw),
                _ => (self, Action::Nothing),
            }
        }
    }

    /// What follows the end of a request for an image.
    pub open spec fn acquired(self, outcome: AcquireOutcome, retried: bool) -> (
        DriverView,
        Action,
    ) {
        match outcome.spec_next_step(retried) {
            AcquireStep::UseImage => (
                DriverView { state: DriverState::Encoding, ..self },
                Action::Encode(frame_pass()),
            ),
            AcquireStep::ReconfigureAndRetry => (
                DriverView { state: DriverState::Acquiring { retried: true }, ..self },
                Action::ReconfigureAndAcquire,
            ),
            AcquireStep::DropFrame => (
                DriverView { state: DriverState::Idle, ..self },
                Action::FrameDropped(FrameFailure::Acquire(outcome)),
            ),
            AcquireStep::Fail => (
                DriverView { state: DriverState::Error, ..self },
                Action::Abort(FatalError::AcquireOutOfMemory),
            ),
        }
    }

    /// What follows the end of a presentation.
    pub open spec fn presented(self, outcome: PresentOutcome) -> (DriverView, Action) {
        match outcome {
            PresentOutcome::Done => (
                DriverView { state: DriverState::Idle, ..self },
                Action::FramePresented,
            ),
            PresentOutcome::Failed => (
                DriverView { state: DriverState::Idle, ..self },
                Action::FrameDropped(FrameFailure::Present),
            ),
            PresentOutcome::OutOfMemory => (
                DriverView { state: DriverState::Error, ..self },
                Action::Abort(FatalError::PresentOutOfMemory),
            ),
        }
    }

    /// The transition function: the driver after `event`, and the action it
    /// asks for.
    ///
    /// A failed driver stays as it is. Any other driver first takes note of
    /// the event. An idle driver then settles; a driver within a frame moves
    /// on only with the result it is waiting for, and answers anything else
    /// with `Nothing`.
    pub open spec fn step(self, event: Event) -> (DriverView, Action) {
        let noted = self.absorb(event);
        match self.state {
            DriverState::Error => (self, Action::Halted),
            DriverState::Idle => noted.settle(event),
            DriverState::Acquiring { retried } => match event {
                Event::Acquired(outcome) => noted.acquired(outcome, retried),
                _ => (noted, Action::Nothing),
            },
            DriverState::Encoding => match event {
                Event::Encoded => (
                    DriverView { state: DriverState::Presenting, ..noted },
                    Action::Present,
                ),
                _ => (noted, Action::Nothing),
            },
            DriverState::Presenting => match event {
                Event::Presented(outcome) => noted.presented(outcome),
                _ => (noted, Action::Nothing),
            },
        }
    }
}

/// The frame driver. It owns the surface configuration and the state of the
/// pipeline that renders to the surface.
#[derive(Clone, Copy, Debug, PartialEq, Eq)]
pub struct FrameDriver {
    state: DriverState,
    config: SurfaceConfig,
    pipeline: RenderPipelineState,
    pending_resize: Option<(u32, u32)>,
    stop_requested: bool,
}

impl View for FrameDriver {
    type V = DriverView;

    closed spec fn view(&self) -> DriverView {
        DriverView {
            state: self.state,
            config: self.config@,
            pipeline: self.pipeline,
            pending_resize: self.pending_resize,
            stop_requested: self.stop_requested,
        }
    }
}

impl FrameDriver {
    #[verifier::type_invariant]
    pub open spec fn inv(&self) -> bool {
        self@.wf()
    }

    /// An idle driver for a configured surface and the pipeline that renders
    /// to it. Refused with `FormatMismatch` exactly when the pipeline is
    /// bound to another colour format than the surface has.
    pub fn new(config: SurfaceConfig, pipeline: RenderPipelineState) -> (driver: Result<
        FrameDriver,
        RenderError,
    >)
        ensures
            pipeline.bound_color_format == config@.format ==> driver is Ok,
            pipeline.bound_color_format != config@.format ==> driver == Err::<
                FrameDriver,
                RenderError,
            >(RenderError::FormatMismatch),
            driver matches Ok(d) ==> d@ == (DriverView {
                state: DriverState::Idle,
                config: config@,
                pipeline,
                pending_resize: None,
                stop_requested: false,
            }) && d@.wf(),
    {
        proof {
            use_type_invariant(&config);
        }
        let format = config.format();
        if same_format(&pipeline.bound_color_format, &format) {
            Ok(
                FrameDriver {
                    state: DriverState::Idle,
                    config,
                    pipeline,
                    pending_resize: None,
                    stop_requested: false,
                },
            )
        } else {
            Err(RenderError::FormatMismatch)
        }
    }

    /// Where the driver stands.
    pub fn state(&self) -> (state: DriverState)
        ensures
            state == self@.state,
    {
        self.state
    }

    /// The surface configuration as it stands.
    pub fn config(&self) -> (config: SurfaceConfig)
        ensures
            config@ == self@.config,
            config@.wf(),
    {
        proof {
            use_type_invariant(self);
        }
        self.config
    }

    /// The state of the pipeline the driver renders with.
    pub fn pipeline(&self) -> (pipeline: RenderPipelineState)
        ensures
            pipeline == self@.pipeline,
            pipeline.bound_color_format == self@.config.format,
    {
        proof {
            use_type_invariant(self);
        }
        self.pipeline
    }

    /// Whether closing was requested.
    pub fn stop_requested(&self) -> (stop: bool)
        ensures
            stop == self@.stop_requested,
    {
        self.stop_requested
    }

    /// The size of the latest resize that has not taken effect yet.
    pub fn pending_resize(&self) -> (size: Option<(u32, u32)>)
        ensures
            size == self@.pending_resize,
    {
        self.pending_resize
    }

    /// Takes note of a window event.
    fn absorb(&mut self, event: Event)
        ensures
            final(self)@ == old(self)@.absorb(event),
            final(self)@.wf(),
    {
        proof {
            use_type_invariant(&*self);
        }
        match event {
            Event::Resized(w, h) => {
                if w > 0 && h > 0 {
                    self.pending_resize = Some((w, h));
                }
            },
            Event::ScaleFactorChanged(w, h) => {
                if w > 0 && h > 0 {
                    self.pending_resize = Some((w, h));
                }
            },
            Event::CloseRequested => {
                self.stop_requested = true;
            },
            _ => {},
        }
    }

    /// Handles an event in the idle state, after it was taken note of.
    fn settle(&mut self, event: Event) -> (action: Action)
        ensures
            final(self)@ == old(self)@.settle(event).0,
            action == old(self)@.settle(event).1,
            final(self)@.wf(),
    {
        proof {
            use_type_invariant(&*self);
        }
        if self.stop_requested {
            return Action::Exit;
        }
        match self.pending_resize {
            Some(size) => {
                self.config.resize(size.0, size.1);
                self.pending_resize = None;
                Action::Configure
            },
            None => match event {
                Event::RedrawRequested => {
                    self.state = DriverState::Acquiring { retried: false };
                    Action::Acquire
                },
                Event::MainEventsCleared => Action::RequestRedraw,
                _ => Action::Nothing,
            },
        }
    }

    /// Handles the end of a request for an image.
    fn acquired(&mut self, outcome: AcquireOutcome, retried: bool) -> (action: Action)
        ensures
            final(self)@ == old(self)@.acquired(outcome, retried).0,
            action == old(self)@.acquired(outcome, retried).1,
            final(self)@.wf(),
    {
        proof {
            use_type_invariant(&*self);
        }
        match outcome.next_step(retried) {
            AcquireStep::UseImage => {
                let target = self.config.format();
                match self.pipeline.render(&target) {
                    Ok(pass) => {
                        self.state = DriverState::Encoding;
                        Action::Encode(pass)
                    },
                    Err(_) => {
                        proof {
                            assert(false);
                        }
                        Action::Nothing
                    },
                }
            },
            AcquireStep::ReconfigureAndRetry => {
                self.state = DriverState::Acquiring { retried: true };
                Action::ReconfigureAndAcquire
            },
            AcquireStep::DropFrame => {
                self.state = DriverState::Idle;
                Action::FrameDropped(FrameFailure::Acquire(outcome))
            },
            AcquireStep::Fail => {
                self.state = DriverState::Error;
                Action::Abort(FatalError::AcquireOutOfMemory)
            },
        }
    }

    /// Handles the end of a presentation.
    fn presented(&mut self, outcome: PresentOutcome) -> (action: Action)
        ensures
            final(self)@ == old(self)@.presented(outcome).0,
            action == old(self)@.presented(outcome).1,
            final(self)@.wf(),
    {
        proof {
            use_type_invariant(&*self);
        }
        match outcome {
            PresentOutcome::Done => {
                self.state = DriverState::Idle;
                Action::FramePresented
            },
            PresentOutcome::Failed => {
                self.state = DriverState::Idle;
                Action::FrameDropped(FrameFailure::Present)
            },
            PresentOutcome::OutOfMemory => {
                self.state = DriverState::Error;
                Action::Abort(FatalError::PresentOutOfMemory)
            },
        }
    }

    /// Hands the driver an event and returns what the caller must do next.
    pub fn step(&mut self, event: Event) -> (action: Action)
        ensures
            final(self)@ == old(self)@.step(event).0,
            action == old(self)@.step(event).1,
            final(self)@.wf(),
    {
        proof {
            use_type_invariant(&*self);
        }
        let state = self.state;
        match state {
            DriverState::Error => Action::Halted,
            DriverState::Idle => {
                self.absorb(event);
                self.settle(event)
            },
            DriverState::Acquiring { retried } => {
                self.absorb(event);
                match event {
                    Event::Acquired(outcome) => self.acquired(outcome, retried),
                    _ => Action::Nothing,
                }
            },
            DriverState::Encoding => {
                self.absorb(event);
                match event {
                    Event::Encoded => {
                        self.state = DriverState::Presenting;
                        Action::Present
                    },
                    _ => Action::Nothing,
                }
            },
            DriverState::Presenting => {
                self.absorb(event);
                match event {
                    Event::Presented(outcome) => self.presented(outcome),
                    _ => Action::Nothing,
                }
            },
        }
    }
}

/// A step keeps a well-formed driver well formed, and never touches the
/// pipeline or the surface's format.
pub proof fn lemma_step_keeps_wf(driver: DriverView, event: Event)
    requires
        driver.wf(),
    ensures
        driver.step(event).0.wf(),
        driver.step(event).0.pipeline == driver.pipeline,
        driver.step(event).0.config.format == driver.config.format,
{
}

/// A failed driver stays failed and unchanged whatever it is told, and a
/// driver aborts exactly when it enters the failed state.
pub proof fn lemma_error_is_terminal(driver: DriverView, event: Event)
    ensures
        driver.state == DriverState::Error ==> driver.step(event) == (driver, Action::Halted),
        driver.step(event).1 is Abort <==> driver.state != DriverState::Error && driver.step(
            event,
        ).0.state == DriverState::Error,
        driver.step(event).1 is Abort ==> event == Event::Acquired(AcquireOutcome::OutOfMemory)
            || event == Event::Presented(PresentOutcome::OutOfMemory),
{
}

/// The surface is configured again for a retry only on the first request
/// of a frame, and only when that request found the swapchain stale. The
/// second request of a frame is never followed by a third.
pub proof fn lemma_one_retry_per_frame(driver: DriverView, event: Event)
    ensures
        driver.step(event).1 == Action::ReconfigureAndAcquire <==> driver.state
            == (DriverState::Acquiring { retried: false }) && (event == Event::Acquired(
            AcquireOutcome::Lost,
        ) || event == Event::Acquired(AcquireOutcome::Outdated)),
        driver.step(event).1 == Action::ReconfigureAndAcquire ==> driver.step(event).0.state
            == (DriverState::Acquiring { retried: true }),
        driver.state == (DriverState::Acquiring { retried: true }) ==> driver.step(event).1
            != Action::ReconfigureAndAcquire && driver.step(event).1 != Action::Acquire,
{
}

/// A frame keeps its order: a pass is encoded only for an image that was
/// just acquired, an image is presented only after its pass was encoded, and
/// a frame counts as presented only after presenting ended well.
pub proof fn lemma_frame_order(driver: DriverView, event: Event)
    ensures
        driver.step(event).1 is Encode <==> driver.state is Acquiring && event == Event::Acquired(
            AcquireOutcome::Ready,
        ),
        driver.step(event).1 is Encode ==> driver.step(event).1 == Action::Encode(frame_pass())
            && driver.step(event).0.state == DriverState::Encoding,
        driver.step(event).1 == Action::Present <==> driver.state == DriverState::Encoding
            && event == Event::Encoded,
        driver.step(event).1 == Action::Present ==> driver.step(event).0.state
            == DriverState::Presenting,
        driver.step(event).1 == Action::FramePresented <==> driver.state
            == DriverState::Presenting && event == Event::Presented(PresentOutcome::Done),
        driver.step(event).1 == Action::FramePresented ==> driver.step(event).0.state
            == DriverState::Idle,
        driver.step(event).1 == Action::Acquire ==> driver.state == DriverState::Idle
            && driver.step(event).0.state == (DriverState::Acquiring { retried: false }),
{
}

/// A frame in flight is never interrupted: until the driver is idle again
/// the surface configuration stays as it is, and the driver neither asks
/// for the surface to be configured with a new size nor for the loop to be
/// left on a request to close.
pub proof fn lemma_frame_not_interrupted(driver: DriverView, event: Event)
    requires
        driver.state != DriverState::Idle,
    ensures
        driver.step(event).0.config == driver.config,
        driver.step(event).1 != Action::Configure,
        driver.step(event).1 != Action::Exit,
        driver.step(event).1 != Action::Acquire,
{
}

/// A request to close is never forgotten, and an idle driver answers it
/// with `Exit`, at once or with the first event after the frame in flight.
pub proof fn lemma_stop_is_honoured(driver: DriverView, event: Event)
    requires
        driver.state != DriverState::Error,
    ensures
        driver.stop_requested || event == Event::CloseRequested ==> driver.step(
            event,
        ).0.stop_requested,
        driver.state == DriverState::Idle && (driver.stop_requested || event
            == Event::CloseRequested) ==> driver.step(event) == (
            DriverView { stop_requested: true, ..driver.absorb(event) },
            Action::Exit,
        ),
        driver.step(event).1 == Action::Exit ==> driver.state == DriverState::Idle,
{
}

/// An idle driver that is not closing takes an acceptable new size at once:
/// the surface configuration gets the size and must be configured. A size
/// with a zero dimension changes nothing.
pub proof fn lemma_resize_when_idle(driver: DriverView, width: u32, height: u32)
    requires
        driver.state == DriverState::Idle,
        !driver.stop_requested,
    ensures
        width > 0 && height > 0 ==> driver.step(Event::Resized(width, height)) == (
            DriverView {
                config: driver.config.resized(width, height),
                pending_resize: None,
                ..driver
            },
            Action::Configure,
        ),
        (width == 0 || height == 0) && driver.pending_resize is None ==> driver.step(
            Event::Resized(width, height),
        ) == (driver, Action::Nothing),
        driver.step(Event::ScaleFactorChanged(width, height)) == driver.step(
            Event::Resized(width, height),
        ),
{
}

} // verus!
