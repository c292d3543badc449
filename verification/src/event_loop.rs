//! The event loop: its state, and what it does next.

use crate::display::{
    display_handle_from_gdk, raw_display_handle, NativeDisplay, OwnedDisplayHandle,
    RawDisplayHandle,
};
use crate::error::{EventLoopError, HandleError, NotSupportedError, OsError, RequestError};
use crate::output::{lemma_handle_is_its_view, MonitorHandle, NativeMonitor};
use crate::theme::{theme_of, ColorScheme, Theme};
use crate::window::{Window, WindowAttributes};
use std::time::Instant;
use vstd::prelude::*;

verus! {

/// `std::time::Instant`, a point in time as the standard library's clock
/// tells it. It is carried along and handed back; nothing is claimed of
/// what is inside.
#[verifier::external_type_specification]
#[verifier::external_body]
pub struct ExInstant(std::time::Instant);

/// How the loop waits between two rounds of events.
#[derive(Clone, Copy, Debug, PartialEq, Eq)]
pub enum ControlFlow {
    /// Do not wait: start the next round at once.
    Poll,
    /// Wait until an event arrives.
    Wait,
    /// Wait until an event arrives or the given time has come.
    WaitUntil(Instant),
}

/// How a loop waits when nothing has told it how to: for the next event.
pub open spec fn default_control_flow() -> ControlFlow {
    ControlFlow::Wait
}

impl Default for ControlFlow {
    fn default() -> (control_flow: ControlFlow)
        ensures
            control_flow == default_control_flow(),
    {
        ControlFlow::Wait
    }
}

/// Event loop attributes that only this backend has. There are none.
#[derive(Clone, Copy, Debug, PartialEq, Eq, Structural, Hash)]
pub struct PlatformSpecificEventLoopAttributes;

impl Default for PlatformSpecificEventLoopAttributes {
    fn default() -> (attributes: PlatformSpecificEventLoopAttributes)
        ensures
            attributes == PlatformSpecificEventLoopAttributes,
    {
        PlatformSpecificEventLoopAttributes
    }
}

/// When raw device events are wanted.
#[derive(Clone, Copy, Debug, PartialEq, Eq, Structural, Hash)]
pub enum DeviceEvents {
    Always,
    WhenFocused,
    Never,
}

/// What there is to know of an event loop.
pub struct LoopState {
    /// The display that the loop serves.
    pub display: NativeDisplay,
    /// How the loop waits between two rounds of events.
    pub control_flow: ControlFlow,
    /// The exit code, once the loop has been asked to end.
    pub exit: Option<i32>,
}

/// What changes the state of an event loop.
pub enum LoopOp {
    /// A call of `set_control_flow` with the given policy.
    SetControlFlow(ControlFlow),
    /// A call of `exit`.
    Exit,
}

impl LoopState {
    /// The state of a loop that has just been set up for `display`: it
    /// waits for events, and nothing has asked it to end.
    pub open spec fn started(display: NativeDisplay) -> LoopState {
        LoopState { display, control_flow: default_control_flow(), exit: None }
    }

    /// The only exit code that is ever recorded is zero.
    pub open spec fn well_formed(self) -> bool {
        self.exit is None || self.exit == Some(0i32)
    }

    /// Whether the loop has been asked to end.
    pub open spec fn exiting(self) -> bool {
        self.exit is Some
    }

    /// The state after `op`.
    pub open spec fn apply(self, op: LoopOp) -> LoopState {
        match op {
            LoopOp::SetControlFlow(control_flow) => LoopState { control_flow, ..self },
            LoopOp::Exit => LoopState { exit: Some(0i32), ..self },
        }
    }

    /// The state after each of `ops` in turn.
    pub open spec fn apply_all(self, ops: Seq<LoopOp>) -> LoopState
        decreases ops.len(),
    {
        if ops.len() == 0 {
            self
        } else {
            self.apply_all(ops.drop_last()).apply(ops.last())
        }
    }

    /// What the loop does next: it ends with the recorded code once it was
    /// asked to, and else waits as its policy says.
    pub open spec fn next_step(self) -> LoopStep {
        match self.exit {
            Some(code) => LoopStep::Exit(code),
            None => match self.control_flow {
                ControlFlow::Poll => LoopStep::Poll,
                ControlFlow::Wait => LoopStep::Wait,
                ControlFlow::WaitUntil(deadline) => LoopStep::WaitUntil(deadline),
            },
        }
    }
}

/// What the one who drives the toolkit's loop is to do next.
#[derive(Clone, Copy, Debug, PartialEq, Eq)]
pub enum LoopStep {
    /// Leave the loop; the code is the one that was recorded.
    Exit(i32),
    /// Handle what has arrived, without waiting.
    Poll,
    /// Wait for an event, then handle it.
    Wait,
    /// Wait for an event or for the given time, whichever comes first.
    WaitUntil(Instant),
}

/// The picture and hot spot of a cursor that an application brings along.
#[derive(Clone, Debug, PartialEq, Eq)]
pub struct CustomCursorSource {
    pub rgba: Vec<u8>,
    pub width: u16,
    pub height: u16,
    pub hotspot_x: u16,
    pub hotspot_y: u16,
}

/// A cursor that the backend has made from an application's picture.
#[derive(Clone, Debug, PartialEq, Eq)]
pub struct CustomCursor {
    source: CustomCursorSource,
}

/// The running side of an event loop: windows, monitors, the wait policy and
/// the way out.
#[derive(Debug)]
pub struct ActiveEventLoop {
    display: NativeDisplay,
    control_flow: ControlFlow,
    exit: Option<i32>,
}

impl View for ActiveEventLoop {
    type V = LoopState;

    closed spec fn view(&self) -> LoopState {
        LoopState { display: self.display, control_flow: self.control_flow, exit: self.exit }
    }
}

/// Whether `monitors` are the handles of `outputs`: one for each output, in
/// the same order, none left out and none twice.
pub open spec fn enumerates(monitors: Seq<MonitorHandle>, outputs: Seq<NativeMonitor>) -> bool {
    &&& monitors.len() == outputs.len()
    &&& forall|i: int| 0 <= i < monitors.len() ==> (#[trigger] monitors[i])@ == outputs[i]
}

impl ActiveEventLoop {
    /// The only exit code that is ever recorded is zero.
    #[verifier::type_invariant]
    closed spec fn exit_code_is_zero(&self) -> bool {
        self.exit is None || self.exit == Some(0i32)
    }

    /// Makes the window that the toolkit has set aside at `native`, or
    /// passes on the toolkit's refusal.
    ///
    /// No attribute makes this fail: what the toolkit has no setting for is
    /// passed over.
    pub fn create_window(
        &self,
        window_attributes: WindowAttributes,
        native: Result<usize, OsError>,
    ) -> (window: Result<Window, RequestError>)
        ensures
            match native {
                Ok(address) => window matches Ok(made) && made.spec_id()@ == address
                    && made.spec_settings() == window_attributes.settings(),
                Err(refusal) => window == Err::<Window, RequestError>(RequestError::Os(refusal)),
            },
    {
        match native {
            Ok(address) => Ok(Window::new(window_attributes, address)),
            Err(refusal) => Err(RequestError::Os(refusal)),
        }
    }

    /// Makes a cursor from an application's picture. This backend makes
    /// none yet.
    pub fn create_custom_cursor(&self, custom_cursor: CustomCursorSource) -> (cursor: Result<
        CustomCursor,
        RequestError,
    >)
        ensures
            cursor matches Err(RequestError::NotSupported(error)) && error@
                == "create_custom_cursor is not implemented"@,
    {
        Err(
            RequestError::NotSupported(
                NotSupportedError::new("create_custom_cursor is not implemented"),
            ),
        )
    }

    /// The monitors of the display, from what the display told of its
    /// outputs in one pass: a handle for each output, in the display's
    /// order.
    pub fn available_monitors(&self, outputs: &Vec<NativeMonitor>) -> (monitors: Vec<
        MonitorHandle,
    >)
        ensures
            enumerates(monitors@, outputs@),
    {
        let mut monitors: Vec<MonitorHandle> = Vec::new();
        let mut index: usize = 0;
        while index < outputs.len()
            invariant
                index <= outputs.len(),
                enumerates(monitors@, outputs@.take(index as int)),
            decreases outputs.len() - index,
        {
            monitors.push(MonitorHandle::new(outputs[index].clone()));
            index = index + 1;
        }
        monitors
    }

    /// The monitor that the desktop counts as its first. The display
    /// protocol knows of none.
    pub fn primary_monitor(&self) -> (monitor: Option<MonitorHandle>)
        ensures
            monitor is None,
    {
        None
    }

    /// Asks for raw device events. This backend has none to give, so the
    /// loop stays as it is.
    pub fn listen_device_events(&self, allowed: DeviceEvents) {
    }

    /// The theme that the toolkit's colour scheme stands for: light or
    /// dark, or none where the scheme leaves it to the system or is not
    /// known.
    pub fn system_theme(&self, color_scheme: ColorScheme) -> (theme: Option<Theme>)
        ensures
            theme == theme_of(color_scheme),
    {
        color_scheme.theme()
    }

    /// Sets how the loop waits between two rounds of events.
    pub fn set_control_flow(&mut self, control_flow: ControlFlow)
        ensures
            final(self)@ == old(self)@.apply(LoopOp::SetControlFlow(control_flow)),
    {
        proof {
            use_type_invariant(&*self);
        }
        self.control_flow = control_flow;
    }

    /// How the loop waits between two rounds of events.
    pub fn control_flow(&self) -> (control_flow: ControlFlow)
        ensures
            control_flow == self@.control_flow,
    {
        self.control_flow
    }

    /// Asks the loop to end, with the exit code zero.
    pub fn exit(&mut self)
        ensures
            final(self)@ == old(self)@.apply(LoopOp::Exit),
    {
        self.exit = Some(0);
    }

    /// Whether the loop has been asked to end.
    pub fn exiting(&self) -> (exiting: bool)
        ensures
            exiting == self@.exiting(),
            self@.well_formed(),
    {
        proof {
            use_type_invariant(self);
        }
        self.exit.is_some()
    }

    /// A display connection of its own, which outlives every window.
    pub fn owned_display_handle(&self) -> (owned: OwnedDisplayHandle)
        ensures
            owned@ == self@.display,
    {
        OwnedDisplayHandle::new(self.display)
    }

    /// The raw handle of the loop's display.
    pub fn display_handle(&self) -> (handle: Result<RawDisplayHandle, HandleError>)
        requires
            self@.display.well_formed(),
        ensures
            handle == raw_display_handle(self@.display),
    {
        display_handle_from_gdk(&self.display)
    }
}

/// What the toolkit says when it cannot be started, before its own words.
pub open spec fn init_failure_prefix() -> Seq<char> {
    "failed to initialize `libadwaita`: "@
}

/// What is said when the toolkit has no display.
pub open spec fn no_display_message() -> Seq<char> {
    "failed to get default `libadwaita` Wayland display"@
}

/// The event loop.
///
/// A process has one, and sets it up once: what a second one would do is
/// not defined.
#[derive(Debug)]
pub struct EventLoop {
    active_event_loop: ActiveEventLoop,
}

impl View for EventLoop {
    type V = LoopState;

    closed spec fn view(&self) -> LoopState {
        self.active_event_loop@
    }
}

impl EventLoop {
    /// Sets up the loop from what starting the toolkit gave: how its
    /// start-up went, and the default display where there is one.
    ///
    /// A toolkit that did not start is an error that carries the toolkit's
    /// own words, whatever the display. A toolkit that started without a
    /// display is an error too. With both, the loop starts out waiting for
    /// events, with no exit asked for.
    pub fn new(
        _attributes: &PlatformSpecificEventLoopAttributes,
        runtime: Result<(), String>,
        display: Option<NativeDisplay>,
    ) -> (event_loop: Result<EventLoop, EventLoopError>)
        ensures
            match (runtime, display) {
                (Err(reason), _) => event_loop matches Err(EventLoopError::Os(error)) && error@
                    == init_failure_prefix() + reason@,
                (Ok(_), None) => event_loop matches Err(EventLoopError::Os(error)) && error@
                    == no_display_message(),
                (Ok(_), Some(display)) => event_loop matches Ok(made) && made@
                    == LoopState::started(display),
            },
    {
        match runtime {
            Err(reason) => {
                let mut message = String::from_str("failed to initialize `libadwaita`: ");
                message.append(reason.as_str());
                return Err(EventLoopError::Os(OsError::new(message)));
            },
            Ok(_) => {},
        }
        let display = match display {
            Some(display) => display,
            None => {
                let message = String::from_str(
                    "failed to get default `libadwaita` Wayland display",
                );
                return Err(EventLoopError::Os(OsError::new(message)));
            },
        };
        Ok(
            EventLoop {
                active_event_loop: ActiveEventLoop {
                    display,
                    control_flow: ControlFlow::default(),
                    exit: None,
                },
            },
        )
    }

    /// The running side of the loop.
    pub fn window_target(&self) -> (target: &ActiveEventLoop)
        ensures
            target@ == self@,
    {
        &self.active_event_loop
    }

    /// The running side of the loop, to change its wait policy or to ask it
    /// to end.
    pub fn window_target_mut(&mut self) -> (target: &mut ActiveEventLoop)
        ensures
            target@ == old(self)@,
            final(self)@ == final(target)@,
    {
        &mut self.active_event_loop
    }

    /// What the one who drives the toolkit's loop is to do next.
    pub fn next_step(&self) -> (step: LoopStep)
        ensures
            step == self@.next_step(),
            self@.well_formed(),
    {
        proof {
            use_type_invariant(&self.active_event_loop);
        }
        match self.active_event_loop.exit {
            Some(code) => LoopStep::Exit(code),
            None => match self.active_event_loop.control_flow {
                ControlFlow::Poll => LoopStep::Poll,
                ControlFlow::Wait => LoopStep::Wait,
                ControlFlow::WaitUntil(deadline) => LoopStep::WaitUntil(deadline),
            },
        }
    }
}

/// A loop that has been set up waits as the default says for as long as
/// nothing sets its wait policy, whatever else is done to it.
pub proof fn lemma_control_flow_is_default_until_set(display: NativeDisplay, ops: Seq<LoopOp>)
    requires
        forall|i: int| 0 <= i < ops.len() ==> !(#[trigger] ops[i] is SetControlFlow),
    ensures
        LoopState::started(display).apply_all(ops).control_flow == default_control_flow(),
    decreases ops.len(),
{
    if ops.len() > 0 {
        lemma_control_flow_is_default_until_set(display, ops.drop_last());
    }
}

/// Asking a loop to end a second time changes nothing: the loop is still
/// ending, and with the exit code that was recorded first.
pub proof fn lemma_exit_is_idempotent(state: LoopState)
    requires
        state.well_formed(),
    ensures
        state.apply(LoopOp::Exit).exiting(),
        state.apply(LoopOp::Exit).apply(LoopOp::Exit) == state.apply(LoopOp::Exit),
        state.exiting() ==> state.apply(LoopOp::Exit) == state,
{
}

/// Nothing takes back that a loop was asked to end, and nothing records an
/// exit code other than zero.
pub proof fn lemma_exit_is_final(state: LoopState, ops: Seq<LoopOp>)
    requires
        state.well_formed(),
    ensures
        state.apply_all(ops).well_formed(),
        state.exiting() ==> state.apply_all(ops).exit == state.exit,
    decreases ops.len(),
{
    if ops.len() > 0 {
        lemma_exit_is_final(state, ops.drop_last());
    }
}

/// Two enumerations of the same outputs give the same monitors: as many as
/// there are outputs, and the same one at each place.
pub proof fn lemma_enumeration_is_stable(
    first: Seq<MonitorHandle>,
    second: Seq<MonitorHandle>,
    outputs: Seq<NativeMonitor>,
)
    requires
        enumerates(first, outputs),
        enumerates(second, outputs),
    ensures
        first.len() == outputs.len(),
        first == second,
{
    assert forall|i: int| 0 <= i < first.len() implies first[i] == second[i] by {
        lemma_handle_is_its_view(first[i], second[i]);
    }
    assert(first =~= second);
}

} // verus!
