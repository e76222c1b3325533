//! The application's life cycle.
use crate::bus::{BusError, Message};
use vstd::prelude::*;

verus! {

/// Where the application is in its life.
#[derive(Clone, Copy, PartialEq, Eq, Debug, Structural)]
pub enum AppState {
    Preparing,
    Running,
    Closing,
    Closed,
}

impl AppState {
    /// Whether the application should keep running: while it prepares or
    /// runs.
    pub fn health(&self) -> (r: bool)
        ensures
            r <==> (*self == AppState::Preparing || *self == AppState::Running),
    {
        match self {
            AppState::Preparing | AppState::Running => true,
            _ => false,
        }
    }
}

/// How the terminal is to be set up.
#[derive(Clone, Copy, PartialEq, Eq, Debug, Structural)]
pub struct Tui {
    pub enable_mouse_capture: bool,
}

impl Tui {
    /// Terminal settings, capturing the mouse or not.
    pub fn new(enable_mouse_capture: bool) -> (r: Tui)
        ensures
            r.enable_mouse_capture == enable_mouse_capture,
    {
        Tui { enable_mouse_capture }
    }
}

/// The smallest terminal the application runs in, in columns and rows.
pub const MIN_WIDTH: u16 = 64;
pub const MIN_HEIGHT: u16 = 16;

/// How many inputs one tick of the run loop handles before it draws: it
/// stops once it has handled more than this many.
pub const INPUTS_PER_TICK: usize = 50;

/// An event of the application-wide channel, as the run loop tells them
/// apart.
#[derive(Clone, Copy, PartialEq, Eq, Debug, Structural)]
pub enum BusSignal {
    Exit,
    Restart,
    Tick,
    /// Any other event, which the context handles.
    Other,
}

/// What the run loop does with an event of the application-wide channel.
#[derive(Clone, Copy, PartialEq, Eq, Debug, Structural)]
pub enum SignalStep {
    /// Tell the context to tear down, and go on to the next tick.
    Destroy,
    /// Stop the loop and ask for a restart.
    Restart,
    /// Go on with this tick.
    Proceed,
    /// Hand the event to the context, then go on with this tick.
    Forward,
}

/// An input, as the run loop tells them apart.
#[derive(Clone, Copy, PartialEq, Eq, Debug, Structural)]
pub enum LoopInput {
    /// A key: whether it is a press, and whether it is Ctrl+F5.
    Key { press: bool, ctrl_f5: bool },
    Mouse,
    /// The terminal's new size, in columns and rows.
    Resize(u16, u16),
    Other,
}

/// What the run loop does with an input.
#[derive(Clone, Copy, PartialEq, Eq, Debug, Structural)]
pub enum InputStep {
    /// Reset the context.
    Reset,
    /// Hand the key to the context, then call `exit_after_key`.
    HandleKey,
    /// Hand the mouse event to the context.
    HandleMouse,
    /// Stop: the terminal is smaller than `MIN_WIDTH` by `MIN_HEIGHT`.
    TooSmall,
    Ignore,
}

/// Whether a tick has anything to do: the context had new data, or an
/// event, a message or an input is waiting.
pub fn tick_has_work(data_changed: bool, event_waiting: bool, message_waiting: bool, input_waiting: bool) -> (r: bool)
    ensures
        r == (data_changed || event_waiting || message_waiting || input_waiting),
{
    data_changed || event_waiting || message_waiting || input_waiting
}

/// Handles an event of the application-wide channel: Exit closes the
/// application, Restart ends the loop with a restart, a tick does nothing.
pub fn on_signal(state: &mut AppState, signal: BusSignal) -> (r: SignalStep)
    ensures
        match signal {
            BusSignal::Exit => r == SignalStep::Destroy && *final(state) == AppState::Closing,
            BusSignal::Restart => r == SignalStep::Restart && *final(state) == AppState::Closed,
            BusSignal::Tick => r == SignalStep::Proceed && *final(state) == *old(state),
            BusSignal::Other => r == SignalStep::Forward && *final(state) == *old(state),
        },
{
    match signal {
        BusSignal::Exit => {
            *state = AppState::Closing;
            SignalStep::Destroy
        },
        BusSignal::Restart => {
            *state = AppState::Closed;
            SignalStep::Restart
        },
        BusSignal::Tick => SignalStep::Proceed,
        BusSignal::Other => SignalStep::Forward,
    }
}

/// Handles an input: a key press of Ctrl+F5 resets, any other press goes to
/// the context, releases are ignored; mouse events go to the context; a
/// terminal narrower than `MIN_WIDTH` or lower than `MIN_HEIGHT` stops the
/// run.
pub fn on_input(input: LoopInput) -> (r: InputStep)
    ensures
        r == match input {
            LoopInput::Key { press, ctrl_f5 } => if !press {
                InputStep::Ignore
            } else if ctrl_f5 {
                InputStep::Reset
            } else {
                InputStep::HandleKey
            },
            LoopInput::Mouse => InputStep::HandleMouse,
            LoopInput::Resize(w, h) => if w < MIN_WIDTH || h < MIN_HEIGHT {
                InputStep::TooSmall
            } else {
                InputStep::Ignore
            },
            LoopInput::Other => InputStep::Ignore,
        },
{
    match input {
        LoopInput::Key { press, ctrl_f5 } => if !press {
            InputStep::Ignore
        } else if ctrl_f5 {
            InputStep::Reset
        } else {
            InputStep::HandleKey
        },
        LoopInput::Mouse => InputStep::HandleMouse,
        LoopInput::Resize(w, h) => if w < MIN_WIDTH || h < MIN_HEIGHT {
            InputStep::TooSmall
        } else {
            InputStep::Ignore
        },
        LoopInput::Other => InputStep::Ignore,
    }
}

/// Whether a key the context has handled asks the application to exit: a
/// Ctrl+C that nothing took.
pub fn exit_after_key(accepted: bool, ctrl_c: bool) -> (r: bool)
    ensures
        r == (!accepted && ctrl_c),
{
    !accepted && ctrl_c
}

/// Whether the loop reads another input in this tick, after it has handled
/// `handled` of them.
pub fn keep_reading_inputs(handled: usize) -> (r: bool)
    ensures
        r == (handled <= INPUTS_PER_TICK),
{
    handled <= INPUTS_PER_TICK
}

/// The toast shown after a tick: the message taken from the toast channel
/// where one was waiting, else the one shown before.
pub fn next_toast(shown: Option<Message>, taken: Result<Message, BusError>) -> (r: Option<Message>)
    ensures
        taken is Ok ==> r == Some(taken->Ok_0),
        taken is Err ==> r == shown,
{
    match taken {
        Ok(m) => Some(m),
        Err(_) => shown,
    }
}

} // verus!
