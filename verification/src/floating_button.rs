//! What the floating button shows and how it reads the pointer.
//!
//! The window itself belongs to the caller; the state of the button, its
//! colours and the difference between a click and a drag are decided here.

use std::sync::atomic::{AtomicI32, AtomicU8, Ordering};
use std::sync::mpsc::{Receiver, Sender};
use std::sync::Arc;
use vstd::prelude::*;

verus! {

/// How far the pointer may move, on either axis, and still click.
pub const CLICK_SLACK: i64 = 5;

/// What the button shows.
#[derive(Clone, Copy, Debug, PartialEq, Eq, Structural)]
pub enum ButtonState {
    /// Nothing is recorded.
    Idle,
    /// Audio is being recorded.
    Recording,
    /// The last result is awaited.
    Processing,
}

impl ButtonState {
    /// The state that a number stands for: 1 is recording, 2 is
    /// processing, every other number idle.
    pub open spec fn of_number(v: u8) -> ButtonState {
        if v == 1 {
            ButtonState::Recording
        } else if v == 2 {
            ButtonState::Processing
        } else {
            ButtonState::Idle
        }
    }

    /// The number that stands for the state.
    pub open spec fn number(self) -> u8 {
        match self {
            ButtonState::Idle => 0,
            ButtonState::Recording => 1,
            ButtonState::Processing => 2,
        }
    }

    /// The number that stands for the state.
    pub fn to_u8(self) -> (v: u8)
        ensures
            v == self.number(),
    {
        match self {
            ButtonState::Idle => 0,
            ButtonState::Recording => 1,
            ButtonState::Processing => 2,
        }
    }
}

impl From<u8> for ButtonState {
    fn from(v: u8) -> (state: ButtonState) {
        if v == 1 {
            ButtonState::Recording
        } else if v == 2 {
            ButtonState::Processing
        } else {
            ButtonState::Idle
        }
    }
}

impl vstd::std_specs::convert::FromSpecImpl<u8> for ButtonState {
    open spec fn obeys_from_spec() -> bool {
        true
    }

    open spec fn from_spec(v: u8) -> ButtonState {
        ButtonState::of_number(v)
    }
}

/// A state survives the way through its number.
pub proof fn lemma_state_number_round_trip(state: ButtonState)
    ensures
        ButtonState::of_number(state.number()) == state,
{
}

/// What the user asked of the button.
#[derive(Clone, Copy, Debug, PartialEq, Eq, Structural)]
pub enum FloatingButtonEvent {
    /// Start recording, or stop it.
    ToggleRecording,
    /// Leave the application.
    Exit,
}

/// Where the button first appears and how large it is.
#[derive(Clone, Copy, Debug, PartialEq, Eq, Structural)]
pub struct FloatingButtonConfig {
    pub initial_x: i32,
    pub initial_y: i32,
    pub size: i32,
}

impl Default for FloatingButtonConfig {
    fn default() -> (config: FloatingButtonConfig)
        ensures
            config == (FloatingButtonConfig { initial_x: 100, initial_y: 100, size: 56 }),
    {
        FloatingButtonConfig { initial_x: 100, initial_y: 100, size: 56 }
    }
}

/// Distance between two coordinates.
pub open spec fn distance(a: int, b: int) -> int {
    if a >= b {
        a - b
    } else {
        b - a
    }
}

/// Whether a press at one point and a release at another make a click: the
/// pointer moved less than the slack on both axes.
pub fn is_click(start_x: i32, start_y: i32, x: i32, y: i32) -> (click: bool)
    ensures
        click == (distance(x as int, start_x as int) < CLICK_SLACK && distance(
            y as int,
            start_y as int,
        ) < CLICK_SLACK),
{
    let dx: i64 = x as i64 - start_x as i64;
    let dy: i64 = y as i64 - start_y as i64;
    -CLICK_SLACK < dx && dx < CLICK_SLACK && -CLICK_SLACK < dy && dy < CLICK_SLACK
}

/// Where the window goes while it is dragged: as far from where it was as
/// the pointer is from where it was pressed. `None` where that lies outside
/// the coordinates a window can have.
pub fn dragged_to(window: i32, pressed_at: i32, pointer: i32) -> (position: Option<i32>)
    ensures
        match position {
            Some(p) => p == window + (pointer - pressed_at),
            None => window + (pointer - pressed_at) < i32::MIN || window + (pointer - pressed_at)
                > i32::MAX,
        },
{
    let wide: i64 = window as i64 + (pointer as i64 - pressed_at as i64);
    if wide < i32::MIN as i64 || wide > i32::MAX as i64 {
        None
    } else {
        Some(wide as i32)
    }
}

/// Colours of the button for the state that `number` stands for: the
/// inner one, then the outer one.
pub fn state_colors(number: u8) -> (colors: (u32, u32))
    ensures
        colors == match ButtonState::of_number(number) {
            ButtonState::Recording => (0x5555EFu32, 0x3535BFu32),
            ButtonState::Processing => (0xF68230u32, 0xC66020u32),
            ButtonState::Idle => (0xF65C8Bu32, 0xC64868u32),
        },
{
    if number == 1 {
        (0x5555EF, 0x3535BF)
    } else if number == 2 {
        (0xF68230, 0xC66020)
    } else {
        (0xF65C8B, 0xC64868)
    }
}

/// The receiving end of a channel of the standard library.
#[verifier::external_type_specification]
#[verifier::external_body]
#[verifier::reject_recursive_types(T)]
pub struct ExReceiver<T>(Receiver<T>);

/// The sending end of a channel of the standard library.
#[verifier::external_type_specification]
#[verifier::external_body]
#[verifier::reject_recursive_types(T)]
pub struct ExSender<T>(Sender<T>);

/// Calls `std::sync::mpsc::channel` for a channel of button events.
#[verifier::external_body]
pub(crate) fn event_channel() -> (ends: (Sender<FloatingButtonEvent>, Receiver<FloatingButtonEvent>)) {
    std::sync::mpsc::channel()
}

/// Calls `Sender::send`; tells whether the event was taken, which it is
/// not once the receiving end is gone.
#[verifier::external_body]
pub(crate) fn send_event(sender: &Sender<FloatingButtonEvent>, event: FloatingButtonEvent) -> (taken:
    bool) {
    sender.send(event).is_ok()
}

/// Sets and reads the state of the button from any thread.
#[derive(Clone)]
pub struct FloatingButtonStateSetter {
    state: Arc<AtomicU8>,
    hwnd: Arc<AtomicI32>,
}

impl FloatingButtonStateSetter {
    /// The cell in which the state of the button is kept.
    pub closed spec fn state_cell(&self) -> Arc<AtomicU8> {
        self.state
    }

    /// The cell in which the handle of the window is kept.
    pub closed spec fn window_cell(&self) -> Arc<AtomicI32> {
        self.hwnd
    }

    /// Sets what the button shows. The window is to be painted anew
    /// afterwards.
    pub fn set_state(&self, state: ButtonState) {
        self.state.store(state.to_u8(), Ordering::SeqCst);
    }

    /// What the button shows now. Another thread may set it at any time,
    /// so nothing is known of the answer but that it is a state.
    pub fn get_state(&self) -> (state: ButtonState)
        ensures
            exists|v: u8| state == ButtonState::of_number(v),
    {
        let v = self.state.load(Ordering::SeqCst);
        let state = if v == 1 {
            ButtonState::Recording
        } else if v == 2 {
            ButtonState::Processing
        } else {
            ButtonState::Idle
        };
        assert(state == ButtonState::of_number(v));
        state
    }

    /// The handle of the window of the button; 0 while there is none.
    pub fn window(&self) -> (handle: i32) {
        self.hwnd.load(Ordering::SeqCst)
    }
}

/// The floating button: its state, the handle of its window and the
/// channel on which it reports what the user asked.
pub struct FloatingButton {
    state: Arc<AtomicU8>,
    hwnd: Arc<AtomicI32>,
    event_tx: Sender<FloatingButtonEvent>,
    event_rx: Option<Receiver<FloatingButtonEvent>>,
}

impl FloatingButton {
    /// The cell in which the state of the button is kept.
    pub closed spec fn state_cell(&self) -> Arc<AtomicU8> {
        self.state
    }

    /// The cell in which the handle of the window is kept.
    pub closed spec fn window_cell(&self) -> Arc<AtomicI32> {
        self.hwnd
    }

    /// The receiving end of the events, while nobody has taken it.
    pub closed spec fn receiver(&self) -> Option<Receiver<FloatingButtonEvent>> {
        self.event_rx
    }

    /// A button that is idle and has no window yet. The receiving end of
    /// its events is still to be taken.
    pub fn new() -> (button: FloatingButton)
        ensures
            button.receiver() is Some,
    {
        let (event_tx, event_rx) = event_channel();
        FloatingButton {
            state: Arc::new(AtomicU8::new(ButtonState::Idle.to_u8())),
            hwnd: Arc::new(AtomicI32::new(0)),
            event_tx,
            event_rx: Some(event_rx),
        }
    }

    /// A setter that shares the state of this button and can be handed to
    /// other threads.
    pub fn state_setter(&self) -> (setter: FloatingButtonStateSetter)
        ensures
            setter.state_cell() == self.state_cell(),
            setter.window_cell() == self.window_cell(),
    {
        FloatingButtonStateSetter { state: self.state.clone(), hwnd: self.hwnd.clone() }
    }

    /// Hands out the receiving end of the events. It is there only once:
    /// every later call gives `None`.
    pub fn take_event_receiver(&mut self) -> (taken: Option<Receiver<FloatingButtonEvent>>)
        ensures
            taken == old(self).receiver(),
            final(self).receiver() is None,
    {
        self.event_rx.take()
    }

    /// Notes the handle of the window once it exists.
    pub fn set_window(&self, handle: i32) {
        self.hwnd.store(handle, Ordering::SeqCst);
    }

    /// Reports what the user asked; tells whether anybody still listens.
    pub fn report(&self, event: FloatingButtonEvent) -> (taken: bool) {
        send_event(&self.event_tx, event)
    }

    /// Reports a click where a press and a release make one, and tells
    /// whether they do.
    pub fn released(&self, start_x: i32, start_y: i32, x: i32, y: i32) -> (click: bool)
        ensures
            click == (distance(x as int, start_x as int) < CLICK_SLACK && distance(
                y as int,
                start_y as int,
            ) < CLICK_SLACK),
    {
        let click = is_click(start_x, start_y, x, y);
        if click {
            let _ = send_event(&self.event_tx, FloatingButtonEvent::ToggleRecording);
        }
        click
    }
}

} // verus!
