//! A bridge between a host application and the input of the whole machine.
//!
//! In one direction the host injects input: it moves the pointer, presses
//! and releases keys and buttons, and turns the wheel. In the other it
//! listens: every key, button, pointer and wheel event on the machine,
//! whichever window has the focus, is captured, normalized to one shape and
//! handed to a callback.
//!
//! This crate holds the rules of the bridge and proves them. It does not
//! touch the operating system: the caller injects what `synth` asks for,
//! and reports what was captured to the `listener`.

pub mod button;
pub mod clock;
pub mod error;
pub mod event;
pub mod key;
pub mod listener;
pub mod record;
pub mod synth;
pub mod text;
pub mod trace;

pub use crate::button::Button;
pub use crate::clock::CaptureTime;
pub use crate::error::{ConversionError, DisplayQueryError, InjectionError};
pub use crate::event::{normalize, Coord, EventKind, NativeEvent, NativeKind, NormalizedEvent};
pub use crate::key::Key;
pub use crate::listener::{start_listening, Action, Bridge, Phase, Signal, StopCause};
pub use crate::record::{Property, Value};
pub use crate::synth::{
    button_press, button_release, injection_result, js_display_size, key_press, key_release,
    mouse_move, wheel,
};
