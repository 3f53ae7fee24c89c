//! Events as the platform layer reports them and as the host receives them.

use vstd::prelude::*;
use crate::button::{lemma_button_name_round_trip, Button};
use crate::clock::CaptureTime;
use crate::error::ConversionError;
use crate::key::{lemma_key_name_round_trip, Key};

verus! {

/// A screen coordinate in pixels: a double-precision number, held by its
/// IEEE 754 bit pattern so that it passes through bit for bit.
#[derive(Clone, Copy, Debug, PartialEq, Eq, Structural)]
pub struct Coord {
    pub bits: u64,
}

/// What happened: the one shape that serves for events to inject and for
/// events that were captured.
#[derive(Clone, Copy, Debug, PartialEq, Eq, Structural)]
pub enum EventKind {
    KeyPress { key: Key },
    KeyRelease { key: Key },
    ButtonPress { button: Button },
    ButtonRelease { button: Button },
    /// The pointer is at `x`, `y`, counted from the top left corner.
    MouseMove { x: Coord, y: Coord },
    /// The wheel turned: positive `delta_x` is to the right, positive
    /// `delta_y` is down.
    Wheel { delta_x: i64, delta_y: i64 },
}

/// What the platform layer says happened. It names a key or a button by
/// text, and may name one that the vocabulary does not hold.
#[derive(Debug, PartialEq, Eq)]
pub enum NativeKind {
    KeyDown(String),
    KeyUp(String),
    ButtonDown(String),
    ButtonUp(String),
    PointerMove { x: Coord, y: Coord },
    Scroll { delta_x: i64, delta_y: i64 },
}

/// A `NativeKind` in specifications: each text by its characters.
pub enum NativeKindView {
    KeyDown(Seq<char>),
    KeyUp(Seq<char>),
    ButtonDown(Seq<char>),
    ButtonUp(Seq<char>),
    PointerMove { x: Coord, y: Coord },
    Scroll { delta_x: i64, delta_y: i64 },
}

impl View for NativeKind {
    type V = NativeKindView;

    open spec fn view(&self) -> NativeKindView {
        match self {
            NativeKind::KeyDown(id) => NativeKindView::KeyDown(id@),
            NativeKind::KeyUp(id) => NativeKindView::KeyUp(id@),
            NativeKind::ButtonDown(id) => NativeKindView::ButtonDown(id@),
            NativeKind::ButtonUp(id) => NativeKindView::ButtonUp(id@),
            NativeKind::PointerMove { x, y } => NativeKindView::PointerMove { x: *x, y: *y },
            NativeKind::Scroll { delta_x, delta_y } => NativeKindView::Scroll {
                delta_x: *delta_x,
                delta_y: *delta_y,
            },
        }
    }
}

impl NativeKindView {
    /// The kind of the normalized event. Down and up become press and
    /// release with the symbol that the text names, a move keeps its
    /// coordinates and a scroll its deltas. An identifier outside the
    /// vocabulary has no kind.
    pub open spec fn kind_of(self) -> Result<EventKind, ConversionError> {
        match self {
            NativeKindView::KeyDown(id) => match Key::named(id) {
                Some(key) => Ok(EventKind::KeyPress { key }),
                None => Err(ConversionError::UnknownKey),
            },
            NativeKindView::KeyUp(id) => match Key::named(id) {
                Some(key) => Ok(EventKind::KeyRelease { key }),
                None => Err(ConversionError::UnknownKey),
            },
            NativeKindView::ButtonDown(id) => match Button::named(id) {
                Some(button) => Ok(EventKind::ButtonPress { button }),
                None => Err(ConversionError::UnknownButton),
            },
            NativeKindView::ButtonUp(id) => match Button::named(id) {
                Some(button) => Ok(EventKind::ButtonRelease { button }),
                None => Err(ConversionError::UnknownButton),
            },
            NativeKindView::PointerMove { x, y } => Ok(EventKind::MouseMove { x, y }),
            NativeKindView::Scroll { delta_x, delta_y } => Ok(
                EventKind::Wheel { delta_x, delta_y },
            ),
        }
    }
}

impl EventKind {
    /// The word by which the host tells the kinds apart.
    pub open spec fn direction_of(self) -> Seq<char> {
        match self {
            EventKind::KeyPress { .. } => "KeyPress"@,
            EventKind::KeyRelease { .. } => "KeyRelease"@,
            EventKind::ButtonPress { .. } => "ButtonPress"@,
            EventKind::ButtonRelease { .. } => "ButtonRelease"@,
            EventKind::MouseMove { .. } => "MouseMove"@,
            EventKind::Wheel { .. } => "Wheel"@,
        }
    }

    /// The word by which the host tells this kind from the others.
    pub fn direction(self) -> (word: &'static str)
        ensures
            word@ == self.direction_of(),
    {
        match self {
            EventKind::KeyPress { .. } => "KeyPress",
            EventKind::KeyRelease { .. } => "KeyRelease",
            EventKind::ButtonPress { .. } => "ButtonPress",
            EventKind::ButtonRelease { .. } => "ButtonRelease",
            EventKind::MouseMove { .. } => "MouseMove",
            EventKind::Wheel { .. } => "Wheel",
        }
    }

    /// How the platform layer reports an event of this kind when it
    /// captures one.
    pub open spec fn captured_as(self) -> NativeKindView {
        match self {
            EventKind::KeyPress { key } => NativeKindView::KeyDown(key.name_of()),
            EventKind::KeyRelease { key } => NativeKindView::KeyUp(key.name_of()),
            EventKind::ButtonPress { button } => NativeKindView::ButtonDown(button.name_of()),
            EventKind::ButtonRelease { button } => NativeKindView::ButtonUp(button.name_of()),
            EventKind::MouseMove { x, y } => NativeKindView::PointerMove { x, y },
            EventKind::Wheel { delta_x, delta_y } => NativeKindView::Scroll { delta_x, delta_y },
        }
    }
}

/// The kind of the normalized event for a native kind, or why there is none.
pub fn normalize_kind(kind: &NativeKind) -> (out: Result<EventKind, ConversionError>)
    ensures
        out == kind@.kind_of(),
{
    match kind {
        NativeKind::KeyDown(id) => match Key::from_name(id.as_str()) {
            Some(key) => Ok(EventKind::KeyPress { key }),
            None => Err(ConversionError::UnknownKey),
        },
        NativeKind::KeyUp(id) => match Key::from_name(id.as_str()) {
            Some(key) => Ok(EventKind::KeyRelease { key }),
            None => Err(ConversionError::UnknownKey),
        },
        NativeKind::ButtonDown(id) => match Button::from_name(id.as_str()) {
            Some(button) => Ok(EventKind::ButtonPress { button }),
            None => Err(ConversionError::UnknownButton),
        },
        NativeKind::ButtonUp(id) => match Button::from_name(id.as_str()) {
            Some(button) => Ok(EventKind::ButtonRelease { button }),
            None => Err(ConversionError::UnknownButton),
        },
        NativeKind::PointerMove { x, y } => Ok(EventKind::MouseMove { x: *x, y: *y }),
        NativeKind::Scroll { delta_x, delta_y } => Ok(
            EventKind::Wheel { delta_x: *delta_x, delta_y: *delta_y },
        ),
    }
}

/// An event travels unchanged through the platform: what is injected as
/// some kind and captured again is normalized to that same kind.
pub proof fn lemma_captured_kind_is_injected_kind(kind: EventKind)
    ensures
        kind.captured_as().kind_of() == Ok::<EventKind, ConversionError>(kind),
{
    match kind {
        EventKind::KeyPress { key } => {
            lemma_key_name_round_trip(key);
        },
        EventKind::KeyRelease { key } => {
            lemma_key_name_round_trip(key);
        },
        EventKind::ButtonPress { button } => {
            lemma_button_name_round_trip(button);
        },
        EventKind::ButtonRelease { button } => {
            lemma_button_name_round_trip(button);
        },
        _ => {},
    }
}

/// The characters of an optional text.
pub open spec fn text_of(text: Option<String>) -> Option<Seq<char>> {
    match text {
        Some(t) => Some(t@),
        None => None,
    }
}

/// One event as the platform layer hands it over: when it was captured, what
/// happened, and the characters that the key stroke produces where the
/// platform can tell.
#[derive(Debug, PartialEq, Eq)]
pub struct NativeEvent {
    pub time: CaptureTime,
    pub name: Option<String>,
    pub kind: NativeKind,
}

/// A `NativeEvent` in specifications.
pub struct NativeEventView {
    pub time: CaptureTime,
    pub name: Option<Seq<char>>,
    pub kind: NativeKindView,
}

impl View for NativeEvent {
    type V = NativeEventView;

    open spec fn view(&self) -> NativeEventView {
        NativeEventView { time: self.time, name: text_of(self.name), kind: self.kind@ }
    }
}

/// One event as the host receives it. It is made once, when the capture is
/// normalized, and never changes. It carries a textual name only where it
/// is a key press.
#[derive(Debug, PartialEq, Eq)]
pub struct NormalizedEvent {
    timestamp: i64,
    kind: EventKind,
    textual_name: Option<String>,
}

/// A `NormalizedEvent` in specifications.
pub struct NormalizedEventView {
    /// Milliseconds since the epoch.
    pub timestamp: i64,
    pub kind: EventKind,
    pub textual_name: Option<Seq<char>>,
}

impl NormalizedEventView {
    /// Only a key press has a textual name.
    pub open spec fn wf(self) -> bool {
        self.textual_name is Some ==> self.kind is KeyPress
    }
}

impl View for NormalizedEvent {
    type V = NormalizedEventView;

    closed spec fn view(&self) -> NormalizedEventView {
        NormalizedEventView {
            timestamp: self.timestamp,
            kind: self.kind,
            textual_name: text_of(self.textual_name),
        }
    }
}

impl NormalizedEvent {
    #[verifier::type_invariant]
    spec fn name_only_on_key_press(&self) -> bool {
        self@.wf()
    }

    /// Milliseconds since the epoch at the capture.
    pub fn timestamp(&self) -> (stamp: i64)
        ensures
            stamp == self@.timestamp,
    {
        self.timestamp
    }

    /// What happened.
    pub fn kind(&self) -> (kind: EventKind)
        ensures
            kind == self@.kind,
    {
        self.kind
    }

    /// The characters that the key press produces, where the platform could
    /// tell. Every other kind of event has none.
    pub fn textual_name(&self) -> (name: Option<&str>)
        ensures
            match name {
                Some(t) => self@.textual_name == Some(t@),
                None => self@.textual_name is None,
            },
            self@.wf(),
    {
        proof {
            use_type_invariant(self);
        }
        match &self.textual_name {
            Some(t) => Some(t.as_str()),
            None => None,
        }
    }
}

impl NativeEventView {
    /// The normalized event for this capture, or why it is dropped. The time
    /// is converted first, so a capture that fails on both counts is dropped
    /// for its time.
    pub open spec fn normalized(self) -> Result<NormalizedEventView, ConversionError> {
        match self.time.stamp_of() {
            Err(e) => Err(e),
            Ok(timestamp) => match self.kind.kind_of() {
                Err(e) => Err(e),
                Ok(kind) => Ok(
                    NormalizedEventView {
                        timestamp,
                        kind,
                        textual_name: if kind is KeyPress {
                            self.name
                        } else {
                            None
                        },
                    },
                ),
            },
        }
    }
}

/// Normalizes one captured event: the timestamp in whole milliseconds since
/// the epoch, the kind with its symbol, and the textual name if it is a key
/// press. A capture from before the epoch, or of a key or button outside the
/// vocabulary, gives the reason for which it is dropped.
pub fn normalize(ev: NativeEvent) -> (out: Result<NormalizedEvent, ConversionError>)
    ensures
        match out {
            Ok(n) => ev@.normalized() == Ok::<NormalizedEventView, ConversionError>(n@),
            Err(e) => ev@.normalized() == Err::<NormalizedEventView, ConversionError>(e),
        },
{
    let timestamp: i64 = match ev.time.epoch_millis() {
        Ok(t) => t,
        Err(e) => {
            return Err(e);
        },
    };
    let kind: EventKind = match normalize_kind(&ev.kind) {
        Ok(k) => k,
        Err(e) => {
            return Err(e);
        },
    };
    let textual_name = match kind {
        EventKind::KeyPress { .. } => ev.name,
        _ => None,
    };
    Ok(NormalizedEvent { timestamp, kind, textual_name })
}

/// Whatever is captured, what is delivered for it is well formed.
pub proof fn lemma_normalized_is_well_formed(ev: NativeEventView)
    ensures
        ev.normalized() matches Ok(n) ==> n.wf(),
{
}

} // verus!
