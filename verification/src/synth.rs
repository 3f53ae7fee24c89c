//! The input synthesizer.
//!
//! Each operation stands for exactly one event that the operating system is
//! asked to inject: nothing is queued, batched or composed. The functions
//! here say which event that is; the caller hands it to the operating system
//! and brings back whether it was taken.

use napi::bindgen_prelude::Uint32Array;
use vstd::prelude::*;
use crate::button::Button;
use crate::error::{DisplayQueryError, InjectionError};
use crate::event::{Coord, EventKind};
use crate::key::Key;

verus! {

/// Move the pointer to `x`, `y` on the screen.
pub fn mouse_move(x: Coord, y: Coord) -> (request: EventKind)
    ensures
        request == (EventKind::MouseMove { x, y }),
{
    EventKind::MouseMove { x, y }
}

/// Press one mouse button.
pub fn button_press(button: Button) -> (request: EventKind)
    ensures
        request == (EventKind::ButtonPress { button }),
{
    EventKind::ButtonPress { button }
}

/// Release one mouse button.
pub fn button_release(button: Button) -> (request: EventKind)
    ensures
        request == (EventKind::ButtonRelease { button }),
{
    EventKind::ButtonRelease { button }
}

/// Turn the wheel: positive `delta_x` scrolls right, positive `delta_y`
/// scrolls down.
pub fn wheel(delta_x: i64, delta_y: i64) -> (request: EventKind)
    ensures
        request == (EventKind::Wheel { delta_x, delta_y }),
{
    EventKind::Wheel { delta_x, delta_y }
}

/// Press one key.
pub fn key_press(key: Key) -> (request: EventKind)
    ensures
        request == (EventKind::KeyPress { key }),
{
    EventKind::KeyPress { key }
}

/// Release one key.
pub fn key_release(key: Key) -> (request: EventKind)
    ensures
        request == (EventKind::KeyRelease { key }),
{
    EventKind::KeyRelease { key }
}

/// How an operation ends once the operating system has answered: with
/// success if it took the event, with the refusal otherwise.
pub open spec fn outcome_of(request: EventKind, accepted: bool) -> Result<(), InjectionError> {
    if accepted {
        Ok(())
    } else {
        Err(InjectionError { refused: request })
    }
}

/// What the caller of an operation is told once the operating system has
/// answered: success if it took the event, the refusal otherwise. Nothing is
/// tried a second time.
pub fn injection_result(request: EventKind, accepted: bool) -> (outcome: Result<(), InjectionError>)
    ensures
        outcome == outcome_of(request, accepted),
{
    if accepted {
        Ok(())
    } else {
        Err(InjectionError { refused: request })
    }
}

/// Whichever key it is, pressing and then releasing it does not fail as long
/// as the operating system takes both events.
pub proof fn lemma_key_press_then_release_succeeds(key: Key)
    ensures
        outcome_of(EventKind::KeyPress { key }, true) is Ok,
        outcome_of(EventKind::KeyRelease { key }, true) is Ok,
{
}

/// Whichever button it is, pressing and then releasing it does not fail as
/// long as the operating system takes both events.
pub proof fn lemma_button_press_then_release_succeeds(button: Button)
    ensures
        outcome_of(EventKind::ButtonPress { button }, true) is Ok,
        outcome_of(EventKind::ButtonRelease { button }, true) is Ok,
{
}

/// The low 32 bits of a measured dimension.
pub open spec fn low_u32(pixels: u64) -> u32 {
    (pixels % 0x1_0000_0000) as u32
}

/// What the host is told of the screen: the width and the height, in that
/// order, each by its low 32 bits; or that there is no display.
pub open spec fn display_size_of(measured: Option<(u64, u64)>) -> Result<
    Seq<u32>,
    DisplayQueryError,
> {
    match measured {
        Some((width, height)) => Ok(seq![low_u32(width), low_u32(height)]),
        None => Err(DisplayQueryError::NoDisplay),
    }
}

/// The typed array of napi, `Uint32Array`. What is inside is not seen from
/// here; `array_items` stands for what it holds.
#[verifier::external_type_specification]
#[verifier::external_body]
pub struct ExUint32Array(Uint32Array);

/// The numbers that a typed array holds, from its first to its last.
pub uninterp spec fn array_items(array: Uint32Array) -> Seq<u32>;

/// Calls `Uint32Array::new` of napi, which takes the vector over as the
/// array's own storage: the array holds the numbers of `items`, as many and
/// in the same order. This is believed, not proved.
#[verifier::external_body]
fn typed_array(items: Vec<u32>) -> (array: Uint32Array)
    ensures
        array_items(array) == items@,
{
    Uint32Array::new(items)
}

/// The size of the main screen in pixels, as the typed array that the host
/// receives: the width first, then the height. It is made from what the
/// operating system measured. Without a display there is no size. A
/// dimension keeps its low 32 bits, so a display whose dimensions fit in 32
/// bits and are not zero gives a width and a height above zero.
pub fn js_display_size(measured: Option<(u64, u64)>) -> (size: Result<
    Uint32Array,
    DisplayQueryError,
>)
    ensures
        match size {
            Ok(array) => display_size_of(measured) == Ok::<Seq<u32>, DisplayQueryError>(
                array_items(array),
            ),
            Err(e) => display_size_of(measured) == Err::<Seq<u32>, DisplayQueryError>(e),
        },
        measured matches Some((width, height)) ==> (low_u32(width) != 0 && low_u32(height) != 0
            ==> (size matches Ok(array) && array_items(array).len() == 2 && array_items(array)[0]
            > 0 && array_items(array)[1] > 0)),
{
    match measured {
        Some((width, height)) => {
            let mut items: Vec<u32> = Vec::new();
            items.push((width % 0x1_0000_0000u64) as u32);
            items.push((height % 0x1_0000_0000u64) as u32);
            assert(items@ =~= seq![low_u32(width), low_u32(height)]);
            Ok(typed_array(items))
        },
        None => Err(DisplayQueryError::NoDisplay),
    }
}

} // verus!
