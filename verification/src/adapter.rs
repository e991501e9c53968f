//! The four mouse operations, each answered with the events to inject.

use vstd::prelude::*;
use crate::button::{Button, LEFT_DOWN, LEFT_UP, MIDDLE_DOWN, MIDDLE_UP, RIGHT_DOWN, RIGHT_UP};
use crate::error::MouseError;
use crate::event::{
    lands_on, move_event, on_screen, press_event, release_event, MouseEvent, MOVE_ABSOLUTE,
};
use crate::scale::normalize;

verus! {

/// The event for pressing `b` at the current cursor position.
pub fn press_mouse(b: Button) -> (event: MouseEvent)
    ensures
        event == press_event(b),
{
    let flag: u32 = match b {
        Button::Left => LEFT_DOWN,
        Button::Right => RIGHT_DOWN,
        Button::Middle => MIDDLE_DOWN,
    };
    MouseEvent { dx: 0, dy: 0, mouse_data: 0, flags: flag, time: 0, extra_info: 0 }
}

/// The event for releasing `b` at the current cursor position.
pub fn release_mouse(b: Button) -> (event: MouseEvent)
    ensures
        event == release_event(b),
{
    let flag: u32 = match b {
        Button::Left => LEFT_UP,
        Button::Right => RIGHT_UP,
        Button::Middle => MIDDLE_UP,
    };
    MouseEvent { dx: 0, dy: 0, mouse_data: 0, flags: flag, time: 0, extra_info: 0 }
}

/// The event for moving the cursor to pixel (`x`, `y`) of a screen that is
/// `width` by `height` pixels. A screen without width or height is refused;
/// a pixel on the screen is carried to its place on both axes; a pixel
/// beyond the screen is scaled all the same, and not looked at.
pub fn move_mouse(x: usize, y: usize, width: u64, height: u64) -> (result: Result<
    MouseEvent,
    MouseError,
>)
    ensures
        result is Err <==> width == 0 || height == 0,
        result matches Err(e) ==> e == MouseError::ZeroScreen,
        result matches Ok(event) ==> event == move_event(x, y, width, height),
        on_screen(x, y, width, height) ==> (result matches Ok(event) && lands_on(
            event,
            x,
            y,
            width,
            height,
        )),
{
    match (normalize(x, width), normalize(y, height)) {
        (Some(xf), Some(yf)) => Ok(
            MouseEvent {
                dx: xf,
                dy: yf,
                mouse_data: 0,
                flags: MOVE_ABSOLUTE,
                time: 0,
                extra_info: 0,
            },
        ),
        _ => Err(MouseError::ZeroScreen),
    }
}

/// The events for a click of the left button at pixel (`x`, `y`): the
/// movement, the press and the release, in the order in which they are to be
/// injected.
pub fn move_click(x: usize, y: usize, width: u64, height: u64) -> (result: Result<
    [MouseEvent; 3],
    MouseError,
>)
    ensures
        result is Err <==> width == 0 || height == 0,
        result matches Err(e) ==> e == MouseError::ZeroScreen,
        result matches Ok(events) ==> events@ == seq![
            move_event(x, y, width, height),
            press_event(Button::Left),
            release_event(Button::Left),
        ],
{
    match move_mouse(x, y, width, height) {
        Ok(travel) => Ok([travel, press_mouse(Button::Left), release_mouse(Button::Left)]),
        Err(e) => Err(e),
    }
}

/// Judges the answer of the host's injection facility: `handed` events went
/// in, and the facility says that it inserted `taken` of them.
pub fn confirm(handed: u32, taken: u32) -> (result: Result<(), MouseError>)
    ensures
        result is Ok <==> taken == handed,
        result matches Err(e) ==> e == MouseError::Rejected,
{
    if taken == handed {
        Ok(())
    } else {
        Err(MouseError::Rejected)
    }
}

} // verus!
