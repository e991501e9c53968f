//! The input event that the host's injection facility receives.

use vstd::prelude::*;
use crate::button::{Button, LEFT_DOWN, LEFT_UP, MIDDLE_DOWN, MIDDLE_UP, RIGHT_DOWN, RIGHT_UP};
use crate::scale::{
    is_place_of, lemma_normalized_fits, lemma_normalized_on_axis, lemma_normalized_origin,
    normalized, on_axis,
};

verus! {

/// Flag bit: the event carries a movement.
pub const MOVE: u32 = 0x0001;

/// Flag bit: `dx` and `dy` are normalized absolute coordinates, not a
/// distance from the last position.
pub const ABSOLUTE: u32 = 0x8000;

/// The flags of a movement to an absolute position.
pub const MOVE_ABSOLUTE: u32 = ABSOLUTE | MOVE;

/// One mouse input event, field for field as the host takes it.
#[derive(Copy, Clone, PartialEq, Eq, Structural, Debug)]
pub struct MouseEvent {
    /// The horizontal position, in normalized units where `ABSOLUTE` is set.
    pub dx: i32,
    /// The vertical position, in normalized units where `ABSOLUTE` is set.
    pub dy: i32,
    /// Wheel or extra-button data; none of the events built here has any.
    pub mouse_data: u32,
    /// The flag bits that say what happened.
    pub flags: u32,
    /// The time stamp; zero leaves it to the host.
    pub time: u32,
    /// An application-defined value that travels with the event.
    pub extra_info: usize,
}

impl MouseEvent {
    /// Whether the event reports `button` going down.
    pub open spec fn presses(self, button: Button) -> bool {
        self.flags & button.down_flag() != 0
    }

    /// Whether the event reports `button` coming up.
    pub open spec fn releases(self, button: Button) -> bool {
        self.flags & button.up_flag() != 0
    }
}

/// The event that carries `flags` and nothing else: no position, no data, no
/// time stamp.
pub open spec fn bare_event(flags: u32) -> MouseEvent {
    MouseEvent { dx: 0, dy: 0, mouse_data: 0, flags, time: 0, extra_info: 0 }
}

/// The event that reports `button` going down at the current position.
pub open spec fn press_event(button: Button) -> MouseEvent {
    bare_event(button.down_flag())
}

/// The event that reports `button` coming up at the current position.
pub open spec fn release_event(button: Button) -> MouseEvent {
    bare_event(button.up_flag())
}

/// The event that moves the cursor to pixel (`x`, `y`) of a screen that is
/// `width` by `height` pixels. A normalized coordinate fits in 32 signed bits,
/// so each field holds it as it is.
pub open spec fn move_event(x: usize, y: usize, width: u64, height: u64) -> MouseEvent
    recommends
        width > 0,
        height > 0,
{
    MouseEvent {
        dx: normalized(x as int, width as int) as i32,
        dy: normalized(y as int, height as int) as i32,
        mouse_data: 0,
        flags: MOVE_ABSOLUTE,
        time: 0,
        extra_info: 0,
    }
}

/// Whether pixel (`x`, `y`) lies on a screen that is `width` by `height`
/// pixels, each coordinate on its axis.
pub open spec fn on_screen(x: usize, y: usize, width: u64, height: u64) -> bool {
    on_axis(x as int, width as int) && on_axis(y as int, height as int)
}

/// Whether `event` points at pixel (`x`, `y`) of a screen that is `width` by
/// `height` pixels: each coordinate is the place of the pixel on its axis.
pub open spec fn lands_on(event: MouseEvent, x: usize, y: usize, width: u64, height: u64) -> bool {
    &&& is_place_of(event.dx as int, x as int, width as int)
    &&& is_place_of(event.dy as int, y as int, height as int)
}

/// The flags of an absolute movement hold the two bits `MOVE` and
/// `ABSOLUTE` and no other.
pub proof fn lemma_move_absolute_bits()
    ensures
        MOVE_ABSOLUTE == 0x8001,
{
    assert(MOVE_ABSOLUTE == 0x8001) by (bit_vector);
}

/// A press reports its own button going down and nothing else about any
/// button.
pub proof fn lemma_press_touches_one_button(pressed: Button, other: Button)
    ensures
        press_event(pressed).presses(other) <==> other == pressed,
        !press_event(pressed).releases(other),
{
    assert({
        &&& LEFT_DOWN & LEFT_DOWN != 0
        &&& LEFT_DOWN & RIGHT_DOWN == 0
        &&& LEFT_DOWN & MIDDLE_DOWN == 0
        &&& RIGHT_DOWN & LEFT_DOWN == 0
        &&& RIGHT_DOWN & RIGHT_DOWN != 0
        &&& RIGHT_DOWN & MIDDLE_DOWN == 0
        &&& MIDDLE_DOWN & LEFT_DOWN == 0
        &&& MIDDLE_DOWN & RIGHT_DOWN == 0
        &&& MIDDLE_DOWN & MIDDLE_DOWN != 0
    }) by (bit_vector);
    lemma_down_and_up_bits_differ();
}

/// A release reports its own button coming up and nothing else about any
/// button.
pub proof fn lemma_release_touches_one_button(released: Button, other: Button)
    ensures
        release_event(released).releases(other) <==> other == released,
        !release_event(released).presses(other),
{
    assert({
        &&& LEFT_UP & LEFT_UP != 0
        &&& LEFT_UP & RIGHT_UP == 0
        &&& LEFT_UP & MIDDLE_UP == 0
        &&& RIGHT_UP & LEFT_UP == 0
        &&& RIGHT_UP & RIGHT_UP != 0
        &&& RIGHT_UP & MIDDLE_UP == 0
        &&& MIDDLE_UP & LEFT_UP == 0
        &&& MIDDLE_UP & RIGHT_UP == 0
        &&& MIDDLE_UP & MIDDLE_UP != 0
    }) by (bit_vector);
    lemma_down_and_up_bits_differ();
}

/// No bit that reports a button going down is a bit that reports a button
/// coming up.
proof fn lemma_down_and_up_bits_differ()
    ensures
        forall|down: Button, up: Button|
            #![trigger down.down_flag(), up.up_flag()]
            down.down_flag() & up.up_flag() == 0 && up.up_flag() & down.down_flag() == 0,
{
    assert({
        &&& LEFT_DOWN & LEFT_UP == 0
        &&& LEFT_DOWN & RIGHT_UP == 0
        &&& LEFT_DOWN & MIDDLE_UP == 0
        &&& RIGHT_DOWN & LEFT_UP == 0
        &&& RIGHT_DOWN & RIGHT_UP == 0
        &&& RIGHT_DOWN & MIDDLE_UP == 0
        &&& MIDDLE_DOWN & LEFT_UP == 0
        &&& MIDDLE_DOWN & RIGHT_UP == 0
        &&& MIDDLE_DOWN & MIDDLE_UP == 0
    }) by (bit_vector);
    assert({
        &&& LEFT_UP & LEFT_DOWN == 0
        &&& LEFT_UP & RIGHT_DOWN == 0
        &&& LEFT_UP & MIDDLE_DOWN == 0
        &&& RIGHT_UP & LEFT_DOWN == 0
        &&& RIGHT_UP & RIGHT_DOWN == 0
        &&& RIGHT_UP & MIDDLE_DOWN == 0
        &&& MIDDLE_UP & LEFT_DOWN == 0
        &&& MIDDLE_UP & RIGHT_DOWN == 0
        &&& MIDDLE_UP & MIDDLE_DOWN == 0
    }) by (bit_vector);
}

/// A movement reports nothing about any button.
pub proof fn lemma_move_touches_no_button(
    x: usize,
    y: usize,
    width: u64,
    height: u64,
    button: Button,
)
    ensures
        !move_event(x, y, width, height).presses(button),
        !move_event(x, y, width, height).releases(button),
{
    assert({
        &&& MOVE_ABSOLUTE & LEFT_DOWN == 0
        &&& MOVE_ABSOLUTE & LEFT_UP == 0
        &&& MOVE_ABSOLUTE & RIGHT_DOWN == 0
        &&& MOVE_ABSOLUTE & RIGHT_UP == 0
        &&& MOVE_ABSOLUTE & MIDDLE_DOWN == 0
        &&& MOVE_ABSOLUTE & MIDDLE_UP == 0
    }) by (bit_vector);
}

/// A pixel on the screen is carried to its place: each coordinate of the
/// movement is the floor of `pixel * UNITS / extent`, and is the place of the
/// pixel on its axis.
pub proof fn lemma_move_on_screen(x: usize, y: usize, width: u64, height: u64)
    requires
        on_screen(x, y, width, height),
    ensures
        lands_on(move_event(x, y, width, height), x, y, width, height),
        move_event(x, y, width, height).dx == (x * 0x1_0000) / (width as int),
        move_event(x, y, width, height).dy == (y * 0x1_0000) / (height as int),
{
    lemma_normalized_on_axis(x as int, width as int);
    lemma_normalized_on_axis(y as int, height as int);
}

/// The coordinates of a movement are the normalized coordinates of the
/// pixel, each on its axis.
pub proof fn lemma_move_is_normalized(x: usize, y: usize, width: u64, height: u64)
    ensures
        move_event(x, y, width, height).dx == normalized(x as int, width as int),
        move_event(x, y, width, height).dy == normalized(y as int, height as int),
{
    lemma_normalized_fits(x as int, width as int);
    lemma_normalized_fits(y as int, height as int);
}

/// Pixel (0, 0) is the top-left corner of every screen.
pub proof fn lemma_move_to_origin(width: u64, height: u64)
    requires
        width > 0,
        height > 0,
    ensures
        move_event(0, 0, width, height).dx == 0,
        move_event(0, 0, width, height).dy == 0,
{
    lemma_normalized_origin(width as int);
    lemma_normalized_origin(height as int);
}

} // verus!
