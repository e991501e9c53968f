//! Which buttons are down: a model of what a stream of events does to them.
//!
//! The flag bits of an event report changes, not states. A button is held
//! from the event that reports it going down until the event that reports it
//! coming up.

use vstd::prelude::*;
use crate::button::Button;
use crate::event::{
    lemma_move_touches_no_button, lemma_press_touches_one_button,
    lemma_release_touches_one_button, move_event, press_event, release_event, MouseEvent,
};

verus! {

/// The buttons that are down once `event` has reached a host on which the
/// buttons in `held` were down.
pub open spec fn held_after(held: Set<Button>, event: MouseEvent) -> Set<Button> {
    Set::new(
        |button: Button|
            !event.releases(button) && (event.presses(button) || held.contains(button)),
    )
}

/// The buttons that are down once all of `events` have reached the host, one
/// after the other from the first.
pub open spec fn held_after_all(held: Set<Button>, events: Seq<MouseEvent>) -> Set<Button>
    decreases events.len(),
{
    if events.len() == 0 {
        held
    } else {
        held_after(held_after_all(held, events.drop_last()), events.last())
    }
}

/// Pressing a button and releasing it at once leaves that button up and
/// every other button as it was. Where no button was down before, none is
/// down after.
pub proof fn lemma_press_then_release(button: Button, held: Set<Button>)
    ensures
        held_after(held_after(held, press_event(button)), release_event(button)) == held.remove(
            button,
        ),
        held == Set::<Button>::empty() ==> held_after(
            held_after(held, press_event(button)),
            release_event(button),
        ) == Set::<Button>::empty(),
{
    let after = held_after(held_after(held, press_event(button)), release_event(button));
    assert forall|other: Button| after.contains(other) == held.remove(button).contains(other) by {
        lemma_press_touches_one_button(button, other);
        lemma_release_touches_one_button(button, other);
    }
    assert(after =~= held.remove(button));
    if held == Set::<Button>::empty() {
        assert(held.remove(button) =~= Set::<Button>::empty());
    }
}

/// A movement leaves every button as it was.
pub proof fn lemma_move_holds_nothing_new(
    x: usize,
    y: usize,
    width: u64,
    height: u64,
    held: Set<Button>,
)
    ensures
        held_after(held, move_event(x, y, width, height)) == held,
{
    let after = held_after(held, move_event(x, y, width, height));
    assert forall|button: Button| after.contains(button) == held.contains(button) by {
        lemma_move_touches_no_button(x, y, width, height, button);
    }
    assert(after =~= held);
}

/// A click leaves the left button up and every other button as it was: the
/// movement changes nothing, and the press is undone by the release.
pub proof fn lemma_click_leaves_left_up(
    x: usize,
    y: usize,
    width: u64,
    height: u64,
    held: Set<Button>,
)
    ensures
        held_after_all(
            held,
            seq![
                move_event(x, y, width, height),
                press_event(Button::Left),
                release_event(Button::Left),
            ],
        ) == held.remove(Button::Left),
{
    let travel = move_event(x, y, width, height);
    let press = press_event(Button::Left);
    let release = release_event(Button::Left);
    let click = seq![travel, press, release];
    assert(click.drop_last() =~= seq![travel, press]);
    assert(click.drop_last().drop_last() =~= seq![travel]);
    assert(click.drop_last().drop_last().drop_last() =~= Seq::<MouseEvent>::empty());
    assert(held_after_all(held, click) == held_after(
        held_after(held_after(held, travel), press),
        release,
    )) by {
        reveal_with_fuel(held_after_all, 4);
    }
    lemma_move_holds_nothing_new(x, y, width, height, held);
    lemma_press_then_release(Button::Left, held);
}

} // verus!
