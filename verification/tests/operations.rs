use mouse_input::button::{LEFT_DOWN, LEFT_UP, MIDDLE_DOWN, MIDDLE_UP, RIGHT_DOWN, RIGHT_UP};
use mouse_input::event::{ABSOLUTE, MOVE, MOVE_ABSOLUTE};
use mouse_input::{
    confirm, move_click, move_mouse, press_mouse, release_mouse, Button, MouseError, MouseEvent,
};

fn bare(flags: u32) -> MouseEvent {
    MouseEvent { dx: 0, dy: 0, mouse_data: 0, flags, time: 0, extra_info: 0 }
}

fn all_buttons() -> [Button; 3] {
    [Button::Left, Button::Right, Button::Middle]
}

#[test]
fn test_move_mouse() {
    let event = move_mouse(640, 480, 1920, 1080);
    assert_eq!(
        event,
        Ok(MouseEvent {
            dx: 21845,
            dy: 29127,
            mouse_data: 0,
            flags: 0x8001,
            time: 0,
            extra_info: 0,
        })
    );
}

#[test]
fn flag_bits_have_their_documented_values() {
    assert_eq!(MOVE, 0x0001);
    assert_eq!(LEFT_DOWN, 0x0002);
    assert_eq!(LEFT_UP, 0x0004);
    assert_eq!(RIGHT_DOWN, 0x0008);
    assert_eq!(RIGHT_UP, 0x0010);
    assert_eq!(MIDDLE_DOWN, 0x0020);
    assert_eq!(MIDDLE_UP, 0x0040);
    assert_eq!(ABSOLUTE, 0x8000);
    assert_eq!(MOVE_ABSOLUTE, 0x8001);
}

#[test]
fn press_carries_the_down_flag_of_its_button() {
    assert_eq!(press_mouse(Button::Left), bare(0x0002));
    assert_eq!(press_mouse(Button::Right), bare(0x0008));
    assert_eq!(press_mouse(Button::Middle), bare(0x0020));
}

#[test]
fn release_carries_the_up_flag_of_its_button() {
    assert_eq!(release_mouse(Button::Left), bare(0x0004));
    assert_eq!(release_mouse(Button::Right), bare(0x0010));
    assert_eq!(release_mouse(Button::Middle), bare(0x0040));
}

#[test]
fn press_and_release_carry_no_position() {
    for b in all_buttons() {
        let down = press_mouse(b);
        let up = release_mouse(b);
        assert_eq!((down.dx, down.dy, down.mouse_data, down.time, down.extra_info), (0, 0, 0, 0, 0));
        assert_eq!((up.dx, up.dy, up.mouse_data, up.time, up.extra_info), (0, 0, 0, 0, 0));
        assert_eq!(down.flags & ABSOLUTE, 0);
        assert_eq!(down.flags & MOVE, 0);
        assert_eq!(up.flags & ABSOLUTE, 0);
        assert_eq!(up.flags & MOVE, 0);
    }
}

fn down_bit(b: Button) -> u32 {
    match b {
        Button::Left => LEFT_DOWN,
        Button::Right => RIGHT_DOWN,
        Button::Middle => MIDDLE_DOWN,
    }
}

fn up_bit(b: Button) -> u32 {
    match b {
        Button::Left => LEFT_UP,
        Button::Right => RIGHT_UP,
        Button::Middle => MIDDLE_UP,
    }
}

fn replay(held: &mut Vec<Button>, event: &MouseEvent) {
    for b in all_buttons() {
        if event.flags & up_bit(b) != 0 {
            held.retain(|h| *h != b);
        } else if event.flags & down_bit(b) != 0 && !held.contains(&b) {
            held.push(b);
        }
    }
}

#[test]
fn press_then_release_leaves_no_button_held() {
    for b in all_buttons() {
        let mut held: Vec<Button> = Vec::new();
        replay(&mut held, &press_mouse(b));
        assert_eq!(held, vec![b]);
        replay(&mut held, &release_mouse(b));
        assert!(held.is_empty());
    }
}

#[test]
fn press_then_release_leaves_other_buttons_alone() {
    let mut held: Vec<Button> = vec![Button::Right];
    replay(&mut held, &press_mouse(Button::Left));
    replay(&mut held, &release_mouse(Button::Left));
    assert_eq!(held, vec![Button::Right]);
}

#[test]
fn the_up_flag_is_the_down_flag_shifted_by_one() {
    for b in all_buttons() {
        assert_eq!(release_mouse(b).flags, press_mouse(b).flags << 1);
    }
}

#[test]
fn move_click_is_move_then_press_then_release() {
    let events = move_click(640, 480, 1920, 1080).unwrap();
    assert_eq!(events.len(), 3);
    assert_eq!(events[0], move_mouse(640, 480, 1920, 1080).unwrap());
    assert_eq!(events[1], press_mouse(Button::Left));
    assert_eq!(events[2], release_mouse(Button::Left));
}

#[test]
fn move_click_events_have_exact_values() {
    let events = move_click(100, 50, 200, 100).unwrap();
    assert_eq!(
        events,
        [
            MouseEvent { dx: 32768, dy: 32768, mouse_data: 0, flags: 0x8001, time: 0, extra_info: 0 },
            MouseEvent { dx: 0, dy: 0, mouse_data: 0, flags: 0x0002, time: 0, extra_info: 0 },
            MouseEvent { dx: 0, dy: 0, mouse_data: 0, flags: 0x0004, time: 0, extra_info: 0 },
        ]
    );
}

#[test]
fn move_click_leaves_no_button_held() {
    let mut held: Vec<Button> = Vec::new();
    for event in move_click(10, 20, 800, 600).unwrap().iter() {
        replay(&mut held, event);
    }
    assert!(held.is_empty());
}

#[test]
fn move_to_origin_is_the_top_left_corner() {
    for (width, height) in [(1u64, 1u64), (800, 600), (1920, 1080), (65536, 65536), (u64::MAX, 7)] {
        let event = move_mouse(0, 0, width, height).unwrap();
        assert_eq!((event.dx, event.dy), (0, 0));
        assert_eq!(event.flags, 0x8001);
    }
}

#[test]
fn a_screen_without_extent_is_refused() {
    assert_eq!(move_mouse(640, 480, 0, 1080), Err(MouseError::ZeroScreen));
    assert_eq!(move_mouse(640, 480, 1920, 0), Err(MouseError::ZeroScreen));
    assert_eq!(move_mouse(0, 0, 0, 0), Err(MouseError::ZeroScreen));
    assert_eq!(move_click(640, 480, 0, 1080), Err(MouseError::ZeroScreen));
    assert_eq!(move_click(640, 480, 1920, 0), Err(MouseError::ZeroScreen));
    assert_eq!(move_click(0, 0, 0, 0), Err(MouseError::ZeroScreen));
}

#[test]
fn every_screen_with_extent_is_accepted() {
    assert!(move_mouse(0, 0, 1, 1).is_ok());
    assert!(move_mouse(usize::MAX, usize::MAX, 1, 1).is_ok());
    assert!(move_mouse(5, 5, u64::MAX, u64::MAX).is_ok());
    assert!(move_click(usize::MAX, 0, 1, u64::MAX).is_ok());
}

#[test]
fn the_last_pixel_stays_below_the_end_of_the_axis() {
    let event = move_mouse(1919, 1079, 1920, 1080).unwrap();
    assert_eq!((event.dx, event.dy), (65501, 65475));
}

#[test]
fn a_pixel_beyond_the_screen_is_passed_on_unchecked() {
    let event = move_mouse(1920, 2160, 1920, 1080).unwrap();
    assert_eq!((event.dx, event.dy), (65536, 131072));
}

#[test]
fn confirm_accepts_when_all_events_were_taken() {
    assert_eq!(confirm(1, 1), Ok(()));
    assert_eq!(confirm(3, 3), Ok(()));
    assert_eq!(confirm(0, 0), Ok(()));
}

#[test]
fn confirm_reports_rejected_events() {
    assert_eq!(confirm(1, 0), Err(MouseError::Rejected));
    assert_eq!(confirm(3, 2), Err(MouseError::Rejected));
    assert_eq!(confirm(1, 2), Err(MouseError::Rejected));
}

#[test]
fn buttons_compare_by_their_tag() {
    assert_eq!(Button::Left, Button::Left);
    assert_ne!(Button::Left, Button::Right);
    assert_ne!(Button::Right, Button::Middle);
    let copy = Button::Middle;
    let same = copy;
    assert_eq!(copy, same);
}
