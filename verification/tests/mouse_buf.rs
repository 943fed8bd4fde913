use screen_13::input::mouse_buf::{idx_mouse_button, mouse_button_idx, MouseBuf, MouseButton};

#[test]
fn buttons_have_indices() {
    assert_eq!(mouse_button_idx(MouseButton::Left), 0);
    assert_eq!(mouse_button_idx(MouseButton::Right), 1);
    assert_eq!(mouse_button_idx(MouseButton::Middle), 2);
    assert_eq!(mouse_button_idx(MouseButton::Other(9)), 9);
    assert_eq!(idx_mouse_button(0), MouseButton::Left);
    assert_eq!(idx_mouse_button(1), MouseButton::Right);
    assert_eq!(idx_mouse_button(2), MouseButton::Middle);
    assert_eq!(idx_mouse_button(3), MouseButton::Other(3));
    assert!(MouseBuf::has_bit(MouseButton::Other(15)));
    assert!(!MouseBuf::has_bit(MouseButton::Other(16)));
}

#[test]
fn a_pressed_button_is_pressed_and_held() {
    let mut buf = MouseBuf::new();
    assert!(!buf.any_held() && !buf.any_pressed() && !buf.any_released());
    buf.handle_button(MouseButton::Right, true);
    assert!(buf.is_held(MouseButton::Right));
    assert!(buf.is_pressed(MouseButton::Right));
    assert!(!buf.is_released(MouseButton::Right));
    assert!(!buf.is_held(MouseButton::Left));
    assert!(buf.any_held() && buf.any_pressed());
    assert_eq!(buf.held, 0b10);
    buf.handle_button(MouseButton::Other(15), true);
    assert_eq!(buf.held, 0x8002);
    assert_eq!(buf.pressed, 0x8002);
}

#[test]
fn update_forgets_what_was_pressed_but_not_what_is_held() {
    let mut buf = MouseBuf::new();
    buf.handle_button(MouseButton::Left, true);
    buf.update();
    assert!(buf.is_held(MouseButton::Left));
    assert!(!buf.is_pressed(MouseButton::Left));
    assert!(!buf.any_pressed());
    assert!(buf.any_held());
}

#[test]
fn a_released_button_is_not_held_and_does_not_count_as_released() {
    let mut buf = MouseBuf {
        held: 0b111,
        pressed: 0b001,
        released: 0b110,
    };
    buf.handle_button(MouseButton::Middle, false);
    assert_eq!(
        buf,
        MouseBuf {
            held: 0b011,
            pressed: 0b001,
            released: 0b010,
        }
    );
    assert!(!buf.is_held(MouseButton::Middle));
    assert!(!buf.is_released(MouseButton::Middle));
    assert!(buf.is_released(MouseButton::Right));
    assert!(buf.any_released());
}
