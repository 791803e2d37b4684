use snui::input::{Modifiers, MouseButton, Orientation, Pointer, Step};

#[test]
fn mouse_button_codes() {
    assert_eq!(MouseButton::new(272), MouseButton::Left);
    assert_eq!(MouseButton::new(273), MouseButton::Right);
    assert_eq!(MouseButton::new(274), MouseButton::Middle);
    assert_eq!(MouseButton::new(275), MouseButton::Extra(3));
    assert_eq!(MouseButton::new(0), MouseButton::Left);
    assert_eq!(MouseButton::new(544), MouseButton::new(272));
    assert_eq!(MouseButton::new(271), MouseButton::Extra(271));
}

#[test]
fn mouse_button_predicates() {
    assert!(MouseButton::Left.is_left());
    assert!(!MouseButton::Right.is_left());
    assert!(MouseButton::Right.is_right());
    assert!(MouseButton::Extra(8).is_extra(8));
    assert!(!MouseButton::Extra(8).is_extra(9));
    assert!(!MouseButton::Middle.is_extra(2));
}

#[test]
fn pointer_clicks() {
    let press = Pointer::MouseClick { serial: 7, button: MouseButton::Left, pressed: true };
    assert_eq!(press.left_button_click(), Some(7));
    assert_eq!(press.left_button_release(), None);
    assert_eq!(press.right_button_click(), None);
    let release = Pointer::MouseClick { serial: 9, button: MouseButton::Right, pressed: false };
    assert_eq!(release.right_button_release(), Some(9));
    assert_eq!(release.right_button_click(), None);
    assert_eq!(release.left_button_release(), None);
    let scroll = Pointer::Scroll { orientation: Orientation::Vertical, step: Step::Value(2.5f32.to_bits()) };
    assert_eq!(scroll.left_button_click(), None);
    assert_eq!(Pointer::Hover.right_button_release(), None);
    let middle = Pointer::MouseClick { serial: 1, button: MouseButton::Middle, pressed: true };
    assert_eq!(middle.left_button_click(), None);
    assert_eq!(middle.right_button_click(), None);
}

#[test]
fn modifiers_default_holds_nothing() {
    let m = Modifiers::default();
    assert!(!m.ctrl && !m.alt && !m.shift && !m.caps_lock && !m.logo && !m.num_lock);
}
