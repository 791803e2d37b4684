use snui::damage::Damage;
use snui::input::Orientation;
use snui::snui::Input;
use snui::widgets::action::Button;
use snui::widgets::base::{Background, Border, Container, Drawable, Geometry, Rectangle, Revealer};
use snui::widgets::inner::Inner;
use snui::widgets::list::List;
use snui::widgets::listbox::ListBox;
use snui::widgets::extra::{
    animation_steps, Direction, RevealerAction, RevealerControl, RevealerRoute, RevealerState,
    SwitchControl, SwitchState, ToggleState, Transition,
};

#[test]
fn transitions_place_the_child() {
    assert_eq!(Transition::SlideRight.placement(), (Direction::Normal, Orientation::Horizontal));
    assert_eq!(Transition::SlideLeft.placement(), (Direction::Inverted, Orientation::Horizontal));
    assert_eq!(Transition::SlideBottom.placement(), (Direction::Normal, Orientation::Vertical));
    assert_eq!(Transition::SlideTop.placement(), (Direction::Inverted, Orientation::Vertical));
}

#[test]
fn animation_steps_per_frame() {
    // 16 ms of a 1000-step animation lasting 500 ms.
    assert_eq!(animation_steps(16, 1000, 500), 32);
    assert_eq!(animation_steps(0, 1000, 500), 0);
    assert_eq!(animation_steps(1, 1000, 500), 2);
    assert_eq!(animation_steps(7, 3, 5), 4);
}

#[test]
fn revealer_reveals_then_hides() {
    let mut r = RevealerControl::new();
    assert_eq!(r.state(), RevealerState::Hidden);
    assert!(!r.draws());
    assert_eq!(r.route(), RevealerRoute::Quiet);
    assert_eq!(r.query(), Some(RevealerState::Hidden));
    // Asking a hidden revealer to hide does nothing.
    assert_eq!(r.sync(Some(RevealerAction::Hide)), RevealerRoute::Quiet);
    assert_eq!(r, RevealerControl::new());
    assert_eq!(r.sync(Some(RevealerAction::Reveal)), RevealerRoute::Started);
    assert_eq!(r.state(), RevealerState::Running);
    assert!(r.animating());
    assert_eq!(r.query(), None);
    // While running, replies are ignored.
    assert_eq!(r.sync(Some(RevealerAction::Hide)), RevealerRoute::Forward);
    assert_eq!(r.action, Some(RevealerAction::Reveal));
    assert_eq!(r.finish(), RevealerState::Revealed);
    assert!(r.draws());
    assert!(!r.animating());
    assert_eq!(r.sync(None), RevealerRoute::Forward);
    assert_eq!(r.sync(Some(RevealerAction::Reveal)), RevealerRoute::Forward);
    assert_eq!(r.sync(Some(RevealerAction::Hide)), RevealerRoute::Started);
    assert_eq!(r.finish(), RevealerState::Hidden);
    assert_eq!(r, RevealerControl::new());
}

#[test]
fn switch_follows_its_mail() {
    let mut s = SwitchControl::new();
    assert_eq!(s.state(), SwitchState::Deactivated);
    assert_eq!(s.update(None), Damage::Nothing);
    assert_eq!(s.update(Some(false)), Damage::Nothing);
    assert!(!s.animating());
    assert_eq!(s.update(Some(true)), Damage::Frame);
    assert_eq!(s.state(), SwitchState::Activated);
    assert!(s.animating());
    assert_eq!(s.update(Some(true)), Damage::Nothing);
    s.stop();
    assert!(!s.animating());
    assert_eq!(s.state(), SwitchState::Activated);
}

#[test]
fn switch_click_flips_and_reports() {
    let mut s = SwitchControl::new();
    assert!(s.click());
    assert_eq!(s.state(), SwitchState::Activated);
    assert!(s.animating());
    assert!(!s.click());
    assert_eq!(s.state(), SwitchState::Deactivated);
    assert_eq!(SwitchState::Activated.flip(), SwitchState::Deactivated);
}

#[test]
fn toggle_flips() {
    assert_eq!(ToggleState::Activated.flip(), ToggleState::Deactivated);
    assert_eq!(ToggleState::Deactivated.flip(), ToggleState::Activated);
}

#[test]
fn button_runs_its_callback_inside_only() {
    let mut b = Button::new(Rectangle::new(10, 5, 0), |w: &mut Rectangle, _, _, _, _, _| {
        w.set_color(7);
        Damage::Frame
    });
    assert_eq!(b.get_width(), 10);
    assert_eq!(b.get_height(), 5);
    // Strictly inside.
    assert_eq!(b.contains(2, 3, 3, 4, Input::Enter), Damage::Frame);
    assert_eq!(b.contains(2, 3, 11, 7, Input::Hover), Damage::Frame);
    // On the edges and outside.
    assert_eq!(b.contains(2, 3, 2, 4, Input::Enter), Damage::Nothing);
    assert_eq!(b.contains(2, 3, 3, 3, Input::Enter), Damage::Nothing);
    assert_eq!(b.contains(2, 3, 12, 4, Input::Enter), Damage::Nothing);
    assert_eq!(b.contains(2, 3, 3, 8, Input::Enter), Damage::Nothing);
    assert!(b.resize(1, 1).is_ok());
    assert_eq!(b.contains(2, 3, 3, 4, Input::Enter), Damage::Nothing);
}

#[test]
fn button_recolors_its_widget() {
    let mut b = Button::new(Rectangle::new(1, 1, 0x01010101), |_: &mut Rectangle, _, _, _, _, _| {
        Damage::Nothing
    });
    b.set_color(0x03030303);
    let mut canvas = vec![0u8; 4];
    b.draw(&mut canvas, 1, 0, 0);
    assert_eq!(canvas, vec![3; 4]);
}

fn pressed(_: &mut Rectangle, _: u32, _: u32, _: u32, _: u32, _: Input) -> Damage {
    Damage::Frame
}

#[test]
fn containers_hand_the_pointer_on() {

    // A rectangle does not react.
    assert_eq!(Rectangle::new(5, 5, 0).contains(0, 0, 1, 1, Input::Enter), Damage::Nothing);

    // A border asks its widget at its place inside the frame.
    let mut border = Border::new(Button::new(Rectangle::new(10, 5, 0), pressed), 2, 0);
    assert_eq!(border.contains(0, 0, 3, 3, Input::Enter), Damage::Frame);
    assert_eq!(border.contains(0, 0, 2, 3, Input::Enter), Damage::Nothing);

    // A background asks its widget inside the padding (left, top).
    let mut bg = Background::solid(Button::new(Rectangle::new(4, 4, 0), pressed), 1, 3);
    assert_eq!(bg.contains(0, 0, 4, 4, Input::Enter), Damage::Frame);
    assert_eq!(bg.contains(0, 0, 3, 4, Input::Enter), Damage::Nothing);

    // A revealer asks the widget it shows.
    let mut r = Revealer::new(Rectangle::new(4, 4, 0), Button::new(Rectangle::new(4, 4, 0), pressed));
    assert_eq!(r.contains(0, 0, 1, 1, Input::Enter), Damage::Nothing);
    r.toggle();
    assert_eq!(r.contains(0, 0, 1, 1, Input::Enter), Damage::Frame);

    // An inner widget asks its child inside the child's box.
    let mut inner = Inner::new(Button::new(Rectangle::new(4, 4, 0), pressed));
    assert_eq!(inner.contains(0, 0, 1, 1, Input::Enter), Damage::Frame);
    assert_eq!(inner.contains(0, 0, 5, 1, Input::Enter), Damage::Nothing);

    // A list box asks its widgets in order, each at its location.
    let mut lb = ListBox::new(Orientation::Horizontal);
    lb.add(Button::new(Rectangle::new(3, 3, 0), pressed)).unwrap();
    lb.add(Button::new(Rectangle::new(3, 3, 0), pressed)).unwrap();
    assert_eq!(lb.contains(0, 0, 4, 1, Input::Enter), Damage::Frame);
    assert_eq!(lb.contains(0, 0, 1, 1, Input::Enter), Damage::Frame);
    assert_eq!(lb.contains(0, 0, 3, 1, Input::Enter), Damage::Nothing);
    assert_eq!(lb.contains(10, 10, 1, 1, Input::Enter), Damage::Nothing);

    // A list asks its widgets at their own locations.
    let mut list = List::new(Orientation::Horizontal, None);
    list.set_margin(2);
    list.add(Button::new(Rectangle::new(3, 3, 0), pressed)).unwrap();
    // The widget stands at half the margin, (1, 1), and is 3 by 3.
    assert_eq!(list.contains(1, 2, Input::Enter), Damage::Nothing);
    assert_eq!(list.contains(4, 2, Input::Enter), Damage::Nothing);
    assert_eq!(list.contains(2, 2, Input::Enter), Damage::Frame);
    assert_eq!(list.contains(3, 3, Input::Enter), Damage::Frame);
}
