use snui::input::{MouseButton, Orientation, Pointer, Step};
use snui::pointer::{PointerAction, PointerEvent, PointerTracker};

#[test]
fn pointer_outside_views_is_located_on_enter() {
    let mut t = PointerTracker::new();
    assert_eq!(t.step(PointerEvent::Motion), PointerAction::Nothing);
    assert_eq!(t.step(PointerEvent::Frame), PointerAction::Nothing);
    assert_eq!(t.step(PointerEvent::Leave), PointerAction::Nothing);
    assert_eq!(t, PointerTracker::new());
    assert_eq!(t.step(PointerEvent::Enter { serial: 9 }), PointerAction::Locate);
    t.locate(Some(2));
    assert_eq!(t.current, Some(2));
    assert_eq!(t.step(PointerEvent::Enter { serial: 9 }), PointerAction::Enter { view: 2, serial: 9 });
    assert_eq!(t.pending, Some(Pointer::Enter));
    assert!(!t.flushed(true));
    assert_eq!(t.current, Some(2));
}

#[test]
fn events_build_up_until_a_frame() {
    let mut t = PointerTracker::new();
    t.locate(Some(0));
    // Without a pointer event being built, a click changes nothing.
    assert_eq!(t.step(PointerEvent::Button { serial: 1, button: 272, pressed: true }), PointerAction::Nothing);
    assert_eq!(t.pending, None);
    assert_eq!(t.step(PointerEvent::Motion), PointerAction::Nothing);
    assert_eq!(t.pending, Some(Pointer::Hover));
    t.step(PointerEvent::Button { serial: 5, button: 273, pressed: true });
    assert_eq!(
        t.pending,
        Some(Pointer::MouseClick { serial: 5, button: MouseButton::Right, pressed: true })
    );
    t.step(PointerEvent::Axis { orientation: Some(Orientation::Vertical), value: 1.5f32.to_bits() });
    assert_eq!(
        t.pending,
        Some(Pointer::Scroll { orientation: Orientation::Vertical, step: Step::Value(1.5f32.to_bits()) })
    );
    t.step(PointerEvent::Axis { orientation: None, value: 0 });
    t.step(PointerEvent::AxisDiscrete { orientation: None, discrete: 3 });
    assert_eq!(
        t.pending,
        Some(Pointer::Scroll { orientation: Orientation::Vertical, step: Step::Value(1.5f32.to_bits()) })
    );
    t.step(PointerEvent::AxisDiscrete { orientation: Some(Orientation::Horizontal), discrete: -2 });
    assert_eq!(
        t.pending,
        Some(Pointer::Scroll { orientation: Orientation::Horizontal, step: Step::Increment(-2) })
    );
    assert_eq!(t.step(PointerEvent::Other), PointerAction::Nothing);
    assert_eq!(t.step(PointerEvent::Frame), PointerAction::Flush { view: 0 });
}

#[test]
fn leaving_flushes_then_forgets_the_view() {
    let mut t = PointerTracker::new();
    t.locate(Some(1));
    t.step(PointerEvent::Motion);
    assert_eq!(t.step(PointerEvent::Leave), PointerAction::Flush { view: 1 });
    assert_eq!(t.current, None);
    assert_eq!(t.pending, Some(Pointer::Leave));
}

#[test]
fn unconfigured_views_are_dropped() {
    let mut t = PointerTracker::new();
    t.locate(Some(3));
    t.step(PointerEvent::Motion);
    assert!(t.flushed(false));
    assert_eq!(t, PointerTracker::new());
}
