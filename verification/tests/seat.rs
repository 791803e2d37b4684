use snui::damage::Damage;
use snui::input::{Modifiers, MouseButton, Pointer};
use snui::pointer::{SurfaceDispatch, SurfacePointer, SurfacePointerEvent};
use snui::seat::{
    record_output, seat_devices, KeyPress, KeyboardEvent, KeyboardRouter, OutputInfo, OutputUpdate,
};
use snui::view::{message_round, window_action, ShellKind, WindowAction, WindowMessage, LAYER_FILL};

#[test]
fn seats_give_the_devices_asked_for() {
    assert_eq!(seat_devices(true, true, 3), (true, true));
    assert_eq!(seat_devices(true, true, 1), (false, true));
    assert_eq!(seat_devices(false, true, 7), (true, false));
    assert_eq!(seat_devices(true, false, 2), (false, false));
}

#[test]
fn outputs_are_updated_or_added() {
    let mut outputs: Vec<OutputInfo> = Vec::new();
    assert!(record_output(&mut outputs, true, OutputUpdate::Geometry { make: "acme".to_string() }));
    assert_eq!(outputs, vec![OutputInfo { name: "acme".to_string(), width: 0, height: 0, scale: 1 }]);
    assert!(!record_output(&mut outputs, true, OutputUpdate::Mode { width: 800, height: 600 }));
    assert!(!record_output(&mut outputs, true, OutputUpdate::Scale { factor: 2 }));
    assert_eq!(outputs[0], OutputInfo { name: "acme".to_string(), width: 800, height: 600, scale: 2 });
    assert!(record_output(&mut outputs, false, OutputUpdate::Scale { factor: 3 }));
    assert_eq!(outputs.len(), 2);
    assert_eq!(outputs[1], OutputInfo { name: String::new(), width: 0, height: 0, scale: 3 });
}

#[test]
fn keyboard_events_go_to_the_entered_view() {
    let mut k = KeyboardRouter::new();
    assert_eq!(k.step(KeyboardEvent::Enter { index: 2 }), None);
    assert_eq!(k.index, 2);
    let shift = Modifiers { shift: true, ..Modifiers::default() };
    assert_eq!(
        k.step(KeyboardEvent::Modifiers { modifiers: shift }),
        Some(KeyPress { utf8: None, value: None, modifiers: shift, pressed: true })
    );
    assert_eq!(
        k.step(KeyboardEvent::Key { rawkey: 30, pressed: true, utf8: Some("a".to_string()) }),
        Some(KeyPress {
            utf8: Some("a".to_string()),
            value: Some(30),
            modifiers: Modifiers::default(),
            pressed: true
        })
    );
    assert_eq!(
        k.step(KeyboardEvent::Repeat { keysym: 97 }),
        Some(KeyPress {
            utf8: Some("a".to_string()),
            value: Some(97),
            modifiers: Modifiers::default(),
            pressed: true
        })
    );
    assert_eq!(k.step(KeyboardEvent::Other), None);
}

#[test]
fn surface_pointer_dispatches_on_frames() {
    let mut p = SurfacePointer::new();
    assert_eq!(p.step(SurfacePointerEvent::Frame), SurfaceDispatch::View { view: 0, pointer: Pointer::Enter });
    assert_eq!(p.step(SurfacePointerEvent::Enter { index: 1 }), SurfaceDispatch::Nothing);
    assert_eq!(p.step(SurfacePointerEvent::Motion), SurfaceDispatch::Nothing);
    assert_eq!(p.step(SurfacePointerEvent::Button { time: 40, button: 0, pressed: true }), SurfaceDispatch::Nothing);
    assert_eq!(
        p.step(SurfacePointerEvent::Frame),
        SurfaceDispatch::View {
            view: 1,
            pointer: Pointer::MouseClick { serial: 40, button: MouseButton::Left, pressed: true }
        }
    );
    assert_eq!(p.step(SurfacePointerEvent::Leave), SurfaceDispatch::LeftSurface(Pointer::Leave));
    assert_eq!(p.step(SurfacePointerEvent::Other), SurfaceDispatch::Nothing);
    assert_eq!(p.index, 1);
}

#[test]
fn window_messages() {
    assert_eq!(window_action(WindowMessage::Close, ShellKind::Xdg), WindowAction::Destroy);
    assert_eq!(window_action(WindowMessage::Minimize, ShellKind::Xdg), WindowAction::Minimize);
    assert_eq!(window_action(WindowMessage::Minimize, ShellKind::LayerShell), WindowAction::Nothing);
    assert_eq!(window_action(WindowMessage::Maximize, ShellKind::LayerShell), WindowAction::FillOutput);
    assert_eq!(
        window_action(WindowMessage::Title("t".to_string()), ShellKind::Xdg),
        WindowAction::SetTitle("t".to_string())
    );
    assert_eq!(window_action(WindowMessage::Move, ShellKind::LayerShell), WindowAction::Nothing);
    assert_eq!(LAYER_FILL, 1 << 31);
    assert_eq!(message_round(Damage::Partial, Damage::Frame, false), (Damage::Frame, false));
    assert_eq!(message_round(Damage::Frame, Damage::Partial, true), (Damage::Nothing, true));
}
