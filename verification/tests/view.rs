use snui::damage::Damage;
use snui::view::{
    dispatch_plan, frame_requester, initial_damage, CallbackAction, DamageType, DispatchPlan, FrameState,
    UpdateAction, MAX_FRAME_TIME,
};

#[test]
fn redraw_events_start_damaged() {
    assert_eq!(initial_damage(true), Damage::Partial);
    assert_eq!(initial_damage(false), Damage::Nothing);
}

#[test]
fn frames_are_requested_once() {
    let mut s = FrameState::new();
    assert_eq!(s.update_action(Damage::Nothing), UpdateAction::Nothing);
    assert_eq!(s.update_action(Damage::Partial), UpdateAction::Render);
    assert_eq!(s.update_action(Damage::Frame), UpdateAction::RequestFrame);
    assert!(!s.frame_requested(false));
    assert!(!s.pending_cb);
    assert!(s.frame_requested(true));
    assert!(s.pending_cb);
    // While a callback is pending nothing renders.
    assert_eq!(s.update_action(Damage::Partial), UpdateAction::Nothing);
    assert_eq!(s.update_action(Damage::Frame), UpdateAction::Nothing);
    assert!(!s.asks_frame());
}

#[test]
fn callbacks_give_capped_frame_times() {
    let mut s = FrameState::new();
    // A callback that was not asked for is ignored.
    assert_eq!(s.callback_done(100), None);
    assert_eq!(s, FrameState::new());
    s.frame_requested(true);
    assert_eq!(s.callback_done(16), Some(16));
    assert_eq!(s.time, 16);
    assert!(!s.pending_cb);
    assert_eq!(s.after_callback(Damage::Frame), CallbackAction::RenderWantingFrame);
    assert!(s.pending_cb);
    assert_eq!(s.callback_done(1016), Some(MAX_FRAME_TIME));
    assert_eq!(s.time, 1016);
    assert_eq!(s.after_callback(Damage::Partial), CallbackAction::Render);
    assert_eq!(s.after_callback(Damage::Nothing), CallbackAction::Nothing);
    assert!(!s.pending_cb);
}

#[test]
fn buffers_and_missing_buffers() {
    let mut s = FrameState::new();
    assert!(!s.buffer_acquired(0));
    assert!(s.buffer_acquired(4096));
    assert_eq!(s.offset, 4096);
    assert!(!s.buffer_acquired(4096));
    assert!(s.asks_frame());
    assert!(s.buffer_missing(true, Damage::Partial));
    assert!(s.pending_cb);
    // A failed frame render clears the pending callback.
    assert!(!s.buffer_missing(false, Damage::Frame));
    assert!(!s.pending_cb);
    s.frame_requested(true);
    assert!(!s.buffer_missing(false, Damage::Partial));
    assert!(s.pending_cb);
}

#[test]
fn dispatch_plans() {
    let full = dispatch_plan(DamageType::Full, true, true, false, true);
    assert_eq!(
        full,
        DispatchPlan {
            resize: true,
            set_size: true,
            draw: true,
            clear_region: true,
            present: true,
            destroy: false
        }
    );
    let same = dispatch_plan(DamageType::Full, false, true, false, true);
    assert!(!same.resize && !same.set_size && same.draw);
    let quiet = dispatch_plan(DamageType::Partial, true, true, false, true);
    assert!(!quiet.present && !quiet.draw && !quiet.destroy);
    let damaged = dispatch_plan(DamageType::Partial, false, false, true, true);
    assert!(damaged.present);
    let resize = dispatch_plan(DamageType::Resize, false, false, false, true);
    assert!(resize.resize && !resize.set_size && !resize.draw && resize.present);
    let stopped = dispatch_plan(DamageType::Resize, false, true, true, false);
    assert!(stopped.destroy && !stopped.present && stopped.draw);
}

#[test]
fn only_the_last_view_wanting_a_frame_asks_for_it() {
    assert_eq!(frame_requester(&[]), None);
    assert_eq!(frame_requester(&[false, false]), None);
    assert_eq!(frame_requester(&[true, false, true, false]), Some(2));
    assert_eq!(frame_requester(&[true]), Some(0));
}
