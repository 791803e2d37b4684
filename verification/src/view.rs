//! The decisions a view takes around the display server: when it renders, when it asks for a
//! frame callback, how long a frame lasted, and what a dispatch redraws and presents. The
//! calls to the display server stay with the caller, which hands back what they returned.
use crate::damage::Damage;
use vstd::prelude::*;

verus! {

/// The longest frame time handed to widgets, in milliseconds.
pub const MAX_FRAME_TIME: u32 = 50;

/// The damage a view starts a sync with: a draw or a configure event damages it.
pub fn initial_damage(redraw: bool) -> (r: Damage)
    ensures
        r == if redraw {
            Damage::Partial
        } else {
            Damage::Nothing
        },
{
    if redraw {
        Damage::Partial
    } else {
        Damage::Nothing
    }
}

/// What a view does with the damage its widgets returned.
#[derive(Copy, Clone, Debug, PartialEq, Eq, Structural)]
pub enum UpdateAction {
    Nothing,
    /// Render now.
    Render,
    /// Ask the display server for a frame callback; call `frame_requested` with the answer.
    RequestFrame,
}

/// What a view does after the widgets handled a frame callback.
#[derive(Copy, Clone, Debug, PartialEq, Eq, Structural)]
pub enum CallbackAction {
    Nothing,
    /// Render the damage.
    Render,
    /// Render the damage; the view wants the next frame callback, which only the last such
    /// view of a round asks for (`frame_requester`).
    RenderWantingFrame,
}

/// The frame bookkeeping of a view: the time of the last frame callback, whether one is
/// pending, and the offset of the buffer last drawn into.
#[derive(Copy, Clone, Debug, PartialEq, Eq, Structural)]
pub struct FrameState {
    pub time: u32,
    pub pending_cb: bool,
    pub offset: usize,
}

/// The action for `damage`: nothing happens while a callback is pending.
pub open spec fn update_action_of(pending_cb: bool, damage: Damage) -> UpdateAction {
    if pending_cb {
        UpdateAction::Nothing
    } else {
        match damage {
            Damage::Partial => UpdateAction::Render,
            Damage::Frame => UpdateAction::RequestFrame,
            Damage::Nothing => UpdateAction::Nothing,
        }
    }
}

/// The time a frame lasted, capped at `MAX_FRAME_TIME`.
pub open spec fn frame_time_of(time: u32, callback_data: u32) -> u32 {
    if callback_data - time <= MAX_FRAME_TIME {
        (callback_data - time) as u32
    } else {
        MAX_FRAME_TIME
    }
}

impl FrameState {
    pub fn new() -> (r: Self)
        ensures
            r == (FrameState { time: 0, pending_cb: false, offset: 0 }),
    {
        FrameState { time: 0, pending_cb: false, offset: 0 }
    }

    /// What to do with the damage a sync returned.
    pub fn update_action(&self, damage: Damage) -> (r: UpdateAction)
        ensures
            r == update_action_of(self.pending_cb, damage),
    {
        if self.pending_cb {
            return UpdateAction::Nothing;
        }
        match damage {
            Damage::Partial => UpdateAction::Render,
            Damage::Frame => UpdateAction::RequestFrame,
            Damage::Nothing => UpdateAction::Nothing,
        }
    }

    /// The display server answered a frame request: when it was `granted`, the callback is
    /// pending and the view renders a frame. Returns whether to render.
    pub fn frame_requested(&mut self, granted: bool) -> (r: bool)
        ensures
            r == granted,
            final(self).pending_cb == (old(self).pending_cb || granted),
            final(self).time == old(self).time,
            final(self).offset == old(self).offset,
    {
        if granted {
            self.pending_cb = true;
        }
        granted
    }

    /// A buffer at `offset` was obtained for rendering. Returns whether the whole surface is
    /// drawn again, which happens when the buffer is not the one drawn last.
    pub fn buffer_acquired(&mut self, offset: usize) -> (r: bool)
        ensures
            r == (offset != old(self).offset),
            final(self).offset == offset,
            final(self).time == old(self).time,
            final(self).pending_cb == old(self).pending_cb,
    {
        if offset != self.offset {
            self.offset = offset;
            true
        } else {
            false
        }
    }

    /// No buffer was free: the view asks for a frame callback to try again, unless one is
    /// pending already.
    pub fn asks_frame(&self) -> (r: bool)
        ensures
            r == !self.pending_cb,
    {
        !self.pending_cb
    }

    /// No buffer was free. `granted` is the answer to the frame request that `asks_frame`
    /// called for (`false` when none was made). When granted, the surface is committed and
    /// the callback is pending; otherwise a failed `Frame` render clears the pending callback.
    /// Returns whether to commit.
    pub fn buffer_missing(&mut self, granted: bool, damage: Damage) -> (r: bool)
        requires
            granted ==> !old(self).pending_cb,
        ensures
            r == granted,
            final(self).pending_cb == if granted {
                true
            } else if damage == Damage::Frame {
                false
            } else {
                old(self).pending_cb
            },
            final(self).time == old(self).time,
            final(self).offset == old(self).offset,
    {
        if granted {
            self.pending_cb = true;
            true
        } else {
            if let Damage::Frame = damage {
                self.pending_cb = false;
            }
            false
        }
    }

    /// A frame callback arrived with the time `callback_data`. A view with a pending callback
    /// takes it: returns the frame time to hand its widgets.
    pub fn callback_done(&mut self, callback_data: u32) -> (r: Option<u32>)
        requires
            old(self).pending_cb ==> callback_data >= old(self).time,
        ensures
            old(self).pending_cb ==> {
                &&& r == Some(frame_time_of(old(self).time, callback_data))
                &&& *final(self) == (FrameState {
                    time: callback_data,
                    pending_cb: false,
                    offset: old(self).offset,
                })
            },
            !old(self).pending_cb ==> r is None && *final(self) == *old(self),
    {
        if self.pending_cb {
            self.pending_cb = false;
            let elapsed = callback_data - self.time;
            let frame_time = if elapsed <= MAX_FRAME_TIME {
                elapsed
            } else {
                MAX_FRAME_TIME
            };
            self.time = callback_data;
            Some(frame_time)
        } else {
            None
        }
    }

    /// The widgets handled a frame callback and returned `damage`: a `Frame` marks the callback
    /// pending again, since the next one is asked for.
    pub fn after_callback(&mut self, damage: Damage) -> (r: CallbackAction)
        ensures
            r == match damage {
                Damage::Nothing => CallbackAction::Nothing,
                Damage::Partial => CallbackAction::Render,
                Damage::Frame => CallbackAction::RenderWantingFrame,
            },
            final(self).pending_cb == (old(self).pending_cb || damage == Damage::Frame),
            final(self).time == old(self).time,
            final(self).offset == old(self).offset,
    {
        match damage {
            Damage::Partial => CallbackAction::Render,
            Damage::Frame => {
                self.pending_cb = true;
                CallbackAction::RenderWantingFrame
            },
            Damage::Nothing => CallbackAction::Nothing,
        }
    }
}

/// The last view of a frame-callback round whose widgets returned `Frame`.
pub open spec fn last_wanting(wants: Seq<bool>) -> Option<int>
    decreases wants.len(),
{
    if wants.len() == 0 {
        None
    } else if wants.last() {
        Some(wants.len() - 1)
    } else {
        last_wanting(wants.drop_last())
    }
}

/// After a frame-callback round over the views (`wants[i]`: view `i` returned
/// `RenderWantingFrame`), the view that asks the display server for the next frame callback:
/// the last one that wants it.
pub fn frame_requester(wants: &[bool]) -> (r: Option<usize>)
    ensures
        r matches Some(i) ==> last_wanting(wants@) == Some(i as int),
        r is None ==> last_wanting(wants@) is None,
{
    let mut found: Option<usize> = None;
    let mut i: usize = 0;
    while i < wants.len()
        invariant
            i <= wants@.len(),
            found matches Some(k) ==> last_wanting(wants@.take(i as int)) == Some(k as int),
            found is None ==> last_wanting(wants@.take(i as int)) is None,
        decreases wants@.len() - i,
    {
        assert(wants@.take(i + 1).drop_last() =~= wants@.take(i as int));
        if wants[i] {
            found = Some(i);
        }
        i = i + 1;
    }
    assert(wants@.take(i as int) =~= wants@);
    found
}

/// At most one view asks for the next frame callback, and it is one that wants it, with no
/// later view wanting it.
pub proof fn lemma_one_requester(wants: Seq<bool>)
    ensures
        last_wanting(wants) matches Some(i) ==> 0 <= i < wants.len() && wants[i] && forall|j: int|
            i < j < wants.len() ==> !#[trigger] wants[j],
        last_wanting(wants) is None ==> forall|j: int| 0 <= j < wants.len() ==> !#[trigger] wants[j],
    decreases wants.len(),
{
    if wants.len() > 0 {
        lemma_one_requester(wants.drop_last());
        if !wants.last() {
            assert forall|j: int| 0 <= j < wants.len() - 1 implies #[trigger] wants[j] == wants.drop_last()[j] by {}
        }
    }
}

/// A view asks for a frame only when none is pending, hands its widgets at most
/// `MAX_FRAME_TIME` milliseconds per frame, and ignores callbacks it did not ask for.
pub proof fn lemma_frame_pacing(s: FrameState, damage: Damage, callback_data: u32)
    ensures
        update_action_of(s.pending_cb, damage) != UpdateAction::Nothing ==> !s.pending_cb,
        callback_data >= s.time ==> frame_time_of(s.time, callback_data) <= MAX_FRAME_TIME,
        callback_data >= s.time ==> frame_time_of(s.time, callback_data) <= callback_data - s.time,
        update_action_of(s.pending_cb, Damage::Nothing) == UpdateAction::Nothing,
{
}

/// How the drawing context was damaged since the last dispatch.
#[derive(Copy, Clone, Debug, PartialEq, Eq, Structural)]
pub enum DamageType {
    /// Everything is redrawn.
    Full,
    /// Parts were drawn.
    Partial,
    /// The widget changed size.
    Resize,
}

/// What a dispatch does once the widgets handled the event.
#[derive(Copy, Clone, Debug, PartialEq, Eq, Structural)]
pub struct DispatchPlan {
    /// Resize the drawing context to the widget's size.
    pub resize: bool,
    /// Give the shell surface the widget's size.
    pub set_size: bool,
    /// Draw the widget.
    pub draw: bool,
    /// Empty the input region.
    pub clear_region: bool,
    /// Attach a new buffer, damage and commit.
    pub present: bool,
    /// Destroy the surface: the application stopped.
    pub destroy: bool,
}

/// The plan for a dispatch. `size_changed`: the widget's size differs from before the event;
/// `has_shell`: the application has a shell surface; `damaged`: the context holds damage;
/// `running`: the application runs.
pub open spec fn plan_of(
    damage_type: DamageType,
    size_changed: bool,
    has_shell: bool,
    damaged: bool,
    running: bool,
) -> DispatchPlan {
    let show = damage_type != DamageType::Partial || damaged;
    DispatchPlan {
        resize: damage_type == DamageType::Resize || (damage_type == DamageType::Full
            && size_changed),
        set_size: has_shell && (damage_type == DamageType::Resize || (damage_type
            == DamageType::Full && size_changed)),
        draw: damage_type == DamageType::Full || (damage_type == DamageType::Resize && has_shell),
        clear_region: damage_type == DamageType::Full,
        present: running && show,
        destroy: !running,
    }
}

/// Decides what a dispatch redraws and presents.
pub fn dispatch_plan(
    damage_type: DamageType,
    size_changed: bool,
    has_shell: bool,
    damaged: bool,
    running: bool,
) -> (r: DispatchPlan)
    ensures
        r == plan_of(damage_type, size_changed, has_shell, damaged, running),
        r.set_size <==> has_shell && r.resize,
        damage_type == DamageType::Resize ==> r.resize && (r.set_size <==> has_shell) && (r.draw
            <==> has_shell),
        damage_type == DamageType::Full ==> r.draw && r.clear_region && (r.resize
            <==> size_changed),
{
    let mut plan = DispatchPlan {
        resize: false,
        set_size: false,
        draw: false,
        clear_region: false,
        present: false,
        destroy: false,
    };
    let mut show = true;
    match damage_type {
        DamageType::Full => {
            if size_changed {
                plan.resize = true;
                plan.set_size = has_shell;
            }
            plan.draw = true;
            plan.clear_region = true;
        },
        DamageType::Partial => {
            if !damaged {
                show = false;
            }
        },
        DamageType::Resize => {
            plan.resize = true;
            if has_shell {
                plan.set_size = true;
                plan.draw = true;
            }
        },
    }
    if running && show {
        plan.present = true;
    } else if !running {
        plan.destroy = true;
    }
    plan
}

/// A stopped application presents nothing and destroys its surface; a running one never
/// destroys it, and presents unless only parts were to be drawn and nothing was damaged.
pub proof fn lemma_dispatch_plan(
    damage_type: DamageType,
    size_changed: bool,
    has_shell: bool,
    damaged: bool,
    running: bool,
)
    ensures
        ({
            let p = plan_of(damage_type, size_changed, has_shell, damaged, running);
            &&& !running ==> !p.present && p.destroy
            &&& running ==> !p.destroy
            &&& running ==> (p.present <==> (damage_type != DamageType::Partial || damaged))
            &&& p.set_size ==> p.resize && has_shell
            &&& damage_type == DamageType::Partial ==> !p.resize && !p.draw && !p.clear_region
        }),
{
}

/// What each kind of damage asks of a dispatch: a resize always resizes the drawing context
/// and, where there is a shell surface, gives it the new size and draws; a full redraw draws,
/// empties the input region and resizes exactly when the widget's size changed; the shell
/// surface is given a size exactly when there is one and the context is resized.
pub proof fn lemma_dispatch_damage(
    damage_type: DamageType,
    size_changed: bool,
    has_shell: bool,
    damaged: bool,
    running: bool,
)
    ensures
        ({
            let p = plan_of(damage_type, size_changed, has_shell, damaged, running);
            &&& p.set_size <==> has_shell && p.resize
            &&& damage_type == DamageType::Resize ==> p.resize && !p.clear_region
            &&& damage_type == DamageType::Resize ==> (p.set_size <==> has_shell)
            &&& damage_type == DamageType::Resize ==> (p.draw <==> has_shell)
            &&& damage_type == DamageType::Full ==> p.draw && p.clear_region
            &&& damage_type == DamageType::Full ==> (p.resize <==> size_changed)
            &&& damage_type == DamageType::Full ==> (p.set_size <==> size_changed && has_shell)
        }),
{
}

/// A message the application sends its window.
#[derive(Clone, Debug, PartialEq, Eq)]
pub enum WindowMessage {
    Close,
    Move,
    Minimize,
    Maximize,
    Title(String),
}

/// The kind of shell surface a view has.
#[derive(Copy, Clone, Debug, PartialEq, Eq, Structural)]
pub enum ShellKind {
    /// A toplevel window.
    Xdg,
    /// A layer-shell surface.
    LayerShell,
}

/// The size a layer surface asks for to fill its output.
pub const LAYER_FILL: u32 = 0x8000_0000;

/// What a view does with a window message.
#[derive(Clone, Debug, PartialEq, Eq)]
pub enum WindowAction {
    /// The view is no longer configured: destroy its surface and drop it.
    Destroy,
    /// Ask the compositor to minimize the toplevel.
    Minimize,
    /// Ask the compositor to maximize the toplevel.
    Maximize,
    /// Ask for a layer surface `LAYER_FILL` wide and high, which the next configure adjusts
    /// to the output.
    FillOutput,
    /// Set the toplevel's title.
    SetTitle(String),
    Nothing,
}

/// The action for `message` on a surface of kind `shell`.
pub open spec fn window_action_of(message: WindowMessage, shell: ShellKind) -> WindowAction {
    match message {
        WindowMessage::Close => WindowAction::Destroy,
        WindowMessage::Move => WindowAction::Nothing,
        WindowMessage::Minimize => if shell == ShellKind::Xdg {
            WindowAction::Minimize
        } else {
            WindowAction::Nothing
        },
        WindowMessage::Maximize => if shell == ShellKind::Xdg {
            WindowAction::Maximize
        } else {
            WindowAction::FillOutput
        },
        WindowMessage::Title(title) => if shell == ShellKind::Xdg {
            WindowAction::SetTitle(title)
        } else {
            WindowAction::Nothing
        },
    }
}

/// Decides what a window message does; moving a toplevel is not supported.
pub fn window_action(message: WindowMessage, shell: ShellKind) -> (r: WindowAction)
    requires
        !(message == WindowMessage::Move && shell == ShellKind::Xdg),
    ensures
        r == window_action_of(message, shell),
{
    match message {
        WindowMessage::Close => WindowAction::Destroy,
        WindowMessage::Move => WindowAction::Nothing,
        WindowMessage::Minimize => match shell {
            ShellKind::Xdg => WindowAction::Minimize,
            ShellKind::LayerShell => WindowAction::Nothing,
        },
        WindowMessage::Maximize => match shell {
            ShellKind::Xdg => WindowAction::Maximize,
            ShellKind::LayerShell => WindowAction::FillOutput,
        },
        WindowMessage::Title(title) => match shell {
            ShellKind::Xdg => WindowAction::SetTitle(title),
            ShellKind::LayerShell => WindowAction::Nothing,
        },
    }
}

/// Closing always destroys the view; a layer surface takes no title and is not minimized, and
/// maximizing it makes it fill its output.
pub proof fn lemma_window_actions(message: WindowMessage)
    ensures
        message == WindowMessage::Close ==> window_action_of(message, ShellKind::Xdg)
            == WindowAction::Destroy && window_action_of(message, ShellKind::LayerShell)
            == WindowAction::Destroy,
        message != WindowMessage::Close && message != WindowMessage::Maximize ==> window_action_of(
            message,
            ShellKind::LayerShell,
        ) == WindowAction::Nothing,
        window_action_of(WindowMessage::Maximize, ShellKind::LayerShell) == WindowAction::FillOutput,
{
}

/// One round of a view's sync loop over the messages its controller returns: the damage of the
/// widgets' sync of the message adds up, unless the message was for the window (`for_window`:
/// the view has a surface and the message is a window message), which ends the sync with no
/// damage. Returns the damage and whether the loop ends.
pub fn message_round(damage: Damage, round: Damage, for_window: bool) -> (r: (Damage, bool))
    ensures
        r == if for_window {
            (Damage::Nothing, true)
        } else {
            (crate::damage::max_damage(damage, round), false)
        },
{
    let damage = damage.max(round);
    if for_window {
        (Damage::Nothing, true)
    } else {
        (damage, false)
    }
}

} // verus!
