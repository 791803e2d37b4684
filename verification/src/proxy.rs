//! The decisions of a proxy around a widget: the damage it accumulates between two draws, and
//! how it routes pointer events so that the widget sees an `Enter` before the first event
//! inside it and a `Leave` once the pointer is out and the widget reports no more damage.
use crate::damage::{max_damage, Damage};
use vstd::prelude::*;

verus! {

/// What to do with a pointer event.
#[derive(Copy, Clone, Debug, PartialEq, Eq, Structural)]
pub enum PointerAction {
    /// Hand the event to the widget.
    Forward,
    /// Hand the widget an `Enter` at the event's position in place of the event.
    Enter,
    /// Hand the event to the widget, then call `leave_after` with the damage it returns.
    ForwardThenCheck,
    /// The event is outside and the pointer never entered: nothing to do.
    Ignore,
}

/// The damage and pointer state of a proxy.
#[derive(Copy, Clone, Debug, PartialEq, Eq, Structural)]
pub struct ProxyState {
    pub damage: Damage,
    /// The pointer is over the widget.
    pub entered: bool,
}

/// The action for a pointer event and the new `entered`, from whether the event is inside the
/// widget.
pub open spec fn pointer_outcome(entered: bool, inside: bool) -> (PointerAction, bool) {
    if inside {
        if entered {
            (PointerAction::Forward, true)
        } else {
            (PointerAction::Enter, true)
        }
    } else if entered {
        (PointerAction::ForwardThenCheck, true)
    } else {
        (PointerAction::Ignore, false)
    }
}

impl ProxyState {
    /// A new proxy is damaged, so that its widget is drawn once, and the pointer is out.
    pub fn new() -> (r: Self)
        ensures
            r == (ProxyState { damage: Damage::Partial, entered: false }),
    {
        ProxyState { damage: Damage::Partial, entered: false }
    }

    /// Increment the damage.
    pub fn upgrade(&mut self)
        ensures
            final(self).damage == max_damage(old(self).damage, Damage::Partial),
            final(self).entered == old(self).entered,
    {
        self.damage = self.damage.max(Damage::Partial);
    }

    /// Adds the damage returned by the widget and returns the proxy's damage.
    pub fn record(&mut self, damage: Damage) -> (r: Damage)
        ensures
            final(self).damage == max_damage(old(self).damage, damage),
            final(self).entered == old(self).entered,
            r == final(self).damage,
    {
        self.damage = self.damage.max(damage);
        self.damage
    }

    /// Routes a pointer event; `inside` tells whether its position is within the widget.
    pub fn pointer(&mut self, inside: bool) -> (r: PointerAction)
        ensures
            (r, final(self).entered) == pointer_outcome(old(self).entered, inside),
            final(self).damage == old(self).damage,
    {
        if inside {
            if self.entered {
                PointerAction::Forward
            } else {
                self.entered = true;
                PointerAction::Enter
            }
        } else if self.entered {
            PointerAction::ForwardThenCheck
        } else {
            PointerAction::Ignore
        }
    }

    /// After an event outside was handed to the widget: the pointer stays entered while the
    /// position is inside or the widget still reports damage. Returns `true` when the widget
    /// must now be handed a `Leave`, whose damage then replaces the event's.
    pub fn leave_after(&mut self, inside: bool, damage: Damage) -> (r: bool)
        ensures
            final(self).entered == (inside || damage != Damage::Nothing),
            r == !final(self).entered,
            final(self).damage == old(self).damage,
    {
        self.entered = inside || damage.is_some();
        !self.entered
    }

    /// The widget is drawn when the proxy is damaged or the scene it is drawn in is.
    pub fn should_draw(&self, scene_damaged: bool) -> (r: bool)
        ensures
            r == (self.damage != Damage::Nothing || scene_damaged),
    {
        self.damage.is_some() || scene_damaged
    }

    /// Called once the scene was drawn: the damage is spent.
    pub fn drawn(&mut self)
        ensures
            final(self).damage == Damage::Nothing,
            final(self).entered == old(self).entered,
    {
        self.damage = Damage::Nothing
    }

    /// The widget is laid out again when the proxy is damaged or the layout is forced.
    pub fn should_layout(&self, force: bool) -> (r: bool)
        ensures
            r == (self.damage != Damage::Nothing || force),
    {
        self.damage.is_some() || force
    }
}

/// The damage of a configure event: at least `Partial` while the window is being resized,
/// otherwise what the widget returned.
pub fn configure_damage(resizing: bool, inner: Damage) -> (r: Damage)
    ensures
        r == if resizing {
            max_damage(Damage::Partial, inner)
        } else {
            inner
        },
{
    if resizing {
        Damage::Partial.max(inner)
    } else {
        inner
    }
}

/// The pointer enters before anything is forwarded: an event is handed on as it is only when
/// the pointer had already entered, and a pointer that never entered is ignored while it stays
/// outside. Once a widget is handed `Leave`, the pointer is out.
pub proof fn lemma_enter_before_forward(entered: bool, inside: bool)
    ensures
        (pointer_outcome(entered, inside).0 == PointerAction::Forward
            || pointer_outcome(entered, inside).0 == PointerAction::ForwardThenCheck) ==> entered,
        !entered ==> pointer_outcome(entered, inside).0 == (if inside {
            PointerAction::Enter
        } else {
            PointerAction::Ignore
        }),
        inside ==> pointer_outcome(entered, inside).1,
{
}

/// Between two draws the damage only grows: recording damage never lowers it, and recording
/// `Nothing` keeps it.
pub proof fn lemma_damage_accumulates(current: Damage, returned: Damage)
    ensures
        crate::damage::rank(max_damage(current, returned)) >= crate::damage::rank(current),
        crate::damage::rank(max_damage(current, returned)) >= crate::damage::rank(returned),
        max_damage(current, Damage::Nothing) == current,
{
}

} // verus!
