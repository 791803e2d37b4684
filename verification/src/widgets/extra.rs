//! The states of the animated widgets (revealers, switches and toggles) and the decisions
//! they take on events. Easing curves compute positions with floats and stay with the caller,
//! which tells these machines when an animation has run out.
use crate::damage::Damage;
use crate::input::Orientation;
use vstd::prelude::*;

verus! {

#[derive(Clone, Debug, Copy, PartialEq, Eq, Structural)]
pub enum RevealerAction {
    Reveal,
    Hide,
}

#[derive(Clone, Debug, Copy, PartialEq, Eq, Structural)]
pub enum RevealerState {
    Running,
    Hidden,
    Revealed,
}

#[derive(Clone, Debug, Copy, PartialEq, Eq, Structural)]
pub enum Transition {
    SlideRight,
    SlideLeft,
    SlideTop,
    SlideBottom,
}

/// Which way along its orientation a revealer's child slides: toward larger coordinates
/// (`Normal`) or smaller ones (`Inverted`).
#[derive(Clone, Debug, Copy, PartialEq, Eq, Structural)]
pub enum Direction {
    Normal,
    Inverted,
}

#[derive(Clone, Debug, Copy, PartialEq, Eq, Structural)]
pub enum SwitchState {
    Activated,
    Deactivated,
}

#[derive(Clone, Debug, Copy, PartialEq, Eq, Structural)]
pub enum ToggleState {
    Activated,
    Deactivated,
}

/// The direction and orientation of a transition.
pub open spec fn transition_placement(t: Transition) -> (Direction, Orientation) {
    match t {
        Transition::SlideRight => (Direction::Normal, Orientation::Horizontal),
        Transition::SlideLeft => (Direction::Inverted, Orientation::Horizontal),
        Transition::SlideBottom => (Direction::Normal, Orientation::Vertical),
        Transition::SlideTop => (Direction::Inverted, Orientation::Vertical),
    }
}

impl Transition {
    /// The direction and orientation a revealer takes for this transition.
    pub fn placement(self) -> (r: (Direction, Orientation))
        ensures
            r == transition_placement(self),
    {
        match self {
            Transition::SlideRight => (Direction::Normal, Orientation::Horizontal),
            Transition::SlideLeft => (Direction::Inverted, Orientation::Horizontal),
            Transition::SlideBottom => (Direction::Normal, Orientation::Vertical),
            Transition::SlideTop => (Direction::Inverted, Orientation::Vertical),
        }
    }
}

/// How many easing steps a frame advances: `frame_time` milliseconds of an animation of
/// `steps` steps lasting `duration` milliseconds.
pub fn animation_steps(frame_time: u32, steps: u32, duration: u32) -> (r: usize)
    requires
        duration > 0,
        frame_time * steps <= u32::MAX,
    ensures
        r == (frame_time * steps) / (duration as int),
{
    let elapsed: u32 = frame_time * steps;
    let r: u32 = elapsed / duration;
    assert(r <= elapsed) by (nonlinear_arith)
        requires
            duration > 0,
            r == elapsed / duration,
    ;
    r as usize
}

/// What a revealer does with an event for its child.
#[derive(Clone, Debug, Copy, PartialEq, Eq, Structural)]
pub enum RevealerRoute {
    /// The child is hidden: it is not handed the event and nothing is damaged.
    Quiet,
    /// Hand the event to the child and return its damage.
    Forward,
    /// A transition started: hand the event to the child and return at least `Frame`.
    Started,
}

/// The state of a revealer and the transition it runs, if any.
#[derive(Clone, Debug, Copy, PartialEq, Eq, Structural)]
pub struct RevealerControl {
    pub state: RevealerState,
    pub action: Option<RevealerAction>,
}

/// A transition runs exactly while the state is `Running`.
pub open spec fn revealer_wf(c: RevealerControl) -> bool {
    (c.state == RevealerState::Running) == (c.action is Some)
}

/// How a revealer routes an event other than a sync or a frame callback.
pub open spec fn route_of(state: RevealerState) -> RevealerRoute {
    if state == RevealerState::Hidden {
        RevealerRoute::Quiet
    } else {
        RevealerRoute::Forward
    }
}

/// The revealer after a sync on which its mail answered `reply`, and the route of the sync: a
/// hidden revealer asked to reveal, or a revealed one asked to hide, starts that transition;
/// anything else leaves it as it is.
pub open spec fn sync_outcome(c: RevealerControl, reply: Option<RevealerAction>) -> (
    RevealerControl,
    RevealerRoute,
) {
    if c.state == RevealerState::Hidden && reply == Some(RevealerAction::Reveal) {
        (
            RevealerControl {
                state: RevealerState::Running,
                action: Some(RevealerAction::Reveal),
            },
            RevealerRoute::Started,
        )
    } else if c.state == RevealerState::Revealed && reply == Some(RevealerAction::Hide) {
        (
            RevealerControl { state: RevealerState::Running, action: Some(RevealerAction::Hide) },
            RevealerRoute::Started,
        )
    } else {
        (c, route_of(c.state))
    }
}

/// The state a transition ends in.
pub open spec fn finished_state(action: RevealerAction) -> RevealerState {
    match action {
        RevealerAction::Hide => RevealerState::Hidden,
        RevealerAction::Reveal => RevealerState::Revealed,
    }
}

impl RevealerControl {
    /// A new revealer is hidden.
    pub fn new() -> (r: Self)
        ensures
            r == (RevealerControl { state: RevealerState::Hidden, action: None }),
    {
        RevealerControl { state: RevealerState::Hidden, action: None }
    }

    pub fn state(&self) -> (r: RevealerState)
        ensures
            r == self.state,
    {
        self.state
    }

    /// What the revealer sends its mail on a sync: its state, unless a transition runs, in
    /// which case it asks nothing.
    pub fn query(&self) -> (r: Option<RevealerState>)
        ensures
            r == if self.state == RevealerState::Running {
                None
            } else {
                Some(self.state)
            },
    {
        match self.state {
            RevealerState::Running => None,
            state => Some(state),
        }
    }

    /// A sync: `reply` is what the mail answered to `query` (`None` when nothing was asked or
    /// nothing was answered).
    pub fn sync(&mut self, reply: Option<RevealerAction>) -> (r: RevealerRoute)
        ensures
            (*final(self), r) == sync_outcome(*old(self), reply),
    {
        if self.state != RevealerState::Running {
            if let Some(action) = reply {
                match action {
                    RevealerAction::Reveal => {
                        if self.state == RevealerState::Hidden {
                            self.state = RevealerState::Running;
                            self.action = Some(RevealerAction::Reveal);
                            return RevealerRoute::Started;
                        }
                    },
                    RevealerAction::Hide => {
                        if self.state == RevealerState::Revealed {
                            self.state = RevealerState::Running;
                            self.action = Some(RevealerAction::Hide);
                            return RevealerRoute::Started;
                        }
                    },
                }
            }
        }
        self.route()
    }

    /// How an event other than a sync or a running frame callback is routed.
    pub fn route(&self) -> (r: RevealerRoute)
        ensures
            r == route_of(self.state),
    {
        if self.state == RevealerState::Hidden {
            RevealerRoute::Quiet
        } else {
            RevealerRoute::Forward
        }
    }

    /// A transition runs: frame callbacks advance the easing curve.
    pub fn animating(&self) -> (r: bool)
        ensures
            r == (self.state == RevealerState::Running),
    {
        self.state == RevealerState::Running
    }

    /// The easing curve ran out: the transition ends in the state it was heading for.
    pub fn finish(&mut self) -> (r: RevealerState)
        requires
            old(self).action is Some,
        ensures
            final(self).state == finished_state(old(self).action->0),
            final(self).action == None::<RevealerAction>,
            r == final(self).state,
    {
        let state = match self.action {
            Some(RevealerAction::Hide) => RevealerState::Hidden,
            _ => RevealerState::Revealed,
        };
        self.action = None;
        self.state = state;
        state
    }

    /// The child is drawn unless the revealer is hidden.
    pub fn draws(&self) -> (r: bool)
        ensures
            r == (self.state != RevealerState::Hidden),
    {
        self.state != RevealerState::Hidden
    }
}

/// A transition runs exactly while the revealer is `Running`, from its creation on and
/// whatever syncs and finished transitions come.
pub proof fn lemma_revealer_wf(c: RevealerControl, reply: Option<RevealerAction>)
    ensures
        revealer_wf(RevealerControl { state: RevealerState::Hidden, action: None }),
        revealer_wf(c) ==> revealer_wf(sync_outcome(c, reply).0),
        c.action is Some ==> revealer_wf(
            RevealerControl { state: finished_state(c.action->0), action: None },
        ),
{
}

/// A running revealer ignores what its mail answers and hands events on; a revealer that is
/// not running starts a transition only toward the other resting state.
pub proof fn lemma_revealer_sync(c: RevealerControl, reply: Option<RevealerAction>)
    ensures
        c.state == RevealerState::Running ==> sync_outcome(c, reply) == (c, RevealerRoute::Forward),
        sync_outcome(c, reply).1 == RevealerRoute::Started ==> {
            &&& reply is Some
            &&& c.state != RevealerState::Running
            &&& finished_state(reply->0) != c.state
            &&& sync_outcome(c, reply).0.action == reply
        },
{
}

/// Revealing a hidden revealer and letting the transition finish leaves it revealed; hiding it
/// again and letting that finish brings it back to where it started.
pub proof fn lemma_reveal_then_hide()
    ensures
        ({
            let start = RevealerControl { state: RevealerState::Hidden, action: None };
            let revealing = sync_outcome(start, Some(RevealerAction::Reveal)).0;
            let revealed = RevealerControl {
                state: finished_state(revealing.action->0),
                action: None,
            };
            let hiding = sync_outcome(revealed, Some(RevealerAction::Hide)).0;
            let hidden = RevealerControl { state: finished_state(hiding.action->0), action: None };
            &&& revealed.state == RevealerState::Revealed
            &&& hidden == start
        }),
{
}

/// The other state.
pub open spec fn flipped_switch(s: SwitchState) -> SwitchState {
    match s {
        SwitchState::Activated => SwitchState::Deactivated,
        SwitchState::Deactivated => SwitchState::Activated,
    }
}

/// The state a switch shows for the value `v` its mail holds.
pub open spec fn switch_target(v: bool) -> SwitchState {
    if v {
        SwitchState::Activated
    } else {
        SwitchState::Deactivated
    }
}

impl SwitchState {
    pub fn flip(self) -> (r: SwitchState)
        ensures
            r == flipped_switch(self),
    {
        match self {
            SwitchState::Activated => SwitchState::Deactivated,
            SwitchState::Deactivated => SwitchState::Activated,
        }
    }
}

/// The state of a switch and whether its animation runs.
#[derive(Clone, Debug, Copy, PartialEq, Eq, Structural)]
pub struct SwitchControl {
    pub state: SwitchState,
    pub start: bool,
}

impl SwitchControl {
    /// A new switch is deactivated and still.
    pub fn new() -> (r: Self)
        ensures
            r == (SwitchControl { state: SwitchState::Deactivated, start: false }),
    {
        SwitchControl { state: SwitchState::Deactivated, start: false }
    }

    pub fn state(&self) -> (r: SwitchState)
        ensures
            r == self.state,
    {
        self.state
    }

    /// An update: `value` is what the mail holds for the switch's message. A switch that does
    /// not show that value moves to it and starts animating.
    pub fn update(&mut self, value: Option<bool>) -> (r: Damage)
        ensures
            if value is Some && old(self).state != switch_target(value->0) {
                &&& *final(self) == (SwitchControl { state: switch_target(value->0), start: true })
                &&& r == Damage::Frame
            } else {
                &&& *final(self) == *old(self)
                &&& r == Damage::Nothing
            },
    {
        if let Some(v) = value {
            let state = if v {
                SwitchState::Deactivated
            } else {
                SwitchState::Activated
            };
            if state == self.state {
                self.start = true;
                self.state = state.flip();
                return Damage::Frame;
            }
        }
        Damage::Nothing
    }

    /// A left click inside the switch: it flips and starts animating. Returns the value to
    /// send with the switch's message (whether it is now activated); the click damages a
    /// frame.
    pub fn click(&mut self) -> (r: bool)
        ensures
            final(self).state == flipped_switch(old(self).state),
            final(self).start,
            r == (final(self).state == SwitchState::Activated),
    {
        self.start = true;
        self.state = self.state.flip();
        match self.state {
            SwitchState::Activated => true,
            SwitchState::Deactivated => false,
        }
    }

    /// Frame callbacks advance the animation while it runs.
    pub fn animating(&self) -> (r: bool)
        ensures
            r == self.start,
    {
        self.start
    }

    /// The easing curve ran out: the animation stops.
    pub fn stop(&mut self)
        ensures
            final(self).state == old(self).state,
            !final(self).start,
    {
        self.start = false;
    }
}

/// Flipping twice gives the state back, and an update brings the switch to the value its
/// mail holds: a second update with the same value changes nothing.
pub proof fn lemma_switch_update(s: SwitchState, v: bool)
    ensures
        flipped_switch(flipped_switch(s)) == s,
        flipped_switch(s) != s,
        s != switch_target(v) ==> flipped_switch(s) == switch_target(v),
{
}

/// The other state.
pub open spec fn flipped_toggle(s: ToggleState) -> ToggleState {
    match s {
        ToggleState::Activated => ToggleState::Deactivated,
        ToggleState::Deactivated => ToggleState::Activated,
    }
}

impl ToggleState {
    /// A left press on a toggle flips it.
    pub fn flip(self) -> (r: ToggleState)
        ensures
            r == flipped_toggle(self),
    {
        match self {
            ToggleState::Activated => ToggleState::Deactivated,
            ToggleState::Deactivated => ToggleState::Activated,
        }
    }
}

} // verus!
