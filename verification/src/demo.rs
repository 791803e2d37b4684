//! The model of the animation demo: a switch starts and pauses the animations.
use crate::damage::Damage;
use crate::mail::Mail;
use vstd::prelude::*;

verus! {

/// The state of the animations in the Demo.
#[derive(Debug, Clone, Copy, PartialEq, Eq, Structural)]
pub enum AnimationState {
    Stop,
    Start,
    Pause,
}

#[derive(Debug, Clone, Copy, PartialEq, Eq, Structural)]
pub struct Demo {
    pub sync: bool,
    pub state: AnimationState,
}

/// The message sent to the Demo when the want to change its animation state.
#[derive(Debug, Clone, Copy, PartialEq, Eq, Structural)]
pub struct Remote {}

impl Default for Demo {
    fn default() -> (r: Self)
        ensures
            r == (Demo { sync: false, state: AnimationState::Stop }),
    {
        Demo { sync: false, state: AnimationState::Stop }
    }
}

/// The Switch uses this to change the state of the Demo: `true` starts the animations and
/// `false` pauses them.
impl Mail<'_, Remote, bool, bool> for Demo {
    /// The demo answers nothing.
    open spec fn mail_reply(&self, message: Remote, reply: Option<bool>) -> bool {
        reply is None
    }

    /// `true` starts the animations and `false` pauses them; nothing is answered.
    open spec fn mail_sent(&self, message: Remote, data: bool, after: Self, reply: Option<bool>) -> bool {
        &&& reply is None
        &&& after == (Demo {
            state: if data {
                AnimationState::Start
            } else {
                AnimationState::Pause
            },
            ..*self
        })
    }

    fn get(&self, _message: Remote) -> (r: Option<bool>)
        ensures
            r is None,
    {
        None
    }

    fn send(&mut self, _message: Remote, data: bool) -> (r: Option<bool>)
        ensures
            r is None,
            final(self).sync == old(self).sync,
            final(self).state == if data {
                AnimationState::Start
            } else {
                AnimationState::Pause
            },
    {
        match data {
            true => self.start(),
            false => self.pause(),
        }
        None
    }
}

impl Demo {
    pub fn start(&mut self)
        ensures
            *final(self) == (Demo { state: AnimationState::Start, ..*old(self) }),
    {
        self.state = AnimationState::Start
    }

    pub fn pause(&mut self)
        ensures
            *final(self) == (Demo { state: AnimationState::Pause, ..*old(self) }),
    {
        self.state = AnimationState::Pause
    }

    pub fn stop(&mut self)
        ensures
            *final(self) == (Demo { state: AnimationState::Stop, ..*old(self) }),
    {
        self.state = AnimationState::Stop
    }
}

/// What an animated widget does when the demo's state is updated: it runs (and asks for a
/// new frame) only while the animations are started.
pub fn animate_update(state: AnimationState) -> (r: (bool, Damage))
    ensures
        r == if state == AnimationState::Start {
            (true, Damage::Frame)
        } else {
            (false, Damage::Nothing)
        },
{
    match state {
        AnimationState::Start => (true, Damage::Frame),
        AnimationState::Pause => (false, Damage::Nothing),
        AnimationState::Stop => (false, Damage::Nothing),
    }
}

/// The frame rate shown for a frame that took `frame_time` milliseconds; nothing is shown for
/// a frame time of 0.
pub fn frame_rate(frame_time: u32) -> (r: Option<u32>)
    ensures
        r == if frame_time > 0 {
            Some((1000u32 / frame_time) as u32)
        } else {
            None::<u32>
        },
{
    if frame_time > 0 {
        Some(1000 / frame_time)
    } else {
        None
    }
}

} // verus!
