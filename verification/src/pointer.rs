//! How the client follows the pointer across its views: which view the pointer is in, and the
//! pointer event that builds up until the display server closes a frame of events. Positions
//! are floating-point and stay with the caller.
use crate::input::{button_of_code, MouseButton, Orientation, Pointer, Step};
use vstd::prelude::*;

verus! {

/// A pointer event of the display server, without its position.
#[derive(Copy, Clone, Debug, PartialEq, Eq, Structural)]
pub enum PointerEvent {
    /// A button changed state; `pressed` is false for a state the client does not know.
    Button { serial: u32, button: u32, pressed: bool },
    /// A scroll by an amount (the bits of an `f32`); `None` for an axis the client does not
    /// know.
    Axis { orientation: Option<Orientation>, value: u32 },
    /// A scroll by discrete steps.
    AxisDiscrete { orientation: Option<Orientation>, discrete: i32 },
    /// The pointer moved; the caller keeps the new position.
    Motion,
    /// The end of a group of events.
    Frame,
    Leave,
    /// The pointer entered a surface; the caller keeps the position.
    Enter { serial: u32 },
    /// Any other event.
    Other,
}

/// What the client does for a pointer event.
#[derive(Copy, Clone, Debug, PartialEq, Eq, Structural)]
pub enum PointerAction {
    Nothing,
    /// Hand the pending event to `view`, then call `flushed`.
    Flush { view: usize },
    /// Show the arrow cursor on `view`, keep `serial` as its enter serial, then hand it the
    /// pending event and call `flushed`.
    Enter { view: usize, serial: u32 },
    /// Find the view of the entered surface, call `locate` with it and handle the event again.
    Locate,
}

/// The view the pointer is in, and the pointer event being built (`None` when the event being
/// built is not a pointer event).
#[derive(Copy, Clone, Debug, PartialEq, Eq, Structural)]
pub struct PointerTracker {
    pub current: Option<usize>,
    pub pending: Option<Pointer>,
}

/// `pending` with its pointer kind replaced by `p`, when it is a pointer event.
pub open spec fn replaced(pending: Option<Pointer>, p: Pointer) -> Option<Pointer> {
    if pending is Some {
        Some(p)
    } else {
        None
    }
}

/// The tracker and the action after `event`.
pub open spec fn pointer_step(t: PointerTracker, event: PointerEvent) -> (PointerTracker, PointerAction) {
    match t.current {
        Some(view) => match event {
            PointerEvent::Button { serial, button, pressed } => (
                PointerTracker {
                    pending: replaced(
                        t.pending,
                        Pointer::MouseClick { serial, button: button_of_code(button), pressed },
                    ),
                    ..t
                },
                PointerAction::Nothing,
            ),
            PointerEvent::Axis { orientation, value } => match orientation {
                Some(o) => (
                    PointerTracker {
                        pending: replaced(
                            t.pending,
                            Pointer::Scroll { orientation: o, step: Step::Value(value) },
                        ),
                        ..t
                    },
                    PointerAction::Nothing,
                ),
                None => (t, PointerAction::Nothing),
            },
            PointerEvent::AxisDiscrete { orientation, discrete } => match orientation {
                Some(o) => (
                    PointerTracker {
                        pending: replaced(
                            t.pending,
                            Pointer::Scroll { orientation: o, step: Step::Increment(discrete) },
                        ),
                        ..t
                    },
                    PointerAction::Nothing,
                ),
                None => (t, PointerAction::Nothing),
            },
            PointerEvent::Motion => (
                PointerTracker { pending: Some(Pointer::Hover), ..t },
                PointerAction::Nothing,
            ),
            PointerEvent::Frame => (t, PointerAction::Flush { view }),
            PointerEvent::Leave => (
                PointerTracker { current: None, pending: replaced(t.pending, Pointer::Leave) },
                PointerAction::Flush { view },
            ),
            PointerEvent::Enter { serial } => (
                PointerTracker { pending: Some(Pointer::Enter), ..t },
                PointerAction::Enter { view, serial },
            ),
            PointerEvent::Other => (t, PointerAction::Nothing),
        },
        None => match event {
            PointerEvent::Enter { .. } => (t, PointerAction::Locate),
            _ => (t, PointerAction::Nothing),
        },
    }
}

impl PointerTracker {
    /// The pointer is in no view and no pointer event is being built.
    pub fn new() -> (r: Self)
        ensures
            r == (PointerTracker { current: None, pending: None }),
    {
        PointerTracker { current: None, pending: None }
    }

    fn replace(&mut self, p: Pointer)
        ensures
            *final(self) == (PointerTracker { pending: replaced(old(self).pending, p), ..*old(self) }),
    {
        if self.pending.is_some() {
            self.pending = Some(p);
        }
    }

    /// Handles a pointer event.
    pub fn step(&mut self, event: PointerEvent) -> (r: PointerAction)
        ensures
            (*final(self), r) == pointer_step(*old(self), event),
    {
        match self.current {
            Some(view) => match event {
                PointerEvent::Button { serial, button, pressed } => {
                    self.replace(
                        Pointer::MouseClick { serial, button: MouseButton::new(button), pressed },
                    );
                    PointerAction::Nothing
                },
                PointerEvent::Axis { orientation, value } => {
                    if let Some(o) = orientation {
                        self.replace(Pointer::Scroll { orientation: o, step: Step::Value(value) });
                    }
                    PointerAction::Nothing
                },
                PointerEvent::AxisDiscrete { orientation, discrete } => {
                    if let Some(o) = orientation {
                        self.replace(
                            Pointer::Scroll { orientation: o, step: Step::Increment(discrete) },
                        );
                    }
                    PointerAction::Nothing
                },
                PointerEvent::Motion => {
                    self.pending = Some(Pointer::Hover);
                    PointerAction::Nothing
                },
                PointerEvent::Frame => PointerAction::Flush { view },
                PointerEvent::Leave => {
                    self.replace(Pointer::Leave);
                    self.current = None;
                    PointerAction::Flush { view }
                },
                PointerEvent::Enter { serial } => {
                    self.pending = Some(Pointer::Enter);
                    PointerAction::Enter { view, serial }
                },
                PointerEvent::Other => PointerAction::Nothing,
            },
            None => match event {
                PointerEvent::Enter { .. } => PointerAction::Locate,
                _ => PointerAction::Nothing,
            },
        }
    }

    /// `found` is the view of the entered surface that the search for it gave: the pointer is
    /// now in that view, and the `Enter` is handled again. A surface that no view has is left
    /// out: the client would search and handle the `Enter` again without end.
    pub fn locate(&mut self, found: Option<usize>)
        requires
            found is Some,
        ensures
            *final(self) == (PointerTracker { current: found, ..*old(self) }),
    {
        self.current = found;
    }

    /// The pending event was handed to a view; a view that is not configured yet is dropped,
    /// and with it the pointer's place and the pending event. Returns whether to drop it.
    pub fn flushed(&mut self, configured: bool) -> (r: bool)
        ensures
            r == !configured,
            *final(self) == if configured {
                *old(self)
            } else {
                PointerTracker { current: None, pending: None }
            },
    {
        if !configured {
            self.current = None;
            self.pending = None;
        }
        !configured
    }
}

/// Events reach only the view the pointer is in: a flush or an enter names that view, a
/// pointer in no view is only ever located, and after a leave the pointer is in no view.
pub proof fn lemma_pointer_routing(t: PointerTracker, event: PointerEvent)
    ensures
        ({
            let (next, action) = pointer_step(t, event);
            &&& action matches PointerAction::Flush { view } ==> t.current == Some(view)
            &&& action matches PointerAction::Enter { view, .. } ==> t.current == Some(view)
            &&& t.current is None ==> next == t && (action == PointerAction::Nothing
                || action == PointerAction::Locate)
            &&& action == PointerAction::Locate ==> event is Enter
            &&& event == PointerEvent::Leave ==> next.current is None
            &&& t.current is Some && event is Enter ==> next.pending == Some(Pointer::Enter)
        }),
{
}

/// A button event delivers the button that its code names, and a click replaces only a
/// pointer event that is being built.
pub proof fn lemma_button_event(t: PointerTracker, serial: u32, button: u32, pressed: bool)
    requires
        t.current is Some,
    ensures
        ({
            let next = pointer_step(t, PointerEvent::Button { serial, button, pressed }).0;
            &&& t.pending is None ==> next == t
            &&& t.pending is Some ==> next.pending == Some(
                Pointer::MouseClick { serial, button: button_of_code(button), pressed },
            )
        }),
{
}

/// A pointer event of a client that follows the pointer by surface index, without its
/// position.
#[derive(Copy, Clone, Debug, PartialEq, Eq, Structural)]
pub enum SurfacePointerEvent {
    /// The pointer left a surface.
    Leave,
    /// A button changed state at `time`.
    Button { time: u32, button: u32, pressed: bool },
    /// The end of a group of events.
    Frame,
    /// The pointer entered the surface of the view at `index` (the first view when no view has
    /// that surface); the caller keeps the position.
    Enter { index: usize },
    /// The pointer moved; the caller keeps the position.
    Motion,
    /// Any other event.
    Other,
}

/// Where such a client hands the pointer event it built.
#[derive(Copy, Clone, Debug, PartialEq, Eq, Structural)]
pub enum SurfaceDispatch {
    Nothing,
    /// To the view whose surface the pointer left, if there is one.
    LeftSurface(Pointer),
    /// To the view at `view`.
    View { view: usize, pointer: Pointer },
}

/// The view index such a client follows, and the pointer kind it built. A click carries the
/// event's time where the serial stands.
#[derive(Copy, Clone, Debug, PartialEq, Eq, Structural)]
pub struct SurfacePointer {
    pub index: usize,
    pub input: Pointer,
}

/// The state and dispatch after `event`.
pub open spec fn surface_pointer_step(s: SurfacePointer, event: SurfacePointerEvent) -> (
    SurfacePointer,
    SurfaceDispatch,
) {
    match event {
        SurfacePointerEvent::Leave => (
            SurfacePointer { input: Pointer::Leave, ..s },
            SurfaceDispatch::LeftSurface(Pointer::Leave),
        ),
        SurfacePointerEvent::Button { time, button, pressed } => (
            SurfacePointer {
                input: Pointer::MouseClick { serial: time, button: button_of_code(button), pressed },
                ..s
            },
            SurfaceDispatch::Nothing,
        ),
        SurfacePointerEvent::Frame => (s, SurfaceDispatch::View { view: s.index, pointer: s.input }),
        SurfacePointerEvent::Enter { index } => (
            SurfacePointer { index, ..s },
            SurfaceDispatch::Nothing,
        ),
        SurfacePointerEvent::Motion => (
            SurfacePointer { input: Pointer::Hover, ..s },
            SurfaceDispatch::Nothing,
        ),
        SurfacePointerEvent::Other => (s, SurfaceDispatch::Nothing),
    }
}

impl SurfacePointer {
    /// The first view, and an `Enter` not yet handed anywhere.
    pub fn new() -> (r: Self)
        ensures
            r == (SurfacePointer { index: 0, input: Pointer::Enter }),
    {
        SurfacePointer { index: 0, input: Pointer::Enter }
    }

    /// Handles a pointer event.
    pub fn step(&mut self, event: SurfacePointerEvent) -> (r: SurfaceDispatch)
        ensures
            (*final(self), r) == surface_pointer_step(*old(self), event),
            event matches SurfacePointerEvent::Button { time, button, pressed } ==> {
                &&& final(self).input == (Pointer::MouseClick {
                    serial: time,
                    button: button_of_code(button),
                    pressed,
                })
                &&& final(self).index == old(self).index
                &&& r == SurfaceDispatch::Nothing
            },
            event is Frame ==> *final(self) == *old(self) && r == (SurfaceDispatch::View {
                view: old(self).index,
                pointer: old(self).input,
            }),
    {
        match event {
            SurfacePointerEvent::Leave => {
                self.input = Pointer::Leave;
                SurfaceDispatch::LeftSurface(Pointer::Leave)
            },
            SurfacePointerEvent::Button { time, button, pressed } => {
                self.input = Pointer::MouseClick {
                    serial: time,
                    button: MouseButton::new(button),
                    pressed,
                };
                SurfaceDispatch::Nothing
            },
            SurfacePointerEvent::Frame => SurfaceDispatch::View {
                view: self.index,
                pointer: self.input,
            },
            SurfacePointerEvent::Enter { index } => {
                self.index = index;
                SurfaceDispatch::Nothing
            },
            SurfacePointerEvent::Motion => {
                self.input = Pointer::Hover;
                SurfaceDispatch::Nothing
            },
            SurfacePointerEvent::Other => SurfaceDispatch::Nothing,
        }
    }
}

/// Such a client hands a view only what the frame closes: the kind built since, going to the
/// view it entered last; a leave goes at once to the surface left.
pub proof fn lemma_surface_pointer(s: SurfacePointer, event: SurfacePointerEvent)
    ensures
        ({
            let (next, dispatch) = surface_pointer_step(s, event);
            &&& dispatch matches SurfaceDispatch::View { view, pointer } ==> view == s.index
                && pointer == s.input && event == SurfacePointerEvent::Frame
            &&& dispatch is LeftSurface ==> event == SurfacePointerEvent::Leave
            &&& !(event is Enter) ==> next.index == s.index
        }),
{
}

/// A button event sets the pointer event being built to a click that carries the event's
/// time as its serial, the button its code names and the event's own pressed flag, whatever
/// was built before; it hands nothing on and keeps the view followed.
pub proof fn lemma_surface_button(s: SurfacePointer, time: u32, button: u32, pressed: bool)
    ensures
        ({
            let (next, dispatch) = surface_pointer_step(
                s,
                SurfacePointerEvent::Button { time, button, pressed },
            );
            &&& next.input == (Pointer::MouseClick {
                serial: time,
                button: button_of_code(button),
                pressed,
            })
            &&& next.index == s.index
            &&& dispatch == SurfaceDispatch::Nothing
        }),
{
}

/// A button event followed by the end of its group hands the view followed a click with
/// the event's time, button and pressed flag: a release reaches the view as a release.
pub proof fn lemma_surface_click_delivered(s: SurfacePointer, time: u32, button: u32, pressed: bool)
    ensures
        ({
            let after_button = surface_pointer_step(
                s,
                SurfacePointerEvent::Button { time, button, pressed },
            ).0;
            surface_pointer_step(after_button, SurfacePointerEvent::Frame).1 == (
            SurfaceDispatch::View {
                view: s.index,
                pointer: Pointer::MouseClick { serial: time, button: button_of_code(button), pressed },
            })
        }),
{
}

/// What each event does to such a client: a leave builds a leave and hands it at once to the
/// surface left; a motion builds a hover; entering a surface follows its view and keeps what
/// was built; the end of a group hands what was built to the view followed and changes
/// nothing; any other event changes nothing and hands nothing on.
pub proof fn lemma_surface_events(s: SurfacePointer, event: SurfacePointerEvent)
    ensures
        event is Leave ==> surface_pointer_step(s, event) == (
        SurfacePointer { input: Pointer::Leave, ..s },
        SurfaceDispatch::LeftSurface(Pointer::Leave),
        ),
        event is Motion ==> surface_pointer_step(s, event) == (
        SurfacePointer { input: Pointer::Hover, ..s },
        SurfaceDispatch::Nothing,
        ),
        event matches SurfacePointerEvent::Enter { index } ==> surface_pointer_step(s, event) == (
        SurfacePointer { index, input: s.input },
        SurfaceDispatch::Nothing,
        ),
        event is Frame ==> surface_pointer_step(s, event) == (
        s,
        SurfaceDispatch::View { view: s.index, pointer: s.input },
        ),
        event is Other ==> surface_pointer_step(s, event) == (s, SurfaceDispatch::Nothing),
{
}

} // verus!
