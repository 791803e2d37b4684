//! What a client keeps of the outputs and seats the display server announces, and how it
//! routes keyboard events to its views. Display-server objects stay with the caller, which
//! tells these functions what it compared or received.
use crate::input::Modifiers;
use vstd::prelude::*;

verus! {

/// The `wl_seat` capability bit of a pointer.
pub const SEAT_POINTER: u32 = 1;

/// The `wl_seat` capability bit of a keyboard.
pub const SEAT_KEYBOARD: u32 = 2;

/// Which devices of a seat with `capabilities` the client listens to: `(keyboard, pointer)`,
/// each when the client asked for it and the seat has it.
pub fn seat_devices(pointer: bool, keyboard: bool, capabilities: u32) -> (r: (bool, bool))
    ensures
        r == (
            keyboard && capabilities & SEAT_KEYBOARD == SEAT_KEYBOARD,
            pointer && capabilities & SEAT_POINTER == SEAT_POINTER,
        ),
{
    (
        keyboard && capabilities & SEAT_KEYBOARD == SEAT_KEYBOARD,
        pointer && capabilities & SEAT_POINTER == SEAT_POINTER,
    )
}

/// What the client knows of an output.
#[derive(Clone, Debug, PartialEq, Eq)]
pub struct OutputInfo {
    pub name: String,
    pub width: i32,
    pub height: i32,
    pub scale: i32,
}

/// An event of an output.
#[derive(Clone, Debug, PartialEq, Eq)]
pub enum OutputUpdate {
    /// The output's geometry, with its maker's name.
    Geometry { make: String },
    /// The output's mode.
    Mode { width: i32, height: i32 },
    /// The output's scale factor.
    Scale { factor: i32 },
}

/// What the client knows of an output, by value.
pub struct OutputView {
    pub name: Seq<char>,
    pub width: i32,
    pub height: i32,
    pub scale: i32,
}

impl View for OutputInfo {
    type V = OutputView;

    open spec fn view(&self) -> OutputView {
        OutputView { name: self.name@, width: self.width, height: self.height, scale: self.scale }
    }
}

/// `output` with `update` applied.
pub open spec fn updated(output: OutputView, update: OutputUpdate) -> OutputView {
    match update {
        OutputUpdate::Geometry { make } => OutputView { name: make@, ..output },
        OutputUpdate::Mode { width, height } => OutputView { width, height, ..output },
        OutputUpdate::Scale { factor } => OutputView { scale: factor, ..output },
    }
}

/// An output the client has heard nothing of yet: no name, no size, scale 1.
pub open spec fn unknown_output() -> OutputView {
    OutputView { name: Seq::empty(), width: 0, height: 0, scale: 1 }
}

/// The outputs after an event of an output: the last output is updated when the event is
/// its own (`same_as_last`); otherwise a new output with the update is added.
pub open spec fn outputs_after(outputs: Seq<OutputView>, same_as_last: bool, update: OutputUpdate) -> Seq<OutputView> {
    if outputs.len() > 0 && same_as_last {
        outputs.update(outputs.len() - 1, updated(outputs.last(), update))
    } else {
        outputs.push(updated(unknown_output(), update))
    }
}

/// The outputs by value.
pub open spec fn output_views(outputs: Seq<OutputInfo>) -> Seq<OutputView> {
    outputs.map_values(|o: OutputInfo| o@)
}

/// Records an event of an output. `same_as_last` tells whether the event comes from the output
/// the list ends with. Returns whether a new output was added.
pub fn record_output(outputs: &mut Vec<OutputInfo>, same_as_last: bool, update: OutputUpdate) -> (r: bool)
    ensures
        output_views(final(outputs)@) == outputs_after(
            output_views(old(outputs)@),
            same_as_last,
            update,
        ),
        r == !(old(outputs)@.len() > 0 && same_as_last),
{
    let n = outputs.len();
    if n > 0 && same_as_last {
        let last = &outputs[n - 1];
        let mut output = OutputInfo {
            name: last.name.clone(),
            width: last.width,
            height: last.height,
            scale: last.scale,
        };
        match update {
            OutputUpdate::Geometry { make } => output.name = make,
            OutputUpdate::Mode { width, height } => {
                output.width = width;
                output.height = height;
            },
            OutputUpdate::Scale { factor } => output.scale = factor,
        }
        outputs.set(n - 1, output);
        assert(output_views(outputs@) =~= outputs_after(
            output_views(old(outputs)@),
            same_as_last,
            update,
        ));
        false
    } else {
        let mut output = OutputInfo { name: String::new(), width: 0, height: 0, scale: 1 };
        match update {
            OutputUpdate::Geometry { make } => output.name = make,
            OutputUpdate::Mode { width, height } => {
                output.width = width;
                output.height = height;
            },
            OutputUpdate::Scale { factor } => output.scale = factor,
        }
        outputs.push(output);
        assert(output_views(outputs@) =~= outputs_after(
            output_views(old(outputs)@),
            same_as_last,
            update,
        ));
        true
    }
}

/// Events of one output only ever touch one entry: the list grows by at most one, and the
/// entries before the last stay as they were.
pub proof fn lemma_outputs_grow_by_one(outputs: Seq<OutputView>, same_as_last: bool, update: OutputUpdate)
    ensures
        ({
            let after = outputs_after(outputs, same_as_last, update);
            &&& after.len() == outputs.len() || after.len() == outputs.len() + 1
            &&& forall|i: int| 0 <= i < outputs.len() - 1 ==> #[trigger] after[i] == outputs[i]
            &&& after.last() == updated(
                if after.len() == outputs.len() {
                    outputs.last()
                } else {
                    unknown_output()
                },
                update,
            )
        }),
{
}

/// A key event for a view.
#[derive(Clone, Debug, PartialEq, Eq)]
pub struct KeyPress {
    /// The text of the last key pressed.
    pub utf8: Option<String>,
    /// The raw key or key symbol, when the event has one.
    pub value: Option<u32>,
    pub modifiers: Modifiers,
    pub pressed: bool,
}

/// An event of a keyboard.
#[derive(Clone, Debug, PartialEq, Eq)]
pub enum KeyboardEvent {
    /// The keyboard entered the view at `index`.
    Enter { index: usize },
    /// The modifiers changed.
    Modifiers { modifiers: Modifiers },
    /// A key changed state.
    Key { rawkey: u32, pressed: bool, utf8: Option<String> },
    /// A held key repeats.
    Repeat { keysym: u32 },
    /// Any other event.
    Other,
}

/// The view the keyboard is in, and the text of the last key pressed.
#[derive(Clone, Debug, PartialEq, Eq)]
pub struct KeyboardRouter {
    pub index: usize,
    pub utf8: Option<String>,
}

/// The router after `event`, and the key event to hand the view it is in, if any.
pub open spec fn keyboard_step(k: KeyboardRouter, event: KeyboardEvent) -> (KeyboardRouter, Option<KeyPress>) {
    match event {
        KeyboardEvent::Enter { index } => (KeyboardRouter { index, ..k }, None),
        KeyboardEvent::Modifiers { modifiers } => (
            k,
            Some(KeyPress { utf8: k.utf8, value: None, modifiers, pressed: true }),
        ),
        KeyboardEvent::Key { rawkey, pressed, utf8 } => (
            KeyboardRouter { utf8, ..k },
            Some(
                KeyPress { utf8, value: Some(rawkey), modifiers: no_modifiers(), pressed },
            ),
        ),
        KeyboardEvent::Repeat { keysym } => (
            k,
            Some(
                KeyPress { utf8: k.utf8, value: Some(keysym), modifiers: no_modifiers(), pressed: true },
            ),
        ),
        KeyboardEvent::Other => (k, None),
    }
}

/// What a keyboard event hands the view, for every router and event: a key event hands on
/// a key press with the event's own raw key, pressed flag and text and no modifier held, and
/// remembers that text; a modifiers change hands on a press with those modifiers and the text
/// remembered; a repeat hands on a press of its key symbol with the text remembered; entering
/// a view hands on nothing and moves the keyboard there; no other event moves it.
pub proof fn lemma_keyboard_events(k: KeyboardRouter, event: KeyboardEvent)
    ensures
        event matches KeyboardEvent::Key { rawkey, pressed, utf8 } ==> {
            let (next, out) = keyboard_step(k, event);
            &&& out is Some
            &&& out->0.pressed == pressed
            &&& out->0.value == Some(rawkey)
            &&& out->0.utf8 == utf8
            &&& out->0.modifiers == no_modifiers()
            &&& next.utf8 == utf8
            &&& next.index == k.index
        },
        event matches KeyboardEvent::Modifiers { modifiers } ==> {
            let (next, out) = keyboard_step(k, event);
            &&& out is Some
            &&& out->0.pressed
            &&& out->0.value is None
            &&& out->0.modifiers == modifiers
            &&& out->0.utf8 == k.utf8
            &&& next == k
        },
        event matches KeyboardEvent::Repeat { keysym } ==> {
            let (next, out) = keyboard_step(k, event);
            &&& out is Some
            &&& out->0.pressed
            &&& out->0.value == Some(keysym)
            &&& out->0.utf8 == k.utf8
            &&& out->0.modifiers == no_modifiers()
            &&& next == k
        },
        event matches KeyboardEvent::Enter { index } ==> {
            let (next, out) = keyboard_step(k, event);
            &&& out is None
            &&& next.index == index
            &&& next.utf8 == k.utf8
        },
        event is Other ==> keyboard_step(k, event) == (k, None::<KeyPress>),
{
}

/// No modifier held.
pub open spec fn no_modifiers() -> Modifiers {
    Modifiers {
        ctrl: false,
        alt: false,
        shift: false,
        caps_lock: false,
        logo: false,
        num_lock: false,
    }
}

impl KeyboardRouter {
    /// The keyboard is in the first view and no key was pressed.
    pub fn new() -> (r: Self)
        ensures
            r == (KeyboardRouter { index: 0, utf8: None }),
    {
        KeyboardRouter { index: 0, utf8: None }
    }

    /// Handles a keyboard event; a key event returned goes to the view at `self.index`.
    pub fn step(&mut self, event: KeyboardEvent) -> (r: Option<KeyPress>)
        ensures
            (*final(self), r) == keyboard_step(*old(self), event),
            event matches KeyboardEvent::Key { rawkey, pressed, utf8 } ==> {
                &&& r is Some
                &&& r->0.pressed == pressed
                &&& r->0.value == Some(rawkey)
                &&& r->0.utf8 == utf8
                &&& final(self).utf8 == utf8
            },
            event is Enter ==> r is None && final(self).index == event->index,
            !(event is Enter) ==> final(self).index == old(self).index,
    {
        match event {
            KeyboardEvent::Enter { index } => {
                self.index = index;
                None
            },
            KeyboardEvent::Modifiers { modifiers } => Some(
                KeyPress { utf8: self.utf8.clone(), value: None, modifiers, pressed: true },
            ),
            KeyboardEvent::Key { rawkey, pressed, utf8 } => {
                self.utf8 = utf8.clone();
                Some(
                    KeyPress {
                        utf8,
                        value: Some(rawkey),
                        modifiers: Modifiers::default(),
                        pressed,
                    },
                )
            },
            KeyboardEvent::Repeat { keysym } => Some(
                KeyPress {
                    utf8: self.utf8.clone(),
                    value: Some(keysym),
                    modifiers: Modifiers::default(),
                    pressed: true,
                },
            ),
            KeyboardEvent::Other => None,
        }
    }
}

} // verus!
