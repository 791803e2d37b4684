//! Pointer input: buttons, clicks, scrolling and keyboard modifiers.
use vstd::prelude::*;

verus! {

#[derive(Copy, Clone, Debug, PartialEq, Eq, Structural)]
pub enum Orientation {
    Vertical,
    Horizontal,
}

#[derive(Copy, Clone, Debug, PartialEq, Eq, Structural)]
pub struct Modifiers {
    pub ctrl: bool,
    pub alt: bool,
    pub shift: bool,
    pub caps_lock: bool,
    pub logo: bool,
    pub num_lock: bool,
}

impl Modifiers {
    /// No modifier held.
    pub fn default() -> (r: Self)
        ensures
            !r.ctrl && !r.alt && !r.shift && !r.caps_lock && !r.logo && !r.num_lock,
    {
        Modifiers {
            ctrl: false,
            alt: false,
            shift: false,
            caps_lock: false,
            logo: false,
            num_lock: false,
        }
    }
}

/// How far a scroll goes.
#[derive(Copy, Clone, Debug, PartialEq, Eq, Structural)]
pub enum Step {
    /// An amount, held as the IEEE 754 bits of an `f32` (`f32::to_bits`).
    Value(u32),
    /// A number of discrete steps.
    Increment(i32),
}

#[derive(Copy, Clone, Debug, PartialEq, Eq, Structural)]
pub enum MouseButton {
    Left,
    Middle,
    Right,
    Extra(u32),
}

/// The button of an evdev button code: the code is taken modulo 272 (the code of the left
/// button), then 0 is left, 1 right, 2 middle and anything else an extra button.
pub open spec fn button_of_code(button: u32) -> MouseButton {
    let code = button % 272;
    if code == 0 {
        MouseButton::Left
    } else if code == 1 {
        MouseButton::Right
    } else if code == 2 {
        MouseButton::Middle
    } else {
        MouseButton::Extra(code)
    }
}

impl MouseButton {
    pub fn new(button: u32) -> (r: MouseButton)
        ensures
            r == button_of_code(button),
    {
        let button = button % 272;
        match button {
            0 => MouseButton::Left,
            1 => MouseButton::Right,
            2 => MouseButton::Middle,
            _ => MouseButton::Extra(button),
        }
    }

    pub fn is_left(&self) -> (r: bool)
        ensures
            r == (*self == MouseButton::Left),
    {
        match self {
            MouseButton::Left => true,
            _ => false,
        }
    }

    pub fn is_right(&self) -> (r: bool)
        ensures
            r == (*self == MouseButton::Right),
    {
        match self {
            MouseButton::Right => true,
            _ => false,
        }
    }

    pub fn is_extra(self, button: u32) -> (r: bool)
        ensures
            r == (self == MouseButton::Extra(button)),
    {
        match self {
            MouseButton::Extra(uint) => uint == button,
            _ => false,
        }
    }
}

#[derive(Copy, Clone, Debug, PartialEq, Eq, Structural)]
pub enum Pointer {
    MouseClick { serial: u32, button: MouseButton, pressed: bool },
    Scroll { orientation: Orientation, step: Step },
    Hover,
    Enter,
    Leave,
}

/// The serial of `pointer` when it is a click of `button` that is pressed (`pressed`) or
/// released (`!pressed`).
pub open spec fn click_serial(pointer: Pointer, button: MouseButton, pressed: bool) -> Option<u32> {
    match pointer {
        Pointer::MouseClick { serial, button: b, pressed: p } => {
            if b == button && p == pressed {
                Some(serial)
            } else {
                None
            }
        },
        _ => None,
    }
}

impl Pointer {
    pub fn left_button_click(self) -> (r: Option<u32>)
        ensures
            r == click_serial(self, MouseButton::Left, true),
    {
        match self {
            Self::MouseClick { serial, button, pressed } => {
                if button.is_left() && pressed {
                    Some(serial)
                } else {
                    None
                }
            },
            _ => None,
        }
    }

    pub fn left_button_release(self) -> (r: Option<u32>)
        ensures
            r == click_serial(self, MouseButton::Left, false),
    {
        match self {
            Self::MouseClick { serial, button, pressed } => {
                if button.is_left() && !pressed {
                    Some(serial)
                } else {
                    None
                }
            },
            _ => None,
        }
    }

    pub fn right_button_click(self) -> (r: Option<u32>)
        ensures
            r == click_serial(self, MouseButton::Right, true),
    {
        match self {
            Self::MouseClick { serial, button, pressed } => {
                if button.is_right() && pressed {
                    Some(serial)
                } else {
                    None
                }
            },
            _ => None,
        }
    }

    pub fn right_button_release(self) -> (r: Option<u32>)
        ensures
            r == click_serial(self, MouseButton::Right, false),
    {
        match self {
            Self::MouseClick { serial, button, pressed } => {
                if button.is_right() && !pressed {
                    Some(serial)
                } else {
                    None
                }
            },
            _ => None,
        }
    }
}

/// A pointer event is at most one of: a left press, a left release, a right press, a right
/// release; and only a click carries a serial.
pub proof fn lemma_click_kinds_exclusive(pointer: Pointer)
    ensures
        click_serial(pointer, MouseButton::Left, true) is Some ==> {
            &&& click_serial(pointer, MouseButton::Left, false) is None
            &&& click_serial(pointer, MouseButton::Right, true) is None
            &&& click_serial(pointer, MouseButton::Right, false) is None
        },
        click_serial(pointer, MouseButton::Left, false) is Some ==> {
            &&& click_serial(pointer, MouseButton::Right, true) is None
            &&& click_serial(pointer, MouseButton::Right, false) is None
        },
        click_serial(pointer, MouseButton::Right, true) is Some ==> click_serial(
            pointer,
            MouseButton::Right,
            false,
        ) is None,
        !(pointer is MouseClick) ==> click_serial(pointer, MouseButton::Left, true) is None
            && click_serial(pointer, MouseButton::Left, false) is None && click_serial(
            pointer,
            MouseButton::Right,
            true,
        ) is None && click_serial(pointer, MouseButton::Right, false) is None,
{
}

/// The button codes repeat every 272: a code and that code plus 272 name the same button, and
/// the three first codes of each block are left, right and middle.
pub proof fn lemma_button_codes(code: u32)
    requires
        code + 272 <= u32::MAX,
    ensures
        button_of_code(code) == button_of_code((code + 272) as u32),
        code % 272 == 0 ==> button_of_code(code) == MouseButton::Left,
        code % 272 == 1 ==> button_of_code(code) == MouseButton::Right,
        code % 272 == 2 ==> button_of_code(code) == MouseButton::Middle,
        button_of_code(code) is Extra ==> button_of_code(code)->Extra_0 < 272,
{
}

} // verus!
