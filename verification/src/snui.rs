//! The pixel-buffer vocabulary: contents of a cell, errors, anchors and input kinds.
use vstd::prelude::*;
use vstd::string::*;

verus! {

/// What a cell of a pixel buffer holds.
#[derive(Copy, Clone, Debug)]
pub enum Content {
    Empty,
    Transparent,
    Byte(u8),
    Pixel(u32),
    Char(char),
}

/// Errors of widgets and containers.
#[derive(Clone, Debug)]
pub enum Error {
    Null,
    /// A container reached its capacity.
    Overflow(&'static str, u32),
    /// A requested dimension does not fit.
    Dimension(&'static str, u32, u32),
    Message(&'static str),
}

#[derive(Copy, Clone, Debug)]
pub enum Anchor {
    Left,
    Right,
    Top,
    Bottom,
    Center,
    TopLeft,
    TopRight,
    BottomRight,
    BottomLeft,
}

/// Pointer input delivered to a widget.
#[derive(Copy, Clone, Debug)]
pub enum Input {
    Key,
    MouseClick { time: u32, button: u32, pressed: bool },
    Enter,
    Leave,
    Hover,
    Idle,
}

pub trait Transform {
    fn scale(&mut self, f: u32);
}

/// The decimal digit `d` as a character.
pub open spec fn digit_char(d: nat) -> char {
    ((48 + d) as u32) as char
}

/// The decimal representation of `n`, without leading zeros.
pub open spec fn decimal(n: nat) -> Seq<char>
    decreases n,
{
    if n < 10 {
        seq![digit_char(n)]
    } else {
        decimal(n / 10).push(digit_char(n % 10))
    }
}

/// The text that reports an error; `Null` reports nothing.
pub open spec fn error_text(error: Error) -> Option<Seq<char>> {
    match error {
        Error::Dimension(name, w, h) => Some(
            "requested dimension "@ + decimal(w as nat) + "x"@ + decimal(h as nat)
                + " is too large for \""@ + name@ + "\""@,
        ),
        Error::Overflow(name, capacity) => Some(
            "\""@ + name@ + "\" reached its full capacity: "@ + decimal(capacity as nat),
        ),
        Error::Message(msg) => Some(msg@),
        Error::Null => None,
    }
}

/// The decimal digit `d`.
fn digit_str(d: u32) -> (r: &'static str)
    requires
        d < 10,
    ensures
        r@ == seq![digit_char(d as nat)],
{
    proof {
        reveal_strlit("0");
        reveal_strlit("1");
        reveal_strlit("2");
        reveal_strlit("3");
        reveal_strlit("4");
        reveal_strlit("5");
        reveal_strlit("6");
        reveal_strlit("7");
        reveal_strlit("8");
        reveal_strlit("9");
    }
    let r = match d {
        0 => "0",
        1 => "1",
        2 => "2",
        3 => "3",
        4 => "4",
        5 => "5",
        6 => "6",
        7 => "7",
        8 => "8",
        _ => "9",
    };
    assert(r@ =~= seq![digit_char(d as nat)]);
    r
}

/// `n` written in decimal.
pub fn decimal_string(n: u32) -> (r: String)
    ensures
        r@ == decimal(n as nat),
    decreases n,
{
    if n < 10 {
        digit_str(n).to_owned()
    } else {
        let mut s = decimal_string(n / 10);
        s.append(digit_str(n % 10));
        s
    }
}

impl Error {
    /// The text that reports the error, as `debug` prints it; `Null` reports nothing.
    pub fn describe(&self) -> (r: Option<String>)
        ensures
            r is Some <==> error_text(*self) is Some,
            r matches Some(text) ==> error_text(*self) == Some(text@),
    {
        match self {
            Error::Dimension(name, w, h) => {
                let mut text = "requested dimension ".to_owned();
                text.append(decimal_string(*w).as_str());
                text.append("x");
                text.append(decimal_string(*h).as_str());
                text.append(" is too large for \"");
                text.append(name);
                text.append("\"");
                Some(text)
            },
            Error::Overflow(name, capacity) => {
                let mut text = "\"".to_owned();
                text.append(name);
                text.append("\" reached its full capacity: ");
                text.append(decimal_string(*capacity).as_str());
                Some(text)
            },
            Error::Message(msg) => Some((*msg).to_owned()),
            Error::Null => None,
        }
    }
}

} // verus!
