//! Cursor shapes and window states.
use vstd::prelude::*;

verus! {

/// Cursor mimetype
#[derive(Copy, Clone, Debug, PartialEq, Eq, Structural)]
pub enum Cursor {
    Arrow,
    TopLeftCorner,
    TopRightCorner,
    BottomRightCorner,
    BottomLeftCorner,
    Exchange,
    TopSide,
    BottomSide,
    RightSide,
    LeftSide,
    Cross,
    Cursor,
    Mouse,
    PointCenter,
    PointLeft,
    ColumnResize,
    RowResize,
    CrossHair,
    DragDropMove,
    DragDropNone,
    ArrowUp,
    ArrowDown,
    ArrowLeft,
    ArrowRight,
    Draft,
    Help,
    Kill,
    Sizing,
    Blocked,
    Hand,
    OpenHand,
    Watch,
    Wait,
}

/// The name of a cursor in the cursor theme; the shapes the theme does not name map to the
/// empty string.
pub open spec fn cursor_name(cursor: Cursor) -> Seq<char> {
    match cursor {
        Cursor::Arrow => "arrow"@,
        Cursor::TopLeftCorner => "top_left_corner"@,
        Cursor::TopRightCorner => "top_right_corner"@,
        Cursor::BottomRightCorner => "bottom_right_corner"@,
        Cursor::BottomLeftCorner => "bottom_left_corner"@,
        Cursor::Exchange => "exchange"@,
        Cursor::TopSide => "top_side"@,
        Cursor::BottomSide => "bottom_side"@,
        Cursor::RightSide => "right_side"@,
        Cursor::LeftSide => "left_side"@,
        Cursor::Cross => "cross"@,
        Cursor::Cursor => "cursor"@,
        Cursor::Mouse => "mouse"@,
        Cursor::PointCenter => "center_ptr"@,
        Cursor::PointLeft => "left_ptr"@,
        Cursor::ColumnResize => ""@,
        Cursor::RowResize => ""@,
        Cursor::CrossHair => "crosshair"@,
        Cursor::DragDropMove => ""@,
        Cursor::DragDropNone => ""@,
        Cursor::ArrowUp => "up_arrow"@,
        Cursor::ArrowDown => "down_arror"@,
        Cursor::ArrowLeft => "left_arrow"@,
        Cursor::ArrowRight => "right_arrow"@,
        Cursor::Draft => "draft_large"@,
        Cursor::Help => "help"@,
        Cursor::Kill => "kill"@,
        Cursor::Sizing => "sizing"@,
        Cursor::Blocked => "block"@,
        Cursor::Hand => "hand1"@,
        Cursor::OpenHand => "hand2"@,
        Cursor::Watch => "watch"@,
        Cursor::Wait => "wait"@,
    }
}

/// The cursors the theme does not name are exactly column and row resizing and the two
/// drag-and-drop shapes; every other cursor has a name of its own.
#[verifier::rlimit(50)]
pub proof fn lemma_cursor_names(a: Cursor, b: Cursor)
    ensures
        cursor_name(a).len() == 0 <==> (a == Cursor::ColumnResize || a == Cursor::RowResize
            || a == Cursor::DragDropMove || a == Cursor::DragDropNone),
        cursor_name(a).len() > 0 && a != b ==> cursor_name(a) != cursor_name(b),
{
    reveal_strlit("arrow");
    reveal_strlit("top_left_corner");
    reveal_strlit("top_right_corner");
    reveal_strlit("bottom_right_corner");
    reveal_strlit("bottom_left_corner");
    reveal_strlit("exchange");
    reveal_strlit("top_side");
    reveal_strlit("bottom_side");
    reveal_strlit("right_side");
    reveal_strlit("left_side");
    reveal_strlit("cross");
    reveal_strlit("cursor");
    reveal_strlit("mouse");
    reveal_strlit("center_ptr");
    reveal_strlit("left_ptr");
    reveal_strlit("crosshair");
    reveal_strlit("up_arrow");
    reveal_strlit("down_arror");
    reveal_strlit("left_arrow");
    reveal_strlit("right_arrow");
    reveal_strlit("draft_large");
    reveal_strlit("help");
    reveal_strlit("kill");
    reveal_strlit("sizing");
    reveal_strlit("block");
    reveal_strlit("hand1");
    reveal_strlit("hand2");
    reveal_strlit("watch");
    reveal_strlit("wait");
    assert(""@.len() == 0) by {
        reveal_strlit("");
    }
    let na = cursor_name(a);
    let nb = cursor_name(b);
    if na.len() > 0 && a != b && na == nb {
        // The length, the first and the last character already tell the names apart.
        assert(na.len() == nb.len());
        assert(na[0] == nb[0]);
        assert(na[na.len() - 1] == nb[nb.len() - 1]);
    }
}

impl Cursor {
    pub fn as_str(&self) -> (r: &'static str)
        ensures
            r@ == cursor_name(*self),
    {
        match self {
            Self::Arrow => "arrow",
            Self::TopLeftCorner => "top_left_corner",
            Self::TopRightCorner => "top_right_corner",
            Self::BottomRightCorner => "bottom_right_corner",
            Self::BottomLeftCorner => "bottom_left_corner",
            Self::Exchange => "exchange",
            Self::TopSide => "top_side",
            Self::BottomSide => "bottom_side",
            Self::RightSide => "right_side",
            Self::LeftSide => "left_side",
            Self::Cross => "cross",
            Self::Cursor => "cursor",
            Self::Mouse => "mouse",
            Self::PointCenter => "center_ptr",
            Self::PointLeft => "left_ptr",
            Self::ColumnResize => "",
            Self::RowResize => "",
            Self::CrossHair => "crosshair",
            Self::DragDropMove => "",
            Self::DragDropNone => "",
            Self::ArrowUp => "up_arrow",
            Self::ArrowDown => "down_arror",
            Self::ArrowLeft => "left_arrow",
            Self::ArrowRight => "right_arrow",
            Self::Draft => "draft_large",
            Self::Help => "help",
            Self::Kill => "kill",
            Self::Sizing => "sizing",
            Self::Blocked => "block",
            Self::Hand => "hand1",
            Self::OpenHand => "hand2",
            Self::Watch => "watch",
            Self::Wait => "wait",
        }
    }
}

/// Analog to xdg_shell states
#[derive(Copy, Clone, Debug, PartialEq, Eq, Structural)]
pub enum WindowState {
    Maximized,
    Resizing,
    Fullscreen,
    /// Client window decorations should be painted as if the window is active.
    Activated,
    TiledLeft,
    TiledRight,
    TiledBottom,
    TiledTop,
}

} // verus!
