use snui::cursor::Cursor;

#[test]
fn cursor_names() {
    assert_eq!(Cursor::Arrow.as_str(), "arrow");
    assert_eq!(Cursor::PointLeft.as_str(), "left_ptr");
    assert_eq!(Cursor::PointCenter.as_str(), "center_ptr");
    assert_eq!(Cursor::ArrowDown.as_str(), "down_arror");
    assert_eq!(Cursor::Hand.as_str(), "hand1");
    assert_eq!(Cursor::OpenHand.as_str(), "hand2");
    assert_eq!(Cursor::Blocked.as_str(), "block");
    assert_eq!(Cursor::Draft.as_str(), "draft_large");
    assert_eq!(Cursor::ColumnResize.as_str(), "");
    assert_eq!(Cursor::DragDropNone.as_str(), "");
    assert_eq!(Cursor::Wait.as_str(), "wait");
    assert_eq!(Cursor::Watch.as_str(), "watch");
}

#[test]
fn named_cursors_have_names_of_their_own() {
    let all = [
        Cursor::Arrow, Cursor::TopLeftCorner, Cursor::TopRightCorner, Cursor::BottomRightCorner, Cursor::BottomLeftCorner, Cursor::Exchange,
        Cursor::TopSide, Cursor::BottomSide, Cursor::RightSide, Cursor::LeftSide, Cursor::Cross, Cursor::Cursor, Cursor::Mouse, Cursor::PointCenter,
        Cursor::PointLeft, Cursor::ColumnResize, Cursor::RowResize, Cursor::CrossHair, Cursor::DragDropMove, Cursor::DragDropNone, Cursor::ArrowUp,
        Cursor::ArrowDown, Cursor::ArrowLeft, Cursor::ArrowRight, Cursor::Draft, Cursor::Help, Cursor::Kill, Cursor::Sizing, Cursor::Blocked, Cursor::Hand, Cursor::OpenHand,
        Cursor::Watch, Cursor::Wait,
    ];
    let unnamed = [Cursor::ColumnResize, Cursor::RowResize, Cursor::DragDropMove, Cursor::DragDropNone];
    for a in all {
        assert_eq!(a.as_str().is_empty(), unnamed.contains(&a));
        for b in all {
            if a != b && !a.as_str().is_empty() {
                assert_ne!(a.as_str(), b.as_str());
            }
        }
    }
}
