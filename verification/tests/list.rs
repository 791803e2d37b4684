use snui::input::Orientation;
use snui::snui::{Content, Error};
use snui::widgets::base::Rectangle;
use snui::widgets::list::List;

#[test]
fn horizontal_list_sums_widths() {
    let mut l = List::new(Orientation::Horizontal, None);
    assert_eq!(l.len(), 0);
    assert_eq!(l.get_width(), 0);
    assert_eq!(l.get_height(), 0);
    l.set_margin(4);
    // Half the margin on each side of nothing.
    assert_eq!(l.get_width(), 2);
    assert_eq!(l.get_height(), 4);
    assert!(l.add(Rectangle::new(10, 5, 0)).is_ok());
    assert!(l.add(Rectangle::new(20, 7, 0)).is_ok());
    assert_eq!(l.len(), 2);
    // 2 + 10 + 2 + 20 + 2
    assert_eq!(l.get_width(), 36);
    // The tallest widget and the margin.
    assert_eq!(l.get_height(), 11);
}

#[test]
fn vertical_list_sums_heights_and_rounds_margin() {
    let mut l = List::new(Orientation::Vertical, Some(3));
    l.set_margin(5);
    l.set_content(Content::Pixel(0xff000000));
    assert!(l.add(Rectangle::new(10, 5, 0)).is_ok());
    assert!(l.add(Rectangle::new(20, 7, 0)).is_ok());
    assert!(l.add(Rectangle::new(3, 1, 0)).is_ok());
    // Half the margin is 2: 2 + 5 + 2 + 7 + 2 + 1 + 2
    assert_eq!(l.get_height(), 21);
    // The widest widget and the margin rounded down to an even number.
    assert_eq!(l.get_width(), 24);
    l.set_orientation(Orientation::Horizontal);
    assert_eq!(l.get_width(), 2 * 4 + 33);
    assert_eq!(l.get_height(), 11);
}

#[test]
fn set_replaces_in_place_or_refuses() {
    let mut l = List::new(Orientation::Horizontal, None);
    assert!(l.add(Rectangle::new(10, 5, 0)).is_ok());
    assert!(l.add(Rectangle::new(20, 7, 0)).is_ok());
    assert!(matches!(l.set(Rectangle::new(1, 1, 0), 3), Err(Error::Overflow("list", 2))));
    assert_eq!(l.get_width(), 30);
    assert!(l.set(Rectangle::new(1, 9, 0), 0).is_ok());
    assert_eq!(l.len(), 2);
    assert_eq!(l.get_width(), 21);
    assert_eq!(l.get_height(), 9);
}
