use snui::input::Orientation;
use snui::snui::Error;
use snui::widgets::base::{Background, Border, Container, Drawable, Geometry, Rectangle, Revealer};
use snui::widgets::inner::Inner;
use snui::widgets::listbox::ListBox;

fn pixel(canvas: &[u8], width: usize, x: usize, y: usize) -> [u8; 4] {
    let i = (x + y * width) * 4;
    [canvas[i], canvas[i + 1], canvas[i + 2], canvas[i + 3]]
}

#[test]
fn rectangle_constructors() {
    let r = Rectangle::new(3, 4, 0xff00ff00);
    assert_eq!(r.get_width(), 3);
    assert_eq!(r.get_height(), 4);
    let s = Rectangle::square(5, 1);
    assert_eq!((s.get_width(), s.get_height()), (5, 5));
    let mut e = Rectangle::empty(2, 7);
    assert_eq!((e.get_width(), e.get_height()), (2, 7));
    e.set_radius(3);
    assert!(e.resize(9, 1).is_ok());
    assert_eq!((e.get_width(), e.get_height()), (9, 1));
}

#[test]
fn rectangle_draw_paints_its_rows() {
    let mut canvas = vec![0u8; 4 * 4 * 4];
    let color = 0xaabbccddu32;
    Rectangle::new(2, 2, color).draw(&mut canvas, 4, 1, 1);
    let c = color.to_ne_bytes();
    for y in 0..4 {
        for x in 0..4 {
            let inside = (1..3).contains(&x) && (1..3).contains(&y);
            assert_eq!(pixel(&canvas, 4, x, y), if inside { c } else { [0; 4] }, "pixel {x} {y}");
        }
    }
}

#[test]
fn rectangle_of_color_zero_paints_nothing() {
    let mut canvas = vec![7u8; 64];
    Rectangle::new(4, 4, 0).draw(&mut canvas, 4, 0, 0);
    assert!(canvas.iter().all(|b| *b == 7));
}

#[test]
fn rectangle_rows_stop_at_the_end_of_the_canvas() {
    let mut canvas = vec![0u8; 2 * 2 * 4];
    Rectangle::new(2, 5, 0x01020304).draw(&mut canvas, 2, 0, 1);
    let c = 0x01020304u32.to_ne_bytes();
    assert_eq!(pixel(&canvas, 2, 0, 0), [0; 4]);
    assert_eq!(pixel(&canvas, 2, 1, 0), [0; 4]);
    assert_eq!(pixel(&canvas, 2, 0, 1), c);
    assert_eq!(pixel(&canvas, 2, 1, 1), c);
}

#[test]
fn border_frames_the_widget() {
    let inner = Rectangle::new(1, 1, 0x11111111);
    let border = Border::new(inner, 1, 0x22222222);
    assert_eq!(border.get_width(), 3);
    assert_eq!(border.get_height(), 3);
    let mut canvas = vec![0u8; 3 * 3 * 4];
    border.draw(&mut canvas, 3, 0, 0);
    let b = 0x22222222u32.to_ne_bytes();
    let i = 0x11111111u32.to_ne_bytes();
    for y in 0..3 {
        for x in 0..3 {
            let expect = if x == 1 && y == 1 { i } else { b };
            assert_eq!(pixel(&canvas, 3, x, y), expect, "pixel {x} {y}");
        }
    }
}

#[test]
fn border_sizes_add_top_and_bottom_to_the_width() {
    let mut border = Border::new(Rectangle::new(2, 2, 1), 0, 5);
    border.set_border_size(1, 2, 3, 4);
    assert_eq!(border.get_width(), 2 + 1 + 3);
    assert_eq!(border.get_height(), 2 + 2 + 4);
}

#[test]
fn background_solid_is_sized_to_the_padding() {
    let bg = Background::solid(Rectangle::new(2, 1, 0x33333333), 0x44444444, 1);
    assert_eq!(bg.get_width(), 4);
    assert_eq!(bg.get_height(), 3);
    assert_eq!(bg.background.get_width(), 4);
    assert_eq!(bg.background.get_height(), 3);
    let mut canvas = vec![0u8; 4 * 3 * 4];
    bg.draw(&mut canvas, 4, 0, 0);
    let back = 0x44444444u32.to_ne_bytes();
    let front = 0x33333333u32.to_ne_bytes();
    for y in 0..3 {
        for x in 0..4 {
            let expect = if y == 1 && (1..3).contains(&x) { front } else { back };
            assert_eq!(pixel(&canvas, 4, x, y), expect, "pixel {x} {y}");
        }
    }
}

#[test]
fn background_new_resizes_the_background() {
    let mut bg = Background::new(Rectangle::new(3, 3, 1), Rectangle::empty(0, 0), 2);
    assert_eq!(bg.background.get_width(), 7);
    assert_eq!(bg.background.get_height(), 7);
    bg.set_padding(1, 2, 3, 4);
    assert_eq!(bg.background.get_width(), 3 + 4 + 2);
    assert_eq!(bg.background.get_height(), 3 + 1 + 3);
    assert_eq!(bg.get_width(), 3 + 2 + 4);
    assert_eq!(bg.get_height(), 3 + 1 + 3);
}

#[test]
fn revealer_toggles_between_its_widgets() {
    let mut r = Revealer::new(Rectangle::new(1, 2, 1), Rectangle::new(3, 4, 2));
    assert_eq!((r.get_width(), r.get_height()), (1, 2));
    r.toggle();
    assert_eq!((r.get_width(), r.get_height()), (3, 4));
    r.toggle();
    assert_eq!((r.get_width(), r.get_height()), (1, 2));
}

#[test]
fn inner_holds_one_widget() {
    let mut inner = Inner::new_at(Rectangle::new(2, 3, 1), 4, 5);
    assert_eq!(inner.get_location(), (4, 5));
    inner.translate(1, 1);
    assert_eq!(inner.get_location(), (5, 6));
    inner.set_location(0, 0);
    assert_eq!(inner.get_location(), (0, 0));
    assert_eq!(inner.len(), 1);
    assert!(matches!(inner.add(Rectangle::new(1, 1, 1)), Err(Error::Overflow("inner", 1))));
    assert_eq!(inner.get_child().unwrap().get_width(), 2);
    assert_eq!(inner.get_width(), 2);
}

#[test]
fn listbox_lines_widgets_up() {
    let mut list = ListBox::new(Orientation::Horizontal);
    list.set_spacing(2);
    list.add(Rectangle::new(3, 1, 1)).unwrap();
    list.add(Rectangle::new(4, 5, 1)).unwrap();
    list.add(Rectangle::new(1, 2, 1)).unwrap();
    let at: Vec<(u32, u32)> = list.widgets().iter().map(|w| w.get_location()).collect();
    assert_eq!(at, vec![(0, 0), (5, 0), (11, 0)]);
    assert_eq!(list.len(), 3);
    assert_eq!(list.get_width(), 12);
    assert_eq!(list.get_height(), 1);
    assert!(matches!(list.get_child(), Err(Error::Message(_))));
    assert!(matches!(list.put(Inner::new(Rectangle::new(1, 1, 1))), Err(Error::Message(_))));
}

#[test]
fn listbox_vertical_and_draw() {
    let mut list = ListBox::new(Orientation::Vertical);
    list.add(Rectangle::new(2, 1, 0x05050505)).unwrap();
    list.add(Rectangle::new(1, 1, 0x06060606)).unwrap();
    assert_eq!(list.get_height(), 2);
    assert_eq!(list.get_width(), 2);
    let mut canvas = vec![0u8; 2 * 2 * 4];
    list.draw(&mut canvas, 2, 0, 0);
    assert_eq!(pixel(&canvas, 2, 0, 0), [5; 4]);
    assert_eq!(pixel(&canvas, 2, 1, 0), [5; 4]);
    assert_eq!(pixel(&canvas, 2, 0, 1), [6; 4]);
    assert_eq!(pixel(&canvas, 2, 1, 1), [0; 4]);
}

#[test]
fn empty_listbox_has_no_size() {
    let list: ListBox<Rectangle> = ListBox::new(Orientation::Horizontal);
    assert_eq!(list.get_width(), 0);
    assert_eq!(list.get_height(), 0);
    assert!(list.is_empty());
}

#[test]
fn listbox_built_by_add_spans_sizes_and_spacings() {
    let mut l = ListBox::new(Orientation::Horizontal);
    l.set_spacing(3);
    assert!(l.add(Rectangle::new(4, 2, 0)).is_ok());
    assert!(l.add(Rectangle::new(0, 6, 0)).is_ok());
    assert!(l.add(Rectangle::new(5, 1, 0)).is_ok());
    // 4 + 0 + 5 and two spacings of 3.
    assert_eq!(l.get_width(), 15);
    let mut v = ListBox::new(Orientation::Vertical);
    assert!(v.add(Rectangle::new(4, 2, 0)).is_ok());
    assert!(v.add(Rectangle::new(1, 6, 0)).is_ok());
    assert_eq!(v.get_height(), 8);
}

#[test]
fn listbox_with_empty_leading_widget_and_no_spacing() {
    // Both widgets start at 0: the first is taken as the furthest, and the width is its own.
    let mut l = ListBox::new(Orientation::Horizontal);
    assert!(l.add(Rectangle::new(0, 2, 0)).is_ok());
    assert!(l.add(Rectangle::new(3, 2, 0)).is_ok());
    assert_eq!(l.get_width(), 0);
}

#[test]
fn set_color_recolors_what_is_shown() {
    // The background takes the color; the widget keeps its own.
    let mut bg = Background::solid(Rectangle::new(1, 1, 0x01010101), 0x02020202, 1);
    bg.set_color(0x09090909);
    let mut canvas = vec![0u8; 3 * 3 * 4];
    bg.draw(&mut canvas, 3, 0, 0);
    assert_eq!(pixel(&canvas, 3, 0, 0), [9; 4]);
    assert_eq!(pixel(&canvas, 3, 1, 1), [1; 4]);

    // A revealer recolors the widget it shows.
    let mut r = Revealer::new(Rectangle::new(1, 1, 0x01010101), Rectangle::new(1, 1, 0x02020202));
    r.set_color(0x07070707);
    let mut canvas = vec![0u8; 4];
    r.draw(&mut canvas, 1, 0, 0);
    assert_eq!(canvas, vec![7; 4]);
    r.toggle();
    r.draw(&mut canvas, 1, 0, 0);
    assert_eq!(canvas, vec![2; 4]);

    // An inner widget recolors its child and keeps its place.
    let mut inner = Inner::new_at(Rectangle::new(1, 1, 0x01010101), 2, 3);
    inner.set_color(0x05050505);
    assert_eq!(inner.get_location(), (2, 3));
    let mut canvas = vec![0u8; 4];
    inner.draw(&mut canvas, 1, 0, 0);
    assert_eq!(canvas, vec![5; 4]);
}

#[test]
fn listbox_refuses_resize_and_counts() {
    let mut list = ListBox::new(Orientation::Vertical);
    assert!(list.is_empty());
    list.add(Rectangle::new(2, 1, 1)).unwrap();
    assert!(!list.is_empty());
    assert!(matches!(list.resize(5, 5), Err(Error::Message("resize is not valid on \"listbox\""))));
    assert_eq!(list.get_width(), 2);
    let inner = Inner::new(Rectangle::new(1, 1, 1));
    assert!(!inner.is_empty());
}
