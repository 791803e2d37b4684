use snui::scene::{ContainerCursor, NextChild};

#[test]
fn a_pass_visits_children_in_order_then_appends() {
    let mut c = ContainerCursor::new();
    assert_eq!(c.next(), NextChild::Append);
    assert_eq!(c.append(), 0);
    assert_eq!(c, ContainerCursor { len: 1, cursor: 1 });
    assert_eq!(c.next(), NextChild::Append);
    assert_eq!(c.append(), 1);
    c.reset();
    assert_eq!(c.next(), NextChild::Visit(0));
    assert_eq!(c.next(), NextChild::Visit(1));
    assert_eq!(c.next(), NextChild::Append);
    assert_eq!(c.quick_next(), None);
    c.reset();
    assert_eq!(c.quick_next(), Some(0));
}

#[test]
fn truncate_clamps_the_cursor() {
    let mut c = ContainerCursor { len: 5, cursor: 4 };
    c.truncate(2);
    assert_eq!(c, ContainerCursor { len: 2, cursor: 1 });
    c.truncate(9);
    assert_eq!(c, ContainerCursor { len: 2, cursor: 1 });
    let mut past = ContainerCursor { len: 1, cursor: 3 };
    assert_eq!(past.next(), NextChild::Nothing);
    past.reset();
    assert_eq!(past.next(), NextChild::Visit(0));
}
