//! A button: a widget with a callback that runs when the pointer acts inside it.
use crate::damage::Damage;
use crate::snui::{Error, Input};
use crate::widgets::base::{Drawable, Geometry, Widget};
use vstd::prelude::*;

verus! {

/// The point `(x, y)` lies strictly inside the box of `width` by `height` pixels whose corner
/// is at `(widget_x, widget_y)`.
pub open spec fn hit(widget_x: u32, widget_y: u32, width: nat, height: nat, x: u32, y: u32) -> bool {
    x > widget_x && y > widget_y && x < widget_x + width && y < widget_y + height
}

/// A widget with a callback; the callback gets the widget, the widget's position, the pointer's
/// position and the event.
pub struct Button<W: Widget, F: Fn(&mut W, u32, u32, u32, u32, Input) -> Damage> {
    widget: W,
    callback: F,
}

impl<W: Widget, F: Fn(&mut W, u32, u32, u32, u32, Input) -> Damage> Button<W, F> {
    pub closed spec fn child(&self) -> W {
        self.widget
    }

    pub closed spec fn callback(&self) -> F {
        self.callback
    }

    pub fn new(widget: W, callback: F) -> (r: Self)
        ensures
            r.child() == widget,
            r.callback() == callback,
    {
        Button { widget, callback }
    }
}

impl<W: Widget, F: Fn(&mut W, u32, u32, u32, u32, Input) -> Damage> Geometry for Button<W, F> {
    open spec fn spec_width(&self) -> nat {
        self.child().spec_width()
    }

    open spec fn spec_height(&self) -> nat {
        self.child().spec_height()
    }

    open spec fn width_ok(&self) -> bool {
        self.child().width_ok()
    }

    open spec fn height_ok(&self) -> bool {
        self.child().height_ok()
    }

    open spec fn resize_ok(&self, width: u32, height: u32) -> bool {
        self.child().resize_ok(width, height)
    }

    fn get_width(&self) -> (r: u32) {
        self.widget.get_width()
    }

    fn get_height(&self) -> (r: u32) {
        self.widget.get_height()
    }

    fn resize(&mut self, width: u32, height: u32) -> (r: Result<(), Error>)
        ensures
            final(self).callback() == old(self).callback(),
    {
        self.widget.resize(width, height)
    }

    /// The box test stays within `u32`, and the callback accepts every widget and event at
    /// these positions.
    open spec fn contains_ok(&self, widget_x: u32, widget_y: u32, x: u32, y: u32) -> bool {
        &&& x > widget_x && y > widget_y ==> self.child().width_ok() && widget_x
            + self.child().spec_width() <= u32::MAX
        &&& x > widget_x && y > widget_y && x < widget_x + self.child().spec_width()
            ==> self.child().height_ok() && widget_y + self.child().spec_height() <= u32::MAX
        &&& forall|w: &mut W, event: Input| #[trigger]
            self.callback().requires((w, widget_x, widget_y, x, y, event))
    }

    /// When the pointer is inside the button, the callback runs on the widget and its damage
    /// is returned (what it does to the widget is stated by `contains` itself); otherwise
    /// nothing happens. The callback stays.
    open spec fn answers(
        &self,
        widget_x: u32,
        widget_y: u32,
        x: u32,
        y: u32,
        event: Input,
        after: Self,
        damage: Damage,
    ) -> bool {
        &&& after.callback() == self.callback()
        &&& if hit(widget_x, widget_y, self.child().spec_width(), self.child().spec_height(), x, y) {
            exists|w: &mut W|
                *w == self.child() && #[trigger] self.callback().ensures(
                    (w, widget_x, widget_y, x, y, event),
                    damage,
                )
        } else {
            damage == Damage::Nothing && after.child() == self.child()
        }
    }

    /// When the pointer at `(x, y)` is inside the button drawn at `(widget_x, widget_y)`, runs
    /// the callback on the widget and returns its damage; otherwise returns `Nothing`.
    fn contains(&mut self, widget_x: u32, widget_y: u32, x: u32, y: u32, event: Input) -> (r: Damage)
        ensures
            hit(
                widget_x,
                widget_y,
                old(self).child().spec_width(),
                old(self).child().spec_height(),
                x,
                y,
            ) ==> exists|w: &mut W|
                *w == old(self).child() && *final(w) == final(self).child()
                    && #[trigger] old(self).callback().ensures(
                    (w, widget_x, widget_y, x, y, event),
                    r,
                ),
    {
        let inside = x > widget_x && y > widget_y && x < widget_x + self.get_width() && y
            < widget_y + self.get_height();
        if inside {
            assert(self.callback() == self.callback);
            (self.callback)(&mut self.widget, widget_x, widget_y, x, y, event)
        } else {
            Damage::Nothing
        }
    }
}

impl<W: Widget, F: Fn(&mut W, u32, u32, u32, u32, Input) -> Damage> Drawable for Button<W, F> {
    open spec fn draw_ok(&self, total: nat, width: u32, x: u32, y: u32) -> bool {
        self.child().draw_ok(total, width, x, y)
    }

    open spec fn drawn(&self, before: Seq<u8>, after: Seq<u8>, width: u32, x: u32, y: u32) -> bool {
        self.child().drawn(before, after, width, x, y)
    }

    /// The widget takes `color`; the callback stays.
    open spec fn recolors(&self, color: u32, after: Self) -> bool {
        &&& self.child().recolors(color, after.child())
        &&& after.callback() == self.callback()
    }

    fn set_color(&mut self, color: u32) {
        self.widget.set_color(color);
    }

    fn draw(&self, canvas: &mut [u8], width: u32, x: u32, y: u32) {
        self.widget.draw(canvas, width, x, y)
    }
}

impl<W: Widget, F: Fn(&mut W, u32, u32, u32, u32, Input) -> Damage> Widget for Button<W, F> {

}

} // verus!
