//! A widget placed at a location inside a container.
use crate::damage::Damage;
use crate::snui::{Error, Input};
use crate::widgets::action::hit;
use crate::widgets::base::{Container, Drawable, Geometry, Widget};
use vstd::prelude::*;

verus! {

/// A child widget with its location in its container.
pub struct Inner<W: Widget> {
    x: u32,
    y: u32,
    child: W,
}

impl<W: Widget> Inner<W> {
    /// The location `(x, y)` of the child in its container.
    pub closed spec fn location(&self) -> (u32, u32) {
        (self.x, self.y)
    }

    pub closed spec fn child_widget(&self) -> W {
        self.child
    }

    pub fn new(child: W) -> (r: Inner<W>)
        ensures
            r.location() == (0u32, 0u32),
            r.child_widget() == child,
            r.spec_width() == child.spec_width(),
            r.spec_height() == child.spec_height(),
    {
        Inner { x: 0, y: 0, child }
    }

    pub fn new_at(child: W, x: u32, y: u32) -> (r: Inner<W>)
        ensures
            r.location() == (x, y),
            r.child_widget() == child,
            r.spec_width() == child.spec_width(),
            r.spec_height() == child.spec_height(),
    {
        Inner { x, y, child }
    }

    pub fn get_location(&self) -> (r: (u32, u32))
        ensures
            r == self.location(),
    {
        (self.x, self.y)
    }

    pub fn set_location(&mut self, x: u32, y: u32)
        ensures
            final(self).location() == (x, y),
            final(self).child_widget() == old(self).child_widget(),
    {
        self.x = x;
        self.y = y;
    }

    /// Moves the child by `(x, y)`.
    pub fn translate(&mut self, x: u32, y: u32)
        requires
            old(self).location().0 + x <= u32::MAX,
            old(self).location().1 + y <= u32::MAX,
        ensures
            final(self).location() == (
                (old(self).location().0 + x) as u32,
                (old(self).location().1 + y) as u32,
            ),
            final(self).child_widget() == old(self).child_widget(),
    {
        self.x = self.x + x;
        self.y = self.y + y;
    }
}

impl<W: Widget> Geometry for Inner<W> {
    open spec fn spec_width(&self) -> nat {
        self.child_widget().spec_width()
    }

    open spec fn spec_height(&self) -> nat {
        self.child_widget().spec_height()
    }

    open spec fn width_ok(&self) -> bool {
        self.child_widget().width_ok()
    }

    open spec fn height_ok(&self) -> bool {
        self.child_widget().height_ok()
    }

    open spec fn resize_ok(&self, width: u32, height: u32) -> bool {
        self.child_widget().resize_ok(width, height)
    }

    fn get_width(&self) -> (r: u32) {
        self.child.get_width()
    }

    fn get_height(&self) -> (r: u32) {
        self.child.get_height()
    }

    fn resize(&mut self, width: u32, height: u32) -> (r: Result<(), Error>)
        ensures
            final(self).location() == old(self).location(),
    {
        self.child.resize(width, height)
    }

    open spec fn contains_ok(&self, widget_x: u32, widget_y: u32, x: u32, y: u32) -> bool {
        &&& x > widget_x && y > widget_y ==> self.width_ok() && widget_x + self.spec_width()
            <= u32::MAX
        &&& x > widget_x && y > widget_y && x < widget_x + self.spec_width() ==> self.height_ok()
            && widget_y + self.spec_height() <= u32::MAX
        &&& self.child_widget().contains_ok(widget_x, widget_y, x, y)
    }

    /// Inside the child's box at `(widget_x, widget_y)` the child answers; outside, nothing
    /// happens. The location stays.
    open spec fn answers(
        &self,
        widget_x: u32,
        widget_y: u32,
        x: u32,
        y: u32,
        event: Input,
        after: Self,
        damage: Damage,
    ) -> bool {
        &&& after.location() == self.location()
        &&& if hit(widget_x, widget_y, self.spec_width(), self.spec_height(), x, y) {
            self.child_widget().answers(
                widget_x,
                widget_y,
                x,
                y,
                event,
                after.child_widget(),
                damage,
            )
        } else {
            damage == Damage::Nothing && after.child_widget() == self.child_widget()
        }
    }

    fn contains(&mut self, widget_x: u32, widget_y: u32, x: u32, y: u32, event: Input) -> (r: Damage) {
        if x > widget_x && y > widget_y && x < widget_x + self.get_width() && y < widget_y
            + self.get_height() {
            self.child.contains(widget_x, widget_y, x, y, event)
        } else {
            Damage::Nothing
        }
    }
}

impl<W: Widget> Drawable for Inner<W> {
    /// The child is drawn at `(x, y)`; the child's own location is not added.
    open spec fn draw_ok(&self, total: nat, width: u32, x: u32, y: u32) -> bool {
        self.child_widget().draw_ok(total, width, x, y)
    }

    open spec fn drawn(&self, before: Seq<u8>, after: Seq<u8>, width: u32, x: u32, y: u32) -> bool {
        self.child_widget().drawn(before, after, width, x, y)
    }

    /// The child takes `color` and stays where it is.
    open spec fn recolors(&self, color: u32, after: Self) -> bool {
        &&& self.child_widget().recolors(color, after.child_widget())
        &&& after.location() == self.location()
    }

    fn set_color(&mut self, color: u32) {
        self.child.set_color(color)
    }

    fn draw(&self, canvas: &mut [u8], width: u32, x: u32, y: u32) {
        self.child.draw(canvas, width, x, y);
    }
}

impl<W: Widget> Widget for Inner<W> {

}

impl<W: Widget> Container for Inner<W> {
    type Child = W;

    open spec fn add_ok(&self) -> bool {
        true
    }

    open spec fn spec_len(&self) -> nat {
        1
    }

    fn len(&self) -> (r: u32)
        ensures
            r == 1,
    {
        1
    }

    /// An `Inner` holds one widget and takes no other.
    fn add(&mut self, _widget: W) -> (r: Result<(), Error>)
        ensures
            r matches Err(Error::Overflow(name, capacity)) && name@ == "inner"@ && capacity == 1,
    {
        Err(Error::Overflow("inner", 1))
    }

    fn put(&mut self, _widget: Inner<W>) -> (r: Result<(), Error>)
        ensures
            r matches Err(Error::Overflow(name, capacity)) && name@ == "inner"@ && capacity == 1,
    {
        Err(Error::Overflow("inner", 1))
    }

    fn get_child(&self) -> (r: Result<&W, Error>)
        ensures
            r matches Ok(child) && *child == self.child_widget(),
    {
        Ok(&self.child)
    }
}

} // verus!
