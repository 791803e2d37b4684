//! A container that lines its widgets up one after the other.
use crate::input::Orientation;
use crate::damage::Damage;
use crate::snui::{Error, Input};
use crate::widgets::base::{Container, Drawable, Geometry, Widget};
use crate::widgets::inner::Inner;
use crate::widgets::list::sum;
use vstd::prelude::*;

verus! {

/// Where each widget stands and how large it is: `(x, y, width, height)`.
pub open spec fn placements<W: Widget>(widgets: Seq<Inner<W>>) -> Seq<(u32, u32, nat, nat)> {
    widgets.map_values(
        |w: Inner<W>| (w.location().0, w.location().1, w.spec_width(), w.spec_height()),
    )
}

/// The first of the first `n` values that no other of them exceeds.
pub open spec fn first_max_index(values: Seq<u32>, n: nat) -> int
    decreases n,
{
    if n <= 1 {
        0
    } else {
        let k = first_max_index(values, (n - 1) as nat);
        if values[n - 1] > values[k] {
            n - 1
        } else {
            k
        }
    }
}

proof fn lemma_first_max_index(values: Seq<u32>, n: nat)
    requires
        1 <= n <= values.len(),
    ensures
        0 <= first_max_index(values, n) < n,
        forall|j: int| 0 <= j < n ==> #[trigger] values[j] <= values[first_max_index(values, n)],
        forall|j: int| 0 <= j < first_max_index(values, n) ==> #[trigger] values[j] < values[first_max_index(values, n)],
    decreases n,
{
    if n > 1 {
        lemma_first_max_index(values, (n - 1) as nat);
    }
}

/// The extent of the line of widgets along one axis: from the first widget's position to the
/// far edge of the widget that starts furthest (the first such widget), or 0 when there is
/// none. `starts` and `sizes` are the positions and sizes along that axis.
pub open spec fn line_extent(starts: Seq<u32>, sizes: Seq<nat>) -> int {
    if starts.len() == 0 {
        0
    } else {
        let k = first_max_index(starts, starts.len());
        starts[k] - starts[0] + sizes[k]
    }
}

/// Widgets lined up horizontally or vertically, `spacing` pixels apart.
pub struct ListBox<W: Widget> {
    spacing: u32,
    widgets: Vec<Inner<W>>,
    orientation: Orientation,
}

impl<W: Widget> ListBox<W> {
    pub closed spec fn spec_spacing(&self) -> u32 {
        self.spacing
    }

    pub closed spec fn spec_orientation(&self) -> Orientation {
        self.orientation
    }

    pub closed spec fn children(&self) -> Seq<Inner<W>> {
        self.widgets@
    }

    /// The x positions of the widgets.
    pub open spec fn xs(&self) -> Seq<u32> {
        self.children().map_values(|w: Inner<W>| w.location().0)
    }

    /// The y positions of the widgets.
    pub open spec fn ys(&self) -> Seq<u32> {
        self.children().map_values(|w: Inner<W>| w.location().1)
    }

    pub open spec fn widths(&self) -> Seq<nat> {
        self.children().map_values(|w: Inner<W>| w.spec_width())
    }

    pub open spec fn heights(&self) -> Seq<nat> {
        self.children().map_values(|w: Inner<W>| w.spec_height())
    }

    /// Where the next widget goes: right after the last one (below it when vertical), past the
    /// spacing; the first goes at the origin.
    pub open spec fn next_location(&self) -> (u32, u32) {
        if self.children().len() == 0 {
            (0, 0)
        } else {
            let last = self.children().last();
            match self.spec_orientation() {
                Orientation::Horizontal => (
                    (last.location().0 + last.spec_width() + self.spec_spacing()) as u32,
                    last.location().1,
                ),
                Orientation::Vertical => (
                    last.location().0,
                    (last.location().1 + last.spec_height() + self.spec_spacing()) as u32,
                ),
            }
        }
    }

    /// The positions along the orientation.
    pub open spec fn starts_along(&self) -> Seq<u32> {
        if self.spec_orientation() == Orientation::Horizontal {
            self.xs()
        } else {
            self.ys()
        }
    }

    /// The sizes along the orientation.
    pub open spec fn sizes_along(&self) -> Seq<nat> {
        if self.spec_orientation() == Orientation::Horizontal {
            self.widths()
        } else {
            self.heights()
        }
    }

    /// The extent along the orientation.
    pub open spec fn extent_along(&self) -> nat {
        if self.spec_orientation() == Orientation::Horizontal {
            self.spec_width()
        } else {
            self.spec_height()
        }
    }

    /// Along the orientation, widget `i` starts where the `i` widgets before it and the
    /// spacing after each of them end.
    pub open spec fn lined_up(&self) -> bool {
        forall|i: int|
            0 <= i < self.children().len() ==> #[trigger] self.starts_along()[i] == sum(
                self.sizes_along().take(i),
            ) + i * self.spec_spacing()
    }

    pub fn new(orientation: Orientation) -> (r: Self)
        ensures
            r.children().len() == 0,
            r.spec_spacing() == 0,
            r.spec_orientation() == orientation,
    {
        ListBox { widgets: Vec::new(), spacing: 0, orientation }
    }

    pub fn set_spacing(&mut self, spacing: u32)
        ensures
            final(self).spec_spacing() == spacing,
            final(self).children() == old(self).children(),
            final(self).spec_orientation() == old(self).spec_orientation(),
    {
        self.spacing = spacing;
    }

    pub fn widgets(&self) -> (r: &Vec<Inner<W>>)
        ensures
            r@ == self.children(),
    {
        &self.widgets
    }

    pub fn set_orientation(&mut self, orientation: Orientation)
        ensures
            final(self).spec_orientation() == orientation,
            final(self).children() == old(self).children(),
            final(self).spec_spacing() == old(self).spec_spacing(),
    {
        self.orientation = orientation;
    }
}

/// Where widget `w` of a list box drawn at `(widget_x, widget_y)` stands.
pub open spec fn child_position<W: Widget>(w: Inner<W>, widget_x: u32, widget_y: u32) -> (u32, u32) {
    ((widget_x + w.location().0) as u32, (widget_y + w.location().1) as u32)
}

/// The widgets before `k` let the event pass (answered `Nothing`); widget `k`, if there is one,
/// answered `damage`, which is not `Nothing`; the widgets after it were not asked.
pub open spec fn answered_by<W: Widget>(
    before: Seq<Inner<W>>,
    after: Seq<Inner<W>>,
    k: int,
    widget_x: u32,
    widget_y: u32,
    x: u32,
    y: u32,
    event: Input,
    damage: Damage,
) -> bool {
    &&& 0 <= k <= before.len()
    &&& after.len() == before.len()
    &&& forall|j: int|
        0 <= j < k ==> (#[trigger] before[j]).answers(
            child_position(before[j], widget_x, widget_y).0,
            child_position(before[j], widget_x, widget_y).1,
            x,
            y,
            event,
            after[j],
            Damage::Nothing,
        )
    &&& forall|j: int| k < j < before.len() ==> #[trigger] after[j] == before[j]
    &&& if k < before.len() {
        &&& before[k].answers(
            child_position(before[k], widget_x, widget_y).0,
            child_position(before[k], widget_x, widget_y).1,
            x,
            y,
            event,
            after[k],
            damage,
        )
        &&& damage != Damage::Nothing
    } else {
        damage == Damage::Nothing
    }
}

impl<W: Widget> Geometry for ListBox<W> {
    open spec fn spec_width(&self) -> nat {
        line_extent(self.xs(), self.widths()) as nat
    }

    open spec fn spec_height(&self) -> nat {
        line_extent(self.ys(), self.heights()) as nat
    }

    /// Every widget's width can be read and the extent fits in `u32`.
    open spec fn width_ok(&self) -> bool {
        &&& forall|i: int| 0 <= i < self.children().len() ==> (#[trigger] self.children()[i]).width_ok()
        &&& line_extent(self.xs(), self.widths()) <= u32::MAX
    }

    /// Every widget's height can be read and the extent fits in `u32`.
    open spec fn height_ok(&self) -> bool {
        &&& forall|i: int| 0 <= i < self.children().len() ==> (#[trigger] self.children()[i]).height_ok()
        &&& line_extent(self.ys(), self.heights()) <= u32::MAX
    }

    open spec fn resize_ok(&self, width: u32, height: u32) -> bool {
        false
    }

    /// The distance from the first widget's left edge to the right edge of the widget that
    /// starts furthest right.
    fn get_width(&self) -> (r: u32) {
        if self.widgets.len() == 0 {
            return 0;
        }
        let ghost xs = self.xs();
        let ghost widths = self.widths();
        let (x, _y) = self.widgets[0].get_location();
        let mut xf = x;
        let mut width = self.widgets[0].get_width();
        let mut i: usize = 1;
        while i < self.widgets.len()
            invariant
                1 <= i <= self.children().len(),
                xs == self.xs(),
                widths == self.widths(),
                xs.len() == self.children().len(),
                widths.len() == self.children().len(),
                x == xs[0],
                self.width_ok(),
                xf == xs[first_max_index(xs, i as nat)],
                width == widths[first_max_index(xs, i as nat)],
            decreases self.children().len() - i,
        {
            let (lx, _ly) = self.widgets[i].get_location();
            if lx > xf {
                xf = lx;
                width = self.widgets[i].get_width();
            }
            i = i + 1;
        }
        proof {
            lemma_first_max_index(xs, xs.len());
        }
        xf - x + width
    }

    /// The distance from the first widget's top edge to the bottom edge of the widget that
    /// starts lowest.
    fn get_height(&self) -> (r: u32) {
        if self.widgets.len() == 0 {
            return 0;
        }
        let ghost ys = self.ys();
        let ghost heights = self.heights();
        let (_x, y) = self.widgets[0].get_location();
        let mut yf = y;
        let mut height = self.widgets[0].get_height();
        let mut i: usize = 1;
        while i < self.widgets.len()
            invariant
                1 <= i <= self.children().len(),
                ys == self.ys(),
                heights == self.heights(),
                ys.len() == self.children().len(),
                heights.len() == self.children().len(),
                y == ys[0],
                self.height_ok(),
                yf == ys[first_max_index(ys, i as nat)],
                height == heights[first_max_index(ys, i as nat)],
            decreases self.children().len() - i,
        {
            let (_lx, ly) = self.widgets[i].get_location();
            if ly > yf {
                yf = ly;
                height = self.widgets[i].get_height();
            }
            i = i + 1;
        }
        proof {
            lemma_first_max_index(ys, ys.len());
        }
        yf - y + height
    }

    /// A list box takes its size from its widgets: resizing it is refused with a message and
    /// changes nothing.
    fn resize(&mut self, width: u32, height: u32) -> (r: Result<(), Error>)
        ensures
            r matches Err(Error::Message(m)) && m@ == "resize is not valid on \"listbox\""@,
            *final(self) == *old(self),
    {
        Err(Error::Message("resize is not valid on \"listbox\""))
    }

    /// Every widget's position fits in `u32` and the widget can be asked there.
    open spec fn contains_ok(&self, widget_x: u32, widget_y: u32, x: u32, y: u32) -> bool {
        forall|i: int|
            0 <= i < self.children().len() ==> {
                &&& widget_x + (#[trigger] self.children()[i]).location().0 <= u32::MAX
                &&& widget_y + self.children()[i].location().1 <= u32::MAX
                &&& self.children()[i].contains_ok(
                    child_position(self.children()[i], widget_x, widget_y).0,
                    child_position(self.children()[i], widget_x, widget_y).1,
                    x,
                    y,
                )
            }
    }

    /// The widgets are asked in order, each at its position, until one answers with damage,
    /// which is returned.
    open spec fn answers(
        &self,
        widget_x: u32,
        widget_y: u32,
        x: u32,
        y: u32,
        event: Input,
        after: Self,
        damage: Damage,
    ) -> bool {
        &&& after.spec_spacing() == self.spec_spacing()
        &&& after.spec_orientation() == self.spec_orientation()
        &&& exists|k: int|
            answered_by(
                self.children(),
                after.children(),
                k,
                widget_x,
                widget_y,
                x,
                y,
                event,
                damage,
            )
    }

    fn contains(&mut self, widget_x: u32, widget_y: u32, x: u32, y: u32, event: Input) -> (r: Damage) {
        let ghost before = self.widgets@;
        let mut i: usize = 0;
        while i < self.widgets.len()
            invariant
                i <= before.len(),
                self.widgets@.len() == before.len(),
                self.spacing == old(self).spacing,
                self.orientation == old(self).orientation,
                before == old(self).widgets@,
                old(self).contains_ok(widget_x, widget_y, x, y),
                forall|j: int|
                    0 <= j < i ==> (#[trigger] before[j]).answers(
                        child_position(before[j], widget_x, widget_y).0,
                        child_position(before[j], widget_x, widget_y).1,
                        x,
                        y,
                        event,
                        self.widgets@[j],
                        Damage::Nothing,
                    ),
                forall|j: int| i <= j < before.len() ==> #[trigger] self.widgets@[j] == before[j],
            decreases before.len() - i,
        {
            let ghost current = self.widgets@;
            let mut w = self.widgets.remove(i);
            assert(w == before[i as int]);
            assert(old(self).children()[i as int] == before[i as int]);
            let (dx, dy) = w.get_location();
            let d = w.contains(widget_x + dx, widget_y + dy, x, y, event);
            self.widgets.insert(i, w);
            assert(self.widgets@ =~= current.update(i as int, w));
            if d.is_some() {
                assert(answered_by(
                    old(self).children(),
                    self.children(),
                    i as int,
                    widget_x,
                    widget_y,
                    x,
                    y,
                    event,
                    d,
                ));
                return d;
            }
            i = i + 1;
        }
        assert(answered_by(
            old(self).children(),
            self.children(),
            before.len() as int,
            widget_x,
            widget_y,
            x,
            y,
            event,
            Damage::Nothing,
        ));
        Damage::Nothing
    }
}

/// `after` is `before` with the first `n` widgets drawn in order, each at `(x, y)` moved by its
/// location.
pub open spec fn drawn_in_order<W: Widget>(
    widgets: Seq<Inner<W>>,
    n: nat,
    before: Seq<u8>,
    after: Seq<u8>,
    width: u32,
    x: u32,
    y: u32,
) -> bool
    decreases n,
{
    if n == 0 {
        after == before
    } else {
        let w = widgets[n - 1];
        exists|mid: Seq<u8>|
            drawn_in_order(widgets, (n - 1) as nat, before, mid, width, x, y) && #[trigger] w.drawn(
                mid,
                after,
                width,
                (x + w.location().0) as u32,
                (y + w.location().1) as u32,
            )
    }
}

impl<W: Widget> Drawable for ListBox<W> {
    open spec fn draw_ok(&self, total: nat, width: u32, x: u32, y: u32) -> bool {
        forall|i: int|
            0 <= i < self.children().len() ==> {
                let w = #[trigger] self.children()[i];
                &&& x + w.location().0 <= u32::MAX
                &&& y + w.location().1 <= u32::MAX
                &&& w.draw_ok(total, width, (x + w.location().0) as u32, (y + w.location().1) as u32)
            }
    }

    open spec fn drawn(&self, before: Seq<u8>, after: Seq<u8>, width: u32, x: u32, y: u32) -> bool {
        drawn_in_order(self.children(), self.children().len(), before, after, width, x, y)
    }

    /// The widgets of a list box keep their colors.
    open spec fn recolors(&self, color: u32, after: Self) -> bool {
        after == *self
    }

    fn set_color(&mut self, color: u32) {
    }

    fn draw(&self, canvas: &mut [u8], width: u32, x: u32, y: u32) {
        let ghost total = canvas@.len();
        let mut i: usize = 0;
        while i < self.widgets.len()
            invariant
                i <= self.children().len(),
                canvas@.len() == total,
                self.draw_ok(total, width, x, y),
                drawn_in_order(self.children(), i as nat, old(canvas)@, canvas@, width, x, y),
            decreases self.children().len() - i,
        {
            let w = &self.widgets[i];
            let (dx, dy) = w.get_location();
            let ghost mid = canvas@;
            assert(drawn_in_order(self.children(), i as nat, old(canvas)@, mid, width, x, y));
            assert(*w == self.children()[i as int]);
            w.draw(canvas, width, x + dx, y + dy);
            assert(drawn_in_order(self.children(), (i + 1) as nat, old(canvas)@, canvas@, width, x, y))
                by {
                let wi = self.children()[i as int];
                assert(wi.drawn(mid, canvas@, width, (x + wi.location().0) as u32, (y + wi.location().1) as u32));
                assert(((i + 1) as nat - 1) as nat == i as nat);
            }
            i = i + 1;
        }
    }
}

impl<W: Widget> Widget for ListBox<W> {

}

impl<W: Widget> Container for ListBox<W> {
    type Child = W;

    /// The location of the next widget fits in `u32`.
    open spec fn add_ok(&self) -> bool {
        self.children().len() > 0 ==> {
            let last = self.children().last();
            match self.spec_orientation() {
                Orientation::Horizontal => {
                    &&& last.width_ok()
                    &&& last.spec_width() + self.spec_spacing() <= u32::MAX
                    &&& last.location().0 + last.spec_width() + self.spec_spacing() <= u32::MAX
                },
                Orientation::Vertical => {
                    &&& last.height_ok()
                    &&& last.spec_height() + self.spec_spacing() <= u32::MAX
                    &&& last.location().1 + last.spec_height() + self.spec_spacing() <= u32::MAX
                },
            }
        }
    }

    /// The number of widgets, modulo 2^32.
    open spec fn spec_len(&self) -> nat {
        self.children().len() % 0x1_0000_0000
    }

    fn len(&self) -> (r: u32)
        ensures
            r == self.children().len() % 0x1_0000_0000,
    {
        (self.widgets.len() as u64 % 0x1_0000_0000u64) as u32
    }

    /// Places `widget` after the last widget.
    fn add(&mut self, widget: W) -> (r: Result<(), Error>)
        ensures
            r is Ok,
            final(self).children().len() == old(self).children().len() + 1,
            forall|i: int|
                0 <= i < old(self).children().len() ==> final(self).children()[i] == old(
                    self,
                ).children()[i],
            final(self).children().last().location() == old(self).next_location(),
            final(self).children().last().child_widget() == widget,
            final(self).spec_spacing() == old(self).spec_spacing(),
            final(self).spec_orientation() == old(self).spec_orientation(),
    {
        let n = self.widgets.len();
        let (x, y) = if n > 0 {
            let w = &self.widgets[n - 1];
            let (mut x, mut y) = w.get_location();
            match self.orientation {
                Orientation::Horizontal => {
                    x += w.get_width() + self.spacing;
                },
                Orientation::Vertical => {
                    y += w.get_height() + self.spacing;
                },
            }
            (x, y)
        } else {
            (0, 0)
        };
        self.widgets.push(Inner::new_at(widget, x, y));
        Ok(())
    }

    fn put(&mut self, _widget: Inner<W>) -> (r: Result<(), Error>)
        ensures
            r matches Err(Error::Message(m)) && m@ == "widgets cannot be put in \"listbox\""@,
            *final(self) == *old(self),
    {
        Err(Error::Message("widgets cannot be put in \"listbox\""))
    }

    fn get_child(&self) -> (r: Result<&W, Error>)
        ensures
            r matches Err(Error::Message(m)) && m@ == "get_child is not valid on \"listbox\""@,
    {
        Err(Error::Message("get_child is not valid on \"listbox\""))
    }
}

/// The first largest of strictly increasing values is the last one.
proof fn lemma_increasing_max(values: Seq<u32>, n: nat)
    requires
        1 <= n <= values.len(),
        forall|i: int| 0 <= i < n - 1 ==> #[trigger] values[i] < values[i + 1],
    ensures
        first_max_index(values, n) == n - 1,
    decreases n,
{
    if n > 1 {
        lemma_increasing_max(values, (n - 1) as nat);
        assert(values[n - 2] < values[n - 1]);
    }
}

/// A list box built by `add` stays lined up: an added widget starts right after the last one,
/// past the spacing.
pub proof fn lemma_add_keeps_lined_up<W: Widget>(before: ListBox<W>, after: ListBox<W>)
    requires
        before.lined_up(),
        before.add_ok(),
        after.children().len() == before.children().len() + 1,
        forall|i: int|
            0 <= i < before.children().len() ==> after.children()[i] == before.children()[i],
        after.children().last().location() == before.next_location(),
        after.spec_spacing() == before.spec_spacing(),
        after.spec_orientation() == before.spec_orientation(),
    ensures
        after.lined_up(),
{
    let n = before.children().len() as int;
    let sp = before.spec_spacing();
    let sizes = after.sizes_along();
    let old_sizes = before.sizes_along();
    assert(old_sizes =~= sizes.take(n));
    assert forall|i: int| 0 <= i < after.children().len() implies #[trigger] after.starts_along()[i]
        == sum(sizes.take(i)) + i * sp by {
        if i < n {
            assert(after.children()[i] == before.children()[i]);
            assert(sizes.take(i) =~= old_sizes.take(i));
            assert(after.starts_along()[i] == before.starts_along()[i]);
        } else {
            assert(i * sp == (i - 1) * sp + sp) by (nonlinear_arith);
            if n == 0 {
                assert(sizes.take(0) =~= Seq::<nat>::empty());
                assert(0 * sp == 0) by (nonlinear_arith);
            } else {
                let last = before.children()[n - 1];
                assert(last == before.children().last());
                assert(before.starts_along()[n - 1] == sum(old_sizes.take(n - 1)) + (n - 1) * sp);
                assert(sizes.take(i).drop_last() =~= old_sizes.take(n - 1));
                assert(sizes.take(i).last() == old_sizes[n - 1]);
            }
        }
    }
}

/// A lined-up list box of `n > 0` widgets whose positions strictly grow (the spacing is not
/// zero, or no widget is empty along the orientation) reaches from its first widget to the end
/// of its last: the sizes and `n - 1` spacings.
pub proof fn lemma_lined_up_extent<W: Widget>(l: ListBox<W>)
    requires
        l.lined_up(),
        l.children().len() > 0,
        l.spec_spacing() > 0 || forall|i: int|
            0 <= i < l.children().len() ==> #[trigger] l.sizes_along()[i] > 0,
    ensures
        l.extent_along() == sum(l.sizes_along()) + (l.children().len() - 1) * l.spec_spacing(),
{
    let n = l.children().len() as int;
    let sp = l.spec_spacing();
    let starts = l.starts_along();
    let sizes = l.sizes_along();
    assert forall|i: int| 0 <= i < n - 1 implies #[trigger] starts[i] < starts[i + 1] by {
        assert(starts[i] == sum(sizes.take(i)) + i * sp);
        assert(starts[i + 1] == sum(sizes.take(i + 1)) + (i + 1) * sp);
        assert(sizes.take(i + 1).drop_last() =~= sizes.take(i));
        assert((i + 1) * sp == i * sp + sp) by (nonlinear_arith);
        assert(sizes[i] > 0 || sp > 0);
    }
    lemma_increasing_max(starts, n as nat);
    assert(starts[0] == sum(sizes.take(0)) + 0 * sp);
    assert(sizes.take(0) =~= Seq::<nat>::empty());
    assert(0 * sp == 0) by (nonlinear_arith);
    assert(starts[n - 1] == sum(sizes.take(n - 1)) + (n - 1) * sp);
    assert(sizes.drop_last() =~= sizes.take(n - 1));
}

} // verus!
