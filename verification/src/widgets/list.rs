//! A list: widgets placed one after the other along an orientation, with a margin.
use crate::input::Orientation;
use crate::damage::Damage;
use crate::snui::{Content, Error, Input};
use crate::widgets::listbox::{answered_by, child_position};
use crate::widgets::base::{Geometry, Widget};
use crate::widgets::inner::Inner;
use vstd::prelude::*;

verus! {

/// The sum of `s`.
pub open spec fn sum(s: Seq<nat>) -> nat
    decreases s.len(),
{
    if s.len() == 0 {
        0
    } else {
        sum(s.drop_last()) + s.last()
    }
}

/// The largest value of `s`, `0` when it is empty.
pub open spec fn largest(s: Seq<nat>) -> nat
    decreases s.len(),
{
    if s.len() == 0 {
        0
    } else if s.last() > largest(s.drop_last()) {
        s.last()
    } else {
        largest(s.drop_last())
    }
}

/// A prefix sums to at most the whole.
proof fn lemma_sum_prefix(s: Seq<nat>, i: int)
    requires
        0 <= i <= s.len(),
    ensures
        sum(s.take(i)) <= sum(s),
    decreases s.len() - i,
{
    if i < s.len() {
        lemma_sum_prefix(s, i + 1);
        assert(s.take(i + 1).drop_last() =~= s.take(i));
    } else {
        assert(s.take(i) =~= s);
    }
}

/// A widget list.
pub struct List<W: Widget> {
    content: Content,
    margin: u32,
    orientation: Orientation,
    capacity: Option<u32>,
    widgets: Vec<Inner<W>>,
}

impl<W: Widget> List<W> {
    pub closed spec fn children(&self) -> Seq<Inner<W>> {
        self.widgets@
    }

    pub closed spec fn spec_margin(&self) -> u32 {
        self.margin
    }

    pub closed spec fn spec_orientation(&self) -> Orientation {
        self.orientation
    }

    pub closed spec fn spec_capacity(&self) -> Option<u32> {
        self.capacity
    }

    /// What the list's background shows.
    pub closed spec fn spec_content(&self) -> Content {
        self.content
    }

    pub open spec fn widths(&self) -> Seq<nat> {
        self.children().map_values(|w: Inner<W>| w.spec_width())
    }

    pub open spec fn heights(&self) -> Seq<nat> {
        self.children().map_values(|w: Inner<W>| w.spec_height())
    }

    /// Along the orientation: the widgets' extents one after the other, with half the margin
    /// before, between and after them. Across it: the largest extent and the margin rounded
    /// down to an even number.
    pub open spec fn extent(&self, along: bool, sizes: Seq<nat>) -> nat {
        if along {
            ((self.spec_margin() / 2) * (self.children().len() + 1) + sum(sizes)) as nat
        } else {
            (largest(sizes) + self.spec_margin() - self.spec_margin() % 2) as nat
        }
    }

    pub open spec fn spec_width(&self) -> nat {
        self.extent(self.spec_orientation() == Orientation::Horizontal, self.widths())
    }

    pub open spec fn spec_height(&self) -> nat {
        self.extent(self.spec_orientation() == Orientation::Vertical, self.heights())
    }

    /// Every widget's width can be read, and the width and what leads to it fit in `u32`.
    pub open spec fn width_ok(&self) -> bool {
        &&& forall|i: int| 0 <= i < self.children().len() ==> (#[trigger] self.children()[i]).width_ok()
        &&& self.children().len() < u32::MAX
        &&& (self.spec_margin() / 2) * (self.children().len() + 1) <= u32::MAX
        &&& largest(self.widths()) + self.spec_margin() <= u32::MAX
        &&& self.spec_width() <= u32::MAX
    }

    /// Every widget's height can be read, and the height and what leads to it fit in `u32`.
    pub open spec fn height_ok(&self) -> bool {
        &&& forall|i: int| 0 <= i < self.children().len() ==> (#[trigger] self.children()[i]).height_ok()
        &&& self.children().len() < u32::MAX
        &&& (self.spec_margin() / 2) * (self.children().len() + 1) <= u32::MAX
        &&& largest(self.heights()) + self.spec_margin() <= u32::MAX
        &&& self.spec_height() <= u32::MAX
    }

    /// The coordinate along the orientation of a widget's location.
    pub open spec fn start_along(&self, w: Inner<W>) -> nat {
        if self.spec_orientation() == Orientation::Horizontal {
            w.location().0 as nat
        } else {
            w.location().1 as nat
        }
    }

    /// The widgets' extents along the orientation.
    pub open spec fn sizes_along(&self) -> Seq<nat> {
        if self.spec_orientation() == Orientation::Horizontal {
            self.widths()
        } else {
            self.heights()
        }
    }

    /// The list's extent along its orientation.
    pub open spec fn extent_along(&self) -> nat {
        if self.spec_orientation() == Orientation::Horizontal {
            self.spec_width()
        } else {
            self.spec_height()
        }
    }

    /// Along the orientation, widget `i` starts after the `i` widgets before it, with half the
    /// margin before each of them and before itself.
    pub open spec fn packed(&self) -> bool {
        forall|i: int|
            0 <= i < self.children().len() ==> self.start_along(#[trigger] self.children()[i]) == (i
                + 1) * (self.spec_margin() / 2) + sum(self.sizes_along().take(i))
    }

    /// Where `add` places the next widget: half the margin past the end of the last one, or
    /// half the margin from the corner for the first.
    pub open spec fn next_location(&self) -> (u32, u32) {
        let n = self.children().len();
        let half = self.spec_margin() / 2;
        if n == 0 {
            (half, half)
        } else {
            let last = self.children()[n - 1];
            let (x, y) = last.location();
            match self.spec_orientation() {
                Orientation::Horizontal => (
                    (x + (2 * last.spec_width() + self.spec_margin()) / 2) as u32,
                    y,
                ),
                Orientation::Vertical => (
                    x,
                    (y + (2 * last.spec_height() + self.spec_margin()) / 2) as u32,
                ),
            }
        }
    }

    /// `add` can compute the next location.
    pub open spec fn add_ok(&self) -> bool {
        let n = self.children().len();
        n > 0 ==> {
            let last = self.children()[n - 1];
            match self.spec_orientation() {
                Orientation::Horizontal => {
                    &&& last.width_ok()
                    &&& 2 * last.spec_width() + self.spec_margin() <= u32::MAX
                    &&& last.location().0 + (2 * last.spec_width() + self.spec_margin()) / 2
                        <= u32::MAX
                },
                Orientation::Vertical => {
                    &&& last.height_ok()
                    &&& 2 * last.spec_height() + self.spec_margin() <= u32::MAX
                    &&& last.location().1 + (2 * last.spec_height() + self.spec_margin()) / 2
                        <= u32::MAX
                },
            }
        }
    }

    /// An empty list with no margin.
    pub fn new(orientation: Orientation, capacity: Option<u32>) -> (r: Self)
        ensures
            r.children().len() == 0,
            r.spec_margin() == 0,
            r.spec_orientation() == orientation,
            r.spec_capacity() == capacity,
            r.spec_content() == Content::Empty,
    {
        List { content: Content::Empty, capacity, widgets: Vec::new(), margin: 0, orientation }
    }

    pub fn set_margin(&mut self, margin: u32)
        ensures
            final(self).children() == old(self).children(),
            final(self).spec_margin() == margin,
            final(self).spec_orientation() == old(self).spec_orientation(),
    {
        self.margin = margin;
    }

    pub fn set_orientation(&mut self, orientation: Orientation)
        ensures
            final(self).children() == old(self).children(),
            final(self).spec_margin() == old(self).spec_margin(),
            final(self).spec_orientation() == orientation,
    {
        self.orientation = orientation;
    }

    pub fn set_content(&mut self, content: Content)
        ensures
            final(self).spec_content() == content,
            final(self).children() == old(self).children(),
            final(self).spec_margin() == old(self).spec_margin(),
            final(self).spec_orientation() == old(self).spec_orientation(),
            final(self).spec_capacity() == old(self).spec_capacity(),
    {
        self.content = content;
    }

    /// The number of widgets, as a `u32`.
    pub fn len(&self) -> (r: u32)
        ensures
            r == self.children().len() as u32,
    {
        self.widgets.len() as u32
    }

    /// The sum of the widgets' widths (`along_x`) or heights, which is at most `room`.
    fn total(&self, along_x: bool, room: u32) -> (r: u32)
        requires
            forall|i: int|
                0 <= i < self.children().len() ==> if along_x {
                    (#[trigger] self.children()[i]).width_ok()
                } else {
                    self.children()[i].height_ok()
                },
            sum(if along_x { self.widths() } else { self.heights() }) <= room,
        ensures
            r == sum(if along_x { self.widths() } else { self.heights() }),
    {
        let ghost sizes = if along_x { self.widths() } else { self.heights() };
        let mut acc: u32 = 0;
        let mut i: usize = 0;
        while i < self.widgets.len()
            invariant
                0 <= i <= self.children().len(),
                sizes == (if along_x { self.widths() } else { self.heights() }),
                sizes.len() == self.children().len(),
                sum(sizes) <= room,
                acc == sum(sizes.take(i as int)),
                forall|j: int|
                    0 <= j < self.children().len() ==> if along_x {
                        (#[trigger] self.children()[j]).width_ok()
                    } else {
                        self.children()[j].height_ok()
                    },
            decreases self.children().len() - i,
        {
            assert(sizes.take(i + 1).drop_last() =~= sizes.take(i as int));
            proof {
                lemma_sum_prefix(sizes, i + 1);
            }
            let size = if along_x {
                self.widgets[i].get_width()
            } else {
                self.widgets[i].get_height()
            };
            acc = acc + size;
            i = i + 1;
        }
        assert(sizes.take(i as int) =~= sizes);
        acc
    }

    /// The largest of the widgets' widths (`along_x`) or heights.
    fn widest(&self, along_x: bool) -> (r: u32)
        requires
            forall|i: int|
                0 <= i < self.children().len() ==> if along_x {
                    (#[trigger] self.children()[i]).width_ok()
                } else {
                    self.children()[i].height_ok()
                },
        ensures
            r == largest(if along_x { self.widths() } else { self.heights() }),
    {
        let ghost sizes = if along_x { self.widths() } else { self.heights() };
        let mut best: u32 = 0;
        let mut i: usize = 0;
        while i < self.widgets.len()
            invariant
                0 <= i <= self.children().len(),
                sizes == (if along_x { self.widths() } else { self.heights() }),
                sizes.len() == self.children().len(),
                best == largest(sizes.take(i as int)),
                forall|j: int|
                    0 <= j < self.children().len() ==> if along_x {
                        (#[trigger] self.children()[j]).width_ok()
                    } else {
                        self.children()[j].height_ok()
                    },
            decreases self.children().len() - i,
        {
            assert(sizes.take(i + 1).drop_last() =~= sizes.take(i as int));
            let size = if along_x {
                self.widgets[i].get_width()
            } else {
                self.widgets[i].get_height()
            };
            if size > best {
                best = size;
            }
            i = i + 1;
        }
        assert(sizes.take(i as int) =~= sizes);
        best
    }

    pub fn get_width(&self) -> (r: u32)
        requires
            self.width_ok(),
        ensures
            r == self.spec_width(),
    {
        match self.orientation {
            Orientation::Horizontal => {
                let lead: u32 = (self.margin / 2) * (self.len() + 1);
                let total = self.total(true, u32::MAX - lead);
                lead + total
            },
            _ => {
                let width = self.widest(true);
                width + self.margin - self.margin % 2
            },
        }
    }

    pub fn get_height(&self) -> (r: u32)
        requires
            self.height_ok(),
        ensures
            r == self.spec_height(),
    {
        match self.orientation {
            Orientation::Vertical => {
                let lead: u32 = (self.margin / 2) * (self.len() + 1);
                let total = self.total(false, u32::MAX - lead);
                lead + total
            },
            _ => {
                let height = self.widest(false);
                height + self.margin - self.margin % 2
            },
        }
    }

    /// Appends a widget at `next_location`.
    pub fn add(&mut self, widget: W) -> (r: Result<(), Error>)
        requires
            old(self).add_ok(),
        ensures
            r is Ok,
            final(self).children().len() == old(self).children().len() + 1,
            final(self).children().drop_last() == old(self).children(),
            final(self).children().last().location() == old(self).next_location(),
            final(self).children().last().child_widget() == widget,
            final(self).spec_margin() == old(self).spec_margin(),
            final(self).spec_orientation() == old(self).spec_orientation(),
    {
        let n = self.widgets.len();
        let (x, y) = if n > 0 {
            let last = &self.widgets[n - 1];
            let (mut x, mut y) = last.get_location();
            match self.orientation {
                Orientation::Horizontal => {
                    x = x + ((2 * last.get_width()) + self.margin) / 2;
                },
                Orientation::Vertical => {
                    y = y + ((2 * last.get_height()) + self.margin) / 2;
                },
            }
            (x, y)
        } else {
            (self.margin / 2, self.margin / 2)
        };
        self.widgets.push(Inner::new_at(widget, x, y));
        assert(self.children().drop_last() =~= old(self).children());
        Ok(())
    }

    /// Hands the pointer event to the widgets in order, each at its own location, until one
    /// answers with damage, which is returned.
    pub fn contains(&mut self, x: u32, y: u32, event: Input) -> (r: Damage)
        requires
            forall|i: int|
                0 <= i < old(self).children().len() ==> (#[trigger] old(
                    self,
                ).children()[i]).contains_ok(
                    child_position(old(self).children()[i], 0, 0).0,
                    child_position(old(self).children()[i], 0, 0).1,
                    x,
                    y,
                ),
        ensures
            exists|k: int|
                answered_by(old(self).children(), final(self).children(), k, 0, 0, x, y, event, r),
            final(self).spec_margin() == old(self).spec_margin(),
            final(self).spec_orientation() == old(self).spec_orientation(),
            final(self).spec_content() == old(self).spec_content(),
            final(self).spec_capacity() == old(self).spec_capacity(),
    {
        let ghost before = self.widgets@;
        assert(before == old(self).children());
        let mut i: usize = 0;
        while i < self.widgets.len()
            invariant
                i <= before.len(),
                self.widgets@.len() == before.len(),
                self.margin == old(self).margin,
                self.orientation == old(self).orientation,
                self.content == old(self).content,
                self.capacity == old(self).capacity,
                before == old(self).widgets@,
                forall|j: int|
                    0 <= j < before.len() ==> (#[trigger] before[j]).contains_ok(
                        child_position(before[j], 0, 0).0,
                        child_position(before[j], 0, 0).1,
                        x,
                        y,
                    ),
                forall|j: int|
                    0 <= j < i ==> (#[trigger] before[j]).answers(
                        child_position(before[j], 0, 0).0,
                        child_position(before[j], 0, 0).1,
                        x,
                        y,
                        event,
                        self.widgets@[j],
                        Damage::Nothing,
                    ),
                forall|j: int| i <= j < before.len() ==> #[trigger] self.widgets@[j] == before[j],
            decreases before.len() - i,
        {
            let ghost current = self.widgets@;
            let mut w = self.widgets.remove(i);
            assert(w == before[i as int]);
            let (lx, ly) = w.get_location();
            let d = w.contains(lx, ly, x, y, event);
            self.widgets.insert(i, w);
            assert(self.widgets@ =~= current.update(i as int, w));
            if d.is_some() {
                assert(answered_by(old(self).children(), self.children(), i as int, 0, 0, x, y, event, d));
                return d;
            }
            i = i + 1;
        }
        assert(answered_by(
            old(self).children(),
            self.children(),
            before.len() as int,
            0,
            0,
            x,
            y,
            event,
            Damage::Nothing,
        ));
        Damage::Nothing
    }

    /// Replaces the widget at `index` by `widget`, at the same location. An index past the
    /// length (`len`) is refused with that length.
    pub fn set(&mut self, widget: W, index: u32) -> (r: Result<(), Error>)
        requires
            index <= old(self).children().len() as u32 ==> index < old(self).children().len(),
        ensures
            index > old(self).children().len() as u32 ==> {
                &&& r == Err::<(), Error>(Error::Overflow("list", old(self).children().len() as u32))
                &&& final(self).children() == old(self).children()
            },
            index <= old(self).children().len() as u32 ==> {
                &&& r is Ok
                &&& final(self).children() == old(self).children().update(
                    index as int,
                    final(self).children()[index as int],
                )
                &&& final(self).children()[index as int].location() == old(
                    self,
                ).children()[index as int].location()
                &&& final(self).children()[index as int].child_widget() == widget
            },
            final(self).spec_margin() == old(self).spec_margin(),
            final(self).spec_orientation() == old(self).spec_orientation(),
    {
        if index > self.len() {
            Err(Error::Overflow("list", self.len()))
        } else {
            let (x, y) = self.widgets[index as usize].get_location();
            self.widgets.set(index as usize, Inner::new_at(widget, x, y));
            Ok(())
        }
    }
}

/// A list built by `add` from an empty one stays packed: an added widget starts half the
/// margin past the end of the one before it.
#[verifier::spinoff_prover]
pub proof fn lemma_add_keeps_packed<W: Widget>(before: List<W>, after: List<W>)
    requires
        before.packed(),
        before.add_ok(),
        after.children().len() == before.children().len() + 1,
        after.children().drop_last() == before.children(),
        after.children().last().location() == before.next_location(),
        after.spec_margin() == before.spec_margin(),
        after.spec_orientation() == before.spec_orientation(),
    ensures
        after.packed(),
{
    let n = before.children().len() as int;
    let half = before.spec_margin() / 2;
    let sizes = after.sizes_along();
    let old_sizes = before.sizes_along();
    assert(old_sizes =~= sizes.drop_last());
    assert forall|i: int| 0 <= i < after.children().len() implies after.start_along(
        #[trigger] after.children()[i],
    ) == (i + 1) * half + sum(sizes.take(i)) by {
        if i < n {
            assert(after.children()[i] == after.children().drop_last()[i]);
            assert(sizes.take(i) =~= old_sizes.take(i));
        } else {
            let added = after.children()[i];
            assert(added == after.children().last());
            assert(sizes.take(i) =~= old_sizes);
            assert((i + 1) * half == i * half + half) by (nonlinear_arith);
            if n == 0 {
                assert(old_sizes.len() == 0);
                assert(after.start_along(added) == half);
                assert(i * half == 0) by (nonlinear_arith)
                    requires
                        i == 0,
                ;
                assert(sum(sizes.take(i)) == 0);
            } else {
                let last = before.children()[n - 1];
                assert(old_sizes.drop_last() =~= old_sizes.take(n - 1));
                assert(before.start_along(last) == n * half + sum(old_sizes.take(n - 1)));
                assert(old_sizes[n - 1] == if before.spec_orientation() == Orientation::Horizontal {
                    last.spec_width()
                } else {
                    last.spec_height()
                });
                assert(sum(old_sizes) == sum(old_sizes.take(n - 1)) + old_sizes[n - 1]);
                assert(after.start_along(added) == before.start_along(last) + old_sizes[n - 1]
                    + half);
                assert(sum(sizes.take(i)) == sum(old_sizes));
            }
            assert(after.start_along(added) == (i + 1) * half + sum(sizes.take(i)));
        }
    }
}

/// A packed list's extent along its orientation reaches half the margin past the end of its
/// last widget (half the margin for an empty list).
pub proof fn lemma_packed_extent<W: Widget>(l: List<W>)
    requires
        l.packed(),
    ensures
        l.children().len() == 0 ==> l.extent_along() == l.spec_margin() / 2,
        l.children().len() > 0 ==> l.extent_along() == l.start_along(l.children().last())
            + l.sizes_along().last() + l.spec_margin() / 2,
{
    let n = l.children().len() as int;
    let half = l.spec_margin() / 2;
    assert(half * (n + 1) == n * half + half) by (nonlinear_arith);
    assert(l.widths().len() == n && l.heights().len() == n);
    if n == 0 {
        assert(sum(l.widths()) == 0 && sum(l.heights()) == 0);
        assert(half * (n + 1) == half) by (nonlinear_arith)
            requires
                n == 0,
        ;
    }
    if n > 0 {
        let sizes = l.sizes_along();
        assert(sizes.drop_last() =~= sizes.take(n - 1));
        assert(l.start_along(l.children()[n - 1]) == n * half + sum(sizes.take(n - 1)));
        assert((n + 1) * half == n * half + half) by (nonlinear_arith);
    }
}

} // verus!
