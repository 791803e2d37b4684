//! Pixel-buffer widgets: rectangles painted straight into a BGRA byte canvas, and the
//! decorations (borders, backgrounds, revealers) built from them.
//!
//! A canvas is a row-major buffer of 4-byte pixels; `width` is its width in pixels.
use crate::damage::Damage;
use crate::snui::{Error, Input};
use crate::widgets::inner::Inner;
use vstd::prelude::*;

verus! {

/// The bytes of `color`, least significant first.
pub open spec fn le_bytes(color: u32) -> Seq<u8> {
    seq![
        (color % 0x100) as u8,
        ((color / 0x100) % 0x100) as u8,
        ((color / 0x1_0000) % 0x100) as u8,
        ((color / 0x100_0000) % 0x100) as u8,
    ]
}

/// The bytes of `color`, most significant first.
pub open spec fn be_bytes(color: u32) -> Seq<u8> {
    le_bytes(color).reverse()
}

/// `bytes` is `color` laid out in one of the two byte orders a machine can have.
pub open spec fn native_bytes(color: u32, bytes: Seq<u8>) -> bool {
    bytes == le_bytes(color) || bytes == be_bytes(color)
}

/// `s` with the `len` bytes from `start` on overwritten by the repeated 4-byte `pattern`.
pub open spec fn fill_row(s: Seq<u8>, start: int, len: int, pattern: Seq<u8>) -> Seq<u8> {
    Seq::new(
        s.len(),
        |i: int|
            if start <= i < start + len {
                pattern[(i - start) % 4]
            } else {
                s[i]
            },
    )
}

/// `rows` rows of `len` bytes painted with `pattern`, the first at byte `start`, each next one
/// `stride` bytes further; painting stops at the first row that starts past the buffer.
pub open spec fn fill_rows(
    s: Seq<u8>,
    start: int,
    stride: int,
    len: int,
    rows: nat,
    pattern: Seq<u8>,
) -> Seq<u8>
    decreases rows,
{
    if rows == 0 || start >= s.len() {
        s
    } else {
        fill_rows(fill_row(s, start, len, pattern), start + stride, stride, len, (rows - 1) as nat, pattern)
    }
}

/// Every row that `fill_rows` paints lies inside a buffer of `total` bytes, and stepping to
/// the next row stays within `usize`.
pub open spec fn rows_fit(total: nat, start: int, stride: int, len: int, rows: nat) -> bool
    decreases rows,
{
    rows == 0 || start >= total || (start + len <= total && start + stride <= usize::MAX
        && rows_fit(total, start + stride, stride, len, (rows - 1) as nat))
}

/// The first byte of pixel `(x, y)` in a canvas `width` pixels wide.
pub open spec fn pixel_offset(width: u32, x: u32, y: u32) -> int {
    (x + y * width) * 4
}

/// Where row `r` of a rectangle starts.
pub open spec fn row_start(start: int, stride: int, r: int) -> int {
    start + r * stride
}

/// Byte `i` lies in one of the first `rows` rows that `fill_rows` paints in a buffer of
/// `total` bytes.
pub open spec fn in_painted_row(i: int, total: int, start: int, stride: int, len: int, rows: nat) -> bool {
    exists|r: int|
        0 <= r < rows && #[trigger] row_start(start, stride, r) < total && row_start(start, stride, r)
            <= i < row_start(start, stride, r) + len
}

/// Painting rows keeps the buffer's length; a byte in a painted row shows the pattern byte of
/// its position within the pixel, and every other byte is unchanged.
pub proof fn lemma_fill_rows_bytes(
    s: Seq<u8>,
    start: int,
    stride: int,
    len: int,
    rows: nat,
    pattern: Seq<u8>,
    i: int,
)
    requires
        0 <= i < s.len(),
        0 <= start,
        0 <= stride,
        start % 4 == 0,
        stride % 4 == 0,
        pattern.len() == 4,
    ensures
        fill_rows(s, start, stride, len, rows, pattern).len() == s.len(),
        fill_rows(s, start, stride, len, rows, pattern)[i] == if in_painted_row(
            i,
            s.len() as int,
            start,
            stride,
            len,
            rows,
        ) {
            pattern[i % 4]
        } else {
            s[i]
        },
    decreases rows,
{
    let total = s.len() as int;
    if rows == 0 || start >= total {
        if in_painted_row(i, total, start, stride, len, rows) {
            let r = choose|r: int|
                0 <= r < rows && #[trigger] row_start(start, stride, r) < total && row_start(
                    start,
                    stride,
                    r,
                ) <= i < row_start(start, stride, r) + len;
            assert(r * stride >= 0) by (nonlinear_arith)
                requires
                    r >= 0,
                    stride >= 0,
            ;
        }
    } else {
        let s1 = fill_row(s, start, len, pattern);
        lemma_fill_rows_bytes(s1, start + stride, stride, len, (rows - 1) as nat, pattern, i);
        let first = start <= i < start + len;
        let rest = in_painted_row(i, total, start + stride, stride, len, (rows - 1) as nat);
        if first {
            assert((i - start) % 4 == i % 4) by (nonlinear_arith)
                requires
                    start % 4 == 0,
            ;
            assert(row_start(start, stride, 0) == start);
        }
        if rest {
            let r = choose|r: int|
                0 <= r < rows - 1 && #[trigger] row_start(start + stride, stride, r) < total
                    && row_start(start + stride, stride, r) <= i < row_start(start + stride, stride, r)
                    + len;
            assert(row_start(start, stride, r + 1) == row_start(start + stride, stride, r))
                by (nonlinear_arith);
        }
        if in_painted_row(i, total, start, stride, len, rows) && !first {
            let r = choose|r: int|
                0 <= r < rows && #[trigger] row_start(start, stride, r) < total && row_start(
                    start,
                    stride,
                    r,
                ) <= i < row_start(start, stride, r) + len;
            assert(r != 0);
            assert(row_start(start, stride, r) == row_start(start + stride, stride, r - 1))
                by (nonlinear_arith);
            assert(rest);
        }
    }
}

/// The dimensions and color of a rectangle.
pub struct RectangleView {
    pub width: u32,
    pub height: u32,
    pub radius: u32,
    pub color: u32,
}

/// A rectangle of `view` can be painted at `(x, y)` on a canvas of `total` bytes and `width`
/// pixels per row.
pub open spec fn rect_draw_ok(view: RectangleView, total: nat, width: u32, x: u32, y: u32) -> bool {
    view.color == 0 || (pixel_offset(width, x, y) <= u32::MAX && rows_fit(
        total,
        pixel_offset(width, x, y),
        width * 4,
        view.width * 4,
        view.height as nat,
    ))
}

/// `after` is `before` with a rectangle of `view` painted at `(x, y)`; a rectangle of color 0
/// paints nothing.
pub open spec fn rect_drawn(
    view: RectangleView,
    before: Seq<u8>,
    after: Seq<u8>,
    width: u32,
    x: u32,
    y: u32,
) -> bool {
    if view.color == 0 {
        after == before
    } else {
        exists|pattern: Seq<u8>|
            native_bytes(view.color, pattern) && after == fill_rows(
                before,
                pixel_offset(width, x, y),
                width * 4,
                view.width * 4,
                view.height as nat,
                pattern,
            )
    }
}

/// Drawing a rectangle of a nonzero color paints every byte of its rows with the byte of the
/// color's native layout that belongs to that position of the pixel, and leaves every other
/// byte of the canvas as it was.
pub proof fn lemma_rect_drawn_bytes(
    view: RectangleView,
    before: Seq<u8>,
    after: Seq<u8>,
    width: u32,
    x: u32,
    y: u32,
)
    requires
        view.color != 0,
        rect_drawn(view, before, after, width, x, y),
    ensures
        after.len() == before.len(),
        exists|pattern: Seq<u8>|
            native_bytes(view.color, pattern) && forall|i: int|
                0 <= i < before.len() ==> #[trigger] after[i] == if in_painted_row(
                    i,
                    before.len() as int,
                    pixel_offset(width, x, y),
                    width * 4,
                    view.width * 4,
                    view.height as nat,
                ) {
                    pattern[i % 4]
                } else {
                    before[i]
                },
{
    let pattern = choose|pattern: Seq<u8>|
        native_bytes(view.color, pattern) && after == fill_rows(
            before,
            pixel_offset(width, x, y),
            width * 4,
            view.width * 4,
            view.height as nat,
            pattern,
        );
    assert(pattern.len() == 4);
    let start = pixel_offset(width, x, y);
    assert(start % 4 == 0) by (nonlinear_arith)
        requires
            start == (x + y * width) * 4,
    ;
    assert(start >= 0) by (nonlinear_arith)
        requires
            start == (x + y * width) * 4,
            x >= 0,
            y >= 0,
            width >= 0,
    ;
    if before.len() > 0 {
        lemma_fill_rows_bytes(before, start, width * 4, view.width * 4, view.height as nat, pattern, 0);
    } else {
        assert(fill_rows(before, start, width * 4, view.width * 4, view.height as nat, pattern) == before);
    }
    assert forall|i: int| 0 <= i < before.len() implies #[trigger] after[i] == if in_painted_row(
        i,
        before.len() as int,
        start,
        width * 4,
        view.width * 4,
        view.height as nat,
    ) {
        pattern[i % 4]
    } else {
        before[i]
    } by {
        lemma_fill_rows_bytes(before, start, width * 4, view.width * 4, view.height as nat, pattern, i);
    }
}

/// The size of a widget, how it is resized, and how it answers the pointer.
pub trait Geometry: Sized {
    spec fn spec_width(&self) -> nat;

    spec fn spec_height(&self) -> nat;

    /// `get_width` succeeds.
    spec fn width_ok(&self) -> bool;

    /// `get_height` succeeds.
    spec fn height_ok(&self) -> bool;

    /// `resize(width, height)` succeeds.
    spec fn resize_ok(&self, width: u32, height: u32) -> bool;

    fn get_width(&self) -> (r: u32)
        requires
            self.width_ok(),
        ensures
            r == self.spec_width(),
    ;

    fn get_height(&self) -> (r: u32)
        requires
            self.height_ok(),
        ensures
            r == self.spec_height(),
    ;

    fn resize(&mut self, width: u32, height: u32) -> (r: Result<(), Error>)
        ensures
            r is Ok <==> old(self).resize_ok(width, height),
    ;

    /// `contains` at these positions stays within `u32`.
    spec fn contains_ok(&self, widget_x: u32, widget_y: u32, x: u32, y: u32) -> bool;

    /// `contains` for the widget drawn at `(widget_x, widget_y)` and the pointer at `(x, y)` may
    /// leave `after` and return `damage`.
    spec fn answers(
        &self,
        widget_x: u32,
        widget_y: u32,
        x: u32,
        y: u32,
        event: Input,
        after: Self,
        damage: Damage,
    ) -> bool;

    /// Hands the pointer event to the widget drawn at `(widget_x, widget_y)`.
    fn contains(&mut self, widget_x: u32, widget_y: u32, x: u32, y: u32, event: Input) -> (r: Damage)
        requires
            old(self).contains_ok(widget_x, widget_y, x, y),
        ensures
            old(self).answers(widget_x, widget_y, x, y, event, *final(self), r),
    ;
}

/// Something that paints itself on a canvas.
pub trait Drawable: Sized {
    /// Drawing at `(x, y)` on a canvas of `total` bytes and `width` pixels per row succeeds.
    spec fn draw_ok(&self, total: nat, width: u32, x: u32, y: u32) -> bool;

    /// `after` is what drawing at `(x, y)` makes of the canvas `before`.
    spec fn drawn(&self, before: Seq<u8>, after: Seq<u8>, width: u32, x: u32, y: u32) -> bool;

    /// `after` is what `set_color(color)` makes of `self`.
    spec fn recolors(&self, color: u32, after: Self) -> bool;

    fn set_color(&mut self, color: u32)
        ensures
            old(self).recolors(color, *final(self)),
    ;

    fn draw(&self, canvas: &mut [u8], width: u32, x: u32, y: u32)
        requires
            self.draw_ok(old(canvas)@.len(), width, x, y),
        ensures
            final(canvas)@.len() == old(canvas)@.len(),
            self.drawn(old(canvas)@, final(canvas)@, width, x, y),
    ;
}

pub trait Widget: Geometry + Drawable {

}

/// A widget holding other widgets.
pub trait Container {
    /// The widgets it holds.
    type Child: Widget;

    /// `add` can place another widget.
    spec fn add_ok(&self) -> bool;

    /// The number of widgets `len` reports.
    spec fn spec_len(&self) -> nat;

    fn len(&self) -> (r: u32)
        ensures
            r == self.spec_len(),
    ;

    fn is_empty(&self) -> (r: bool)
        ensures
            r == (self.spec_len() == 0),
    {
        self.len() == 0
    }

    fn get_child(&self) -> Result<&Self::Child, Error>;

    fn add(&mut self, widget: Self::Child) -> Result<(), Error>
        requires
            old(self).add_ok(),
    ;

    fn put(&mut self, widget: Inner<Self::Child>) -> Result<(), Error>;
}

/// The machine's byte order applied to `color`.
#[verifier::external_body]
fn color_bytes(color: u32) -> (r: [u8; 4])
    ensures
        native_bytes(color, r@),
{
    color.to_ne_bytes()
}

/// The most basic widget one can create. It's the basis of everything else.
#[derive(Copy, Clone, Debug)]
pub struct Rectangle {
    width: u32,
    height: u32,
    radius: u32,
    color: u32,
}

impl View for Rectangle {
    type V = RectangleView;

    closed spec fn view(&self) -> RectangleView {
        RectangleView {
            width: self.width,
            height: self.height,
            radius: self.radius,
            color: self.color,
        }
    }
}

impl Rectangle {
    pub fn new(width: u32, height: u32, color: u32) -> (r: Rectangle)
        ensures
            r@ == (RectangleView { width, height, radius: 0, color }),
    {
        Rectangle { color, width, height, radius: 0 }
    }

    pub fn empty(width: u32, height: u32) -> (r: Rectangle)
        ensures
            r@ == (RectangleView { width, height, radius: 0, color: 0 }),
    {
        Rectangle { color: 0, width, height, radius: 0 }
    }

    pub fn square(size: u32, color: u32) -> (r: Rectangle)
        ensures
            r@ == (RectangleView { width: size, height: size, radius: 0, color }),
    {
        Rectangle { color, width: size, height: size, radius: 0 }
    }

    pub fn set_radius(&mut self, radius: u32)
        ensures
            final(self)@ == (RectangleView { radius, ..old(self)@ }),
    {
        self.radius = radius;
    }

    /// Paints the rows of the rectangle with `pattern`.
    fn paint(&self, canvas: &mut [u8], width: u32, x: u32, y: u32, pattern: [u8; 4])
        requires
            pixel_offset(width, x, y) <= u32::MAX,
            rows_fit(
                old(canvas)@.len(),
                pixel_offset(width, x, y),
                width * 4,
                self@.width * 4,
                self@.height as nat,
            ),
        ensures
            final(canvas)@.len() == old(canvas)@.len(),
            final(canvas)@ == fill_rows(
                old(canvas)@,
                pixel_offset(width, x, y),
                width * 4,
                self@.width * 4,
                self@.height as nat,
                pattern@,
            ),
    {
        let ghost total = canvas@.len();
        let canvas_len = canvas.len();
        let ghost stride: int = width * 4;
        let ghost len: int = self.width * 4;
        let ghost goal = fill_rows(
            canvas@,
            pixel_offset(width, x, y),
            stride,
            len,
            self.height as nat,
            pattern@,
        );
        let mut index: usize = ((x + (y * width)) * 4) as usize;
        let mut row: u32 = 0;
        while row < self.height && index < canvas_len
            invariant
                canvas@.len() == total,
                total == canvas_len,
                row <= self.height,
                stride == width * 4,
                len == self.width * 4,
                rows_fit(total, index as int, stride, len, (self.height - row) as nat),
                fill_rows(canvas@, index as int, stride, len, (self.height - row) as nat, pattern@)
                    == goal,
            decreases self.height - row,
        {
            let ghost before = canvas@;
            let row_len: usize = self.width as usize * 4;
            let mut offset: usize = 0;
            while offset < row_len
                invariant
                    canvas@.len() == total,
                    total == canvas_len,
                    row_len == len,
                    index + row_len <= total,
                    offset <= row_len,
                    canvas@ == Seq::new(
                        total,
                        |i: int|
                            if index <= i < index + offset {
                                pattern@[(i - index) % 4]
                            } else {
                                before[i]
                            },
                    ),
                decreases row_len - offset,
            {
                let ghost prev = canvas@;
                canvas[index + offset] = pattern[offset % 4];
                proof {
                    assert(canvas@ =~= Seq::new(
                        total,
                        |i: int|
                            if index <= i < index + offset + 1 {
                                pattern@[(i - index) % 4]
                            } else {
                                before[i]
                            },
                    ));
                }
                offset = offset + 1;
            }
            assert(canvas@ =~= fill_row(before, index as int, len, pattern@));
            index = index + width as usize * 4;
            row = row + 1;
        }
    }
}

impl Geometry for Rectangle {
    open spec fn spec_width(&self) -> nat {
        self@.width as nat
    }

    open spec fn spec_height(&self) -> nat {
        self@.height as nat
    }

    open spec fn width_ok(&self) -> bool {
        true
    }

    open spec fn height_ok(&self) -> bool {
        true
    }

    open spec fn resize_ok(&self, width: u32, height: u32) -> bool {
        true
    }

    fn get_width(&self) -> (r: u32) {
        self.width
    }

    fn get_height(&self) -> (r: u32) {
        self.height
    }

    fn resize(&mut self, width: u32, height: u32) -> (r: Result<(), Error>)
        ensures
            final(self)@ == (RectangleView { width, height, ..old(self)@ }),
    {
        self.width = width;
        self.height = height;
        Ok(())
    }

    open spec fn contains_ok(&self, widget_x: u32, widget_y: u32, x: u32, y: u32) -> bool {
        true
    }

    /// A rectangle does not react to the pointer.
    open spec fn answers(
        &self,
        widget_x: u32,
        widget_y: u32,
        x: u32,
        y: u32,
        event: Input,
        after: Self,
        damage: Damage,
    ) -> bool {
        damage == Damage::Nothing && after == *self
    }

    fn contains(&mut self, widget_x: u32, widget_y: u32, x: u32, y: u32, event: Input) -> (r: Damage) {
        Damage::Nothing
    }
}

impl Drawable for Rectangle {
    open spec fn draw_ok(&self, total: nat, width: u32, x: u32, y: u32) -> bool {
        rect_draw_ok(self@, total, width, x, y)
    }

    open spec fn drawn(&self, before: Seq<u8>, after: Seq<u8>, width: u32, x: u32, y: u32) -> bool {
        rect_drawn(self@, before, after, width, x, y)
    }

    open spec fn recolors(&self, color: u32, after: Self) -> bool {
        after@ == (RectangleView { color, ..self@ })
    }

    fn set_color(&mut self, color: u32)
        ensures
            final(self)@ == (RectangleView { color, ..old(self)@ }),
    {
        self.color = color;
    }

    fn draw(&self, canvas: &mut [u8], width: u32, x: u32, y: u32) {
        if self.color != 0 {
            let pattern = color_bytes(self.color);
            self.paint(canvas, width, x, y, pattern);
        }
    }
}

impl Widget for Rectangle {

}

/// A frame of `color` drawn around a widget.
///
/// The sizes are `(top, right, bottom, left)`; the width adds the top and bottom sizes to the
/// widget's width and the height adds the right and left sizes to its height.
pub struct Border<W: Widget> {
    pub widget: W,
    color: u32,
    size: (u32, u32, u32, u32),
}

impl<W: Widget> Border<W> {
    pub closed spec fn child(&self) -> W {
        self.widget
    }

    pub closed spec fn border_color(&self) -> u32 {
        self.color
    }

    /// The sizes `(top, right, bottom, left)`.
    pub closed spec fn border_size(&self) -> (u32, u32, u32, u32) {
        self.size
    }

    /// The top bar, `size.0` high, at `(x, y)`.
    pub open spec fn top_bar(&self) -> RectangleView {
        RectangleView {
            width: self.spec_width() as u32,
            height: self.border_size().0,
            radius: 0,
            color: self.border_color(),
        }
    }

    /// The bottom bar, `size.2` high, against the bottom edge.
    pub open spec fn bottom_bar(&self) -> RectangleView {
        RectangleView {
            width: self.spec_width() as u32,
            height: self.border_size().2,
            radius: 0,
            color: self.border_color(),
        }
    }

    /// The right bar, `size.1` wide, against the right edge.
    pub open spec fn right_bar(&self) -> RectangleView {
        RectangleView {
            width: self.border_size().1,
            height: self.spec_height() as u32,
            radius: 0,
            color: self.border_color(),
        }
    }

    /// The left bar, `size.3` wide, at `(x, y)`.
    pub open spec fn left_bar(&self) -> RectangleView {
        RectangleView {
            width: self.border_size().3,
            height: self.spec_height() as u32,
            radius: 0,
            color: self.border_color(),
        }
    }

    pub fn new(widget: W, size: u32, color: u32) -> (r: Self)
        ensures
            r.child() == widget,
            r.border_color() == color,
            r.border_size() == (size, size, size, size),
    {
        Self { widget, color, size: (size, size, size, size) }
    }

    pub fn set_border_size(&mut self, top: u32, right: u32, bottom: u32, left: u32)
        ensures
            final(self).child() == old(self).child(),
            final(self).border_color() == old(self).border_color(),
            final(self).border_size() == (top, right, bottom, left),
    {
        self.size = (top, right, bottom, left);
    }
}

impl<W: Widget> Geometry for Border<W> {
    open spec fn spec_width(&self) -> nat {
        (self.child().spec_width() + self.border_size().0 + self.border_size().2) as nat
    }

    open spec fn spec_height(&self) -> nat {
        (self.child().spec_height() + self.border_size().1 + self.border_size().3) as nat
    }

    open spec fn width_ok(&self) -> bool {
        self.child().width_ok() && self.spec_width() <= u32::MAX
    }

    open spec fn height_ok(&self) -> bool {
        self.child().height_ok() && self.spec_height() <= u32::MAX
    }

    open spec fn resize_ok(&self, width: u32, height: u32) -> bool {
        self.child().resize_ok(width, height)
    }

    fn get_width(&self) -> (r: u32) {
        self.widget.get_width() + self.size.0 + self.size.2
    }

    fn get_height(&self) -> (r: u32) {
        self.widget.get_height() + self.size.1 + self.size.3
    }

    fn resize(&mut self, width: u32, height: u32) -> (r: Result<(), Error>)
        ensures
            final(self).border_color() == old(self).border_color(),
            final(self).border_size() == old(self).border_size(),
    {
        self.widget.resize(width, height)
    }

    open spec fn contains_ok(&self, widget_x: u32, widget_y: u32, x: u32, y: u32) -> bool {
        &&& widget_x + self.border_size().0 <= u32::MAX
        &&& widget_y + self.border_size().3 <= u32::MAX
        &&& self.child().contains_ok(
            (widget_x + self.border_size().0) as u32,
            (widget_y + self.border_size().3) as u32,
            x,
            y,
        )
    }

    /// The widget answers at its place inside the frame; the frame stays.
    open spec fn answers(
        &self,
        widget_x: u32,
        widget_y: u32,
        x: u32,
        y: u32,
        event: Input,
        after: Self,
        damage: Damage,
    ) -> bool {
        &&& self.child().answers(
            (widget_x + self.border_size().0) as u32,
            (widget_y + self.border_size().3) as u32,
            x,
            y,
            event,
            after.child(),
            damage,
        )
        &&& after.border_color() == self.border_color()
        &&& after.border_size() == self.border_size()
    }

    fn contains(&mut self, widget_x: u32, widget_y: u32, x: u32, y: u32, event: Input) -> (r: Damage) {
        self.widget.contains(widget_x + self.size.0, widget_y + self.size.3, x, y, event)
    }
}

impl<W: Widget> Drawable for Border<W> {
    open spec fn draw_ok(&self, total: nat, width: u32, x: u32, y: u32) -> bool {
        let (top, right, bottom, left) = self.border_size();
        let w = self.spec_width();
        let h = self.spec_height();
        &&& self.width_ok()
        &&& self.height_ok()
        &&& y + h <= u32::MAX
        &&& y + h >= bottom
        &&& x + w <= u32::MAX
        &&& x + w >= right
        &&& x + top <= u32::MAX
        &&& y + left <= u32::MAX
        &&& rect_draw_ok(self.top_bar(), total, width, x, y)
        &&& rect_draw_ok(self.bottom_bar(), total, width, x, (y + h - bottom) as u32)
        &&& rect_draw_ok(self.right_bar(), total, width, (x + w - right) as u32, y)
        &&& rect_draw_ok(self.left_bar(), total, width, x, y)
        &&& self.child().draw_ok(total, width, (x + top) as u32, (y + left) as u32)
    }

    open spec fn drawn(&self, before: Seq<u8>, after: Seq<u8>, width: u32, x: u32, y: u32) -> bool {
        let (top, right, bottom, left) = self.border_size();
        let w = self.spec_width();
        let h = self.spec_height();
        exists|s1: Seq<u8>, s2: Seq<u8>, s3: Seq<u8>, s4: Seq<u8>|
            #![trigger rect_drawn(self.top_bar(), before, s1, width, x, y), rect_drawn(self.left_bar(), s3, s4, width, x, y), self.child().drawn(s4, after, width, (x + top) as u32, (y + left) as u32), rect_drawn(self.bottom_bar(), s1, s2, width, x, (y + h - bottom) as u32)]
            {
                &&& rect_drawn(self.top_bar(), before, s1, width, x, y)
                &&& rect_drawn(self.bottom_bar(), s1, s2, width, x, (y + h - bottom) as u32)
                &&& rect_drawn(self.right_bar(), s2, s3, width, (x + w - right) as u32, y)
                &&& rect_drawn(self.left_bar(), s3, s4, width, x, y)
                &&& self.child().drawn(s4, after, width, (x + top) as u32, (y + left) as u32)
            }
    }

    /// The frame takes `color`; the widget keeps its own.
    open spec fn recolors(&self, color: u32, after: Self) -> bool {
        &&& after.child() == self.child()
        &&& after.border_color() == color
        &&& after.border_size() == self.border_size()
    }

    fn set_color(&mut self, color: u32)
        ensures
            final(self).child() == old(self).child(),
            final(self).border_color() == color,
            final(self).border_size() == old(self).border_size(),
    {
        self.color = color;
    }

    fn draw(&self, canvas: &mut [u8], width: u32, x: u32, y: u32) {
        let bwidth = self.get_width();
        let bheight = self.get_height();
        let ghost s0 = canvas@;
        Rectangle::new(bwidth, self.size.0, self.color).draw(canvas, width, x, y);
        let ghost s1 = canvas@;
        Rectangle::new(bwidth, self.size.2, self.color).draw(
            canvas,
            width,
            x,
            y + bheight - self.size.2,
        );
        let ghost s2 = canvas@;
        Rectangle::new(self.size.1, bheight, self.color).draw(
            canvas,
            width,
            x + bwidth - self.size.1,
            y,
        );
        let ghost s3 = canvas@;
        Rectangle::new(self.size.3, bheight, self.color).draw(canvas, width, x, y);
        let ghost s4 = canvas@;
        self.widget.draw(canvas, width, x + self.size.0, y + self.size.3);
        assert(rect_drawn(self.top_bar(), s0, s1, width, x, y));
    }
}

/// One byte after a rectangle of a nonzero color is drawn: a byte in its rows shows the color's
/// byte for its place in the pixel, in one of the two byte orders; any other byte is unchanged.
proof fn lemma_rect_byte(
    view: RectangleView,
    before: Seq<u8>,
    after: Seq<u8>,
    width: u32,
    x: u32,
    y: u32,
    i: int,
)
    requires
        view.color != 0,
        rect_drawn(view, before, after, width, x, y),
        0 <= i < before.len(),
    ensures
        after.len() == before.len(),
        in_painted_row(
            i,
            before.len() as int,
            pixel_offset(width, x, y),
            width * 4,
            view.width * 4,
            view.height as nat,
        ) ==> after[i] == le_bytes(view.color)[i % 4] || after[i] == be_bytes(view.color)[i % 4],
        !in_painted_row(
            i,
            before.len() as int,
            pixel_offset(width, x, y),
            width * 4,
            view.width * 4,
            view.height as nat,
        ) ==> after[i] == before[i],
{
    lemma_rect_drawn_bytes(view, before, after, width, x, y);
    let pattern = choose|pattern: Seq<u8>|
        native_bytes(view.color, pattern) && forall|j: int|
            0 <= j < before.len() ==> #[trigger] after[j] == if in_painted_row(
                j,
                before.len() as int,
                pixel_offset(width, x, y),
                width * 4,
                view.width * 4,
                view.height as nat,
            ) {
                pattern[j % 4]
            } else {
                before[j]
            };
    assert(after[i] == if in_painted_row(
        i,
        before.len() as int,
        pixel_offset(width, x, y),
        width * 4,
        view.width * 4,
        view.height as nat,
    ) {
        pattern[i % 4]
    } else {
        before[i]
    });
}

/// A rectangle that lies within the canvas rows paints no byte of a pixel outside it.
proof fn lemma_outside_rect(
    width: u32,
    cx: u32,
    cy: u32,
    cw: u32,
    ch: u32,
    px: u32,
    py: u32,
    k: int,
    total: int,
)
    requires
        cx + cw <= width,
        px < width,
        0 <= k < 4,
        !(cx <= px < cx + cw && cy <= py < cy + ch),
    ensures
        !in_painted_row(pixel_offset(width, px, py) + k, total, pixel_offset(width, cx, cy), width * 4, cw * 4, ch as nat),
{
    let i = pixel_offset(width, px, py) + k;
    if in_painted_row(i, total, pixel_offset(width, cx, cy), width * 4, cw * 4, ch as nat) {
        let r = choose|r: int|
            0 <= r < ch && #[trigger] row_start(pixel_offset(width, cx, cy), width * 4, r) < total
                && row_start(pixel_offset(width, cx, cy), width * 4, r) <= i < row_start(
                pixel_offset(width, cx, cy),
                width * 4,
                r,
            ) + cw * 4;
        let rr = cy + r;
        assert(row_start(pixel_offset(width, cx, cy), width * 4, r) == (cx + rr * width) * 4)
            by (nonlinear_arith)
            requires
                rr == cy + r,
        ;
        let a = cx + rr * width;
        let b = px + py * width;
        assert(a <= b && b < a + cw) by (nonlinear_arith)
            requires
                a * 4 <= b * 4 + k,
                b * 4 + k < a * 4 + cw * 4,
                0 <= k < 4,
        ;
        if py < rr {
            assert(py * width + width <= rr * width) by (nonlinear_arith)
                requires
                    py < rr,
                    width >= 0,
            ;
        } else if py > rr {
            assert(rr * width + width <= py * width) by (nonlinear_arith)
                requires
                    rr < py,
                    width >= 0,
            ;
        }
    }
}

/// A rectangle at `(x0, y0)` covers every byte of a pixel inside it.
proof fn lemma_inside_rect(
    width: u32,
    x0: u32,
    y0: u32,
    rw: u32,
    rh: u32,
    px: u32,
    py: u32,
    k: int,
    total: int,
)
    requires
        x0 <= px < x0 + rw,
        y0 <= py < y0 + rh,
        0 <= k < 4,
        pixel_offset(width, px, py) + k < total,
    ensures
        in_painted_row(pixel_offset(width, px, py) + k, total, pixel_offset(width, x0, y0), width * 4, rw * 4, rh as nat),
{
    let i = pixel_offset(width, px, py) + k;
    let r = py - y0;
    assert(row_start(pixel_offset(width, x0, y0), width * 4, r) == (x0 + py * width) * 4)
        by (nonlinear_arith)
        requires
            r == py - y0,
    ;
    assert((x0 + py * width) * 4 <= i < (x0 + py * width) * 4 + rw * 4) by (nonlinear_arith)
        requires
            i == (px + py * width) * 4 + k,
            x0 <= px < x0 + rw,
            0 <= k < 4,
    ;
    assert(row_start(pixel_offset(width, x0, y0), width * 4, r) < total);
}

/// Drawing a border of a nonzero color around a rectangle paints its frame: the top bar
/// `border_size().0` rows high, the bottom bar `border_size().2` rows high, the right bar
/// `border_size().1` columns wide and the left bar `border_size().3` columns wide. Every byte of
/// a pixel of the box in one of those bars and not covered by the rectangle inside shows the
/// border color's byte for its place in the pixel, in the machine's byte order.
pub proof fn lemma_border_frame(
    b: Border<Rectangle>,
    before: Seq<u8>,
    after: Seq<u8>,
    width: u32,
    x: u32,
    y: u32,
    px: u32,
    py: u32,
    k: int,
)
    requires
        b.draw_ok(before.len(), width, x, y),
        b.drawn(before, after, width, x, y),
        b.border_color() != 0,
        x + b.spec_width() <= width,
        x <= px < x + b.spec_width(),
        y <= py < y + b.spec_height(),
        py < y + b.border_size().0 || y + b.spec_height() - b.border_size().2 <= py || px < x
            + b.border_size().3 || x + b.spec_width() - b.border_size().1 <= px,
        b.child()@.color == 0 || !(x + b.border_size().0 <= px < x + b.border_size().0
            + b.child()@.width && y + b.border_size().3 <= py < y + b.border_size().3
            + b.child()@.height),
        0 <= k < 4,
        pixel_offset(width, px, py) + k < before.len(),
    ensures
        after[pixel_offset(width, px, py) + k] == le_bytes(b.border_color())[k]
            || after[pixel_offset(width, px, py) + k] == be_bytes(b.border_color())[k],
{
    let (top, right, bottom, left) = b.border_size();
    let w = b.spec_width();
    let h = b.spec_height();
    let color = b.border_color();
    let (s1, s2, s3, s4) = choose|s1: Seq<u8>, s2: Seq<u8>, s3: Seq<u8>, s4: Seq<u8>|
        #![trigger rect_drawn(b.top_bar(), before, s1, width, x, y), rect_drawn(b.left_bar(), s3, s4, width, x, y), b.child().drawn(s4, after, width, (x + top) as u32, (y + left) as u32), rect_drawn(b.bottom_bar(), s1, s2, width, x, (y + h - bottom) as u32)]
        {
            &&& rect_drawn(b.top_bar(), before, s1, width, x, y)
            &&& rect_drawn(b.bottom_bar(), s1, s2, width, x, (y + h - bottom) as u32)
            &&& rect_drawn(b.right_bar(), s2, s3, width, (x + w - right) as u32, y)
            &&& rect_drawn(b.left_bar(), s3, s4, width, x, y)
            &&& b.child().drawn(s4, after, width, (x + top) as u32, (y + left) as u32)
        };
    let i = pixel_offset(width, px, py) + k;
    let total = before.len() as int;
    assert(pixel_offset(width, px, py) >= 0) by (nonlinear_arith)
        requires
            pixel_offset(width, px, py) == (px + py * width) * 4,
    ;
    assert(i % 4 == k) by (nonlinear_arith)
        requires
            i == (px + py * width) * 4 + k,
            px + py * width >= 0,
            0 <= k < 4,
    ;
    let by = (y + h - bottom) as u32;
    let rx = (x + w - right) as u32;
    lemma_rect_byte(b.top_bar(), before, s1, width, x, y, i);
    lemma_rect_byte(b.bottom_bar(), s1, s2, width, x, by, i);
    lemma_rect_byte(b.right_bar(), s2, s3, width, rx, y, i);
    lemma_rect_byte(b.left_bar(), s3, s4, width, x, y, i);
    if py < y + top {
        lemma_inside_rect(width, x, y, w as u32, top, px, py, k, total);
    }
    if by <= py {
        lemma_inside_rect(width, x, by, w as u32, bottom, px, py, k, total);
    }
    if rx <= px {
        lemma_inside_rect(width, rx, y, right, h as u32, px, py, k, total);
    }
    if px < x + left {
        lemma_inside_rect(width, x, y, left, h as u32, px, py, k, total);
    }
    assert(s4[i] == le_bytes(color)[k] || s4[i] == be_bytes(color)[k]);
    let child = b.child()@;
    if child.color != 0 {
        lemma_outside_rect(
            width,
            (x + top) as u32,
            (y + left) as u32,
            child.width,
            child.height,
            px,
            py,
            k,
            total,
        );
        lemma_rect_byte(child, s4, after, width, (x + top) as u32, (y + left) as u32, i);
    }
}

/// Drawing a border around a rectangle leaves the rectangle inside on top: every byte of a
/// pixel it covers shows its own color's byte for its place in the pixel, in the machine's byte
/// order, when its color is not 0.
pub proof fn lemma_border_child_on_top(
    b: Border<Rectangle>,
    before: Seq<u8>,
    after: Seq<u8>,
    width: u32,
    x: u32,
    y: u32,
    px: u32,
    py: u32,
    k: int,
)
    requires
        b.draw_ok(before.len(), width, x, y),
        b.drawn(before, after, width, x, y),
        b.child()@.color != 0,
        x + b.border_size().0 <= px < x + b.border_size().0 + b.child()@.width,
        y + b.border_size().3 <= py < y + b.border_size().3 + b.child()@.height,
        0 <= k < 4,
        pixel_offset(width, px, py) + k < before.len(),
    ensures
        after[pixel_offset(width, px, py) + k] == le_bytes(b.child()@.color)[k]
            || after[pixel_offset(width, px, py) + k] == be_bytes(b.child()@.color)[k],
{
    let (top, right, bottom, left) = b.border_size();
    let w = b.spec_width();
    let h = b.spec_height();
    let (s1, s2, s3, s4) = choose|s1: Seq<u8>, s2: Seq<u8>, s3: Seq<u8>, s4: Seq<u8>|
        #![trigger rect_drawn(b.top_bar(), before, s1, width, x, y), rect_drawn(b.left_bar(), s3, s4, width, x, y), b.child().drawn(s4, after, width, (x + top) as u32, (y + left) as u32), rect_drawn(b.bottom_bar(), s1, s2, width, x, (y + h - bottom) as u32)]
        {
            &&& rect_drawn(b.top_bar(), before, s1, width, x, y)
            &&& rect_drawn(b.bottom_bar(), s1, s2, width, x, (y + h - bottom) as u32)
            &&& rect_drawn(b.right_bar(), s2, s3, width, (x + w - right) as u32, y)
            &&& rect_drawn(b.left_bar(), s3, s4, width, x, y)
            &&& b.child().drawn(s4, after, width, (x + top) as u32, (y + left) as u32)
        };
    let i = pixel_offset(width, px, py) + k;
    let total = before.len() as int;
    assert(pixel_offset(width, px, py) >= 0) by (nonlinear_arith)
        requires
            pixel_offset(width, px, py) == (px + py * width) * 4,
    ;
    assert(i % 4 == k) by (nonlinear_arith)
        requires
            i == (px + py * width) * 4 + k,
            px + py * width >= 0,
            0 <= k < 4,
    ;
    let child = b.child()@;
    if b.border_color() != 0 {
        lemma_rect_byte(b.top_bar(), before, s1, width, x, y, i);
        lemma_rect_byte(b.bottom_bar(), s1, s2, width, x, (y + h - bottom) as u32, i);
        lemma_rect_byte(b.right_bar(), s2, s3, width, (x + w - right) as u32, y, i);
        lemma_rect_byte(b.left_bar(), s3, s4, width, x, y, i);
    }
    lemma_inside_rect(width, (x + top) as u32, (y + left) as u32, child.width, child.height, px, py, k, total);
    lemma_rect_byte(child, s4, after, width, (x + top) as u32, (y + left) as u32, i);
}

/// Drawing a border around a rectangle changes nothing outside its box, when the box lies
/// within the canvas rows and each bar is no longer than the side of the box it runs along.
pub proof fn lemma_border_outside_box(
    b: Border<Rectangle>,
    before: Seq<u8>,
    after: Seq<u8>,
    width: u32,
    x: u32,
    y: u32,
    px: u32,
    py: u32,
    k: int,
)
    requires
        b.draw_ok(before.len(), width, x, y),
        b.drawn(before, after, width, x, y),
        x + b.spec_width() <= width,
        b.border_size().0 <= b.spec_height(),
        b.border_size().2 <= b.spec_height(),
        b.border_size().1 <= b.spec_width(),
        b.border_size().3 <= b.spec_width(),
        px < width,
        !(x <= px < x + b.spec_width() && y <= py < y + b.spec_height()),
        0 <= k < 4,
        pixel_offset(width, px, py) + k < before.len(),
    ensures
        after.len() == before.len(),
        after[pixel_offset(width, px, py) + k] == before[pixel_offset(width, px, py) + k],
{
    let (top, right, bottom, left) = b.border_size();
    let w = b.spec_width();
    let h = b.spec_height();
    let (s1, s2, s3, s4) = choose|s1: Seq<u8>, s2: Seq<u8>, s3: Seq<u8>, s4: Seq<u8>|
        #![trigger rect_drawn(b.top_bar(), before, s1, width, x, y), rect_drawn(b.left_bar(), s3, s4, width, x, y), b.child().drawn(s4, after, width, (x + top) as u32, (y + left) as u32), rect_drawn(b.bottom_bar(), s1, s2, width, x, (y + h - bottom) as u32)]
        {
            &&& rect_drawn(b.top_bar(), before, s1, width, x, y)
            &&& rect_drawn(b.bottom_bar(), s1, s2, width, x, (y + h - bottom) as u32)
            &&& rect_drawn(b.right_bar(), s2, s3, width, (x + w - right) as u32, y)
            &&& rect_drawn(b.left_bar(), s3, s4, width, x, y)
            &&& b.child().drawn(s4, after, width, (x + top) as u32, (y + left) as u32)
        };
    let i = pixel_offset(width, px, py) + k;
    let total = before.len() as int;
    let by = (y + h - bottom) as u32;
    let rx = (x + w - right) as u32;
    if b.border_color() != 0 {
        lemma_outside_rect(width, x, y, w as u32, top, px, py, k, total);
        lemma_rect_byte(b.top_bar(), before, s1, width, x, y, i);
        lemma_outside_rect(width, x, by, w as u32, bottom, px, py, k, total);
        lemma_rect_byte(b.bottom_bar(), s1, s2, width, x, by, i);
        lemma_outside_rect(width, rx, y, right, h as u32, px, py, k, total);
        lemma_rect_byte(b.right_bar(), s2, s3, width, rx, y, i);
        lemma_outside_rect(width, x, y, left, h as u32, px, py, k, total);
        lemma_rect_byte(b.left_bar(), s3, s4, width, x, y, i);
    }
    let child = b.child()@;
    if child.color != 0 {
        lemma_outside_rect(width, (x + top) as u32, (y + left) as u32, child.width, child.height, px, py, k, total);
        lemma_rect_byte(child, s4, after, width, (x + top) as u32, (y + left) as u32, i);
    }
}

impl<W: Widget> Widget for Border<W> {

}

/// A widget drawn over a background widget, with padding `(top, right, bottom, left)`
/// between the two.
pub struct Background<B: Widget, W: Widget> {
    pub widget: W,
    pub background: B,
    padding: (u32, u32, u32, u32),
}

impl<B: Widget, W: Widget> Background<B, W> {
    pub closed spec fn child(&self) -> W {
        self.widget
    }

    pub closed spec fn backdrop(&self) -> B {
        self.background
    }

    /// The padding `(top, right, bottom, left)`.
    pub closed spec fn spec_padding(&self) -> (u32, u32, u32, u32) {
        self.padding
    }

    /// Builds the background around `widget` and resizes `background` to the widget's size
    /// plus the padding on both sides.
    pub fn new(widget: W, background: B, padding: u32) -> (r: Self)
        requires
            widget.width_ok(),
            widget.height_ok(),
            widget.spec_width() + 2 * padding <= u32::MAX,
            widget.spec_height() + 2 * padding <= u32::MAX,
            background.resize_ok(
                (widget.spec_width() + 2 * padding) as u32,
                (widget.spec_height() + 2 * padding) as u32,
            ),
        ensures
            r.child() == widget,
            r.spec_padding() == (padding, padding, padding, padding),
    {
        let mut background = background;
        let width = widget.get_width() + 2 * padding;
        let height = widget.get_height() + 2 * padding;
        let resized = background.resize(width, height);
        match resized {
            Ok(()) => {},
            Err(_) => {
                proof {
                    assert(false);
                }
            },
        }
        Self { widget, background, padding: (padding, padding, padding, padding) }
    }

    /// Sets the padding and resizes the background to the widget's size plus the padding.
    pub fn set_padding(&mut self, top: u32, right: u32, bottom: u32, left: u32)
        requires
            old(self).child().width_ok(),
            old(self).child().height_ok(),
            old(self).child().spec_width() + left + right <= u32::MAX,
            old(self).child().spec_height() + top + bottom <= u32::MAX,
            old(self).backdrop().resize_ok(
                (old(self).child().spec_width() + left + right) as u32,
                (old(self).child().spec_height() + top + bottom) as u32,
            ),
        ensures
            final(self).child() == old(self).child(),
            final(self).spec_padding() == (top, right, bottom, left),
    {
        let width = self.widget.get_width() + left + right;
        let height = self.widget.get_height() + top + bottom;
        let resized = self.background.resize(width, height);
        match resized {
            Ok(()) => {},
            Err(_) => {
                proof {
                    assert(false);
                }
            },
        }
        self.padding = (top, right, bottom, left);
    }
}

impl<W: Widget> Background<Rectangle, W> {
    /// A solid rectangle of `color` behind `widget`, sized to the widget plus the padding on
    /// both sides.
    pub fn solid(widget: W, color: u32, padding: u32) -> (r: Background<Rectangle, W>)
        requires
            widget.width_ok(),
            widget.height_ok(),
            widget.spec_width() + 2 * padding <= u32::MAX,
            widget.spec_height() + 2 * padding <= u32::MAX,
        ensures
            r.child() == widget,
            r.backdrop()@ == (RectangleView {
                width: (widget.spec_width() + 2 * padding) as u32,
                height: (widget.spec_height() + 2 * padding) as u32,
                radius: 0,
                color,
            }),
            r.spec_padding() == (padding, padding, padding, padding),
    {
        let width = widget.get_width() + 2 * padding;
        let height = widget.get_height() + 2 * padding;
        let background = Rectangle::new(width, height, color);
        Background { widget, background, padding: (padding, padding, padding, padding) }
    }
}

impl<B: Widget, W: Widget> Geometry for Background<B, W> {
    open spec fn spec_width(&self) -> nat {
        (self.child().spec_width() + self.spec_padding().1 + self.spec_padding().3) as nat
    }

    open spec fn spec_height(&self) -> nat {
        (self.child().spec_height() + self.spec_padding().0 + self.spec_padding().2) as nat
    }

    open spec fn width_ok(&self) -> bool {
        self.child().width_ok() && self.spec_width() <= u32::MAX
    }

    open spec fn height_ok(&self) -> bool {
        self.child().height_ok() && self.spec_height() <= u32::MAX
    }

    open spec fn resize_ok(&self, width: u32, height: u32) -> bool {
        self.child().resize_ok(width, height)
    }

    fn get_width(&self) -> (r: u32) {
        self.widget.get_width() + self.padding.1 + self.padding.3
    }

    fn get_height(&self) -> (r: u32) {
        self.widget.get_height() + self.padding.0 + self.padding.2
    }

    fn resize(&mut self, width: u32, height: u32) -> (r: Result<(), Error>)
        ensures
            final(self).backdrop() == old(self).backdrop(),
            final(self).spec_padding() == old(self).spec_padding(),
    {
        self.widget.resize(width, height)
    }

    open spec fn contains_ok(&self, widget_x: u32, widget_y: u32, x: u32, y: u32) -> bool {
        &&& widget_x + self.spec_padding().3 <= u32::MAX
        &&& widget_y + self.spec_padding().0 <= u32::MAX
        &&& self.child().contains_ok(
            (widget_x + self.spec_padding().3) as u32,
            (widget_y + self.spec_padding().0) as u32,
            x,
            y,
        )
    }

    /// The widget answers at its place inside the padding; the background stays.
    open spec fn answers(
        &self,
        widget_x: u32,
        widget_y: u32,
        x: u32,
        y: u32,
        event: Input,
        after: Self,
        damage: Damage,
    ) -> bool {
        &&& self.child().answers(
            (widget_x + self.spec_padding().3) as u32,
            (widget_y + self.spec_padding().0) as u32,
            x,
            y,
            event,
            after.child(),
            damage,
        )
        &&& after.backdrop() == self.backdrop()
        &&& after.spec_padding() == self.spec_padding()
    }

    fn contains(&mut self, widget_x: u32, widget_y: u32, x: u32, y: u32, event: Input) -> (r: Damage) {
        self.widget.contains(widget_x + self.padding.3, widget_y + self.padding.0, x, y, event)
    }
}

impl<B: Widget, W: Widget> Drawable for Background<B, W> {
    open spec fn draw_ok(&self, total: nat, width: u32, x: u32, y: u32) -> bool {
        &&& x + self.spec_padding().3 <= u32::MAX
        &&& y + self.spec_padding().0 <= u32::MAX
        &&& self.backdrop().draw_ok(total, width, x, y)
        &&& self.child().draw_ok(
            total,
            width,
            (x + self.spec_padding().3) as u32,
            (y + self.spec_padding().0) as u32,
        )
    }

    open spec fn drawn(&self, before: Seq<u8>, after: Seq<u8>, width: u32, x: u32, y: u32) -> bool {
        exists|mid: Seq<u8>|
            {
                &&& self.backdrop().drawn(before, mid, width, x, y)
                &&& self.child().drawn(
                    mid,
                    after,
                    width,
                    (x + self.spec_padding().3) as u32,
                    (y + self.spec_padding().0) as u32,
                )
            }
    }

    /// The background takes `color`; the widget keeps its own.
    open spec fn recolors(&self, color: u32, after: Self) -> bool {
        &&& after.child() == self.child()
        &&& after.spec_padding() == self.spec_padding()
        &&& self.backdrop().recolors(color, after.backdrop())
    }

    fn set_color(&mut self, color: u32)
        ensures
            final(self).child() == old(self).child(),
            final(self).spec_padding() == old(self).spec_padding(),
            old(self).backdrop().recolors(color, final(self).backdrop()),
    {
        self.background.set_color(color);
    }

    fn draw(&self, canvas: &mut [u8], width: u32, x: u32, y: u32) {
        self.background.draw(canvas, width, x, y);
        let ghost mid = canvas@;
        self.widget.draw(canvas, width, x + self.padding.3, y + self.padding.0);
        assert(self.backdrop().drawn(old(canvas)@, mid, width, x, y));
    }
}

impl<B: Widget, W: Widget> Widget for Background<B, W> {

}

/// Shows one of two widgets: `normal` until toggled, then `reveal`.
pub struct Revealer<N: Widget, R: Widget> {
    state: bool,
    normal: N,
    reveal: R,
}

impl<N: Widget, R: Widget> Revealer<N, R> {
    /// `true` while the revealed widget is shown.
    pub closed spec fn revealed(&self) -> bool {
        self.state
    }

    pub closed spec fn normal_widget(&self) -> N {
        self.normal
    }

    pub closed spec fn reveal_widget(&self) -> R {
        self.reveal
    }

    pub fn new(normal: N, reveal: R) -> (r: Revealer<N, R>)
        ensures
            !r.revealed(),
            r.normal_widget() == normal,
            r.reveal_widget() == reveal,
    {
        Revealer { state: false, normal, reveal }
    }

    /// Switches between the two widgets.
    pub fn toggle(&mut self)
        ensures
            final(self).revealed() == !old(self).revealed(),
            final(self).normal_widget() == old(self).normal_widget(),
            final(self).reveal_widget() == old(self).reveal_widget(),
    {
        if self.state {
            self.state = false
        } else {
            self.state = true
        }
    }
}

impl<N: Widget, R: Widget> Geometry for Revealer<N, R> {
    open spec fn spec_width(&self) -> nat {
        if self.revealed() {
            self.reveal_widget().spec_width()
        } else {
            self.normal_widget().spec_width()
        }
    }

    open spec fn spec_height(&self) -> nat {
        if self.revealed() {
            self.reveal_widget().spec_height()
        } else {
            self.normal_widget().spec_height()
        }
    }

    open spec fn width_ok(&self) -> bool {
        if self.revealed() {
            self.reveal_widget().width_ok()
        } else {
            self.normal_widget().width_ok()
        }
    }

    open spec fn height_ok(&self) -> bool {
        if self.revealed() {
            self.reveal_widget().height_ok()
        } else {
            self.normal_widget().height_ok()
        }
    }

    open spec fn resize_ok(&self, width: u32, height: u32) -> bool {
        if self.revealed() {
            self.reveal_widget().resize_ok(width, height)
        } else {
            self.normal_widget().resize_ok(width, height)
        }
    }

    fn get_width(&self) -> (r: u32) {
        if self.state {
            self.reveal.get_width()
        } else {
            self.normal.get_width()
        }
    }

    fn get_height(&self) -> (r: u32) {
        if self.state {
            self.reveal.get_height()
        } else {
            self.normal.get_height()
        }
    }

    fn resize(&mut self, width: u32, height: u32) -> (r: Result<(), Error>)
        ensures
            final(self).revealed() == old(self).revealed(),
            old(self).revealed() ==> final(self).normal_widget() == old(self).normal_widget(),
            !old(self).revealed() ==> final(self).reveal_widget() == old(self).reveal_widget(),
    {
        if self.state {
            self.reveal.resize(width, height)
        } else {
            self.normal.resize(width, height)
        }
    }

    open spec fn contains_ok(&self, widget_x: u32, widget_y: u32, x: u32, y: u32) -> bool {
        if self.revealed() {
            self.reveal_widget().contains_ok(widget_x, widget_y, x, y)
        } else {
            self.normal_widget().contains_ok(widget_x, widget_y, x, y)
        }
    }

    /// The widget shown answers; the other stays.
    open spec fn answers(
        &self,
        widget_x: u32,
        widget_y: u32,
        x: u32,
        y: u32,
        event: Input,
        after: Self,
        damage: Damage,
    ) -> bool {
        &&& after.revealed() == self.revealed()
        &&& if self.revealed() {
            &&& self.reveal_widget().answers(
                widget_x,
                widget_y,
                x,
                y,
                event,
                after.reveal_widget(),
                damage,
            )
            &&& after.normal_widget() == self.normal_widget()
        } else {
            &&& self.normal_widget().answers(
                widget_x,
                widget_y,
                x,
                y,
                event,
                after.normal_widget(),
                damage,
            )
            &&& after.reveal_widget() == self.reveal_widget()
        }
    }

    fn contains(&mut self, widget_x: u32, widget_y: u32, x: u32, y: u32, event: Input) -> (r: Damage) {
        if self.state {
            self.reveal.contains(widget_x, widget_y, x, y, event)
        } else {
            self.normal.contains(widget_x, widget_y, x, y, event)
        }
    }
}

impl<N: Widget, R: Widget> Drawable for Revealer<N, R> {
    open spec fn draw_ok(&self, total: nat, width: u32, x: u32, y: u32) -> bool {
        if self.revealed() {
            self.reveal_widget().draw_ok(total, width, x, y)
        } else {
            self.normal_widget().draw_ok(total, width, x, y)
        }
    }

    open spec fn drawn(&self, before: Seq<u8>, after: Seq<u8>, width: u32, x: u32, y: u32) -> bool {
        if self.revealed() {
            self.reveal_widget().drawn(before, after, width, x, y)
        } else {
            self.normal_widget().drawn(before, after, width, x, y)
        }
    }

    /// The widget shown takes `color`; the other keeps its own.
    open spec fn recolors(&self, color: u32, after: Self) -> bool {
        &&& after.revealed() == self.revealed()
        &&& if self.revealed() {
            &&& self.reveal_widget().recolors(color, after.reveal_widget())
            &&& after.normal_widget() == self.normal_widget()
        } else {
            &&& self.normal_widget().recolors(color, after.normal_widget())
            &&& after.reveal_widget() == self.reveal_widget()
        }
    }

    fn set_color(&mut self, color: u32) {
        if self.state {
            self.reveal.set_color(color);
        } else {
            self.normal.set_color(color);
        }
    }

    fn draw(&self, canvas: &mut [u8], width: u32, x: u32, y: u32) {
        if self.state {
            self.reveal.draw(canvas, width, x, y)
        } else {
            self.normal.draw(canvas, width, x, y)
        }
    }
}

impl<N: Widget, R: Widget> Widget for Revealer<N, R> {

}

} // verus!
