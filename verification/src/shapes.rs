use vstd::prelude::*;

use crate::geometry::{can_offset, offset, Point, Rectangle, RotateAngle, Size};
use crate::mqtt_publish::bytes_to_vec;

verus! {

/// The colors the screen draws with.
#[derive(Copy, Clone, Debug, PartialEq, Eq, Structural)]
pub enum Color {
    Black,
    Red,
    Blue,
    LightBlue,
    Gray,
    LightGray,
    Green,
    Yellow,
    White,
}

/// The raw number of a color.
pub open spec fn spec_color_raw(c: Color) -> u8 {
    match c {
        Color::Black => 0,
        Color::Red => 1,
        Color::Blue => 2,
        Color::LightBlue => 3,
        Color::Gray => 4,
        Color::LightGray => 5,
        Color::Green => 6,
        Color::Yellow => 7,
        Color::White => 8,
    }
}

/// The color of a raw number; every number from 8 up is white.
pub open spec fn spec_color_from_raw(raw: u8) -> Color {
    if raw == 0 {
        Color::Black
    } else if raw == 1 {
        Color::Red
    } else if raw == 2 {
        Color::Blue
    } else if raw == 3 {
        Color::LightBlue
    } else if raw == 4 {
        Color::Gray
    } else if raw == 5 {
        Color::LightGray
    } else if raw == 6 {
        Color::Green
    } else if raw == 7 {
        Color::Yellow
    } else {
        Color::White
    }
}

impl Color {
    /// Whether the color shows as off on a two-color display: black and gray do.
    pub fn is_off(&self) -> (b: bool)
        ensures
            b == (*self == Color::Black || *self == Color::Gray),
    {
        match self {
            Color::Black => true,
            Color::Gray => true,
            _ => false,
        }
    }

    /// The color on a two-color display: `true` for on.
    pub fn into_binary(self) -> (on: bool)
        ensures
            on == !(self == Color::Black || self == Color::Gray),
    {
        !self.is_off()
    }

    /// The raw number of the color, its place in the list of colors.
    pub fn raw(self) -> (r: u8)
        ensures
            r == spec_color_raw(self),
            r <= 8,
    {
        match self {
            Color::Black => 0,
            Color::Red => 1,
            Color::Blue => 2,
            Color::LightBlue => 3,
            Color::Gray => 4,
            Color::LightGray => 5,
            Color::Green => 6,
            Color::Yellow => 7,
            Color::White => 8,
        }
    }

    /// The color of a raw number; every number from 8 up is white.
    pub fn from_raw(raw: u8) -> (c: Self)
        ensures
            c == spec_color_from_raw(raw),
    {
        if raw == 0 {
            Color::Black
        } else if raw == 1 {
            Color::Red
        } else if raw == 2 {
            Color::Blue
        } else if raw == 3 {
            Color::LightBlue
        } else if raw == 4 {
            Color::Gray
        } else if raw == 5 {
            Color::LightGray
        } else if raw == 6 {
            Color::Green
        } else if raw == 7 {
            Color::Yellow
        } else {
            Color::White
        }
    }
}

/// Law: a color read back from its raw number is the same color.
pub proof fn law_color_raw_round_trip(c: Color)
    ensures
        spec_color_from_raw(spec_color_raw(c)) == c,
        spec_color_raw(c) < 16,
{
}

/// The fonts the screen writes with.
#[derive(Copy, Clone, Debug, PartialEq, Eq, Structural)]
pub enum Font {
    Profont10,
    Profont12,
    Profont14,
    Profont18,
    Profont24,
}

/// The size of a character of a font, as the font crate defines it.
pub open spec fn spec_character_size(font: Font) -> Size {
    match font {
        Font::Profont10 => Size { width: 6, height: 12 },
        Font::Profont12 => Size { width: 7, height: 15 },
        Font::Profont14 => Size { width: 10, height: 17 },
        Font::Profont18 => Size { width: 12, height: 22 },
        Font::Profont24 => Size { width: 16, height: 29 },
    }
}

/// The character size of `profont::PROFONT_10_POINT`; the font crate
/// defines it as 6 by 12.
#[verifier::external_body]
fn profont_10_character_size() -> (s: Size)
    ensures
        s == (Size { width: 6, height: 12 }),
{
    let c = profont::PROFONT_10_POINT.character_size;
    Size { width: c.width, height: c.height }
}

/// The character size of `profont::PROFONT_12_POINT`; the font crate
/// defines it as 7 by 15.
#[verifier::external_body]
fn profont_12_character_size() -> (s: Size)
    ensures
        s == (Size { width: 7, height: 15 }),
{
    let c = profont::PROFONT_12_POINT.character_size;
    Size { width: c.width, height: c.height }
}

/// The character size of `profont::PROFONT_14_POINT`; the font crate
/// defines it as 10 by 17.
#[verifier::external_body]
fn profont_14_character_size() -> (s: Size)
    ensures
        s == (Size { width: 10, height: 17 }),
{
    let c = profont::PROFONT_14_POINT.character_size;
    Size { width: c.width, height: c.height }
}

/// The character size of `profont::PROFONT_18_POINT`; the font crate
/// defines it as 12 by 22.
#[verifier::external_body]
fn profont_18_character_size() -> (s: Size)
    ensures
        s == (Size { width: 12, height: 22 }),
{
    let c = profont::PROFONT_18_POINT.character_size;
    Size { width: c.width, height: c.height }
}

/// The character size of `profont::PROFONT_24_POINT`; the font crate
/// defines it as 16 by 29.
#[verifier::external_body]
fn profont_24_character_size() -> (s: Size)
    ensures
        s == (Size { width: 16, height: 29 }),
{
    let c = profont::PROFONT_24_POINT.character_size;
    Size { width: c.width, height: c.height }
}

/// The size of a character of a font.
pub fn character_size(font: Font) -> (s: Size)
    ensures
        s == spec_character_size(font),
{
    match font {
        Font::Profont10 => profont_10_character_size(),
        Font::Profont12 => profont_12_character_size(),
        Font::Profont14 => profont_14_character_size(),
        Font::Profont18 => profont_18_character_size(),
        Font::Profont24 => profont_24_character_size(),
    }
}

/// Whether a rectangle has no pixel.
pub open spec fn is_empty(r: Rectangle) -> bool {
    r.size.width == 0 || r.size.height == 0
}

/// The bottom right pixel of a non-empty rectangle.
pub open spec fn spec_bottom_right(r: Rectangle) -> (int, int) {
    (r.top_left.x + r.size.width - 1, r.top_left.y + r.size.height - 1)
}

/// Whether a non-empty rectangle holds a point.
pub open spec fn spec_contains(r: Rectangle, p: Point) -> bool {
    &&& !is_empty(r)
    &&& r.top_left.x <= p.x <= spec_bottom_right(r).0
    &&& r.top_left.y <= p.y <= spec_bottom_right(r).1
}

/// Whether the closed ranges `a0..=a1` and `b0..=b1` share a number, in
/// the three cases that `embedded_graphics` tests.
pub open spec fn ranges_overlap(a0: int, a1: int, b0: int, b1: int) -> bool {
    ||| b0 <= a0 <= b1
    ||| b0 <= a1 <= b1
    ||| (a0 < b0 && a1 > b1)
}

/// The empty rectangle at the origin.
pub open spec fn zero_rect() -> Rectangle {
    Rectangle { top_left: Point { x: 0, y: 0 }, size: Size { width: 0, height: 0 } }
}

/// Whether `embedded_graphics` can take the corners of a rectangle without
/// overflow: an empty one has none, a non-empty one must fit in `i32`.
pub open spec fn corners_fit(r: Rectangle) -> bool {
    !is_empty(r) ==> can_offset(r.top_left, r.size)
}

/// The intersection of two rectangles as `Rectangle::intersection` of
/// `embedded_graphics` computes it: for two non-empty overlapping ones the
/// rectangle between the larger top left and the smaller bottom right
/// corner; an empty one inside a non-empty one is itself; otherwise the
/// empty rectangle at the origin.
pub open spec fn spec_intersection(a: Rectangle, b: Rectangle) -> Rectangle {
    if !is_empty(a) && !is_empty(b) {
        let ar = spec_bottom_right(a);
        let br = spec_bottom_right(b);
        if ranges_overlap(a.top_left.x as int, ar.0, b.top_left.x as int, br.0)
            && ranges_overlap(a.top_left.y as int, ar.1, b.top_left.y as int, br.1) {
            let left = if a.top_left.x >= b.top_left.x { a.top_left.x } else { b.top_left.x };
            let top = if a.top_left.y >= b.top_left.y { a.top_left.y } else { b.top_left.y };
            let right = if ar.0 <= br.0 { ar.0 } else { br.0 };
            let bottom = if ar.1 <= br.1 { ar.1 } else { br.1 };
            Rectangle {
                top_left: Point { x: left, y: top },
                size: Size { width: (right - left + 1) as u32, height: (bottom - top + 1) as u32 },
            }
        } else {
            zero_rect()
        }
    } else if is_empty(a) && !is_empty(b) {
        if spec_contains(b, a.top_left) {
            a
        } else {
            zero_rect()
        }
    } else if !is_empty(a) && is_empty(b) {
        if spec_contains(a, b.top_left) {
            b
        } else {
            zero_rect()
        }
    } else {
        zero_rect()
    }
}

/// The intersection of two rectangles, by `Rectangle::intersection` of
/// `embedded_graphics` (its source: the bottom right corners of both, an
/// overlap test on each axis, then `Rectangle::with_corners` of the larger
/// top left and the smaller bottom right corner; the cases of an empty
/// rectangle by `contains`). The contract claims that it returns
/// `spec_intersection`; `requires` leaves out the rectangles whose corners
/// overflow `i32`, where its debug build panics.
#[verifier::external_body]
fn intersection(a: &Rectangle, b: &Rectangle) -> (r: Rectangle)
    requires
        corners_fit(*a),
        corners_fit(*b),
    ensures
        r == spec_intersection(*a, *b),
{
    let ra = embedded_graphics::primitives::Rectangle::new(
        embedded_graphics::prelude::Point::new(a.top_left.x, a.top_left.y),
        embedded_graphics::prelude::Size::new(a.size.width, a.size.height),
    );
    let rb = embedded_graphics::primitives::Rectangle::new(
        embedded_graphics::prelude::Point::new(b.top_left.x, b.top_left.y),
        embedded_graphics::prelude::Size::new(b.size.width, b.size.height),
    );
    let r = ra.intersection(&rb);
    Rectangle {
        top_left: Point { x: r.top_left.x, y: r.top_left.y },
        size: Size { width: r.size.width, height: r.size.height },
    }
}

/// Law: the intersection of two rectangles whose corners fit has corners
/// that fit, and where it is not empty it lies within both.
pub proof fn law_intersection_within(a: Rectangle, b: Rectangle)
    requires
        corners_fit(a),
        corners_fit(b),
    ensures
        corners_fit(spec_intersection(a, b)),
        !is_empty(spec_intersection(a, b)) ==> {
            let r = spec_intersection(a, b);
            &&& spec_contains(a, r.top_left) && spec_contains(b, r.top_left)
            &&& spec_bottom_right(r).0 <= spec_bottom_right(a).0
            &&& spec_bottom_right(r).0 <= spec_bottom_right(b).0
            &&& spec_bottom_right(r).1 <= spec_bottom_right(a).1
            &&& spec_bottom_right(r).1 <= spec_bottom_right(b).1
        },
{
}

/// The box of a target cropped to `area` from a target with box `parent`:
/// from the origin, the size of the part of the area within the parent.
pub open spec fn spec_cropped_bbox(parent: Rectangle, area: Rectangle) -> Rectangle {
    Rectangle { top_left: Point { x: 0, y: 0 }, size: spec_intersection(area, parent).size }
}

/// The box of a target cropped to `area` from a target with box `parent`.
pub fn cropped_bbox(parent: &Rectangle, area: &Rectangle) -> (r: Rectangle)
    requires
        corners_fit(*parent),
        corners_fit(*area),
    ensures
        r == spec_cropped_bbox(*parent, *area),
{
    let i = intersection(area, parent);
    Rectangle { top_left: Point { x: 0, y: 0 }, size: i.size }
}

/// How text is placed at its position.
#[derive(Copy, Clone, Debug, PartialEq, Eq, Structural)]
pub enum TextPlacement {
    /// The position is the top left of the text.
    TopLeft,
    /// The position is the middle of the text.
    MiddleCenter,
}

/// A change of the target that a drawing goes through: a crop (the area
/// becomes the target, its corner the origin), a clip (drawing is limited
/// to the area), or a rotation.
#[derive(Copy, Clone, Debug, PartialEq, Eq, Structural)]
pub enum Frame {
    Crop(Rectangle),
    Clip(Rectangle),
    Rotate(RotateAngle),
}

/// A shape to draw; `T` holds the bytes of a text.
#[derive(Clone, Debug)]
pub enum Shape<T> {
    /// A filled rectangle.
    Fill(Rectangle, Color),
    /// The outline of a rectangle, with a stroke width.
    Stroke(Rectangle, Color, u32),
    /// A text at a position.
    Text(Point, T, Color, Font, TextPlacement),
    /// A line between two points, with a stroke width.
    Line(Point, Point, Color, u32),
    /// A quarter arc around a center (from 45 degrees, over 90 degrees),
    /// with a diameter and a stroke width.
    Arc(Point, u32, Color, u32),
    /// A filled circle around a center, with a diameter.
    Disc(Point, u32, Color),
}

/// A shape and the frames, outermost first, that it is drawn through.
pub struct DrawOp {
    pub frames: Vec<Frame>,
    pub shape: Shape<Vec<u8>>,
}

/// What a shape is, its text as a sequence.
pub open spec fn shape_view(s: Shape<Vec<u8>>) -> Shape<Seq<u8>> {
    match s {
        Shape::Fill(r, c) => Shape::Fill(r, c),
        Shape::Stroke(r, c, w) => Shape::Stroke(r, c, w),
        Shape::Text(p, t, c, f, pl) => Shape::Text(p, t@, c, f, pl),
        Shape::Line(a, b, c, w) => Shape::Line(a, b, c, w),
        Shape::Arc(p, d, c, w) => Shape::Arc(p, d, c, w),
        Shape::Disc(p, d, c) => Shape::Disc(p, d, c),
    }
}

impl View for DrawOp {
    type V = (Seq<Frame>, Shape<Seq<u8>>);

    open spec fn view(&self) -> (Seq<Frame>, Shape<Seq<u8>>) {
        (self.frames@, shape_view(self.shape))
    }
}

/// The views of a run of operations.
pub open spec fn op_views(ops: Seq<DrawOp>) -> Seq<(Seq<Frame>, Shape<Seq<u8>>)> {
    ops.map_values(|o: DrawOp| o@)
}

/// A shape drawn straight on the target.
pub open spec fn plain(s: Shape<Seq<u8>>) -> (Seq<Frame>, Shape<Seq<u8>>) {
    (Seq::empty(), s)
}

/// Operations drawn through one more frame, outside the ones they have.
pub open spec fn framed(frame: Frame, ops: Seq<(Seq<Frame>, Shape<Seq<u8>>)>) -> Seq<
    (Seq<Frame>, Shape<Seq<u8>>),
> {
    ops.map_values(|o: (Seq<Frame>, Shape<Seq<u8>>)| (seq![frame] + o.0, o.1))
}

/// What an operation draws: its frames, outermost first, and its shape.
pub type OpView = (Seq<Frame>, Shape<Seq<u8>>);

/// The views of a run of operations grow by one view per pushed operation.
pub proof fn lemma_op_views_push(ops: Seq<DrawOp>, op: DrawOp)
    ensures
        op_views(ops.push(op)) == op_views(ops).push(op@),
{
    assert(op_views(ops.push(op)) =~= op_views(ops).push(op@));
}

/// The views of two runs of operations one after the other.
pub proof fn lemma_op_views_add(a: Seq<DrawOp>, b: Seq<DrawOp>)
    ensures
        op_views(a + b) == op_views(a) + op_views(b),
{
    assert(op_views(a + b) =~= op_views(a) + op_views(b));
}

/// Adds an operation at the end of a run.
pub(crate) fn push_op(ops: &mut Vec<DrawOp>, op: DrawOp)
    ensures
        op_views(final(ops)@) == op_views(old(ops)@).push(op@),
{
    let ghost before = ops@;
    ops.push(op);
    proof {
        lemma_op_views_push(before, op);
    }
}

/// Adds a run of operations at the end of a run.
pub(crate) fn append_ops(ops: &mut Vec<DrawOp>, more: Vec<DrawOp>)
    ensures
        op_views(final(ops)@) == op_views(old(ops)@) + op_views(more@),
{
    let ghost before = ops@;
    let ghost added = more@;
    let mut more = more;
    ops.append(&mut more);
    proof {
        lemma_op_views_add(before, added);
    }
}

/// An operation drawing a shape straight on the target.
pub fn plain_op(shape: Shape<Vec<u8>>) -> (o: DrawOp)
    ensures
        o@ == plain(shape_view(shape)),
{
    DrawOp { frames: Vec::new(), shape }
}

/// An operation drawn through one more frame, outside the ones it has.
pub fn frame_op(frame: Frame, op: DrawOp) -> (r: DrawOp)
    ensures
        r@ == (seq![frame] + op@.0, op@.1),
{
    let DrawOp { frames: mut inner, shape } = op;
    let mut frames: Vec<Frame> = Vec::new();
    frames.push(frame);
    frames.append(&mut inner);
    DrawOp { frames, shape }
}

/// Puts operations behind one more frame.
pub fn frame_ops(frame: Frame, ops: Vec<DrawOp>) -> (r: Vec<DrawOp>)
    ensures
        op_views(r@) == framed(frame, op_views(ops@)),
{
    let ghost orig = op_views(ops@);
    let mut rest = ops;
    let mut r: Vec<DrawOp> = Vec::new();
    assert(op_views(r@) + framed(frame, op_views(rest@)) =~= framed(frame, orig));
    while rest.len() > 0
        invariant
            op_views(r@) + framed(frame, op_views(rest@)) == framed(frame, orig),
        decreases rest@.len(),
    {
        let ghost before_rest = rest@;
        let ghost before_r = r@;
        let op = rest.remove(0);
        let f = frame_op(frame, op);
        r.push(f);
        proof {
            assert(op_views(before_rest) =~= seq![op@] + op_views(rest@));
            assert(framed(frame, op_views(before_rest)) =~= seq![f@] + framed(frame, op_views(rest@)));
            assert(op_views(r@) =~= op_views(before_r) + seq![f@]);
            assert(op_views(r@) + framed(frame, op_views(rest@)) =~= op_views(before_r) + framed(frame, op_views(before_rest)));
        }
    }
    assert(op_views(r@) + framed(frame, op_views(rest@)) =~= op_views(r@));
    r
}

} // verus!

verus! {

/// The operation that fills an area with black.
pub fn clear(area: &Rectangle) -> (o: DrawOp)
    ensures
        o@ == plain(Shape::Fill(*area, Color::Black)),
{
    plain_op(Shape::Fill(*area, Color::Black))
}

/// The operation that fills an area with a color.
pub fn fill(area: &Rectangle, color: Color) -> (o: DrawOp)
    ensures
        o@ == plain(Shape::Fill(*area, color)),
{
    plain_op(Shape::Fill(*area, color))
}

/// The operation that draws the outline of an area with a stroke width.
pub fn draw(area: &Rectangle, color: Color, width: u32) -> (o: DrawOp)
    ensures
        o@ == plain(Shape::Stroke(*area, color, width)),
{
    plain_op(Shape::Stroke(*area, color, width))
}

/// The operation that writes a text at a position; with no placement the
/// position is the top left of the text.
pub fn text(
    font: Font,
    position: Point,
    content: &[u8],
    color: Color,
    placement: Option<TextPlacement>,
) -> (o: DrawOp)
    ensures
        o@ == plain(
            Shape::Text(
                position,
                content@,
                color,
                font,
                match placement {
                    Some(p) => p,
                    None => TextPlacement::TopLeft,
                },
            ),
        ),
{
    let placement = match placement {
        Some(p) => p,
        None => TextPlacement::TopLeft,
    };
    plain_op(Shape::Text(position, bytes_to_vec(content), color, font, placement))
}

/// The area that `clear_cropped` crops to: the box less the padding on
/// each side.
pub open spec fn spec_padded_area(bbox: Rectangle, padding: u32) -> Rectangle {
    Rectangle {
        top_left: Point {
            x: (bbox.top_left.x + padding) as i32,
            y: (bbox.top_left.y + padding) as i32,
        },
        size: Size {
            width: (bbox.size.width - padding * 2) as u32,
            height: (bbox.size.height - padding * 2) as u32,
        },
    }
}

/// Whether the padding fits in the box without overflow.
pub open spec fn padding_fits(bbox: Rectangle, padding: u32) -> bool {
    &&& padding * 2 <= bbox.size.width
    &&& padding * 2 <= bbox.size.height
    &&& can_offset(bbox.top_left, Size { width: padding, height: padding })
}

/// Clears the whole box of a target and gives the area, the box less the
/// padding on each side, that the drawing is then cropped to.
pub fn clear_cropped(bbox: &Rectangle, padding: u32) -> (r: (DrawOp, Rectangle))
    requires
        padding_fits(*bbox, padding),
    ensures
        r.0@ == plain(Shape::Fill(*bbox, Color::Black)),
        r.1 == spec_padded_area(*bbox, padding),
{
    let op = clear(bbox);
    let p = Size { width: padding, height: padding };
    let area = Rectangle {
        top_left: offset(bbox.top_left, p),
        size: Size { width: bbox.size.width - padding * 2, height: bbox.size.height - padding * 2 },
    };
    (op, area)
}

} // verus!
