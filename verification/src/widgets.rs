use vstd::prelude::*;

use crate::geometry::{can_offset, half, offset, trunc_div, Point, Rectangle, Size};
use crate::text::{
    all_digits, decimal_digits, decimal_value, is_digit, lemma_decimal_digits, lemma_decimal_digits_len,
    pow10, to_str,
};
use crate::shapes::{
    append_ops, character_size, clear_cropped, corners_fit, cropped_bbox, frame_ops, framed,
    op_views, padding_fits, plain, plain_op, push_op, spec_character_size,
    spec_cropped_bbox, spec_padded_area, Color, DrawOp, Font, Frame, OpView, Shape, TextPlacement,
};

verus! {

/// The last pixel of a box, `top_left + size - (1, 1)`, where a strike line ends.
pub open spec fn last_pixel(b: Rectangle) -> Point {
    Point {
        x: (b.top_left.x + b.size.width - 1) as i32,
        y: (b.top_left.y + b.size.height - 1) as i32,
    }
}

/// Whether the last pixel of a box can be computed without overflow.
pub open spec fn last_pixel_fits(b: Rectangle) -> bool {
    &&& can_offset(b.top_left, b.size)
    &&& b.top_left.x + b.size.width - 1 >= i32::MIN
    &&& b.top_left.y + b.size.height - 1 >= i32::MIN
}

fn last_pixel_of(b: &Rectangle) -> (p: Point)
    requires
        last_pixel_fits(*b),
    ensures
        p == last_pixel(*b),
{
    let q = offset(b.top_left, b.size);
    Point { x: q.x - 1, y: q.y - 1 }
}

/// The origin of a target.
pub open spec fn origin() -> Point {
    Point { x: 0, y: 0 }
}

/// A text in a padded box, optionally struck through.
pub struct Textbox {
    pub text: Vec<u8>,
    pub color: Color,
    pub divider: u32,
    pub padding: u32,
    pub outline: u32,
    pub strikethrough: bool,
    pub font: Font,
}

/// Whether the size of a text box fits in `u32`.
pub open spec fn textbox_size_fits(t: TextboxView) -> bool {
    let c = spec_character_size(t.font);
    &&& c.width * (t.text.len() as u32) + t.padding * 2 <= u32::MAX
    &&& c.height + t.padding * 2 <= u32::MAX
}

/// The size of a text box: one character cell per byte and the padding on
/// each side.
pub open spec fn spec_textbox_size(t: TextboxView) -> Size {
    let c = spec_character_size(t.font);
    Size {
        width: (c.width * (t.text.len() as u32) + t.padding * 2) as u32,
        height: (c.height + t.padding * 2) as u32,
    }
}

/// The area of a text box within its padding.
pub open spec fn spec_textbox_area(t: TextboxView) -> Rectangle {
    let size = spec_textbox_size(t);
    Rectangle {
        top_left: Point { x: t.padding as i32, y: t.padding as i32 },
        size: Size {
            width: (size.width - t.padding * 2) as u32,
            height: (size.height - t.padding * 2) as u32,
        },
    }
}

/// What a text box draws within its padding, on a target with box `bbox`:
/// the outline where it is struck through and has one, the text at the
/// origin, and the strike line from corner to corner.
pub open spec fn spec_textbox_shape(t: TextboxView, bbox: Rectangle) -> Seq<OpView> {
    (if t.outline > 0 && t.strikethrough {
        seq![plain(Shape::Stroke(bbox, t.color, t.outline))]
    } else {
        Seq::empty()
    }) + seq![plain(Shape::Text(origin(), t.text, t.color, t.font, TextPlacement::TopLeft))] + (
    if t.strikethrough {
        seq![plain(Shape::Line(bbox.top_left, last_pixel(bbox), Color::White, t.outline))]
    } else {
        Seq::empty()
    })
}

/// Whether a text box can be drawn on a target with box `bbox` without overflow.
pub open spec fn textbox_fits(t: TextboxView, bbox: Rectangle) -> bool {
    &&& textbox_size_fits(t)
    &&& corners_fit(bbox)
    &&& corners_fit(spec_textbox_area(t))
    &&& t.strikethrough ==> last_pixel_fits(spec_cropped_bbox(bbox, spec_textbox_area(t)))
}

/// What a text box draws on a target with box `bbox`: its whole size cleared
/// from the origin, then its shape cropped to the area within the padding.
pub open spec fn spec_textbox_draw(t: TextboxView, bbox: Rectangle) -> Seq<OpView> {
    seq![plain(Shape::Fill(Rectangle { top_left: origin(), size: spec_textbox_size(t) }, Color::Black))]
        + framed(
        Frame::Crop(spec_textbox_area(t)),
        spec_textbox_shape(t, spec_cropped_bbox(bbox, spec_textbox_area(t))),
    )
}

/// What a text box is: its fields, the text as a sequence.
pub struct TextboxView {
    pub text: Seq<u8>,
    pub color: Color,
    pub divider: u32,
    pub padding: u32,
    pub outline: u32,
    pub strikethrough: bool,
    pub font: Font,
}

impl View for Textbox {
    type V = TextboxView;

    open spec fn view(&self) -> TextboxView {
        TextboxView {
            text: self.text@,
            color: self.color,
            divider: self.divider,
            padding: self.padding,
            outline: self.outline,
            strikethrough: self.strikethrough,
            font: self.font,
        }
    }
}

impl Textbox {
    /// A yellow "???" in the large font, with a padding and outline of 2.
    pub fn new() -> (t: Self)
        ensures
            t.text@ == seq![63u8, 63u8, 63u8],
            t.color == Color::Yellow,
            t.divider == 1,
            t.padding == 2,
            t.outline == 2,
            !t.strikethrough,
            t.font == Font::Profont24,
    {
        Textbox {
            text: vec![63u8, 63u8, 63u8],
            color: Color::Yellow,
            divider: 1,
            padding: 2,
            outline: 2,
            strikethrough: false,
            font: Font::Profont24,
        }
    }

    /// The size of the box: one character cell per byte of the text and the
    /// padding on each side.
    pub fn size(&self) -> (s: Size)
        requires
            textbox_size_fits(self@),
        ensures
            s == spec_textbox_size(self@),
    {
        let c = character_size(self.font);
        let width = c.width * (self.text.len() as u32) + self.padding * 2;
        let height = c.height + self.padding * 2;
        Size { width, height }
    }

    /// The operations that draw the box on a target with box `bbox`.
    pub fn draw(&self, bbox: &Rectangle) -> (ops: Vec<DrawOp>)
        requires
            textbox_fits(self@, *bbox),
        ensures
            op_views(ops@) == spec_textbox_draw(self@, *bbox),
    {
        let size = self.size();
        let mut ops: Vec<DrawOp> = Vec::new();
        push_op(
            &mut ops,
            plain_op(Shape::Fill(Rectangle { top_left: Point { x: 0, y: 0 }, size }, Color::Black)),
        );
        let area = Rectangle {
            top_left: Point { x: self.padding as i32, y: self.padding as i32 },
            size: Size {
                width: size.width - self.padding * 2,
                height: size.height - self.padding * 2,
            },
        };
        let inner = cropped_bbox(bbox, &area);
        let shape = self.draw_shape(&inner);
        append_ops(&mut ops, frame_ops(Frame::Crop(area), shape));
        proof {
            assert(op_views(ops@) =~= spec_textbox_draw(self@, *bbox));
        }
        ops
    }

    fn draw_shape(&self, bbox: &Rectangle) -> (ops: Vec<DrawOp>)
        requires
            self.strikethrough ==> last_pixel_fits(*bbox),
        ensures
            op_views(ops@) == spec_textbox_shape(self@, *bbox),
    {
        let mut ops: Vec<DrawOp> = Vec::new();
        if self.outline > 0 && self.strikethrough {
            push_op(&mut ops, plain_op(Shape::Stroke(*bbox, self.color, self.outline)));
        }
        push_op(
            &mut ops,
            plain_op(
                Shape::Text(
                    Point { x: 0, y: 0 },
                    crate::mqtt_publish::bytes_to_vec(self.text.as_slice()),
                    self.color,
                    self.font,
                    TextPlacement::TopLeft,
                ),
            ),
        );
        if self.strikethrough {
            let end = last_pixel_of(bbox);
            push_op(&mut ops, plain_op(Shape::Line(bbox.top_left, end, Color::White, self.outline)));
        }
        proof {
            assert(op_views(ops@) =~= spec_textbox_shape(self@, *bbox));
        }
        ops
    }
}

impl Default for Textbox {
    fn default() -> (t: Self)
        ensures
            t.text@ == seq![63u8, 63u8, 63u8],
            t.color == Color::Yellow,
            t.divider == 1,
            t.padding == 2,
            t.outline == 2,
            !t.strikethrough,
            t.font == Font::Profont24,
    {
        Self::new()
    }
}

/// A wifi signal icon: three arcs and a dot, lit by the signal strength,
/// struck through when the strength is unknown.
#[derive(Clone, Debug)]
pub struct Wifi {
    pub padding: u32,
    pub outline: u32,
    pub strength: Option<u8>,
}

/// Whether a known strength is above a level.
pub open spec fn stronger_than(strength: Option<u8>, level: u8) -> bool {
    match strength {
        Some(s) => s > level,
        None => false,
    }
}

/// White for a lit part of the icon, gray for an unlit one.
pub open spec fn signal_color(lit: bool) -> Color {
    if lit {
        Color::White
    } else {
        Color::Gray
    }
}

/// The center of the arcs: the middle of the bottom edge, raised by the outline.
pub open spec fn wifi_center(w: &Wifi, bbox: Rectangle) -> Point {
    Point {
        x: (bbox.top_left.x + trunc_div((bbox.size.width as i32) as int, 2)) as i32,
        y: (bbox.top_left.y + (bbox.size.height as i32) - (w.outline as i32)) as i32,
    }
}

/// The diameter of the outer arc: four fifths of twice the height.
pub open spec fn wifi_diameter(bbox: Rectangle) -> u32 {
    (bbox.size.height * 2 * 4 / 5) as u32
}

/// Whether the icon's shape can be computed on a box without overflow.
pub open spec fn wifi_shape_fits(w: &Wifi, bbox: Rectangle) -> bool {
    &&& i32::MIN <= bbox.top_left.x + trunc_div((bbox.size.width as i32) as int, 2) <= i32::MAX
    &&& i32::MIN <= bbox.top_left.y + (bbox.size.height as i32) <= i32::MAX
    &&& i32::MIN <= bbox.top_left.y + (bbox.size.height as i32) - (w.outline as i32) <= i32::MAX
    &&& bbox.size.height * 8 <= u32::MAX
    &&& wifi_diameter(bbox) * 2 <= u32::MAX
    &&& w.outline * 2 <= u32::MAX
    &&& w.strength is None ==> last_pixel_fits(bbox)
}

/// What the icon draws on a target with box `bbox`: the arcs from the
/// outermost in, lit above 80, 40 and 20, the dot lit above 10, and a strike
/// line where the strength is unknown.
pub open spec fn spec_wifi_shape(w: &Wifi, bbox: Rectangle) -> Seq<OpView> {
    let c = wifi_center(w, bbox);
    let d = wifi_diameter(bbox);
    seq![
        plain(Shape::Arc(c, d, signal_color(stronger_than(w.strength, 80)), w.outline)),
        plain(Shape::Arc(c, (d * 2 / 3) as u32, signal_color(stronger_than(w.strength, 40)), w.outline)),
        plain(Shape::Arc(c, (d / 3) as u32, signal_color(stronger_than(w.strength, 20)), w.outline)),
        plain(Shape::Disc(c, (w.outline * 2) as u32, signal_color(stronger_than(w.strength, 10)))),
    ] + (if w.strength is None {
        seq![plain(Shape::Line(bbox.top_left, last_pixel(bbox), Color::White, w.outline))]
    } else {
        Seq::empty()
    })
}

/// Whether the icon can be drawn on a target with box `bbox` without overflow.
pub open spec fn wifi_fits(w: &Wifi, bbox: Rectangle) -> bool {
    &&& padding_fits(bbox, w.padding)
    &&& corners_fit(bbox)
    &&& corners_fit(spec_padded_area(bbox, w.padding))
    &&& wifi_shape_fits(w, spec_cropped_bbox(bbox, spec_padded_area(bbox, w.padding)))
}

/// What the icon draws on a target with box `bbox`: the box cleared, then the
/// shape cropped to the box less the padding.
pub open spec fn spec_wifi_draw(w: &Wifi, bbox: Rectangle) -> Seq<OpView> {
    let area = spec_padded_area(bbox, w.padding);
    seq![plain(Shape::Fill(bbox, Color::Black))] + framed(
        Frame::Crop(area),
        spec_wifi_shape(w, spec_cropped_bbox(bbox, area)),
    )
}

impl Wifi {
    /// A full signal with a padding of 10 and an outline of 4.
    pub fn new() -> (w: Self)
        ensures
            w.padding == 10,
            w.outline == 4,
            w.strength == Some(100u8),
    {
        Wifi { padding: 10, outline: 4, strength: Some(100) }
    }

    /// The operations that draw the icon on a target with box `bbox`.
    pub fn draw(&self, bbox: &Rectangle) -> (ops: Vec<DrawOp>)
        requires
            wifi_fits(self, *bbox),
        ensures
            op_views(ops@) == spec_wifi_draw(self, *bbox),
    {
        let (clear_op, area) = clear_cropped(bbox, self.padding);
        let mut ops: Vec<DrawOp> = Vec::new();
        push_op(&mut ops, clear_op);
        let inner = cropped_bbox(bbox, &area);
        append_ops(&mut ops, frame_ops(Frame::Crop(area), self.draw_shape(&inner)));
        proof {
            assert(op_views(ops@) =~= spec_wifi_draw(self, *bbox));
        }
        ops
    }

    fn draw_shape(&self, bbox: &Rectangle) -> (ops: Vec<DrawOp>)
        requires
            wifi_shape_fits(self, *bbox),
        ensures
            op_views(ops@) == spec_wifi_shape(self, *bbox),
    {
        let width = bbox.size.width;
        let height = bbox.size.height;
        let center = Point {
            x: bbox.top_left.x + half(width as i32),
            y: bbox.top_left.y + height as i32 - self.outline as i32,
        };
        let diameter = height * 2 * 4 / 5;
        let mut ops: Vec<DrawOp> = Vec::new();
        push_op(&mut ops, self.draw_arc(center, diameter, self.stronger_than(80)));
        push_op(&mut ops, self.draw_arc(center, diameter * 2 / 3, self.stronger_than(40)));
        push_op(&mut ops, self.draw_arc(center, diameter / 3, self.stronger_than(20)));
        let dot = if self.stronger_than(10) {
            Color::White
        } else {
            Color::Gray
        };
        push_op(&mut ops, plain_op(Shape::Disc(center, self.outline * 2, dot)));
        if self.strength.is_none() {
            let end = last_pixel_of(bbox);
            push_op(&mut ops, plain_op(Shape::Line(bbox.top_left, end, Color::White, self.outline)));
        }
        proof {
            assert(op_views(ops@) =~= spec_wifi_shape(self, *bbox));
        }
        ops
    }

    fn stronger_than(&self, level: u8) -> (b: bool)
        ensures
            b == stronger_than(self.strength, level),
    {
        match self.strength {
            Some(s) => s > level,
            None => false,
        }
    }

    fn draw_arc(&self, center: Point, diameter: u32, strong_signal: bool) -> (o: DrawOp)
        ensures
            o@ == plain(Shape::Arc(center, diameter, signal_color(strong_signal), self.outline)),
    {
        let color = if strong_signal {
            Color::White
        } else {
            Color::Gray
        };
        plain_op(Shape::Arc(center, diameter, color, self.outline))
    }
}

impl Default for Wifi {
    fn default() -> (w: Self)
        ensures
            w.padding == 10,
            w.outline == 4,
            w.strength == Some(100u8),
    {
        Self::new()
    }
}

/// `n` copies of a byte.
pub open spec fn repeated(b: u8, n: nat) -> Seq<u8> {
    Seq::new(n, |i: int| b)
}

fn repeat_byte(b: u8, n: usize) -> (v: Vec<u8>)
    ensures
        v@ == repeated(b, n as nat),
{
    let mut v: Vec<u8> = Vec::new();
    let mut i: usize = 0;
    while i < n
        invariant
            i <= n,
            v@ == repeated(b, i as nat),
        decreases n - i,
    {
        v.push(b);
        i = i + 1;
        assert(v@ =~= repeated(b, i as nat));
    }
    v
}

/// How a battery icon shows its charge as text.
#[derive(Copy, Clone, Debug, PartialEq, Eq, Structural)]
pub enum BatteryChargedText {
    /// No text.
    No,
    /// The text in the light color over the whole icon.
    Outline,
    /// The text in the light color above the fill line and in black below it.
    Xor,
}

/// A battery icon: an outlined body with a cathode on top, filled from the
/// bottom up to the charge.
pub struct Battery {
    pub size: Size,
    pub padding: u32,
    pub outline: u32,
    pub distinct_outline: bool,
    pub cathode: Size,
    pub percentage_threhsold: u8,
    pub text: BatteryChargedText,
    pub font: Font,
    pub charged_percentage: Option<u8>,
}

/// The charge, 0 where it is unknown.
pub open spec fn battery_percentage(b: &Battery) -> u8 {
    match b.charged_percentage {
        Some(p) => p,
        None => 0,
    }
}

/// The height above the charge fill: none at 100% and above, otherwise the
/// uncharged share of the height, rounded down.
pub open spec fn fill_line(b: &Battery, height: u32) -> u32 {
    if battery_percentage(b) >= 100 {
        0
    } else {
        (height * (100 - battery_percentage(b)) / 100) as u32
    }
}

/// The color of the charge: red under the threshold, green otherwise,
/// yellow where the charge is unknown.
pub open spec fn charged_color(b: &Battery) -> Color {
    match b.charged_percentage {
        Some(p) => if p < b.percentage_threhsold {
            Color::Red
        } else {
            Color::Green
        },
        None => Color::Yellow,
    }
}

/// The color of the outline: white where it is distinct and the charge
/// known, otherwise the color of the charge.
pub open spec fn outline_color(b: &Battery) -> Color {
    if b.distinct_outline && b.charged_percentage is Some {
        Color::White
    } else {
        charged_color(b)
    }
}

/// The color of the text above the fill line: the color of the charge under
/// the threshold, the outline color otherwise.
pub open spec fn light_color(b: &Battery) -> Color {
    if battery_percentage(b) < b.percentage_threhsold {
        charged_color(b)
    } else {
        outline_color(b)
    }
}

/// The text of the charge: its digits and a percent sign, or "?".
pub open spec fn percentage_text(charged: Option<u8>) -> Seq<u8> {
    match charged {
        Some(p) => decimal_digits(p as nat) + seq![37u8],
        None => seq![63u8],
    }
}

/// A filled rectangle.
pub open spec fn fill_at(x: int, y: int, width: int, height: int, color: Color) -> OpView {
    plain(
        Shape::Fill(
            Rectangle {
                top_left: Point { x: x as i32, y: y as i32 },
                size: Size { width: width as u32, height: height as u32 },
            },
            color,
        ),
    )
}

/// The text of the charge, centered at `position`.
pub open spec fn spec_percentage(b: &Battery, position: Point, color: Color) -> Seq<OpView> {
    seq![
        plain(
            Shape::Text(
                position,
                percentage_text(b.charged_percentage),
                color,
                b.font,
                TextPlacement::MiddleCenter,
            ),
        ),
    ]
}

/// Whether the icon's shape can be computed on a target of `size` without overflow.
pub open spec fn battery_shape_fits(b: &Battery, size: Size) -> bool {
    let w = size.width as int;
    let h = size.height as int;
    let o = b.outline as int;
    let cw = b.cathode.width as int;
    let ch = b.cathode.height as int;
    let wi = (size.width as i32) as int;
    let hi = (size.height as i32) as int;
    let oi = (b.outline as i32) as int;
    let cwi = (b.cathode.width as i32) as int;
    &&& battery_percentage(b) < 100 ==> h * (100 - battery_percentage(b)) <= u32::MAX
    &&& ch <= h
    &&& cw <= w
    &&& ch + o <= u32::MAX
    &&& i32::MIN <= wi - oi <= i32::MAX
    &&& i32::MIN <= hi - oi <= i32::MAX
    &&& i32::MIN <= wi - cwi <= i32::MAX
    &&& i32::MIN <= wi + cwi <= i32::MAX
    &&& i32::MIN <= trunc_div(wi + cwi, 2) - oi <= i32::MAX
}

/// What the icon draws on a target of `size`: the charge fill, the outline
/// of body and cathode, the corners beside the cathode cleared, and the text
/// of the charge as `text` asks.
pub open spec fn spec_battery_shape(b: &Battery, size: Size) -> Seq<OpView> {
    let w = size.width as int;
    let h = size.height as int;
    let o = b.outline as int;
    let cw = b.cathode.width as int;
    let ch = b.cathode.height as int;
    let wi = (size.width as i32) as int;
    let hi = (size.height as i32) as int;
    let oi = (b.outline as i32) as int;
    let cwi = (b.cathode.width as i32) as int;
    let line = fill_line(b, size.height) as int;
    let oc = outline_color(b);
    let side = (w - cw) / 2;
    let left = trunc_div(wi - cwi, 2);
    let right = trunc_div(wi + cwi, 2);
    let position = Point { x: trunc_div(wi, 2) as i32, y: trunc_div(hi, 2) as i32 };
    seq![
        fill_at(0, line, w, h - line, charged_color(b)),
        fill_at(0, ch, o, h - ch, oc),
        fill_at(wi - oi, ch, o, h - ch, oc),
        fill_at(0, hi - oi, w, o, oc),
        fill_at(left, 0, cw, o, oc),
        fill_at(0, ch, side, o, oc),
        fill_at(right, ch, side, o, oc),
        fill_at(left, 0, o, ch + o, oc),
        fill_at(right - oi, 0, o, ch + o, oc),
        fill_at(0, 0, side, ch, Color::Black),
        fill_at(right, 0, side, ch, Color::Black),
    ] + if b.text == BatteryChargedText::Xor {
        framed(
            Frame::Clip(Rectangle { top_left: origin(), size: Size { width: size.width, height: line as u32 } }),
            spec_percentage(b, position, light_color(b)),
        ) + framed(
            Frame::Clip(
                Rectangle {
                    top_left: Point { x: 0, y: line as i32 },
                    size: Size { width: size.width, height: (h - line) as u32 },
                },
            ),
            spec_percentage(b, position, Color::Black),
        )
    } else if b.text == BatteryChargedText::Outline {
        spec_percentage(b, position, light_color(b))
    } else {
        Seq::empty()
    }
}

/// The area of a battery icon within its padding.
pub open spec fn spec_battery_area(b: &Battery) -> Rectangle {
    Rectangle {
        top_left: Point { x: b.padding as i32, y: b.padding as i32 },
        size: Size {
            width: (b.size.width - b.padding * 2) as u32,
            height: (b.size.height - b.padding * 2) as u32,
        },
    }
}

/// Whether the icon can be drawn on a target with box `bbox` without overflow.
pub open spec fn battery_fits(b: &Battery, bbox: Rectangle) -> bool {
    &&& b.padding * 2 <= b.size.width
    &&& b.padding * 2 <= b.size.height
    &&& corners_fit(bbox)
    &&& corners_fit(spec_battery_area(b))
    &&& battery_shape_fits(b, spec_cropped_bbox(bbox, spec_battery_area(b)).size)
}

/// What the icon draws on a target with box `bbox`: its size cleared from the
/// origin, then its shape cropped to the area within the padding.
pub open spec fn spec_battery_draw(b: &Battery, bbox: Rectangle) -> Seq<OpView> {
    seq![plain(Shape::Fill(Rectangle { top_left: origin(), size: b.size }, Color::Black))]
        + framed(
        Frame::Crop(spec_battery_area(b)),
        spec_battery_shape(b, spec_cropped_bbox(bbox, spec_battery_area(b)).size),
    )
}

fn fill_op(x: i32, y: i32, width: u32, height: u32, color: Color) -> (o: DrawOp)
    ensures
        o@ == fill_at(x as int, y as int, width as int, height as int, color),
{
    plain_op(
        Shape::Fill(
            Rectangle { top_left: Point { x, y }, size: Size { width, height } },
            color,
        ),
    )
}

impl Battery {
    /// A 100 by 200 icon with a padding of 10, a distinct outline of 2, a 40
    /// by 10 cathode, no threshold, the text in xor and a full charge.
    pub fn new() -> (b: Self)
        ensures
            b.size == (Size { width: 100, height: 200 }),
            b.padding == 10,
            b.outline == 2,
            b.distinct_outline,
            b.cathode == (Size { width: 40, height: 10 }),
            b.percentage_threhsold == 0,
            b.text == BatteryChargedText::Xor,
            b.font == Font::Profont24,
            b.charged_percentage == Some(100u8),
    {
        Battery {
            size: Size { width: 100, height: 200 },
            padding: 10,
            outline: 2,
            distinct_outline: true,
            cathode: Size { width: 40, height: 10 },
            percentage_threhsold: 0,
            text: BatteryChargedText::Xor,
            font: Font::Profont24,
            charged_percentage: Some(100),
        }
    }

    fn padded_size(&self) -> (s: Size)
        requires
            self.padding * 2 <= self.size.width,
            self.padding * 2 <= self.size.height,
        ensures
            s == spec_battery_area(self).size,
    {
        Size {
            width: self.size.width - self.padding * 2,
            height: self.size.height - self.padding * 2,
        }
    }

    /// The operations that draw the icon on a target with box `bbox`.
    pub fn draw(&self, bbox: &Rectangle) -> (ops: Vec<DrawOp>)
        requires
            battery_fits(self, *bbox),
        ensures
            op_views(ops@) == spec_battery_draw(self, *bbox),
    {
        let mut ops: Vec<DrawOp> = Vec::new();
        push_op(
            &mut ops,
            plain_op(
                Shape::Fill(
                    Rectangle { top_left: Point { x: 0, y: 0 }, size: self.size },
                    Color::Black,
                ),
            ),
        );
        let area = Rectangle {
            top_left: Point { x: self.padding as i32, y: self.padding as i32 },
            size: self.padded_size(),
        };
        let inner = cropped_bbox(bbox, &area);
        append_ops(&mut ops, frame_ops(Frame::Crop(area), self.draw_shape(inner.size)));
        proof {
            assert(op_views(ops@) =~= spec_battery_draw(self, *bbox));
        }
        ops
    }

    fn draw_shape(&self, size: Size) -> (ops: Vec<DrawOp>)
        requires
            battery_shape_fits(self, size),
        ensures
            op_views(ops@) == spec_battery_shape(self, size),
    {
        let width = size.width;
        let height = size.height;
        let percentage: u8 = match self.charged_percentage {
            Some(p) => p,
            None => 0,
        };
        let fill_line: u32 = if percentage >= 100 {
            0
        } else {
            let l = height * (100 - percentage as u32) / 100;
            assert(l <= height) by (nonlinear_arith)
                requires
                    l == height * (100 - percentage as u32) / 100,
                    percentage < 100,
            ;
            l
        };
        assert(fill_line == crate::widgets::fill_line(self, height));
        let charged_color = match self.charged_percentage {
            Some(p) => if p < self.percentage_threhsold {
                Color::Red
            } else {
                Color::Green
            },
            None => Color::Yellow,
        };
        let outline_color = if self.distinct_outline && self.charged_percentage.is_some() {
            Color::White
        } else {
            charged_color
        };
        let o = self.outline;
        let cw = self.cathode.width;
        let ch = self.cathode.height;
        let wi = width as i32;
        let hi = height as i32;
        let oi = o as i32;
        let cwi = cw as i32;
        let side = (width - cw) / 2;
        let left = half(wi - cwi);
        let right = half(wi + cwi);
        let mut ops: Vec<DrawOp> = Vec::new();
        push_op(&mut ops, fill_op(0, fill_line as i32, width, height - fill_line, charged_color));
        push_op(&mut ops, fill_op(0, ch as i32, o, height - ch, outline_color));
        push_op(&mut ops, fill_op(wi - oi, ch as i32, o, height - ch, outline_color));
        push_op(&mut ops, fill_op(0, hi - oi, width, o, outline_color));
        push_op(&mut ops, fill_op(left, 0, cw, o, outline_color));
        push_op(&mut ops, fill_op(0, ch as i32, side, o, outline_color));
        push_op(&mut ops, fill_op(right, ch as i32, side, o, outline_color));
        push_op(&mut ops, fill_op(left, 0, o, ch + o, outline_color));
        push_op(&mut ops, fill_op(right - oi, 0, o, ch + o, outline_color));
        push_op(&mut ops, fill_op(0, 0, side, ch, Color::Black));
        push_op(&mut ops, fill_op(right, 0, side, ch, Color::Black));
        let light_color = if percentage < self.percentage_threhsold {
            charged_color
        } else {
            outline_color
        };
        let position = Point { x: half(wi), y: half(hi) };
        let ghost fills = op_views(ops@);
        if self.text == BatteryChargedText::Xor {
            let mut above: Vec<DrawOp> = Vec::new();
            push_op(&mut above, self.draw_percentage(position, light_color));
            let above_area = Rectangle {
                top_left: Point { x: 0, y: 0 },
                size: Size { width, height: fill_line },
            };
            append_ops(&mut ops, frame_ops(Frame::Clip(above_area), above));
            let mut below: Vec<DrawOp> = Vec::new();
            push_op(&mut below, self.draw_percentage(position, Color::Black));
            let below_area = Rectangle {
                top_left: Point { x: 0, y: fill_line as i32 },
                size: Size { width, height: height - fill_line },
            };
            append_ops(&mut ops, frame_ops(Frame::Clip(below_area), below));
        } else if self.text == BatteryChargedText::Outline {
            push_op(&mut ops, self.draw_percentage(position, light_color));
        }
        proof {
            assert(op_views(ops@) =~= spec_battery_shape(self, size));
        }
        ops
    }

    fn draw_percentage(&self, position: Point, color: Color) -> (o: DrawOp)
        ensures
            seq![o@] == spec_percentage(self, position, color),
    {
        match self.charged_percentage {
            Some(p) => {
                let mut digits: Vec<u8> = vec![0u8, 0u8, 0u8];
                proof {
                    reveal_with_fuel(pow10, 4);
                    lemma_decimal_digits_len(p as nat, 3);
                }
                let start = to_str(p as u64, digits.as_mut_slice());
                let mut charged_text: Vec<u8> = Vec::new();
                let mut i: usize = start;
                while i < 3
                    invariant
                        start <= i <= 3,
                        digits@.len() == 3,
                        digits@.subrange(start as int, 3) == decimal_digits(p as nat),
                        charged_text@ == digits@.subrange(start as int, i as int),
                    decreases 3 - i,
                {
                    charged_text.push(digits[i]);
                    i = i + 1;
                    assert(charged_text@ =~= digits@.subrange(start as int, i as int));
                }
                charged_text.push(37u8);
                assert(charged_text@ =~= percentage_text(self.charged_percentage));
                let o = plain_op(
                    Shape::Text(position, charged_text, color, self.font, TextPlacement::MiddleCenter),
                );
                assert(seq![o@] =~= spec_percentage(self, position, color));
                o
            },
            None => {
                let mut unknown: Vec<u8> = Vec::new();
                unknown.push(63u8);
                assert(unknown@ =~= percentage_text(self.charged_percentage));
                let o = plain_op(
                    Shape::Text(position, unknown, color, self.font, TextPlacement::MiddleCenter),
                );
                assert(seq![o@] =~= spec_percentage(self, position, color));
                o
            },
        }
    }
}

impl Default for Battery {
    fn default() -> (b: Self)
        ensures
            b.size == (Size { width: 100, height: 200 }),
            b.padding == 10,
            b.outline == 2,
            b.distinct_outline,
            b.cathode == (Size { width: 40, height: 10 }),
            b.percentage_threhsold == 0,
            b.text == BatteryChargedText::Xor,
            b.font == Font::Profont24,
            b.charged_percentage == Some(100u8),
    {
        Self::new()
    }
}

/// A valve icon: a body with a handle on top; an open valve is filled with
/// bubbly water and shows a stop line that grows as it closes; a valve in an
/// unknown state shows "?".
pub struct Valve {
    pub font: Font,
    pub padding: u32,
    pub outline: u32,
    pub handle_area: Size,
    pub open_percentage: Option<u8>,
}

/// The bubbles of one row at height `y`, shifted right by `shift`, from
/// column `x` on, one every six columns while the shifted column is
/// inside the width.
pub open spec fn bubble_row(y: int, shift: int, width: int, x: int) -> Seq<OpView>
    decreases width - x + 6,
{
    if x >= width {
        Seq::empty()
    } else {
        (if x + shift < width {
            seq![fill_at(x + shift, y, 1, 1, Color::White)]
        } else {
            Seq::empty()
        }) + bubble_row(y, shift, width, x + 6)
    }
}

/// The bubbles from row `y` down, one row every six; every other row is
/// shifted right by three.
pub open spec fn bubbles(width: int, height: int, y: int) -> Seq<OpView>
    decreases height - y + 6,
{
    if y >= height {
        Seq::empty()
    } else {
        bubble_row(y, if y % 12 == 0 { 0 } else { 3 }, width, 0) + bubbles(width, height, y + 6)
    }
}

/// The height of the stop line: none when fully open, otherwise the closed
/// share of the height, rounded down.
pub open spec fn stop_line(percentage: u8, height: u32) -> u32 {
    if percentage >= 100 {
        0
    } else {
        (height * (100 - percentage) / 100) as u32
    }
}

/// Whether the icon's shape can be computed on a target of `size` without overflow.
pub open spec fn valve_shape_fits(v: &Valve, size: Size) -> bool {
    let w = size.width as int;
    let h = size.height as int;
    let o = v.outline as int;
    let wi = (size.width as i32) as int;
    let oi = (v.outline as i32) as int;
    let hwi = (v.handle_area.width as i32) as int;
    let c = spec_character_size(v.font);
    &&& v.open_percentage matches Some(p) ==> {
        &&& w + 3 <= i32::MAX
        &&& h <= i32::MAX
        &&& (p < 100 ==> h * (100 - p) <= u32::MAX)
        &&& o <= w
    }
    &&& v.open_percentage is None ==> {
        &&& c.width <= w
        &&& v.handle_area.height + c.height <= h
        &&& i32::MIN <= (v.handle_area.height as i32) + trunc_div(
            ((h - v.handle_area.height - c.height) as u32 as i32) as int,
            2,
        ) <= i32::MAX
    }
    &&& i32::MIN <= wi - oi <= i32::MAX
    &&& oi != i32::MIN
    &&& i32::MIN <= -oi * 2 <= i32::MAX
    &&& i32::MIN <= wi - hwi <= i32::MAX
    &&& i32::MIN <= wi + hwi <= i32::MAX
    &&& i32::MIN <= trunc_div(wi + hwi, 2) - oi <= i32::MAX
    &&& v.handle_area.width <= w
    &&& v.handle_area.height + o <= u32::MAX
    &&& i32::MIN <= (size.height as i32) - oi <= i32::MAX
}

/// The inside of the icon on a target of `size`: for an open valve the
/// water, its bubbles, the cleared right half above the stop line and the
/// stem down to it; for an unknown one "?" below the handle area.
pub open spec fn spec_valve_body(v: &Valve, size: Size) -> Seq<OpView> {
    let w = size.width as int;
    let h = size.height as int;
    let o = v.outline as int;
    let hh = v.handle_area.height as int;
    let c = spec_character_size(v.font);
    match v.open_percentage {
        Some(p) => {
            let stop = stop_line(p, size.height) as int;
            seq![fill_at(0, 0, w, h, Color::LightBlue)] + bubbles(w, h, 0) + seq![
                fill_at(w / 2, 0, w / 2 + 1, stop, Color::Black),
                fill_at((w - o) / 2, 0, o, stop, Color::LightGray),
            ]
        },
        None => seq![
            plain(
                Shape::Text(
                    Point {
                        x: trunc_div(((w - c.width) as u32 as i32) as int, 2) as i32,
                        y: ((hh as u32 as i32) + trunc_div(
                            ((h - hh - c.height) as u32 as i32) as int,
                            2,
                        )) as i32,
                    },
                    seq![63u8],
                    Color::White,
                    v.font,
                    TextPlacement::TopLeft,
                ),
            ),
        ],
    }
}

/// The outline of body and handle on a target of `size`, and the corners
/// beside the handle cleared.
pub open spec fn spec_valve_outline(v: &Valve, size: Size) -> Seq<OpView> {
    let w = size.width as int;
    let o = v.outline as int;
    let wi = (size.width as i32) as int;
    let hi = (size.height as i32) as int;
    let oi = (v.outline as i32) as int;
    let hw = v.handle_area.width as int;
    let hh = v.handle_area.height as int;
    let hwi = (v.handle_area.width as i32) as int;
    let oc = Color::LightGray;
    let side = (w - hw) / 2;
    let left = trunc_div(wi - hwi, 2);
    let right = trunc_div(wi + hwi, 2);
    seq![
        fill_at(0, hi - oi, w, o, oc),
        fill_at(left, -oi * 2, hw, o, oc),
        fill_at(trunc_div(wi - oi, 2), -oi, o, o, oc),
        fill_at(left, 0, hw, o, oc),
        fill_at(0, hh, side, o, oc),
        fill_at(right, hh, side, o, oc),
        fill_at(left, 0, o, hh + o, oc),
        fill_at(right - oi, 0, o, hh + o, oc),
        fill_at(0, 0, side, hh, Color::Black),
        fill_at(right, 0, side, hh, Color::Black),
    ]
}

/// What the icon draws on a target of `size`: its inside, then its outline.
pub open spec fn spec_valve_shape(v: &Valve, size: Size) -> Seq<OpView> {
    spec_valve_body(v, size) + spec_valve_outline(v, size)
}

/// Whether the icon can be drawn on a target with box `bbox` without overflow.
pub open spec fn valve_fits(v: &Valve, bbox: Rectangle) -> bool {
    &&& padding_fits(bbox, v.padding)
    &&& corners_fit(bbox)
    &&& corners_fit(spec_padded_area(bbox, v.padding))
    &&& valve_shape_fits(v, spec_cropped_bbox(bbox, spec_padded_area(bbox, v.padding)).size)
}

/// What the icon draws on a target with box `bbox`: the box cleared, then the
/// shape cropped to the box less the padding.
pub open spec fn spec_valve_draw(v: &Valve, bbox: Rectangle) -> Seq<OpView> {
    let area = spec_padded_area(bbox, v.padding);
    seq![plain(Shape::Fill(bbox, Color::Black))] + framed(
        Frame::Crop(area),
        spec_valve_shape(v, spec_cropped_bbox(bbox, area).size),
    )
}

impl Valve {
    /// A fully open valve in the middle font, with a padding of 10, an
    /// outline of 4 and a 20 by 10 handle area.
    pub fn new() -> (v: Self)
        ensures
            v.font == Font::Profont18,
            v.padding == 10,
            v.outline == 4,
            v.handle_area == (Size { width: 20, height: 10 }),
            v.open_percentage == Some(100u8),
    {
        Valve {
            font: Font::Profont18,
            padding: 10,
            outline: 4,
            handle_area: Size { width: 20, height: 10 },
            open_percentage: Some(100),
        }
    }

    /// The operations that draw the icon on a target with box `bbox`.
    pub fn draw(&self, bbox: &Rectangle) -> (ops: Vec<DrawOp>)
        requires
            valve_fits(self, *bbox),
        ensures
            op_views(ops@) == spec_valve_draw(self, *bbox),
    {
        let (clear_op, area) = clear_cropped(bbox, self.padding);
        let mut ops: Vec<DrawOp> = Vec::new();
        push_op(&mut ops, clear_op);
        let inner = cropped_bbox(bbox, &area);
        append_ops(&mut ops, frame_ops(Frame::Crop(area), self.draw_shape(inner.size)));
        proof {
            assert(op_views(ops@) =~= spec_valve_draw(self, *bbox));
        }
        ops
    }

    fn draw_bubbles(ops: &mut Vec<DrawOp>, width: u32, height: u32)
        requires
            width + 3 <= i32::MAX,
            height <= i32::MAX,
        ensures
            op_views(final(ops)@) == op_views(old(ops)@) + bubbles(width as int, height as int, 0),
    {
        let ghost start = op_views(ops@);
        let ghost total = start + bubbles(width as int, height as int, 0);
        let mut y: u32 = 0;
        assert(op_views(ops@) + bubbles(width as int, height as int, 0) =~= total);
        while y < height
            invariant
                width + 3 <= i32::MAX,
                height <= i32::MAX,
                y <= height + 5,
                op_views(ops@) + bubbles(width as int, height as int, y as int) == total,
            decreases height + 6 - y,
        {
            let shift: i32 = if y % 12 == 0 {
                0
            } else {
                3
            };
            let ghost rest = bubbles(width as int, height as int, y + 6);
            assert(bubbles(width as int, height as int, y as int) == bubble_row(
                y as int,
                shift as int,
                width as int,
                0,
            ) + rest);
            let mut x: u32 = 0;
            assert(op_views(ops@) + bubble_row(y as int, shift as int, width as int, 0) + rest
                =~= total);
            while x < width
                invariant
                    width + 3 <= i32::MAX,
                    height <= i32::MAX,
                    y < height,
                    x <= width + 5,
                    shift == 0 || shift == 3,
                    op_views(ops@) + bubble_row(y as int, shift as int, width as int, x as int)
                        + rest == total,
                decreases width + 6 - x,
            {
                let ghost row_rest = bubble_row(y as int, shift as int, width as int, x + 6);
                let ghost before = op_views(ops@);
                if (x as i32) + shift < width as i32 {
                    push_op(ops, fill_op((x as i32) + shift, y as i32, 1, 1, Color::White));
                    assert(op_views(ops@) + row_rest + rest =~= before + bubble_row(
                        y as int,
                        shift as int,
                        width as int,
                        x as int,
                    ) + rest);
                } else {
                    assert(op_views(ops@) + row_rest + rest =~= before + bubble_row(
                        y as int,
                        shift as int,
                        width as int,
                        x as int,
                    ) + rest);
                }
                x = x + 6;
            }
            assert(bubble_row(y as int, shift as int, width as int, x as int) =~= Seq::<
                OpView,
            >::empty());
            assert(op_views(ops@) + rest =~= total);
            y = y + 6;
        }
        assert(bubbles(width as int, height as int, y as int) =~= Seq::<OpView>::empty());
        assert(op_views(ops@) =~= total);
    }

    fn draw_shape(&self, size: Size) -> (ops: Vec<DrawOp>)
        requires
            valve_shape_fits(self, size),
        ensures
            op_views(ops@) == spec_valve_shape(self, size),
    {
        let mut ops = self.draw_body(size);
        append_ops(&mut ops, self.draw_outline(size));
        ops
    }

    fn draw_body(&self, size: Size) -> (ops: Vec<DrawOp>)
        requires
            valve_shape_fits(self, size),
        ensures
            op_views(ops@) == spec_valve_body(self, size),
    {
        let width = size.width;
        let height = size.height;
        let o = self.outline;
        let hh = self.handle_area.height;
        let mut ops: Vec<DrawOp> = Vec::new();
        match self.open_percentage {
            Some(percentage) => {
                push_op(&mut ops, fill_op(0, 0, width, height, Color::LightBlue));
                Self::draw_bubbles(&mut ops, width, height);
                let stop_line: u32 = if percentage >= 100 {
                    0
                } else {
                    height * (100 - percentage as u32) / 100
                };
                push_op(&mut ops, fill_op((width / 2) as i32, 0, width / 2 + 1, stop_line, Color::Black));
                push_op(&mut ops, fill_op(((width - o) / 2) as i32, 0, o, stop_line, Color::LightGray));
            },
            None => {
                let c = character_size(self.font);
                let position = Point {
                    x: half((width - c.width) as i32),
                    y: hh as i32 + half((height - hh - c.height) as i32),
                };
                let mut unknown: Vec<u8> = Vec::new();
                unknown.push(63u8);
                push_op(
                    &mut ops,
                    plain_op(Shape::Text(position, unknown, Color::White, self.font, TextPlacement::TopLeft)),
                );
            },
        }
        proof {
            assert(op_views(ops@) =~= spec_valve_body(self, size));
        }
        ops
    }

    fn draw_outline(&self, size: Size) -> (ops: Vec<DrawOp>)
        requires
            valve_shape_fits(self, size),
        ensures
            op_views(ops@) == spec_valve_outline(self, size),
    {
        let width = size.width;
        let height = size.height;
        let o = self.outline;
        let hw = self.handle_area.width;
        let hh = self.handle_area.height;
        let wi = width as i32;
        let oi = o as i32;
        let hwi = hw as i32;
        let outline_color = Color::LightGray;
        let side = (width - hw) / 2;
        let left = half(wi - hwi);
        let right = half(wi + hwi);
        let mut ops: Vec<DrawOp> = Vec::new();
        push_op(&mut ops, fill_op(0, height as i32 - oi, width, o, outline_color));
        push_op(&mut ops, fill_op(left, -oi * 2, hw, o, outline_color));
        push_op(&mut ops, fill_op(half(wi - oi), -oi, o, o, outline_color));
        push_op(&mut ops, fill_op(left, 0, hw, o, outline_color));
        push_op(&mut ops, fill_op(0, hh as i32, side, o, outline_color));
        push_op(&mut ops, fill_op(right, hh as i32, side, o, outline_color));
        push_op(&mut ops, fill_op(left, 0, o, hh + o, outline_color));
        push_op(&mut ops, fill_op(right - oi, 0, o, hh + o, outline_color));
        push_op(&mut ops, fill_op(0, 0, side, hh, Color::Black));
        push_op(&mut ops, fill_op(right, 0, side, hh, Color::Black));
        proof {
            assert(op_views(ops@) =~= spec_valve_outline(self, size));
        }
        ops
    }
}

impl Default for Valve {
    fn default() -> (v: Self)
        ensures
            v.font == Font::Profont18,
            v.padding == 10,
            v.outline == 4,
            v.handle_area == (Size { width: 20, height: 10 }),
            v.open_percentage == Some(100u8),
    {
        Self::new()
    }
}

/// The text of a meter reading: the count divided by the divider in
/// decimal, left padded with zeros to `digits` bytes, or `digits` question
/// marks where the count is unknown.
pub open spec fn meter_text(edges_count: Option<u64>, divider: u32, digits: nat) -> Seq<u8> {
    match edges_count {
        Some(c) => {
            let d = decimal_digits((c / (divider as u64)) as nat);
            repeated(48u8, (digits - d.len()) as nat) + d
        },
        None => repeated(63u8, digits),
    }
}

/// Whether a meter reading fits in `digits` bytes.
pub open spec fn meter_text_fits(edges_count: Option<u64>, divider: u32, digits: nat) -> bool {
    edges_count matches Some(c) ==> divider != 0 && decimal_digits((c / (divider as u64)) as nat).len()
        <= digits
}

/// Whether a meter's frame and shape can be computed on a box without overflow.
pub open spec fn meter_shape_fits(font: Font, digits: nat, bbox: Rectangle) -> bool {
    let c = spec_character_size(font);
    &&& digits > 5 ==> {
        &&& digits <= u32::MAX
        &&& c.width * (digits - 5) <= u32::MAX
        &&& i32::MIN <= bbox.top_left.x + c.width * 5 <= i32::MAX
    }
}

/// What a meter draws on a target with box `bbox`: where `boxed`, a red
/// outline of width `stroke` and the red cells of the digits from the sixth
/// on; then the reading at the corner.
pub open spec fn spec_meter_shape(
    edges_count: Option<u64>,
    divider: u32,
    font: Font,
    digits: nat,
    boxed: bool,
    stroke: u32,
    bbox: Rectangle,
) -> Seq<OpView> {
    let c = spec_character_size(font);
    (if boxed {
        seq![
            plain(Shape::Stroke(bbox, Color::Red, stroke)),
            fill_at(
                bbox.top_left.x + c.width * 5,
                bbox.top_left.y as int,
                c.width * (digits - 5),
                bbox.size.height as int,
                Color::Red,
            ),
        ]
    } else {
        Seq::empty()
    }) + seq![
        plain(
            Shape::Text(
                bbox.top_left,
                meter_text(edges_count, divider, digits),
                Color::White,
                font,
                TextPlacement::TopLeft,
            ),
        ),
    ]
}

/// The preferred size of a meter: one character cell per digit and the
/// padding on each side.
pub open spec fn spec_meter_size(font: Font, digits: nat, padding: u32) -> Size {
    let c = spec_character_size(font);
    Size {
        width: (c.width * (digits as u32) + padding * 2) as u32,
        height: (c.height + padding * 2) as u32,
    }
}

/// Whether the preferred size of a meter fits in `u32`.
pub open spec fn meter_size_fits(font: Font, digits: nat, padding: u32) -> bool {
    let c = spec_character_size(font);
    &&& c.width * (digits as u32) + padding * 2 <= u32::MAX
    &&& c.height + padding * 2 <= u32::MAX
}

fn meter_size(font: Font, digits: usize, padding: u32) -> (s: Size)
    requires
        meter_size_fits(font, digits as nat, padding),
    ensures
        s == spec_meter_size(font, digits as nat, padding),
{
    let c = character_size(font);
    Size { width: c.width * (digits as u32) + padding * 2, height: c.height + padding * 2 }
}

fn meter_reading(edges_count: Option<u64>, divider: u32, digits: usize) -> (t: Vec<u8>)
    requires
        meter_text_fits(edges_count, divider, digits as nat),
    ensures
        t@ == meter_text(edges_count, divider, digits as nat),
{
    match edges_count {
        Some(count) => {
            let mut wm_text = repeat_byte(48u8, digits);
            let start = to_str(count / divider as u64, wm_text.as_mut_slice());
            let ghost d = decimal_digits((count / (divider as u64)) as nat);
            assert(wm_text@ =~= wm_text@.subrange(0, start as int) + wm_text@.subrange(
                start as int,
                digits as int,
            ));
            assert(wm_text@.subrange(0, start as int) =~= repeated(48u8, start as nat));
            assert(wm_text@ =~= meter_text(edges_count, divider, digits as nat));
            wm_text
        },
        None => repeat_byte(63u8, digits),
    }
}

fn meter_shape(
    edges_count: Option<u64>,
    divider: u32,
    font: Font,
    digits: usize,
    boxed: bool,
    stroke: u32,
    bbox: &Rectangle,
) -> (ops: Vec<DrawOp>)
    requires
        boxed ==> digits > 5,
        meter_shape_fits(font, digits as nat, *bbox),
        meter_text_fits(edges_count, divider, digits as nat),
    ensures
        op_views(ops@) == spec_meter_shape(
            edges_count,
            divider,
            font,
            digits as nat,
            boxed,
            stroke,
            *bbox,
        ),
{
    let c = character_size(font);
    let mut ops: Vec<DrawOp> = Vec::new();
    if boxed {
        push_op(&mut ops, plain_op(Shape::Stroke(*bbox, Color::Red, stroke)));
        push_op(
            &mut ops,
            fill_op(
                bbox.top_left.x + c.width as i32 * 5,
                bbox.top_left.y,
                c.width * (digits as u32 - 5),
                bbox.size.height,
                Color::Red,
            ),
        );
    }
    let wm_text = meter_reading(edges_count, divider, digits);
    push_op(
        &mut ops,
        plain_op(Shape::Text(bbox.top_left, wm_text, Color::White, font, TextPlacement::TopLeft)),
    );
    proof {
        assert(op_views(ops@) =~= spec_meter_shape(
            edges_count,
            divider,
            font,
            digits as nat,
            boxed,
            stroke,
            *bbox,
        ));
    }
    ops
}

/// Whether a meter can be drawn on a target with box `bbox` without overflow.
pub open spec fn meter_fits(
    edges_count: Option<u64>,
    divider: u32,
    font: Font,
    digits: nat,
    padding: u32,
    bbox: Rectangle,
) -> bool {
    &&& padding_fits(bbox, padding)
    &&& corners_fit(bbox)
    &&& corners_fit(spec_padded_area(bbox, padding))
    &&& meter_shape_fits(font, digits, spec_cropped_bbox(bbox, spec_padded_area(bbox, padding)))
    &&& meter_text_fits(edges_count, divider, digits)
}

/// What a meter draws on a target with box `bbox`: the box cleared, then the
/// shape cropped to the box less the padding.
pub open spec fn spec_meter_draw(
    edges_count: Option<u64>,
    divider: u32,
    font: Font,
    digits: nat,
    padding: u32,
    boxed: bool,
    stroke: u32,
    bbox: Rectangle,
) -> Seq<OpView> {
    let area = spec_padded_area(bbox, padding);
    seq![plain(Shape::Fill(bbox, Color::Black))] + framed(
        Frame::Crop(area),
        spec_meter_shape(
            edges_count,
            divider,
            font,
            digits,
            boxed,
            stroke,
            spec_cropped_bbox(bbox, area),
        ),
    )
}

fn meter_draw(
    edges_count: Option<u64>,
    divider: u32,
    font: Font,
    digits: usize,
    padding: u32,
    boxed: bool,
    stroke: u32,
    bbox: &Rectangle,
) -> (ops: Vec<DrawOp>)
    requires
        boxed ==> digits > 5,
        meter_fits(edges_count, divider, font, digits as nat, padding, *bbox),
    ensures
        op_views(ops@) == spec_meter_draw(
            edges_count,
            divider,
            font,
            digits as nat,
            padding,
            boxed,
            stroke,
            *bbox,
        ),
{
    let (clear_op, area) = clear_cropped(bbox, padding);
    let mut ops: Vec<DrawOp> = Vec::new();
    push_op(&mut ops, clear_op);
    let inner = cropped_bbox(bbox, &area);
    let shape = meter_shape(edges_count, divider, font, digits, boxed, stroke, &inner);
    append_ops(&mut ops, frame_ops(Frame::Crop(area), shape));
    proof {
        assert(op_views(ops@) =~= spec_meter_draw(
            edges_count,
            divider,
            font,
            digits as nat,
            padding,
            boxed,
            stroke,
            *bbox,
        ));
    }
    ops
}

/// A water meter reading of `DIGITS` digits in the classic look: framed in
/// red, with the digits from the sixth on on red, where it has an outline.
pub struct WaterMeterClassic<const DIGITS: usize> {
    pub edges_count: Option<u64>,
    pub divider: u32,
    pub padding: u32,
    pub outline: u32,
    pub font: Font,
}

impl<const DIGITS: usize> WaterMeterClassic<DIGITS> {
    /// An unknown reading with a divider of 1, a padding and outline of 2,
    /// in the middle font.
    pub fn new() -> (m: Self)
        ensures
            m.edges_count is None,
            m.divider == 1,
            m.padding == 2,
            m.outline == 2,
            m.font == Font::Profont18,
    {
        WaterMeterClassic { edges_count: None, divider: 1, padding: 2, outline: 2, font: Font::Profont18 }
    }

    /// The size the meter wants: one character cell per digit and the
    /// padding on each side.
    pub fn preferred_size(&self) -> (s: Size)
        requires
            meter_size_fits(self.font, DIGITS as nat, self.padding),
        ensures
            s == spec_meter_size(self.font, DIGITS as nat, self.padding),
    {
        meter_size(self.font, DIGITS, self.padding)
    }

    /// The operations that draw the meter on a target with box `bbox`.
    pub fn draw(&self, bbox: &Rectangle) -> (ops: Vec<DrawOp>)
        requires
            meter_fits(self.edges_count, self.divider, self.font, DIGITS as nat, self.padding, *bbox),
        ensures
            op_views(ops@) == spec_meter_draw(
                self.edges_count,
                self.divider,
                self.font,
                DIGITS as nat,
                self.padding,
                self.outline > 0 && DIGITS > 5,
                self.outline,
                *bbox,
            ),
    {
        meter_draw(
            self.edges_count,
            self.divider,
            self.font,
            DIGITS,
            self.padding,
            self.outline > 0 && DIGITS > 5,
            self.outline,
            bbox,
        )
    }
}

/// A water meter reading of `DIGITS` digits, always framed in red with a
/// stroke of 2 when it has more than five digits.
pub struct WaterMeterFract<const DIGITS: usize> {
    pub edges_count: Option<u64>,
    pub divider: u32,
    pub padding: u32,
    pub outline: u32,
    pub font: Font,
}

impl<const DIGITS: usize> WaterMeterFract<DIGITS> {
    /// An unknown reading with a divider of 1, a padding and outline of 2,
    /// in the middle font.
    pub fn new() -> (m: Self)
        ensures
            m.edges_count is None,
            m.divider == 1,
            m.padding == 2,
            m.outline == 2,
            m.font == Font::Profont18,
    {
        WaterMeterFract { edges_count: None, divider: 1, padding: 2, outline: 2, font: Font::Profont18 }
    }

    /// The size the meter wants: one character cell per digit and the
    /// padding on each side.
    pub fn preferred_size(&self) -> (s: Size)
        requires
            meter_size_fits(self.font, DIGITS as nat, self.padding),
        ensures
            s == spec_meter_size(self.font, DIGITS as nat, self.padding),
    {
        meter_size(self.font, DIGITS, self.padding)
    }

    /// The operations that draw the meter on a target with box `bbox`.
    pub fn draw(&self, bbox: &Rectangle) -> (ops: Vec<DrawOp>)
        requires
            meter_fits(self.edges_count, self.divider, self.font, DIGITS as nat, self.padding, *bbox),
        ensures
            op_views(ops@) == spec_meter_draw(
                self.edges_count,
                self.divider,
                self.font,
                DIGITS as nat,
                self.padding,
                DIGITS > 5,
                2,
                *bbox,
            ),
    {
        meter_draw(self.edges_count, self.divider, self.font, DIGITS, self.padding, DIGITS > 5, 2, bbox)
    }
}

/// Leading zeros do not change the number that digits spell.
proof fn lemma_leading_zeros(k: nat, d: Seq<u8>)
    ensures
        decimal_value(repeated(48u8, k) + d) == decimal_value(d),
    decreases d.len(),
{
    if d.len() == 0 {
        assert(repeated(48u8, k) + d =~= repeated(48u8, k));
        lemma_zeros(k);
    } else {
        lemma_leading_zeros(k, d.drop_last());
        assert((repeated(48u8, k) + d).drop_last() =~= repeated(48u8, k) + d.drop_last());
    }
}

/// A run of zeros spells zero.
proof fn lemma_zeros(k: nat)
    ensures
        decimal_value(repeated(48u8, k)) == 0,
    decreases k,
{
    if k > 0 {
        lemma_zeros((k - 1) as nat);
        assert(repeated(48u8, k).drop_last() =~= repeated(48u8, (k - 1) as nat));
    }
}

/// Law: a known meter reading that fits is exactly `digits` decimal digits
/// long and spells the count divided by the divider.
pub proof fn law_meter_reading(count: u64, divider: u32, digits: nat)
    requires
        meter_text_fits(Some(count), divider, digits),
    ensures
        meter_text(Some(count), divider, digits).len() == digits,
        all_digits(meter_text(Some(count), divider, digits)),
        decimal_value(meter_text(Some(count), divider, digits)) == count / (divider as u64),
{
    let d = decimal_digits((count / (divider as u64)) as nat);
    let t = meter_text(Some(count), divider, digits);
    lemma_decimal_digits((count / (divider as u64)) as nat);
    lemma_leading_zeros((digits - d.len()) as nat, d);
    assert forall|i: int| 0 <= i < t.len() implies is_digit(#[trigger] t[i]) by {
        if i >= digits - d.len() {
            assert(t[i] == d[i - (digits - d.len())]);
        }
    }
}

/// Law: the emptier the battery, the taller the part above its charge fill.
pub proof fn law_fill_line_monotone(b1: &Battery, b2: &Battery, height: u32)
    requires
        battery_percentage(b1) <= battery_percentage(b2),
        battery_percentage(b1) < 100 ==> height * (100 - battery_percentage(b1)) <= u32::MAX,
    ensures
        fill_line(b2, height) <= fill_line(b1, height),
        fill_line(b1, height) <= height,
{
    let p1 = battery_percentage(b1) as int;
    let p2 = battery_percentage(b2) as int;
    let h = height as int;
    if p1 < 100 {
        assert(h * (100 - p1) / 100 <= h) by (nonlinear_arith)
            requires
                0 <= p1 < 100,
                0 <= h,
        ;
        if p2 < 100 {
            assert(h * (100 - p2) / 100 <= h * (100 - p1) / 100) by (nonlinear_arith)
                requires
                    0 <= p1 <= p2 < 100,
                    0 <= h,
            ;
        }
    }
}

/// Law: a fully open valve shows no stop line, a closed one a stop line as
/// tall as the icon.
pub proof fn law_stop_line_ends(height: u32)
    requires
        height * 100 <= u32::MAX,
    ensures
        stop_line(100, height) == 0,
        stop_line(0, height) == height,
{
}

} // verus!
