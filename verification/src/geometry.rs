use vstd::prelude::*;

verus! {

/// A point on a display; `y` grows downwards.
#[derive(Copy, Clone, Debug, PartialEq, Eq, Structural)]
pub struct Point {
    pub x: i32,
    pub y: i32,
}

/// The size of an area, in pixels.
#[derive(Copy, Clone, Debug, PartialEq, Eq, Structural)]
pub struct Size {
    pub width: u32,
    pub height: u32,
}

/// An area of a display: its top left corner and its size.
#[derive(Copy, Clone, Debug, PartialEq, Eq, Structural)]
pub struct Rectangle {
    pub top_left: Point,
    pub size: Size,
}

/// Whether a point plus a size stays within `i32`, the sizes counting as
/// non-negative `i32`s.
pub open spec fn can_offset(p: Point, s: Size) -> bool {
    &&& s.width <= i32::MAX
    &&& s.height <= i32::MAX
    &&& i32::MIN <= p.x + s.width <= i32::MAX
    &&& i32::MIN <= p.y + s.height <= i32::MAX
}

/// The point offset by a size.
pub fn offset(p: Point, s: Size) -> (q: Point)
    requires
        can_offset(p, s),
    ensures
        q.x == p.x + s.width,
        q.y == p.y + s.height,
{
    Point { x: p.x + s.width as i32, y: p.y + s.height as i32 }
}

impl Rectangle {
    /// The rectangle with a corner and a size.
    pub fn new(top_left: Point, size: Size) -> (r: Self)
        ensures
            r.top_left == top_left,
            r.size == size,
    {
        Rectangle { top_left, size }
    }

    /// The smallest rectangle that holds both corners.
    pub fn with_corners(corner_1: Point, corner_2: Point) -> (r: Self)
        requires
            i32::MIN <= corner_1.x - corner_2.x <= i32::MAX,
            i32::MIN <= corner_1.y - corner_2.y <= i32::MAX,
        ensures
            r.top_left.x == if corner_1.x <= corner_2.x {
                corner_1.x
            } else {
                corner_2.x
            },
            r.top_left.y == if corner_1.y <= corner_2.y {
                corner_1.y
            } else {
                corner_2.y
            },
            r.size.width == abs_diff(corner_1.x as int, corner_2.x as int) + 1,
            r.size.height == abs_diff(corner_1.y as int, corner_2.y as int) + 1,
    {
        let left = if corner_1.x <= corner_2.x {
            corner_1.x
        } else {
            corner_2.x
        };
        let top = if corner_1.y <= corner_2.y {
            corner_1.y
        } else {
            corner_2.y
        };
        let dx = corner_1.x - corner_2.x;
        let dy = corner_1.y - corner_2.y;
        let width: u32 = if dx >= 0 {
            dx as u32 + 1
        } else {
            ((-(dx as i64)) as u32) + 1
        };
        let height: u32 = if dy >= 0 {
            dy as u32 + 1
        } else {
            ((-(dy as i64)) as u32) + 1
        };
        Rectangle { top_left: Point { x: left, y: top }, size: Size { width, height } }
    }

    /// The bottom right corner, where the rectangle is not empty.
    pub fn bottom_right(&self) -> (p: Option<Point>)
        requires
            self.size.width > 0 && self.size.height > 0 ==> can_offset(self.top_left, self.size),
        ensures
            p == if self.size.width > 0 && self.size.height > 0 {
                Some(
                    Point {
                        x: (self.top_left.x + self.size.width - 1) as i32,
                        y: (self.top_left.y + self.size.height - 1) as i32,
                    },
                )
            } else {
                None
            },
    {
        if self.size.width > 0 && self.size.height > 0 {
            let q = offset(self.top_left, self.size);
            Some(Point { x: q.x - 1, y: q.y - 1 })
        } else {
            None
        }
    }
}

/// The distance between two numbers.
pub open spec fn abs_diff(a: int, b: int) -> int {
    if a >= b {
        a - b
    } else {
        b - a
    }
}

/// A right-angle rotation of a display.
#[derive(Copy, Clone, Debug, PartialEq, Eq, Structural)]
pub enum RotateAngle {
    Degrees90,
    Degrees180,
    Degrees270,
}

/// `2 * origin + extent`, the sum that mirrors a coordinate within a box.
pub open spec fn mirror_base(origin: i32, extent: u32) -> int {
    origin * 2 + (extent as i32)
}

/// Where a point of the rotated display lands on the display with box `bbox`.
pub open spec fn spec_transform(angle: RotateAngle, point: Point, bbox: Rectangle) -> (int, int) {
    match angle {
        RotateAngle::Degrees90 => (point.y as int, mirror_base(bbox.top_left.x, bbox.size.width) - point.x),
        RotateAngle::Degrees180 => (
            mirror_base(bbox.top_left.x, bbox.size.width) - point.x,
            mirror_base(bbox.top_left.y, bbox.size.height) - point.y,
        ),
        RotateAngle::Degrees270 => (
            mirror_base(bbox.top_left.y, bbox.size.height) - point.y,
            mirror_base(bbox.top_left.x, bbox.size.width) - point.x,
        ),
    }
}

/// Whether `spec_transform` stays within `i32` on the way and at the end.
pub open spec fn transform_fits(angle: RotateAngle, point: Point, bbox: Rectangle) -> bool {
    let bx = mirror_base(bbox.top_left.x, bbox.size.width);
    let by = mirror_base(bbox.top_left.y, bbox.size.height);
    &&& i32::MIN <= bbox.top_left.x * 2 <= i32::MAX
    &&& i32::MIN <= bbox.top_left.y * 2 <= i32::MAX
    &&& i32::MIN <= bx <= i32::MAX
    &&& i32::MIN <= by <= i32::MAX
    &&& i32::MIN <= bx - point.x <= i32::MAX
    &&& i32::MIN <= by - point.y <= i32::MAX
}

impl RotateAngle {
    /// Where a point of the rotated display lands on the display with box
    /// `bbox`: mirrored within the box, and for a quarter turn with its
    /// coordinates swapped.
    pub fn transform(&self, point: Point, bbox: &Rectangle) -> (p: Point)
        requires
            transform_fits(*self, point, *bbox),
        ensures
            (p.x as int, p.y as int) == spec_transform(*self, point, *bbox),
    {
        match self {
            RotateAngle::Degrees90 => Point {
                x: point.y,
                y: bbox.top_left.x * 2 + bbox.size.width as i32 - point.x,
            },
            RotateAngle::Degrees180 => Point {
                x: bbox.top_left.x * 2 + bbox.size.width as i32 - point.x,
                y: bbox.top_left.y * 2 + bbox.size.height as i32 - point.y,
            },
            RotateAngle::Degrees270 => Point {
                x: bbox.top_left.y * 2 + bbox.size.height as i32 - point.y,
                y: bbox.top_left.x * 2 + bbox.size.width as i32 - point.x,
            },
        }
    }

    /// The area of the display that an area of the rotated display covers:
    /// the box spanned by the images of its top left corner and of the corner
    /// one past its bottom right.
    pub fn transform_rect(&self, rect: &Rectangle, bbox: &Rectangle) -> (r: Rectangle)
        requires
            can_offset(rect.top_left, rect.size),
            transform_fits(*self, rect.top_left, *bbox),
            transform_fits(
                *self,
                Point {
                    x: (rect.top_left.x + rect.size.width) as i32,
                    y: (rect.top_left.y + rect.size.height) as i32,
                },
                *bbox,
            ),
            ({
                let p1 = spec_transform(*self, rect.top_left, *bbox);
                let p2 = spec_transform(
                    *self,
                    Point {
                        x: (rect.top_left.x + rect.size.width) as i32,
                        y: (rect.top_left.y + rect.size.height) as i32,
                    },
                    *bbox,
                );
                &&& i32::MIN <= p1.0 - p2.0 <= i32::MAX
                &&& i32::MIN <= p1.1 - p2.1 <= i32::MAX
            }),
        ensures
            ({
                let p1 = spec_transform(*self, rect.top_left, *bbox);
                let p2 = spec_transform(
                    *self,
                    Point {
                        x: (rect.top_left.x + rect.size.width) as i32,
                        y: (rect.top_left.y + rect.size.height) as i32,
                    },
                    *bbox,
                );
                &&& r.top_left.x == if p1.0 <= p2.0 {
                    p1.0
                } else {
                    p2.0
                }
                &&& r.top_left.y == if p1.1 <= p2.1 {
                    p1.1
                } else {
                    p2.1
                }
                &&& r.size.width == abs_diff(p1.0, p2.0) + 1
                &&& r.size.height == abs_diff(p1.1, p2.1) + 1
            }),
    {
        let point1 = self.transform(rect.top_left, bbox);
        let point2 = self.transform(offset(rect.top_left, rect.size), bbox);
        let x1 = if point1.x <= point2.x {
            point1.x
        } else {
            point2.x
        };
        let y1 = if point1.y <= point2.y {
            point1.y
        } else {
            point2.y
        };
        let x2 = if point1.x >= point2.x {
            point1.x
        } else {
            point2.x
        };
        let y2 = if point1.y >= point2.y {
            point1.y
        } else {
            point2.y
        };
        Rectangle::with_corners(Point { x: x1, y: y1 }, Point { x: x2, y: y2 })
    }
}

/// The box of the rotated display.
pub open spec fn spec_rotated_bbox(angle: RotateAngle, parent: Rectangle) -> Rectangle {
    if angle != RotateAngle::Degrees180 {
        Rectangle {
            top_left: Point { x: parent.top_left.y, y: parent.top_left.x },
            size: Size { width: parent.size.height, height: parent.size.width },
        }
    } else {
        parent
    }
}

/// The box of the rotated display: for a quarter turn the box with its
/// coordinates and its sides swapped, for a half turn the box itself.
pub fn rotated_bounding_box(angle: RotateAngle, parent: Rectangle) -> (r: Rectangle)
    ensures
        r == spec_rotated_bbox(angle, parent),
{
    match angle {
        RotateAngle::Degrees180 => parent,
        _ => Rectangle {
            top_left: Point { x: parent.top_left.y, y: parent.top_left.x },
            size: Size { width: parent.size.height, height: parent.size.width },
        },
    }
}

/// Where a point of a display scaled to `size` lands on the display with box
/// `bbox`: its offset from the corner is scaled by `size / bbox.size`, the
/// division rounding towards zero.
pub open spec fn spec_scale(point: Point, size: Size, bbox: Rectangle) -> (int, int) {
    (
        trunc_div((point.x - bbox.top_left.x) * (size.width as i32), (bbox.size.width as i32) as int)
            + bbox.top_left.x,
        trunc_div((point.y - bbox.top_left.y) * (size.height as i32), (bbox.size.height as i32) as int)
            + bbox.top_left.y,
    )
}

/// Integer division that rounds towards zero.
pub open spec fn trunc_div(a: int, b: int) -> int {
    let q = abs_diff(a, 0) / abs_diff(b, 0);
    if (a >= 0) == (b >= 0) {
        q
    } else {
        -q
    }
}

/// `a / b` on `i32`, rounding towards zero.
pub fn div_toward_zero(a: i32, b: i32) -> (q: i32)
    requires
        b != 0,
        a != i32::MIN,
    ensures
        q == trunc_div(a as int, b as int),
{
    let ua: u32 = if a >= 0 {
        a as u32
    } else {
        (-a) as u32
    };
    let ub: u32 = if b >= 0 {
        b as u32
    } else {
        (-(b as i64)) as u32
    };
    let uq = ua / ub;
    assert(uq <= ua) by (nonlinear_arith)
        requires
            ub >= 1,
            uq == ua / ub,
    ;
    if (a >= 0) == (b >= 0) {
        uq as i32
    } else {
        -(uq as i32)
    }
}

/// `a / 2` on `i32`, rounding towards zero.
pub fn half(a: i32) -> (q: i32)
    ensures
        q == trunc_div(a as int, 2),
{
    if a >= 0 {
        ((a as u32) / 2) as i32
    } else {
        let m: u64 = ((-(a as i64)) as u64) / 2;
        -(m as i64) as i32
    }
}

/// Whether `spec_scale` stays within `i32` on the way and at the end.
pub open spec fn scale_fits(point: Point, size: Size, bbox: Rectangle) -> bool {
    let dx = point.x - bbox.top_left.x;
    let dy = point.y - bbox.top_left.y;
    let sx = (size.width as i32) as int;
    let sy = (size.height as i32) as int;
    let r = spec_scale(point, size, bbox);
    &&& (bbox.size.width as i32) != 0
    &&& (bbox.size.height as i32) != 0
    &&& i32::MIN <= dx <= i32::MAX
    &&& i32::MIN <= dy <= i32::MAX
    &&& i32::MIN < dx * sx <= i32::MAX
    &&& i32::MIN < dy * sy <= i32::MAX
    &&& i32::MIN <= r.0 <= i32::MAX
    &&& i32::MIN <= r.1 <= i32::MAX
}

/// Where a point of a display scaled to `size` lands on the display with box `bbox`.
pub fn scale(point: Point, size: Size, bbox: &Rectangle) -> (p: Point)
    requires
        scale_fits(point, size, *bbox),
    ensures
        (p.x as int, p.y as int) == spec_scale(point, size, *bbox),
{
    let dx = point.x - bbox.top_left.x;
    let dy = point.y - bbox.top_left.y;
    let sx = size.width as i32;
    let sy = size.height as i32;
    let bw = bbox.size.width as i32;
    let bh = bbox.size.height as i32;
    let px = dx * sx;
    let py = dy * sy;
    let qx = div_toward_zero(px, bw);
    let qy = div_toward_zero(py, bh);
    Point { x: qx + bbox.top_left.x, y: qy + bbox.top_left.y }
}

/// The box of a display scaled to `size`: the corner of the parent box with
/// the new size.
pub fn scaled_bounding_box(parent: Rectangle, size: Size) -> (r: Rectangle)
    ensures
        r == (Rectangle { top_left: parent.top_left, size }),
{
    Rectangle { top_left: parent.top_left, size }
}

/// Law: turning the display half round twice gives every point back.
pub proof fn law_half_turn_involution(point: Point, bbox: Rectangle)
    requires
        transform_fits(RotateAngle::Degrees180, point, bbox),
    ensures
        ({
            let (x, y) = spec_transform(RotateAngle::Degrees180, point, bbox);
            spec_transform(RotateAngle::Degrees180, Point { x: x as i32, y: y as i32 }, bbox) == (
                point.x as int,
                point.y as int,
            )
        }),
{
}

/// Law: rotating the box of a display twice by the same angle gives it back.
pub proof fn law_rotated_bbox_round_trip(angle: RotateAngle, parent: Rectangle)
    ensures
        spec_rotated_bbox(angle, spec_rotated_bbox(angle, parent)) == parent,
{
}

} // verus!
