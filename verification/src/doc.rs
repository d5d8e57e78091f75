//! The document-frame model: one laid-out page, or a nested sub-region of
//! one, as a tree of positioned drawing items.
//!
//! Lengths are held as integers in millipoints (one thousandth of a
//! typographic point), so that scaling to the surface by a per-mille factor
//! is exact integer arithmetic. Well-formedness bounds every coordinate and
//! the nesting depth, which keeps all renderer arithmetic inside `i64`.

use vstd::prelude::*;

verus! {

/// Largest magnitude, in millipoints, of any coordinate or length in a
/// well-formed frame (one million points).
pub const COORD_LIMIT: i64 = 1_000_000_000;

/// Largest accepted render scale, in millipixels per point (a factor of
/// one thousand).
pub const SCALE_LIMIT: u32 = 1_000_000;

/// Deepest accepted frame nesting.
pub const DEPTH_LIMIT: u32 = 100;

/// A solid color, as straight (non-premultiplied) RGBA bytes. The renderer
/// passes these components through unchanged: no gamma correction and no
/// alpha premultiplication.
#[derive(Clone, Copy, PartialEq, Eq, Structural, Debug)]
pub struct Color {
    pub r: u8,
    pub g: u8,
    pub b: u8,
    pub a: u8,
}

/// A fill or stroke paint. Only solid colors exist today; the tag leaves
/// room for gradients or patterns without touching the renderer's
/// resolution rule.
#[derive(Clone, Copy, PartialEq, Eq, Structural, Debug)]
pub enum Paint {
    Solid(Color),
}

/// A stroke style: a thickness in millipoints and a paint.
#[derive(Clone, Copy, PartialEq, Eq, Structural, Debug)]
pub struct Stroke {
    pub thickness: i64,
    pub paint: Paint,
}

/// A point in the enclosing frame's local space, in millipoints.
#[derive(Clone, Copy, PartialEq, Eq, Structural, Debug)]
pub struct Point {
    pub x: i64,
    pub y: i64,
}

/// An extent in millipoints.
#[derive(Clone, Copy, PartialEq, Eq, Structural, Debug)]
pub struct Extent {
    pub x: i64,
    pub y: i64,
}

/// Shape geometry, relative to the item's position. Paths are an explicit
/// not-yet-supported boundary: the renderer halts on them rather than
/// guessing.
#[derive(Clone, Copy, PartialEq, Eq, Structural, Debug)]
pub enum Geometry {
    /// A line segment from the item's position to this endpoint.
    Line(Point),
    /// An axis-aligned rectangle anchored at the item's position.
    Rect(Extent),
    /// An arbitrary path; not supported by the renderer.
    Path,
}

/// A drawable shape: a geometry, an optional fill and an optional stroke.
/// A missing fill means fully transparent; a missing stroke means no
/// outline.
#[derive(Clone, Copy, PartialEq, Eq, Structural, Debug)]
pub struct Shape {
    pub geometry: Geometry,
    pub fill: Option<Paint>,
    pub stroke: Option<Stroke>,
}

/// A nested frame with its transform and clipping flags. Only the identity
/// transform is supported; the flag records whether the group's transform
/// is the identity, and the renderer halts when it is not.
pub struct Group {
    pub frame: Frame,
    pub identity_transform: bool,
    pub clips: bool,
}

/// One item of a frame. Text and images are explicit not-yet-supported
/// boundaries; metadata never draws.
pub enum FrameItem {
    Group(Group),
    Shape(Shape),
    Text,
    Image,
    Meta,
}

/// An item together with its position in the enclosing frame's local space.
pub struct Positioned {
    pub pos: Point,
    pub item: FrameItem,
}

/// One laid-out page or sub-region: a size plus an ordered sequence of
/// positioned items. Order is draw order; later items cover earlier ones.
pub struct Frame {
    pub width: i64,
    pub height: i64,
    pub items: Vec<Positioned>,
}

/// A coordinate small enough for exact scaling arithmetic.
pub open spec fn coord_ok(v: i64) -> bool {
    -COORD_LIMIT <= v && v <= COORD_LIMIT
}

pub open spec fn point_ok(p: Point) -> bool {
    coord_ok(p.x) && coord_ok(p.y)
}

pub open spec fn extent_ok(e: Extent) -> bool {
    coord_ok(e.x) && coord_ok(e.y)
}

pub open spec fn stroke_ok(s: Stroke) -> bool {
    coord_ok(s.thickness)
}

pub open spec fn shape_ok(s: Shape) -> bool {
    &&& match s.geometry {
        Geometry::Line(to) => point_ok(to),
        Geometry::Rect(e) => extent_ok(e),
        Geometry::Path => true,
    }
    &&& match s.stroke {
        Some(st) => stroke_ok(st),
        None => true,
    }
}

/// Well-formedness of a positioned item with `d` levels of nesting still
/// allowed below the enclosing frame.
pub open spec fn posn_ok(p: Positioned, d: int) -> bool
    decreases p,
{
    &&& point_ok(p.pos)
    &&& match p.item {
        FrameItem::Group(g) => frame_ok(g.frame, d - 1),
        FrameItem::Shape(s) => shape_ok(s),
        _ => true,
    }
}

/// Well-formedness of a frame whose nesting depth is at most `d`: every
/// coordinate is bounded and every nested frame fits in `d - 1` levels.
pub open spec fn frame_ok(f: Frame, d: int) -> bool
    decreases f,
{
    &&& 1 <= d <= DEPTH_LIMIT
    &&& coord_ok(f.width)
    &&& coord_ok(f.height)
    &&& forall|i: int| 0 <= i < f.items@.len() ==> posn_ok(#[trigger] f.items@[i], d)
}

/// A frame the renderer accepts: well-formed at some depth within the
/// limit.
pub open spec fn frame_wf(f: Frame) -> bool {
    exists|d: int| frame_ok(f, d)
}

} // verus!
