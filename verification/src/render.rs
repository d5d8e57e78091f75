//! The frame renderer: a pure, depth-first, order-preserving translation
//! from a document frame tree into a sequence of primitive draw calls
//! against a surface restricted to a clip rectangle.
//!
//! Every item's absolute position is the cumulative sum of its ancestor
//! groups' positions plus the surface origin, which starts at the clip
//! rectangle's top-left corner: the renderer threads that origin through
//! the recursion, and a nested group anchors its children at its own
//! absolute position whether or not it clips.
//!
//! Surface coordinates are integers in micropixels (one millionth of a
//! pixel). A length of `v` millipoints under a scale of `s` millipixels
//! per point maps to exactly `v * s` micropixels, so the default scale of
//! 1250 (1.25 pixels per point) is exact.
//!
//! Text runs, images, path geometries and non-identity transforms are not
//! supported: the renderer halts loudly on the first one it meets, keeping
//! the calls emitted up to that point, rather than skipping the item.

use vstd::prelude::*;

use crate::doc::{
    coord_ok, frame_ok, frame_wf, posn_ok, stroke_ok, Color, Frame, FrameItem, Geometry, Group,
    Paint, Point, Positioned, Stroke, COORD_LIMIT, DEPTH_LIMIT, SCALE_LIMIT,
};

verus! {

/// The default render scale: 1250 millipixels per point, i.e. 1.25 pixels
/// per point. Process-wide configuration, chosen once at startup.
pub const DEFAULT_SCALE: u32 = 1250;

/// Largest magnitude of one scaled length: `COORD_LIMIT * SCALE_LIMIT`
/// micropixels.
pub const PX_STEP: i64 = 1_000_000_000_000_000;

/// Largest magnitude accepted for a coordinate of the outermost clip
/// rectangle, in micropixels.
pub const CLIP_BASE: i64 = 100_000_000_000_000_000;

/// A bound that every micropixel value handled by the renderer stays
/// under: the deepest origin bound plus two scaled lengths.
pub const PX_LIMIT: i64 = 400_000_000_000_000_000;

/// A point on the surface, in micropixels.
#[derive(Clone, Copy, PartialEq, Eq, Structural, Debug)]
pub struct PxPoint {
    pub x: i64,
    pub y: i64,
}

/// An axis-aligned surface rectangle, in micropixels.
#[derive(Clone, Copy, PartialEq, Eq, Structural, Debug)]
pub struct PxRect {
    pub min_x: i64,
    pub min_y: i64,
    pub max_x: i64,
    pub max_y: i64,
}

/// A resolved stroke: a thickness in micropixels and a color. A thickness
/// of zero with a fully transparent color is "no stroke".
#[derive(Clone, Copy, PartialEq, Eq, Structural, Debug)]
pub struct PxStroke {
    pub thickness: i64,
    pub color: Color,
}

/// One primitive draw call, carrying the clip rectangle in force when it
/// was emitted: nothing outside that rectangle becomes visible.
#[derive(Clone, Copy, PartialEq, Eq, Structural, Debug)]
pub enum DrawCall {
    /// A stroked line segment.
    Line { clip: PxRect, from: PxPoint, to: PxPoint, stroke: PxStroke },
    /// A filled and outlined rectangle, with square corners.
    Rect { clip: PxRect, rect: PxRect, fill: Color, stroke: PxStroke },
}

/// The not-yet-supported constructs on which rendering halts. Distinct
/// from compile diagnostics: meeting one is a hard stop, not a recoverable
/// error.
#[derive(Clone, Copy, PartialEq, Eq, Structural, Debug)]
pub enum Unsupported {
    Text,
    Image,
    PathGeometry,
    Transform,
}

/// The outcome of a render pass: the draw calls emitted in order and,
/// when an unsupported construct was met, the reason the pass halted
/// after those calls.
#[derive(PartialEq, Debug)]
pub struct Rendering {
    pub calls: Vec<DrawCall>,
    pub halted: Option<Unsupported>,
}

/// Exact scaling: `v` millipoints at `s` millipixels per point.
pub open spec fn spec_to_px(v: i64, s: u32) -> i64 {
    ((v as int) * (s as int)) as i64
}

pub open spec fn spec_add_px(a: i64, b: i64) -> i64 {
    ((a as int) + (b as int)) as i64
}

/// The fully transparent color.
pub open spec fn spec_transparent() -> Color {
    Color { r: 0, g: 0, b: 0, a: 0 }
}

/// Paint resolution: a solid paint keeps its RGBA components unchanged,
/// straight (not premultiplied) alpha.
pub open spec fn spec_paint_color(p: Paint) -> Color {
    match p {
        Paint::Solid(c) => c,
    }
}

/// Fill resolution: a missing fill is fully transparent.
pub open spec fn spec_fill_color(f: Option<Paint>) -> Color {
    match f {
        Some(p) => spec_paint_color(p),
        None => spec_transparent(),
    }
}

/// Stroke resolution: a missing stroke has thickness zero and a fully
/// transparent color.
pub open spec fn spec_stroke_px(st: Option<Stroke>, s: u32) -> PxStroke {
    match st {
        Some(k) => PxStroke { thickness: spec_to_px(k.thickness, s), color: spec_paint_color(k.paint) },
        None => PxStroke { thickness: 0, color: spec_transparent() },
    }
}

/// Rectangle intersection, componentwise max of minima and min of maxima.
pub open spec fn spec_intersect(a: PxRect, b: PxRect) -> PxRect {
    PxRect {
        min_x: if a.min_x >= b.min_x { a.min_x } else { b.min_x },
        min_y: if a.min_y >= b.min_y { a.min_y } else { b.min_y },
        max_x: if a.max_x <= b.max_x { a.max_x } else { b.max_x },
        max_y: if a.max_y <= b.max_y { a.max_y } else { b.max_y },
    }
}

/// `a` lies inside `b`.
pub open spec fn rect_inside(a: PxRect, b: PxRect) -> bool {
    b.min_x <= a.min_x && b.min_y <= a.min_y && a.max_x <= b.max_x && a.max_y <= b.max_y
}

/// The clip rectangle a draw call was emitted under.
pub open spec fn call_clip(c: DrawCall) -> PxRect {
    match c {
        DrawCall::Line { clip, .. } => clip,
        DrawCall::Rect { clip, .. } => clip,
    }
}

/// A local position translated to its absolute place on the surface: the
/// enclosing frame's origin plus the scaled local coordinates.
pub open spec fn spec_translate(p: Point, origin: PxPoint, s: u32) -> PxPoint {
    PxPoint {
        x: spec_add_px(origin.x, spec_to_px(p.x, s)),
        y: spec_add_px(origin.y, spec_to_px(p.y, s)),
    }
}

/// The surface rectangle of a nested frame positioned at `pos` inside a
/// frame with origin `origin`: anchored at the group's absolute position
/// and sized to the frame's scaled width and height.
pub open spec fn spec_group_rect(pos: Point, f: Frame, origin: PxPoint, s: u32) -> PxRect {
    let anchor = spec_translate(pos, origin, s);
    PxRect {
        min_x: anchor.x,
        min_y: anchor.y,
        max_x: spec_add_px(anchor.x, spec_to_px(f.width, s)),
        max_y: spec_add_px(anchor.y, spec_to_px(f.height, s)),
    }
}

/// An accepted render scale.
pub open spec fn scale_ok(s: u32) -> bool {
    1 <= s <= SCALE_LIMIT
}

/// The origin bound available to a frame allowed `d` further levels of
/// nesting: each level of grouping moves the origin by at most one scaled
/// length per axis.
pub open spec fn origin_ok(o: PxPoint, d: int) -> bool {
    let b = CLIP_BASE + (DEPTH_LIMIT as int - d) * PX_STEP;
    &&& -b <= o.x <= b
    &&& -b <= o.y <= b
}

/// A clip rectangle accepted at the outermost render call.
pub open spec fn clip_wf(c: PxRect) -> bool {
    &&& -CLIP_BASE <= c.min_x <= CLIP_BASE
    &&& -CLIP_BASE <= c.min_y <= CLIP_BASE
    &&& -CLIP_BASE <= c.max_x <= CLIP_BASE
    &&& -CLIP_BASE <= c.max_y <= CLIP_BASE
}

/// The draw calls and halt state of one positioned item. A group's
/// children render with the group's absolute position as their origin;
/// a clipping group additionally restricts the clip rectangle to the
/// intersection of the current one with the group's own rectangle.
pub open spec fn spec_render_item(p: Positioned, origin: PxPoint, clip: PxRect, s: u32) -> (Seq<
    DrawCall,
>, Option<Unsupported>)
    decreases p, 0int,
{
    let pos = spec_translate(p.pos, origin, s);
    match p.item {
        FrameItem::Meta => (Seq::empty(), None),
        FrameItem::Text => (Seq::empty(), Some(Unsupported::Text)),
        FrameItem::Image => (Seq::empty(), Some(Unsupported::Image)),
        FrameItem::Shape(sh) => match sh.geometry {
            Geometry::Path => (Seq::empty(), Some(Unsupported::PathGeometry)),
            Geometry::Line(to) => (
                seq![
                    DrawCall::Line {
                        clip,
                        from: pos,
                        to: spec_translate(to, origin, s),
                        stroke: spec_stroke_px(sh.stroke, s),
                    },
                ],
                None,
            ),
            Geometry::Rect(ext) => (
                seq![
                    DrawCall::Rect {
                        clip,
                        rect: PxRect {
                            min_x: pos.x,
                            min_y: pos.y,
                            max_x: spec_add_px(pos.x, spec_to_px(ext.x, s)),
                            max_y: spec_add_px(pos.y, spec_to_px(ext.y, s)),
                        },
                        fill: spec_fill_color(sh.fill),
                        stroke: spec_stroke_px(sh.stroke, s),
                    },
                ],
                None,
            ),
        },
        FrameItem::Group(g) => {
            if !g.identity_transform {
                (Seq::empty(), Some(Unsupported::Transform))
            } else {
                let subclip = if g.clips {
                    spec_intersect(clip, spec_group_rect(p.pos, g.frame, origin, s))
                } else {
                    clip
                };
                spec_render_frame(g.frame, pos, subclip, s)
            }
        },
    }
}

/// The draw calls and halt state of the items of a frame from index `i`
/// on: items in sequence order, halting at the first unsupported one.
pub open spec fn spec_render_items(
    items: Seq<Positioned>,
    i: int,
    origin: PxPoint,
    clip: PxRect,
    s: u32,
) -> (Seq<DrawCall>, Option<Unsupported>)
    decreases items, items.len() - i,
{
    if i < 0 || i >= items.len() {
        (Seq::empty(), None)
    } else {
        let head = spec_render_item(items[i], origin, clip, s);
        if head.1 is Some {
            head
        } else {
            let rest = spec_render_items(items, i + 1, origin, clip, s);
            (head.0 + rest.0, rest.1)
        }
    }
}

/// The draw calls and halt state of a whole frame rendered with its
/// origin at `origin` under the clip rectangle `clip`.
pub open spec fn spec_render_frame(f: Frame, origin: PxPoint, clip: PxRect, s: u32) -> (Seq<
    DrawCall,
>, Option<Unsupported>)
    decreases f, 0int,
{
    spec_render_items(f.items@, 0, origin, clip, s)
}

proof fn lemma_scale_bound(v: int, s: int)
    by (nonlinear_arith)
    requires
        -COORD_LIMIT <= v <= COORD_LIMIT,
        0 <= s <= SCALE_LIMIT,
    ensures
        -PX_STEP <= v * s <= PX_STEP,
{
}

/// One length scaled to the surface.
pub fn to_px(v: i64, scale: u32) -> (r: i64)
    requires
        coord_ok(v),
        scale_ok(scale),
    ensures
        r == spec_to_px(v, scale),
        -PX_STEP <= r <= PX_STEP,
{
    proof {
        lemma_scale_bound(v as int, scale as int);
    }
    v * (scale as i64)
}

fn add_px(a: i64, b: i64) -> (r: i64)
    requires
        -PX_LIMIT <= a <= PX_LIMIT,
        -PX_LIMIT <= b <= PX_LIMIT,
    ensures
        r == spec_add_px(a, b),
        -2 * PX_LIMIT <= r <= 2 * PX_LIMIT,
{
    a + b
}

/// Paint resolution; see `spec_paint_color` for the color convention.
pub fn translate_paint(p: &Paint) -> (c: Color)
    ensures
        c == spec_paint_color(*p),
{
    match p {
        Paint::Solid(c) => *c,
    }
}

/// Fill resolution: a missing fill paints fully transparent.
pub fn resolve_fill(f: &Option<Paint>) -> (c: Color)
    ensures
        c == spec_fill_color(*f),
{
    match f {
        Some(p) => translate_paint(p),
        None => Color { r: 0, g: 0, b: 0, a: 0 },
    }
}

/// Stroke resolution: a missing stroke becomes thickness zero, fully
/// transparent.
pub fn resolve_stroke(st: &Option<Stroke>, scale: u32) -> (r: PxStroke)
    requires
        scale_ok(scale),
        match *st {
            Some(k) => stroke_ok(k),
            None => true,
        },
    ensures
        r == spec_stroke_px(*st, scale),
{
    match st {
        Some(k) => PxStroke { thickness: to_px(k.thickness, scale), color: translate_paint(&k.paint) },
        None => PxStroke { thickness: 0, color: Color { r: 0, g: 0, b: 0, a: 0 } },
    }
}

/// Rectangle intersection.
pub fn intersect(a: PxRect, b: PxRect) -> (r: PxRect)
    ensures
        r == spec_intersect(a, b),
{
    PxRect {
        min_x: if a.min_x >= b.min_x { a.min_x } else { b.min_x },
        min_y: if a.min_y >= b.min_y { a.min_y } else { b.min_y },
        max_x: if a.max_x <= b.max_x { a.max_x } else { b.max_x },
        max_y: if a.max_y <= b.max_y { a.max_y } else { b.max_y },
    }
}

/// Renders one positioned item, recursing into nested frames anchored at
/// their absolute position.
pub fn render_item(p: &Positioned, origin: PxPoint, clip: PxRect, scale: u32) -> (out: Rendering)
    requires
        scale_ok(scale),
        exists|d: int| 1 <= d <= DEPTH_LIMIT && posn_ok(*p, d) && origin_ok(origin, d),
    ensures
        out.calls@ == spec_render_item(*p, origin, clip, scale).0,
        out.halted == spec_render_item(*p, origin, clip, scale).1,
    decreases *p,
{
    let ghost d = choose|d: int| 1 <= d <= DEPTH_LIMIT && posn_ok(*p, d) && origin_ok(origin, d);
    let pos_x = add_px(origin.x, to_px(p.pos.x, scale));
    let pos_y = add_px(origin.y, to_px(p.pos.y, scale));
    match &p.item {
        FrameItem::Meta => Rendering { calls: Vec::new(), halted: None },
        FrameItem::Text => Rendering { calls: Vec::new(), halted: Some(Unsupported::Text) },
        FrameItem::Image => Rendering { calls: Vec::new(), halted: Some(Unsupported::Image) },
        FrameItem::Shape(sh) => match &sh.geometry {
            Geometry::Path => Rendering {
                calls: Vec::new(),
                halted: Some(Unsupported::PathGeometry),
            },
            Geometry::Line(to) => {
                let to_x = add_px(origin.x, to_px(to.x, scale));
                let to_y = add_px(origin.y, to_px(to.y, scale));
                let mut calls: Vec<DrawCall> = Vec::new();
                calls.push(
                    DrawCall::Line {
                        clip,
                        from: PxPoint { x: pos_x, y: pos_y },
                        to: PxPoint { x: to_x, y: to_y },
                        stroke: resolve_stroke(&sh.stroke, scale),
                    },
                );
                Rendering { calls, halted: None }
            },
            Geometry::Rect(ext) => {
                let max_x = add_px(pos_x, to_px(ext.x, scale));
                let max_y = add_px(pos_y, to_px(ext.y, scale));
                let mut calls: Vec<DrawCall> = Vec::new();
                calls.push(
                    DrawCall::Rect {
                        clip,
                        rect: PxRect { min_x: pos_x, min_y: pos_y, max_x, max_y },
                        fill: resolve_fill(&sh.fill),
                        stroke: resolve_stroke(&sh.stroke, scale),
                    },
                );
                Rendering { calls, halted: None }
            },
        },
        FrameItem::Group(g) => {
            if !g.identity_transform {
                Rendering { calls: Vec::new(), halted: Some(Unsupported::Transform) }
            } else {
                let anchor = PxPoint { x: pos_x, y: pos_y };
                let subclip = if g.clips {
                    let max_x = add_px(pos_x, to_px(g.frame.width, scale));
                    let max_y = add_px(pos_y, to_px(g.frame.height, scale));
                    intersect(clip, PxRect { min_x: pos_x, min_y: pos_y, max_x, max_y })
                } else {
                    clip
                };
                proof {
                    assert(frame_ok(g.frame, d - 1));
                    assert(origin_ok(anchor, d - 1));
                    assert(exists|dd: int| frame_ok(g.frame, dd) && origin_ok(anchor, dd));
                }
                render_frame(&g.frame, anchor, subclip, scale)
            }
        },
    }
}

/// Renders a frame's items in order with the given origin and clip
/// rectangle, halting at the first unsupported item.
pub fn render_frame(frame: &Frame, origin: PxPoint, clip: PxRect, scale: u32) -> (out: Rendering)
    requires
        scale_ok(scale),
        exists|d: int| frame_ok(*frame, d) && origin_ok(origin, d),
    ensures
        out.calls@ == spec_render_frame(*frame, origin, clip, scale).0,
        out.halted == spec_render_frame(*frame, origin, clip, scale).1,
    decreases *frame,
{
    let ghost d = choose|d: int| frame_ok(*frame, d) && origin_ok(origin, d);
    let ghost items = frame.items@;
    let mut calls: Vec<DrawCall> = Vec::new();
    let mut i: usize = 0;
    while i < frame.items.len()
        invariant
            0 <= i <= items.len(),
            items == frame.items@,
            scale_ok(scale),
            frame_ok(*frame, d),
            origin_ok(origin, d),
            ({
                let full = spec_render_items(items, 0, origin, clip, scale);
                let rest = spec_render_items(items, i as int, origin, clip, scale);
                full.0 == calls@ + rest.0 && full.1 == rest.1
            }),
        decreases items.len() - i,
    {
        let ghost prev = calls@;
        let r = render_item(&frame.items[i], origin, clip, scale);
        let mut head = r.calls;
        calls.append(&mut head);
        if let Some(h) = r.halted {
            proof {
                let full = spec_render_items(items, 0, origin, clip, scale);
                let rest = spec_render_items(items, i as int, origin, clip, scale);
                assert(rest == spec_render_item(items[i as int], origin, clip, scale));
                assert(full.0 == calls@ && full.1 == Some(h));
            }
            return Rendering { calls, halted: Some(h) };
        }
        proof {
            let hd = spec_render_item(items[i as int], origin, clip, scale);
            let rest_next = spec_render_items(items, i + 1, origin, clip, scale);
            let rest = spec_render_items(items, i as int, origin, clip, scale);
            assert(rest.0 == hd.0 + rest_next.0 && rest.1 == rest_next.1);
            assert(prev + (hd.0 + rest_next.0) =~= (prev + hd.0) + rest_next.0);
        }
        i += 1;
    }
    proof {
        let full = spec_render_items(items, 0, origin, clip, scale);
        let rest = spec_render_items(items, i as int, origin, clip, scale);
        assert(rest.0 =~= Seq::<DrawCall>::empty());
        assert(calls@ + rest.0 =~= calls@);
    }
    Rendering { calls, halted: None }
}

proof fn lemma_meta_only_items(items: Seq<Positioned>, i: int, origin: PxPoint, clip: PxRect, s: u32)
    requires
        forall|k: int| 0 <= k < items.len() ==> (#[trigger] items[k]).item is Meta,
    ensures
        spec_render_items(items, i, origin, clip, s).0 == Seq::<DrawCall>::empty(),
        spec_render_items(items, i, origin, clip, s).1 is None,
    decreases items.len() - i,
{
    if 0 <= i < items.len() {
        assert(items[i].item is Meta);
        let head = spec_render_item(items[i], origin, clip, s);
        assert(head.0 == Seq::<DrawCall>::empty() && head.1 is None);
        lemma_meta_only_items(items, i + 1, origin, clip, s);
        let rest = spec_render_items(items, i + 1, origin, clip, s);
        assert(spec_render_items(items, i, origin, clip, s).0 == head.0 + rest.0);
        assert(head.0 + rest.0 =~= Seq::<DrawCall>::empty());
    }
}

/// A frame whose items are all metadata renders to zero draw calls and
/// does not halt.
pub proof fn lemma_meta_only_no_calls(f: Frame, origin: PxPoint, clip: PxRect, s: u32)
    requires
        forall|k: int| 0 <= k < f.items@.len() ==> (#[trigger] f.items@[k]).item is Meta,
    ensures
        spec_render_frame(f, origin, clip, s).0 == Seq::<DrawCall>::empty(),
        spec_render_frame(f, origin, clip, s).1 is None,
{
    lemma_meta_only_items(f.items@, 0, origin, clip, s);
}

/// The intersection of two rectangles lies inside each of them.
pub proof fn lemma_intersect_inside(a: PxRect, b: PxRect)
    ensures
        rect_inside(spec_intersect(a, b), a),
        rect_inside(spec_intersect(a, b), b),
{
}

proof fn lemma_item_confined(p: Positioned, origin: PxPoint, clip: PxRect, s: u32)
    ensures
        forall|k: int|
            0 <= k < spec_render_item(p, origin, clip, s).0.len() ==> rect_inside(
                call_clip(#[trigger] spec_render_item(p, origin, clip, s).0[k]),
                clip,
            ),
    decreases p, 0int,
{
    match p.item {
        FrameItem::Group(g) => {
            if g.identity_transform {
                let anchor = spec_translate(p.pos, origin, s);
                let subclip = if g.clips {
                    spec_intersect(clip, spec_group_rect(p.pos, g.frame, origin, s))
                } else {
                    clip
                };
                lemma_frame_confined(g.frame, anchor, subclip, s);
                if g.clips {
                    lemma_intersect_inside(clip, spec_group_rect(p.pos, g.frame, origin, s));
                }
                let out = spec_render_item(p, origin, clip, s);
                assert forall|k: int| 0 <= k < out.0.len() implies rect_inside(
                    call_clip(#[trigger] out.0[k]),
                    clip,
                ) by {
                    assert(out == spec_render_frame(g.frame, anchor, subclip, s));
                    assert(rect_inside(
                        call_clip(spec_render_frame(g.frame, anchor, subclip, s).0[k]),
                        subclip,
                    ));
                }
            }
        },
        _ => {},
    }
}

proof fn lemma_items_confined(items: Seq<Positioned>, i: int, origin: PxPoint, clip: PxRect, s: u32)
    ensures
        forall|k: int|
            0 <= k < spec_render_items(items, i, origin, clip, s).0.len() ==> rect_inside(
                call_clip(#[trigger] spec_render_items(items, i, origin, clip, s).0[k]),
                clip,
            ),
    decreases items, items.len() - i,
{
    if 0 <= i < items.len() {
        lemma_item_confined(items[i], origin, clip, s);
        let head = spec_render_item(items[i], origin, clip, s);
        if head.1 is None {
            lemma_items_confined(items, i + 1, origin, clip, s);
            let rest = spec_render_items(items, i + 1, origin, clip, s);
            let cur = spec_render_items(items, i, origin, clip, s);
            assert forall|k: int| 0 <= k < cur.0.len() implies rect_inside(
                call_clip(#[trigger] cur.0[k]),
                clip,
            ) by {
                assert(cur.0 == head.0 + rest.0);
                if k < head.0.len() {
                    assert(cur.0[k] == head.0[k]);
                    assert(rect_inside(call_clip(head.0[k]), clip));
                } else {
                    assert(cur.0[k] == rest.0[k - head.0.len()]);
                    assert(rect_inside(call_clip(rest.0[k - head.0.len()]), clip));
                }
            }
        }
    }
}

/// Confinement: every draw call a frame emits carries a clip rectangle
/// that lies inside the clip rectangle the frame was rendered under.
pub proof fn lemma_frame_confined(f: Frame, origin: PxPoint, clip: PxRect, s: u32)
    ensures
        forall|k: int|
            0 <= k < spec_render_frame(f, origin, clip, s).0.len() ==> rect_inside(
                call_clip(#[trigger] spec_render_frame(f, origin, clip, s).0[k]),
                clip,
            ),
    decreases f, 1int,
{
    lemma_items_confined(f.items@, 0, origin, clip, s);
    let out = spec_render_frame(f, origin, clip, s);
    assert forall|k: int| 0 <= k < out.0.len() implies rect_inside(
        call_clip(#[trigger] out.0[k]),
        clip,
    ) by {
        assert(out == spec_render_items(f.items@, 0, origin, clip, s));
        assert(rect_inside(call_clip(spec_render_items(f.items@, 0, origin, clip, s).0[k]), clip));
    }
}

/// Anchoring law: an identity-transform group positioned at `pos` renders
/// its children as the nested frame rendered with the group's absolute
/// position as their origin — absolute positions are the cumulative sum
/// of ancestor positions plus the surface origin. A clipping group
/// additionally intersects the clip rectangle with its own rectangle; a
/// non-clipping group leaves the clip rectangle unchanged.
pub proof fn lemma_group_anchors_children(g: Group, pos: Point, origin: PxPoint, clip: PxRect, s: u32)
    requires
        g.identity_transform,
    ensures
        ({
            let subclip = if g.clips {
                spec_intersect(clip, spec_group_rect(pos, g.frame, origin, s))
            } else {
                clip
            };
            spec_render_item(Positioned { pos, item: FrameItem::Group(g) }, origin, clip, s)
                == spec_render_frame(g.frame, spec_translate(pos, origin, s), subclip, s)
        }),
{
}

/// Clipping law: every draw call originating from a nested frame with
/// `clips` set, positioned at `pos` under an outer clip rectangle, is
/// confined to the intersection of that outer rectangle with the nested
/// frame's own translated and scaled rectangle.
pub proof fn lemma_clipped_group_confined(
    g: Group,
    pos: Point,
    origin: PxPoint,
    clip: PxRect,
    s: u32,
)
    requires
        g.clips,
    ensures
        forall|k: int|
            0 <= k < spec_render_item(
                Positioned { pos, item: FrameItem::Group(g) },
                origin,
                clip,
                s,
            ).0.len() ==> rect_inside(
                call_clip(
                    #[trigger] spec_render_item(
                        Positioned { pos, item: FrameItem::Group(g) },
                        origin,
                        clip,
                        s,
                    ).0[k],
                ),
                spec_intersect(clip, spec_group_rect(pos, g.frame, origin, s)),
            ),
{
    if g.identity_transform {
        let anchor = spec_translate(pos, origin, s);
        let subclip = spec_intersect(clip, spec_group_rect(pos, g.frame, origin, s));
        lemma_frame_confined(g.frame, anchor, subclip, s);
        let p = Positioned { pos, item: FrameItem::Group(g) };
        let out = spec_render_item(p, origin, clip, s);
        assert forall|k: int| 0 <= k < out.0.len() implies rect_inside(
            call_clip(#[trigger] out.0[k]),
            subclip,
        ) by {
            assert(out == spec_render_frame(g.frame, anchor, subclip, s));
            assert(rect_inside(call_clip(spec_render_frame(g.frame, anchor, subclip, s).0[k]), subclip));
        }
    }
}

/// Determinism: the rendered draw-call sequence is a function of the
/// frame, the origin, the clip rectangle and the scale alone, so
/// rendering the same frame against an identical surface twice gives
/// identical calls in the identical order.
pub proof fn lemma_render_deterministic(
    f1: Frame,
    f2: Frame,
    o1: PxPoint,
    o2: PxPoint,
    c1: PxRect,
    c2: PxRect,
    s1: u32,
    s2: u32,
)
    requires
        f1 == f2,
        o1 == o2,
        c1 == c2,
        s1 == s2,
    ensures
        spec_render_frame(f1, o1, c1, s1) == spec_render_frame(f2, o2, c2, s2),
{
}

/// Renders one document frame against a surface restricted to `clip`,
/// with the clip rectangle's top-left corner as the page frame's origin.
/// Returns the draw calls in draw order; later calls cover earlier ones.
pub fn render(frame: &Frame, clip: PxRect, scale: u32) -> (out: Rendering)
    requires
        frame_wf(*frame),
        clip_wf(clip),
        scale_ok(scale),
    ensures
        out.calls@ == spec_render_frame(
            *frame,
            PxPoint { x: clip.min_x, y: clip.min_y },
            clip,
            scale,
        ).0,
        out.halted == spec_render_frame(
            *frame,
            PxPoint { x: clip.min_x, y: clip.min_y },
            clip,
            scale,
        ).1,
{
    let origin = PxPoint { x: clip.min_x, y: clip.min_y };
    proof {
        let d = choose|d: int| frame_ok(*frame, d);
        assert(origin_ok(origin, d));
        assert(exists|dd: int| frame_ok(*frame, dd) && origin_ok(origin, dd));
    }
    render_frame(frame, origin, clip, scale)
}

} // verus!
