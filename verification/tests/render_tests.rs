use preview_core::doc::{
    Color, Extent, Frame, FrameItem, Geometry, Group, Paint, Point, Positioned, Shape, Stroke,
};
use preview_core::render::{
    render, DrawCall, PxPoint, PxRect, PxStroke, Rendering, Unsupported, DEFAULT_SCALE,
};

fn opaque_red() -> Color {
    Color { r: 255, g: 0, b: 0, a: 255 }
}

fn transparent() -> Color {
    Color { r: 0, g: 0, b: 0, a: 0 }
}

fn rect_shape(x: i64, y: i64, fill: Option<Paint>, stroke: Option<Stroke>) -> FrameItem {
    FrameItem::Shape(Shape { geometry: Geometry::Rect(Extent { x, y }), fill, stroke })
}

fn wide_clip() -> PxRect {
    PxRect { min_x: 0, min_y: 0, max_x: 500_000_000, max_y: 500_000_000 }
}

/// A 10pt x 10pt rectangle, opaque red fill, no stroke, at the local
/// origin, under the default scale of 1.25: exactly one filled-rectangle
/// call at the surface origin, 12.5px (12_500_000 micropixels) on a side.
#[test]
fn red_rect_exact() {
    let frame = Frame {
        width: 10_000,
        height: 10_000,
        items: vec![Positioned {
            pos: Point { x: 0, y: 0 },
            item: rect_shape(10_000, 10_000, Some(Paint::Solid(opaque_red())), None),
        }],
    };
    let out = render(&frame, wide_clip(), DEFAULT_SCALE);
    assert_eq!(out.halted, None);
    assert_eq!(
        out.calls,
        vec![DrawCall::Rect {
            clip: wide_clip(),
            rect: PxRect { min_x: 0, min_y: 0, max_x: 12_500_000, max_y: 12_500_000 },
            fill: opaque_red(),
            stroke: PxStroke { thickness: 0, color: transparent() },
        }]
    );
}

/// The clip rectangle's top-left corner is the frame's origin: item
/// positions are offset by it.
#[test]
fn origin_is_clip_corner() {
    let frame = Frame {
        width: 10_000,
        height: 10_000,
        items: vec![Positioned {
            pos: Point { x: 2_000, y: 4_000 },
            item: rect_shape(1_000, 1_000, Some(Paint::Solid(opaque_red())), None),
        }],
    };
    let clip = PxRect { min_x: 1_000_000, min_y: 2_000_000, max_x: 99_000_000, max_y: 99_000_000 };
    let out = render(&frame, clip, DEFAULT_SCALE);
    assert_eq!(out.halted, None);
    assert_eq!(out.calls.len(), 1);
    match out.calls[0] {
        DrawCall::Rect { rect, .. } => {
            assert_eq!(rect.min_x, 1_000_000 + 2_500_000);
            assert_eq!(rect.min_y, 2_000_000 + 5_000_000);
            assert_eq!(rect.max_x, 1_000_000 + 2_500_000 + 1_250_000);
            assert_eq!(rect.max_y, 2_000_000 + 5_000_000 + 1_250_000);
        }
        _ => panic!("expected a rectangle call"),
    }
}

/// A document holding only metadata items renders to zero draw calls.
#[test]
fn meta_only_zero_calls() {
    let frame = Frame {
        width: 10_000,
        height: 10_000,
        items: vec![
            Positioned { pos: Point { x: 0, y: 0 }, item: FrameItem::Meta },
            Positioned { pos: Point { x: 5_000, y: 5_000 }, item: FrameItem::Meta },
        ],
    };
    let out = render(&frame, wide_clip(), DEFAULT_SCALE);
    assert_eq!(out.halted, None);
    assert!(out.calls.is_empty());
}

/// A text run halts rendering loudly: the calls before it stay, nothing
/// after it is drawn, and the halt names the unsupported construct.
#[test]
fn text_halts_rendering() {
    let frame = Frame {
        width: 10_000,
        height: 10_000,
        items: vec![
            Positioned {
                pos: Point { x: 0, y: 0 },
                item: rect_shape(1_000, 1_000, Some(Paint::Solid(opaque_red())), None),
            },
            Positioned { pos: Point { x: 0, y: 0 }, item: FrameItem::Text },
            Positioned {
                pos: Point { x: 0, y: 0 },
                item: rect_shape(2_000, 2_000, Some(Paint::Solid(opaque_red())), None),
            },
        ],
    };
    let out = render(&frame, wide_clip(), DEFAULT_SCALE);
    assert_eq!(out.halted, Some(Unsupported::Text));
    assert_eq!(out.calls.len(), 1);
}

#[test]
fn image_halts_rendering() {
    let frame = Frame {
        width: 10_000,
        height: 10_000,
        items: vec![Positioned { pos: Point { x: 0, y: 0 }, item: FrameItem::Image }],
    };
    let out = render(&frame, wide_clip(), DEFAULT_SCALE);
    assert_eq!(out.halted, Some(Unsupported::Image));
    assert!(out.calls.is_empty());
}

#[test]
fn path_geometry_halts_rendering() {
    let frame = Frame {
        width: 10_000,
        height: 10_000,
        items: vec![Positioned {
            pos: Point { x: 0, y: 0 },
            item: FrameItem::Shape(Shape { geometry: Geometry::Path, fill: None, stroke: None }),
        }],
    };
    let out = render(&frame, wide_clip(), DEFAULT_SCALE);
    assert_eq!(out.halted, Some(Unsupported::PathGeometry));
    assert!(out.calls.is_empty());
}

#[test]
fn non_identity_transform_halts_rendering() {
    let inner = Frame { width: 1_000, height: 1_000, items: vec![] };
    let frame = Frame {
        width: 10_000,
        height: 10_000,
        items: vec![Positioned {
            pos: Point { x: 0, y: 0 },
            item: FrameItem::Group(Group { frame: inner, identity_transform: false, clips: false }),
        }],
    };
    let out = render(&frame, wide_clip(), DEFAULT_SCALE);
    assert_eq!(out.halted, Some(Unsupported::Transform));
    assert!(out.calls.is_empty());
}

/// A clipping nested frame confines its calls to the intersection of the
/// outer clip rectangle with its own translated, scaled rectangle.
#[test]
fn clipped_group_confined() {
    let inner = Frame {
        width: 8_000,
        height: 8_000,
        items: vec![Positioned {
            pos: Point { x: 0, y: 0 },
            item: rect_shape(2_000, 2_000, Some(Paint::Solid(opaque_red())), None),
        }],
    };
    let frame = Frame {
        width: 10_000,
        height: 10_000,
        items: vec![Positioned {
            pos: Point { x: 4_000, y: 4_000 },
            item: FrameItem::Group(Group { frame: inner, identity_transform: true, clips: true }),
        }],
    };
    let outer = PxRect { min_x: 0, min_y: 0, max_x: 10_000_000, max_y: 10_000_000 };
    let out = render(&frame, outer, DEFAULT_SCALE);
    assert_eq!(out.halted, None);
    assert_eq!(out.calls.len(), 1);
    // group anchored at 5_000_000, sized 10_000_000: intersection ends at
    // the outer maximum.
    let expected_clip = PxRect {
        min_x: 5_000_000,
        min_y: 5_000_000,
        max_x: 10_000_000,
        max_y: 10_000_000,
    };
    match out.calls[0] {
        DrawCall::Rect { clip, rect, .. } => {
            assert_eq!(clip, expected_clip);
            // the children anchor at the group's absolute position
            assert_eq!(rect.min_x, 5_000_000);
            assert_eq!(rect.min_y, 5_000_000);
            // confinement within the intersection
            assert!(clip.min_x >= outer.min_x && clip.max_x <= outer.max_x);
            assert!(clip.min_y >= outer.min_y && clip.max_y <= outer.max_y);
        }
        _ => panic!("expected a rectangle call"),
    }
}

/// A non-clipping group keeps the clip rectangle unchanged but still
/// anchors its children at its own position: absolute positions are the
/// cumulative sum of ancestor positions plus the surface origin.
#[test]
fn non_clipping_group_offsets_children() {
    let inner = Frame {
        width: 8_000,
        height: 8_000,
        items: vec![Positioned {
            pos: Point { x: 1_000, y: 1_000 },
            item: rect_shape(2_000, 2_000, Some(Paint::Solid(opaque_red())), None),
        }],
    };
    let frame = Frame {
        width: 10_000,
        height: 10_000,
        items: vec![Positioned {
            pos: Point { x: 4_000, y: 4_000 },
            item: FrameItem::Group(Group { frame: inner, identity_transform: true, clips: false }),
        }],
    };
    let clip = wide_clip();
    let out = render(&frame, clip, DEFAULT_SCALE);
    assert_eq!(out.halted, None);
    assert_eq!(out.calls.len(), 1);
    match out.calls[0] {
        DrawCall::Rect { clip: c, rect, .. } => {
            assert_eq!(c, clip);
            // group anchor 5_000_000 plus the child's own 1_250_000
            assert_eq!(rect.min_x, 6_250_000);
            assert_eq!(rect.min_y, 6_250_000);
        }
        _ => panic!("expected a rectangle call"),
    }
}

/// A clipping group whose rectangle sticks out of the outer clip still
/// anchors its children at the group's own position, not at the clamped
/// intersection corner; only the clip rectangle is clamped.
#[test]
fn clipped_group_anchor_outside_clip() {
    let inner = Frame {
        width: 8_000,
        height: 8_000,
        items: vec![Positioned {
            pos: Point { x: 0, y: 0 },
            item: rect_shape(2_000, 2_000, Some(Paint::Solid(opaque_red())), None),
        }],
    };
    let frame = Frame {
        width: 10_000,
        height: 10_000,
        items: vec![Positioned {
            pos: Point { x: -2_000, y: -2_000 },
            item: FrameItem::Group(Group { frame: inner, identity_transform: true, clips: true }),
        }],
    };
    let outer = PxRect { min_x: 0, min_y: 0, max_x: 10_000_000, max_y: 10_000_000 };
    let out = render(&frame, outer, DEFAULT_SCALE);
    assert_eq!(out.halted, None);
    assert_eq!(out.calls.len(), 1);
    match out.calls[0] {
        DrawCall::Rect { clip, rect, .. } => {
            // group rect (-2.5M .. 7.5M) intersected with the outer clip
            assert_eq!(
                clip,
                PxRect { min_x: 0, min_y: 0, max_x: 7_500_000, max_y: 7_500_000 }
            );
            // the child anchors at the group's position, left of the clip
            assert_eq!(rect.min_x, -2_500_000);
            assert_eq!(rect.min_y, -2_500_000);
            assert_eq!(rect.max_x, 0);
            assert_eq!(rect.max_y, 0);
        }
        _ => panic!("expected a rectangle call"),
    }
}

/// A line segment runs from its translated position to its translated
/// endpoint, with the stroke thickness scaled like every other length.
#[test]
fn line_draw_exact() {
    let stroke = Stroke { thickness: 2_000, paint: Paint::Solid(opaque_red()) };
    let frame = Frame {
        width: 10_000,
        height: 10_000,
        items: vec![Positioned {
            pos: Point { x: 1_000, y: 1_000 },
            item: FrameItem::Shape(Shape {
                geometry: Geometry::Line(Point { x: 4_000, y: 8_000 }),
                fill: None,
                stroke: Some(stroke),
            }),
        }],
    };
    let out = render(&frame, wide_clip(), DEFAULT_SCALE);
    assert_eq!(out.halted, None);
    assert_eq!(
        out.calls,
        vec![DrawCall::Line {
            clip: wide_clip(),
            from: PxPoint { x: 1_250_000, y: 1_250_000 },
            to: PxPoint { x: 5_000_000, y: 10_000_000 },
            stroke: PxStroke { thickness: 2_500_000, color: opaque_red() },
        }]
    );
}

/// A missing fill paints fully transparent; a missing stroke outlines
/// nothing.
#[test]
fn missing_paints_resolve_to_nothing() {
    let frame = Frame {
        width: 10_000,
        height: 10_000,
        items: vec![Positioned {
            pos: Point { x: 0, y: 0 },
            item: rect_shape(1_000, 1_000, None, None),
        }],
    };
    let out = render(&frame, wide_clip(), DEFAULT_SCALE);
    match out.calls[0] {
        DrawCall::Rect { fill, stroke, .. } => {
            assert_eq!(fill, transparent());
            assert_eq!(stroke, PxStroke { thickness: 0, color: transparent() });
        }
        _ => panic!("expected a rectangle call"),
    }
}

/// The color convention round-trips exactly: RGBA bytes in, the same
/// straight (non-premultiplied) RGBA bytes drawn.
#[test]
fn color_round_trip() {
    let odd = Color { r: 10, g: 20, b: 30, a: 40 };
    let frame = Frame {
        width: 10_000,
        height: 10_000,
        items: vec![Positioned {
            pos: Point { x: 0, y: 0 },
            item: rect_shape(1_000, 1_000, Some(Paint::Solid(odd)), None),
        }],
    };
    let out = render(&frame, wide_clip(), DEFAULT_SCALE);
    match out.calls[0] {
        DrawCall::Rect { fill, .. } => assert_eq!(fill, odd),
        _ => panic!("expected a rectangle call"),
    }
}

/// Rendering the same frame against an identical surface twice produces
/// an identical ordered sequence of draw calls.
#[test]
fn rendering_is_idempotent() {
    let inner = Frame {
        width: 8_000,
        height: 8_000,
        items: vec![Positioned {
            pos: Point { x: 500, y: 600 },
            item: rect_shape(2_000, 3_000, Some(Paint::Solid(opaque_red())), None),
        }],
    };
    let frame = Frame {
        width: 10_000,
        height: 10_000,
        items: vec![
            Positioned {
                pos: Point { x: 0, y: 0 },
                item: rect_shape(1_000, 1_000, None, None),
            },
            Positioned {
                pos: Point { x: 4_000, y: 4_000 },
                item: FrameItem::Group(Group {
                    frame: inner,
                    identity_transform: true,
                    clips: true,
                }),
            },
        ],
    };
    let first: Rendering = render(&frame, wide_clip(), DEFAULT_SCALE);
    let second: Rendering = render(&frame, wide_clip(), DEFAULT_SCALE);
    assert_eq!(first.calls, second.calls);
    assert_eq!(first.halted, second.halted);
}

/// Items draw in sequence order: later items come later in the call list.
#[test]
fn draw_order_is_item_order() {
    let blue = Color { r: 0, g: 0, b: 255, a: 255 };
    let frame = Frame {
        width: 10_000,
        height: 10_000,
        items: vec![
            Positioned {
                pos: Point { x: 0, y: 0 },
                item: rect_shape(1_000, 1_000, Some(Paint::Solid(opaque_red())), None),
            },
            Positioned {
                pos: Point { x: 0, y: 0 },
                item: rect_shape(1_000, 1_000, Some(Paint::Solid(blue)), None),
            },
        ],
    };
    let out = render(&frame, wide_clip(), DEFAULT_SCALE);
    assert_eq!(out.calls.len(), 2);
    match (out.calls[0], out.calls[1]) {
        (DrawCall::Rect { fill: f0, .. }, DrawCall::Rect { fill: f1, .. }) => {
            assert_eq!(f0, opaque_red());
            assert_eq!(f1, blue);
        }
        _ => panic!("expected two rectangle calls"),
    }
}

#[test]
fn default_scale_is_five_fourths() {
    assert_eq!(DEFAULT_SCALE, 1250);
}
