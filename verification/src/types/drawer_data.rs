//! Plain geometry of the canvas, and the primitives painted on it.

use vstd::prelude::*;

use crate::configs::config::Font;

verus! {

/// A pixel position; `x` grows to the right, `y` downwards.
#[derive(Debug, Clone, Copy, PartialEq, Eq, Structural)]
pub struct PositionRect {
    pub x: i32,
    pub y: i32,
}

/// An extent in pixels.
#[derive(Debug, Clone, Copy, PartialEq, Eq, Structural)]
pub struct SizeRect {
    pub width: i32,
    pub height: i32,
}

/// An axis-parallel rectangle, given by its top-left corner and its extent.
#[derive(Debug, Clone, Copy, PartialEq, Eq, Structural)]
pub struct Rect {
    pub pos: PositionRect,
    pub size: SizeRect,
}

/// The extent of the canvas that everything is drawn on.
#[derive(Debug, Clone, Copy, PartialEq, Eq, Structural)]
pub struct CanvasSpec {
    pub width: i32,
    pub height: i32,
}

/// One primitive to paint.
#[derive(Debug, Clone, PartialEq, Eq)]
pub enum DrawOp {
    /// A straight stroke between two points.
    Line { from: PositionRect, to: PositionRect, color: [u8; 4], thickness: i32, line_type: i32 },
    /// An open chain of strokes through the points, in their order.
    Polyline { points: Vec<PositionRect>, color: [u8; 4], thickness: i32, line_type: i32 },
    /// A filled disc.
    Disc { center: PositionRect, radius: i32, color: [u8; 4], line_type: i32 },
    /// A filled rectangle.
    FilledRect { rect: Rect, color: [u8; 4], line_type: i32 },
    /// A line of text whose baseline starts at `origin`; `font_scale` is in
    /// millionths.
    Text {
        text: String,
        origin: PositionRect,
        font: Font,
        font_scale: i32,
        color: [u8; 4],
        thickness: i32,
        line_type: i32,
    },
}

/// A primitive as plain values.
pub enum Primitive {
    Line { from: PositionRect, to: PositionRect, color: Seq<u8>, thickness: int, line_type: int },
    Polyline { points: Seq<PositionRect>, color: Seq<u8>, thickness: int, line_type: int },
    Disc { center: PositionRect, radius: int, color: Seq<u8>, line_type: int },
    FilledRect { rect: Rect, color: Seq<u8>, line_type: int },
    Text {
        text: Seq<char>,
        origin: PositionRect,
        font: Font,
        font_scale: int,
        color: Seq<u8>,
        thickness: int,
        line_type: int,
    },
}

impl View for DrawOp {
    type V = Primitive;

    open spec fn view(&self) -> Primitive {
        match *self {
            DrawOp::Line { from, to, color, thickness, line_type } => Primitive::Line {
                from,
                to,
                color: color@,
                thickness: thickness as int,
                line_type: line_type as int,
            },
            DrawOp::Polyline { points, color, thickness, line_type } => Primitive::Polyline {
                points: points@,
                color: color@,
                thickness: thickness as int,
                line_type: line_type as int,
            },
            DrawOp::Disc { center, radius, color, line_type } => Primitive::Disc {
                center,
                radius: radius as int,
                color: color@,
                line_type: line_type as int,
            },
            DrawOp::FilledRect { rect, color, line_type } => Primitive::FilledRect {
                rect,
                color: color@,
                line_type: line_type as int,
            },
            DrawOp::Text { text, origin, font, font_scale, color, thickness, line_type } => {
                Primitive::Text {
                    text: text@,
                    origin,
                    font,
                    font_scale: font_scale as int,
                    color: color@,
                    thickness: thickness as int,
                    line_type: line_type as int,
                }
            },
        }
    }
}

/// The primitives `ops` as plain values.
pub open spec fn primitives(ops: Seq<DrawOp>) -> Seq<Primitive> {
    ops.map_values(|op: DrawOp| op@)
}

/// A raster under construction, held as the primitives painted on it so
/// far, the oldest first. Painting adds to the end; nothing is ever taken
/// back.
#[derive(Debug, PartialEq, Eq)]
pub struct Canvas {
    pub ops: Vec<DrawOp>,
}

impl View for Canvas {
    type V = Seq<Primitive>;

    open spec fn view(&self) -> Seq<Primitive> {
        primitives(self.ops@)
    }
}

impl Canvas {
    /// A canvas on which nothing is painted yet.
    pub fn new() -> (canvas: Self)
        ensures
            canvas@ == Seq::<Primitive>::empty(),
    {
        let canvas = Canvas { ops: Vec::new() };
        assert(canvas@ =~= Seq::<Primitive>::empty());
        canvas
    }

    /// Paints one more primitive.
    pub fn paint(&mut self, op: DrawOp)
        ensures
            final(self)@ == old(self)@.push(op@),
    {
        self.ops.push(op);
        assert(self@ =~= old(self)@.push(op@));
    }

    /// The number of primitives painted so far.
    pub fn len(&self) -> (count: usize)
        ensures
            count == self@.len(),
    {
        self.ops.len()
    }
}

} // verus!
