//! The primitives of a frame, and the two fixed pieces made of them: the
//! header of the lap panel and the pace/distance strip.

use vstd::prelude::*;
use vstd::string::*;

use super::fixed::{clamp_i32, saturate};
use crate::configs::config::Font;
use crate::types::drawer_data::{Canvas, DrawOp, PositionRect, Primitive, Rect, SizeRect};

verus! {

/// The code of anti-aliased strokes.
pub const LINE_AA: i32 = 16;

/// Thickness of a route stroke, in pixels.
pub const ROUTE_THICKNESS: i32 = 4;

/// Radius of the position marker, in pixels.
pub const MARKER_RADIUS: i32 = 8;

/// Distance of the strip's texts from the canvas edges, in pixels.
pub const STRIP_MARGIN: i32 = 20;

/// Height of the strip beyond the height of its text, in pixels.
pub const STRIP_PADDING: i32 = 30;

/// How far the header is set above the anchor of the lap panel, in pixels.
pub const HEADER_RISE: i32 = 20;

/// Paints primitives on a canvas of a given extent.
#[derive(Debug, Clone, Copy, PartialEq, Eq, Structural)]
pub struct Drawer {
    /// Width of the canvas.
    pub width: i32,
    /// Height of the canvas.
    pub height: i32,
    /// The stroke type of everything painted.
    pub line: i32,
}

impl Drawer {
    /// A drawer for a canvas of the given extent, with anti-aliased strokes.
    pub fn new(width: i32, height: i32) -> (drawer: Self)
        ensures
            drawer == (Drawer { width, height, line: LINE_AA }),
    {
        Self { width, height, line: LINE_AA }
    }

    /// A route stroke from `start` to `end`.
    pub open spec fn line_op(self, start: PositionRect, end: PositionRect, color: Seq<u8>) -> Primitive {
        Primitive::Line {
            from: start,
            to: end,
            color,
            thickness: ROUTE_THICKNESS as int,
            line_type: self.line as int,
        }
    }

    /// The position marker at `point`.
    pub open spec fn point_op(self, point: PositionRect, color: Seq<u8>) -> Primitive {
        Primitive::Disc {
            center: point,
            radius: MARKER_RADIUS as int,
            color,
            line_type: self.line as int,
        }
    }

    /// The text `text` with its baseline starting at (`x`, `y`).
    pub open spec fn text_op(
        self,
        text: Seq<char>,
        x: int,
        y: int,
        font_scale: int,
        thickness: int,
        font: Font,
        color: Seq<u8>,
    ) -> Primitive {
        Primitive::Text {
            text,
            origin: PositionRect { x: x as i32, y: y as i32 },
            font,
            font_scale,
            color,
            thickness,
            line_type: self.line as int,
        }
    }

    /// The filled rectangle `rect`.
    pub open spec fn rectangle_op(self, rect: Rect, color: Seq<u8>) -> Primitive {
        Primitive::FilledRect { rect, color, line_type: self.line as int }
    }

    /// The open chain of strokes through `points`.
    pub open spec fn polyline_op(
        self,
        points: Seq<PositionRect>,
        color: Seq<u8>,
        thickness: int,
    ) -> Primitive {
        Primitive::Polyline { points, color, thickness, line_type: self.line as int }
    }

    /// Paints a route stroke from `start` to `end`.
    pub fn line(&self, frame: &mut Canvas, start: PositionRect, end: PositionRect, color: [u8; 4])
        ensures
            final(frame)@ == old(frame)@.push(self.line_op(start, end, color@)),
    {
        frame.paint(
            DrawOp::Line {
                from: start,
                to: end,
                color,
                thickness: ROUTE_THICKNESS,
                line_type: self.line,
            },
        );
    }

    /// Paints the position marker at `point`.
    pub fn point(&self, frame: &mut Canvas, point: PositionRect, color: [u8; 4])
        ensures
            final(frame)@ == old(frame)@.push(self.point_op(point, color@)),
    {
        frame.paint(
            DrawOp::Disc { center: point, radius: MARKER_RADIUS, color, line_type: self.line },
        );
    }

    /// Paints the open chain of strokes through `points`.
    pub fn polyline(
        &self,
        frame: &mut Canvas,
        points: Vec<PositionRect>,
        color: [u8; 4],
        thickness: i32,
    )
        ensures
            final(frame)@ == old(frame)@.push(self.polyline_op(points@, color@, thickness as int)),
    {
        frame.paint(DrawOp::Polyline { points, color, thickness, line_type: self.line });
    }

    /// Paints `text` with its baseline starting at (`x`, `y`).
    pub fn text(
        &self,
        frame: &mut Canvas,
        text: &str,
        x: i32,
        y: i32,
        font_scale: i32,
        thickness: i32,
        font: Font,
        color: [u8; 4],
    )
        ensures
            final(frame)@ == old(frame)@.push(
                self.text_op(
                    text@,
                    x as int,
                    y as int,
                    font_scale as int,
                    thickness as int,
                    font,
                    color@,
                ),
            ),
    {
        frame.paint(
            DrawOp::Text {
                text: text.to_owned(),
                origin: PositionRect { x, y },
                font,
                font_scale,
                color,
                thickness,
                line_type: self.line,
            },
        );
    }

    /// Paints the filled rectangle `rect`.
    pub fn rectangle(&self, frame: &mut Canvas, rect: Rect, color: [u8; 4])
        ensures
            final(frame)@ == old(frame)@.push(self.rectangle_op(rect, color@)),
    {
        frame.paint(DrawOp::FilledRect { rect, color, line_type: self.line });
    }

    /// The colour of the header of the lap panel.
    pub open spec fn header_color() -> Seq<u8> {
        seq![255u8, 255u8, 0u8, 0u8]
    }

    /// The header of the lap panel anchored at (`x`, `y`): the four column
    /// titles on one line, twenty pixels above the anchor, each at its own
    /// fixed distance from the anchor's `x`.
    pub open spec fn header_ops(
        self,
        x: int,
        y: int,
        font_scale: int,
        thickness: int,
        font: Font,
    ) -> Seq<Primitive> {
        let top = clamp_i32(y - HEADER_RISE);
        seq![
            self.text_op(
                "KM   PACE"@,
                clamp_i32(x - 20),
                top,
                font_scale,
                thickness,
                font,
                Self::header_color(),
            ),
            self.text_op(
                "BAR"@,
                clamp_i32(x + 150),
                top,
                font_scale,
                thickness,
                font,
                Self::header_color(),
            ),
            self.text_op(
                "HR"@,
                clamp_i32(x + 285),
                top,
                font_scale,
                thickness,
                font,
                Self::header_color(),
            ),
            self.text_op(
                "LENGTH"@,
                clamp_i32(x + 320),
                top,
                font_scale,
                thickness,
                font,
                Self::header_color(),
            ),
        ]
    }

    /// Paints the header of the lap panel anchored at (`x`, `y`).
    pub fn header(
        &self,
        frame: &mut Canvas,
        x: i32,
        y: i32,
        font_scale: i32,
        thickness: i32,
        font: Font,
    )
        ensures
            final(frame)@ == old(frame)@ + self.header_ops(
                x as int,
                y as int,
                font_scale as int,
                thickness as int,
                font,
            ),
    {
        let bluish: [u8; 4] = [255, 255, 0, 0];
        let top: i32 = saturate(y as i128 - HEADER_RISE as i128);
        self.text(
            frame,
            "KM   PACE",
            saturate(x as i128 - 20),
            top,
            font_scale,
            thickness,
            font,
            bluish,
        );
        self.text(frame, "BAR", saturate(x as i128 + 150), top, font_scale, thickness, font, bluish);
        self.text(frame, "HR", saturate(x as i128 + 285), top, font_scale, thickness, font, bluish);
        self.text(
            frame,
            "LENGTH",
            saturate(x as i128 + 320),
            top,
            font_scale,
            thickness,
            font,
            bluish,
        );
        assert(frame@ =~= old(frame)@ + self.header_ops(
            x as int,
            y as int,
            font_scale as int,
            thickness as int,
            font,
        ));
    }

    /// The colour of the strip.
    pub open spec fn strip_color() -> Seq<u8> {
        seq![0u8, 0u8, 0u8, 0u8]
    }

    /// The colour of the strip's texts.
    pub open spec fn strip_text_color() -> Seq<u8> {
        seq![255u8, 255u8, 255u8, 0u8]
    }

    /// The height of the strip for a distance text of the measured extent
    /// `dist_size`.
    pub open spec fn strip_height(dist_size: SizeRect) -> int {
        clamp_i32(dist_size.height + STRIP_PADDING)
    }

    /// The pace/distance strip: an opaque bar over the whole width at the
    /// bottom of the canvas, thirty pixels higher than the distance text;
    /// the pace text starting twenty pixels from the left edge; the distance
    /// text ending twenty pixels from the right edge; both baselines twenty
    /// pixels above the bottom edge. `dist_size` is the measured extent of
    /// the distance text.
    pub open spec fn text_bar_ops(
        self,
        pace: Seq<char>,
        dist: Seq<char>,
        dist_size: SizeRect,
        font_scale: int,
        thickness: int,
        font: Font,
    ) -> Seq<Primitive> {
        let bar_height = Self::strip_height(dist_size);
        let baseline = clamp_i32(self.height - STRIP_MARGIN);
        seq![
            self.rectangle_op(
                Rect {
                    pos: PositionRect { x: 0, y: clamp_i32(self.height - bar_height) as i32 },
                    size: SizeRect { width: self.width, height: bar_height as i32 },
                },
                Self::strip_color(),
            ),
            self.text_op(
                pace,
                STRIP_MARGIN as int,
                baseline,
                font_scale,
                thickness,
                font,
                Self::strip_text_color(),
            ),
            self.text_op(
                dist,
                clamp_i32(self.width - dist_size.width - STRIP_MARGIN),
                baseline,
                font_scale,
                thickness,
                font,
                Self::strip_text_color(),
            ),
        ]
    }

    /// Paints the pace/distance strip at the bottom of the canvas.
    /// `dist_size` is the measured extent of `dist` at the given font
    /// settings. Either text may be empty; the strip keeps its place.
    pub fn text_bar(
        &self,
        frame: &mut Canvas,
        pace: &str,
        dist: &str,
        dist_size: SizeRect,
        font_scale: i32,
        thickness: i32,
        font: Font,
    )
        ensures
            final(frame)@ == old(frame)@ + self.text_bar_ops(
                pace@,
                dist@,
                dist_size,
                font_scale as int,
                thickness as int,
                font,
            ),
    {
        let bar_height: i32 = saturate(dist_size.height as i128 + STRIP_PADDING as i128);
        let rect = Rect {
            pos: PositionRect { x: 0, y: saturate(self.height as i128 - bar_height as i128) },
            size: SizeRect { width: self.width, height: bar_height },
        };
        let black: [u8; 4] = [0, 0, 0, 0];
        self.rectangle(frame, rect, black);
        let white: [u8; 4] = [255, 255, 255, 0];
        let baseline: i32 = saturate(self.height as i128 - STRIP_MARGIN as i128);
        self.text(frame, pace, STRIP_MARGIN, baseline, font_scale, thickness, font, white);
        let right: i32 = saturate(
            self.width as i128 - dist_size.width as i128 - STRIP_MARGIN as i128,
        );
        self.text(frame, dist, right, baseline, font_scale, thickness, font, white);
        assert(frame@ =~= old(frame)@ + self.text_bar_ops(
            pace@,
            dist@,
            dist_size,
            font_scale as int,
            thickness as int,
            font,
        ));
    }
}

} // verus!
