//! The lap statistics panel: a header and one row per lap.
//!
//! Row `i` is set `i` times the row height plus five pixels below the
//! anchor, its pace centred on the anchor: half the measured width of the
//! bare pace label lies to either side. The heart rate and the stride
//! length follow at fixed distances from the row's left end; the pace bar
//! starts sixty pixels right of the pace label and stands on the row's
//! baseline.

use vstd::prelude::*;

use crate::configs::config::Font;
use crate::types::drawer_data::{Canvas, PositionRect, Primitive, Rect, SizeRect};
use crate::types::fit_data::{LapData, LapView};
use crate::utils::converter::{
    bar_length, bar_width, baseline_of, lap_row_text, pace_baseline, string_space,
};
use crate::utils::digits::{decimal, lemma_decimal_len_monotonic};
use crate::utils::element_drawer::Drawer;
use crate::utils::fixed::{clamp_i32, div_toward_zero, saturate, trunc_div};
use crate::utils::labels::{heart_rate_text, stride_caption, stride_text};

verus! {

/// Distance between the baselines of two rows beyond the row height.
pub const ROW_GAP: i32 = 5;

/// Distance of the heart rate from the left end of the row.
pub const HEART_RATE_SHIFT: i32 = 300;

/// Distance of the stride length from the left end of the row.
pub const STRIDE_SHIFT: i32 = 350;

/// Distance of the pace bar from the right end of the pace label.
pub const BAR_GUTTER: i32 = 60;

/// How a lap panel is set.
#[derive(Debug, Clone, Copy, PartialEq, Eq)]
pub struct PanelStyle {
    /// The pixel the panel is anchored at.
    pub anchor: PositionRect,
    /// Font scale of every text, in millionths.
    pub font_scale: i32,
    /// Stroke thickness of the rows' texts.
    pub thickness: i32,
    /// Stroke thickness of the header.
    pub header_thickness: i32,
    /// Typeface of every text.
    pub font: Font,
    /// Colour of the rows' texts.
    pub text_color: [u8; 4],
    /// Colour of the pace bars.
    pub bar_color: [u8; 4],
    /// Length of a bar that stands for the baseline pace.
    pub bar_max_width: i32,
    /// Whether the heart rate column is written.
    pub show_heart_rate: bool,
    /// Whether the stride length column is written.
    pub show_stride_length: bool,
    /// Whether the pace bars are drawn.
    pub show_pace_bars: bool,
}

/// The left end of the row whose pace label has the measured extent `size`.
pub open spec fn row_left(style: PanelStyle, size: SizeRect) -> int {
    clamp_i32(style.anchor.x - trunc_div(size.width as int, 2))
}

/// The baseline of row `i`, whose pace label has the measured extent `size`.
pub open spec fn row_baseline(style: PanelStyle, size: SizeRect, i: int) -> int {
    clamp_i32(style.anchor.y + i * (size.height + ROW_GAP))
}

/// The pace bar of row `i`.
pub open spec fn row_bar(style: PanelStyle, laps: LapView, size: SizeRect, i: int) -> Rect {
    Rect {
        pos: PositionRect {
            x: clamp_i32(row_left(style, size) + size.width + BAR_GUTTER) as i32,
            y: clamp_i32(row_baseline(style, size, i) - size.height) as i32,
        },
        size: SizeRect {
            width: bar_length(
                baseline_of(laps.seconds()),
                laps.seconds()[i] as int,
                style.bar_max_width as int,
            ) as i32,
            height: size.height,
        },
    }
}

/// What row `i` of the panel is made of: the pace with the number of the
/// lap, which is `i + 1`, then whichever of heart rate, stride length and
/// pace bar are shown, in this order. `size` is the measured extent of the
/// lap's bare pace label.
pub open spec fn row_ops(
    drawer: Drawer,
    style: PanelStyle,
    laps: LapView,
    size: SizeRect,
    i: int,
) -> Seq<Primitive> {
    let x = row_left(style, size);
    let y = row_baseline(style, size, i);
    seq![
        drawer.text_op(
            lap_row_text(laps.len(), (i + 1) as nat, laps.enhanced_avg_speed[i]),
            x,
            y,
            style.font_scale as int,
            style.thickness as int,
            style.font,
            style.text_color@,
        ),
    ] + (if style.show_heart_rate {
        seq![
            drawer.text_op(
                decimal(laps.avg_heart_rate[i] as nat),
                clamp_i32(x + HEART_RATE_SHIFT),
                y,
                style.font_scale as int,
                style.thickness as int,
                style.font,
                style.text_color@,
            ),
        ]
    } else {
        Seq::<Primitive>::empty()
    }) + (if style.show_stride_length {
        seq![
            drawer.text_op(
                stride_caption(laps.avg_step_length[i] as int),
                clamp_i32(x + STRIDE_SHIFT),
                y,
                style.font_scale as int,
                style.thickness as int,
                style.font,
                style.text_color@,
            ),
        ]
    } else {
        Seq::<Primitive>::empty()
    }) + (if style.show_pace_bars {
        seq![drawer.rectangle_op(row_bar(style, laps, size, i), style.bar_color@)]
    } else {
        Seq::<Primitive>::empty()
    })
}

/// The first `count` rows of the panel, from the top.
pub open spec fn rows_ops(
    drawer: Drawer,
    style: PanelStyle,
    laps: LapView,
    sizes: Seq<SizeRect>,
    count: nat,
) -> Seq<Primitive>
    decreases count,
{
    if count == 0 {
        Seq::<Primitive>::empty()
    } else {
        rows_ops(drawer, style, laps, sizes, (count - 1) as nat) + row_ops(
            drawer,
            style,
            laps,
            sizes[count - 1],
            count - 1,
        )
    }
}

/// The whole panel: the header, then the rows from the top.
pub open spec fn panel_ops(
    drawer: Drawer,
    style: PanelStyle,
    laps: LapView,
    sizes: Seq<SizeRect>,
) -> Seq<Primitive> {
    drawer.header_ops(
        style.anchor.x as int,
        style.anchor.y as int,
        style.font_scale as int,
        style.header_thickness as int,
        style.font,
    ) + rows_ops(drawer, style, laps, sizes, laps.len())
}

/// Paints row `i` of the panel.
fn lap_row(
    drawer: &Drawer,
    frame: &mut Canvas,
    style: &PanelStyle,
    lap: &LapData,
    seconds: &Vec<u32>,
    baseline: u32,
    size: SizeRect,
    i: usize,
)
    requires
        lap@.wf(),
        i < lap@.len(),
        seconds@ == lap@.seconds(),
        baseline == baseline_of(lap@.seconds()),
    ensures
        final(frame)@ == old(frame)@ + row_ops(*drawer, *style, lap@, size, i as int),
{
    let n: usize = lap.enhanced_avg_speed.len();
    let half: i128 = div_toward_zero(size.width as i128, 2);
    let x: i32 = saturate(style.anchor.x as i128 - half);
    assert(-0x1_0000_0000_0000_0000 * 0x1_0000_0000 <= i * (size.height + ROW_GAP)
        <= 0x1_0000_0000_0000_0000 * 0x1_0000_0000) by (nonlinear_arith)
        requires
            0 <= i < 0x1_0000_0000_0000_0000,
            -0x1_0000_0000 <= size.height + ROW_GAP <= 0x1_0000_0000,
    ;
    let y: i32 = saturate(
        style.anchor.y as i128 + (i as i128) * (size.height as i128 + ROW_GAP as i128),
    );
    let number: usize = i + 1;
    proof {
        lemma_decimal_len_monotonic(number as nat, n as nat);
        assert(lap@.enhanced_avg_speed[i as int] == lap.enhanced_avg_speed[i as int]@);
    }
    let label = string_space(n, number, lap.enhanced_avg_speed[i].as_str());
    drawer.text(
        frame,
        label.as_str(),
        x,
        y,
        style.font_scale,
        style.thickness,
        style.font,
        style.text_color,
    );
    if style.show_heart_rate {
        let rate = heart_rate_text(lap.avg_heart_rate[i]);
        drawer.text(
            frame,
            rate.as_str(),
            saturate(x as i128 + HEART_RATE_SHIFT as i128),
            y,
            style.font_scale,
            style.thickness,
            style.font,
            style.text_color,
        );
    }
    if style.show_stride_length {
        let stride = stride_text(lap.avg_step_length[i]);
        drawer.text(
            frame,
            stride.as_str(),
            saturate(x as i128 + STRIDE_SHIFT as i128),
            y,
            style.font_scale,
            style.thickness,
            style.font,
            style.text_color,
        );
    }
    if style.show_pace_bars {
        let rect = Rect {
            pos: PositionRect {
                x: saturate(x as i128 + size.width as i128 + BAR_GUTTER as i128),
                y: saturate(y as i128 - size.height as i128),
            },
            size: SizeRect {
                width: bar_width(baseline, seconds[i], style.bar_max_width),
                height: size.height,
            },
        };
        drawer.rectangle(frame, rect, style.bar_color);
    }
    assert(frame@ =~= old(frame)@ + row_ops(*drawer, *style, lap@, size, i as int));
}

/// Paints the lap statistics panel: the header, then one row per lap.
/// `sizes` holds, lap by lap, the measured extent of the lap's bare pace
/// label at the style's font settings.
pub fn lap_panel(
    drawer: &Drawer,
    frame: &mut Canvas,
    style: &PanelStyle,
    lap: &LapData,
    sizes: &Vec<SizeRect>,
)
    requires
        lap@.wf(),
        sizes.len() == lap@.len(),
    ensures
        final(frame)@ == old(frame)@ + panel_ops(*drawer, *style, lap@, sizes@),
{
    drawer.header(
        frame,
        style.anchor.x,
        style.anchor.y,
        style.font_scale,
        style.header_thickness,
        style.font,
    );
    let n: usize = lap.enhanced_avg_speed.len();
    if n > 0 {
        let seconds = lap.pace_seconds();
        let baseline: u32 = pace_baseline(&seconds);
        let ghost header = frame@;
        let mut i: usize = 0;
        assert(frame@ =~= header + rows_ops(*drawer, *style, lap@, sizes@, 0));
        while i < n
            invariant
                i <= n == lap@.len(),
                lap@.wf(),
                sizes.len() == n,
                seconds@ == lap@.seconds(),
                baseline == baseline_of(lap@.seconds()),
                frame@ == header + rows_ops(*drawer, *style, lap@, sizes@, i as nat),
            decreases n - i,
        {
            lap_row(drawer, frame, style, lap, &seconds, baseline, sizes[i], i);
            i = i + 1;
            assert(frame@ =~= header + rows_ops(*drawer, *style, lap@, sizes@, i as nat));
        }
    } else {
        assert(frame@ =~= old(frame)@ + panel_ops(*drawer, *style, lap@, sizes@));
    }
}

} // verus!
