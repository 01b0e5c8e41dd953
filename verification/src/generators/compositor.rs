//! The frame compositor.
//!
//! A video of a route is composed on two rasters. The *persistent buffer*
//! starts as the background, takes the lap panel once, and then one route
//! stroke per frame; what is painted on it stays. Each *frame* is a copy of
//! the buffer as it stands, with the position marker painted on the copy
//! alone; whoever takes the frame may paint more on the copy.
//!
//! The compositor goes through four phases: `Idle`, `Initialized` (the
//! buffer is the background), `Accumulating` (frame after frame), and
//! `Finalized`. It decides what is painted where; painting, copying and
//! encoding are the caller's.

use vstd::prelude::*;

use super::lap_panel::{lap_panel, panel_ops, PanelStyle};
use crate::types::drawer_data::{Canvas, PositionRect, Primitive, SizeRect};
use crate::types::fit_data::LapData;
use crate::utils::element_drawer::Drawer;

verus! {

/// Where a compositor stands.
#[derive(Debug, Clone, Copy, PartialEq, Eq, Structural)]
pub enum Phase {
    /// Nothing is set up.
    Idle,
    /// The buffer is the background; what is painted now is under every
    /// frame.
    Initialized,
    /// Frames are being emitted; the value is the index of the next one.
    Accumulating(usize),
    /// Every frame has been emitted.
    Finalized,
}

/// One emitted frame: the persistent buffer as it stood when the frame was
/// taken, which is its first `base` primitives, with `overlay` painted on
/// the copy.
#[derive(Debug, PartialEq, Eq)]
pub struct Frame {
    pub base: usize,
    pub overlay: Canvas,
}

/// The first `count` strokes of the route through `points`: stroke `k`
/// joins point `k` and point `k + 1`.
pub open spec fn strokes(
    drawer: Drawer,
    points: Seq<PositionRect>,
    color: Seq<u8>,
    count: nat,
) -> Seq<Primitive> {
    Seq::new(count, |k: int| drawer.line_op(points[k], points[k + 1], color))
}

/// The number of strokes on the buffer once `frames` frames are emitted:
/// none under the first frame, one more with each frame after it, and none
/// at all where the route is not shown.
pub open spec fn strokes_after(show_route: bool, frames: nat) -> nat {
    if show_route && frames > 0 {
        (frames - 1) as nat
    } else {
        0
    }
}

/// What the compositor paints on the copy for a frame at `point`: the
/// position marker, where the route is shown.
pub open spec fn marker_ops(
    drawer: Drawer,
    point: PositionRect,
    marker_color: Seq<u8>,
    show_route: bool,
) -> Seq<Primitive> {
    if show_route {
        seq![drawer.point_op(point, marker_color)]
    } else {
        Seq::<Primitive>::empty()
    }
}

/// The engine that accumulates the route on the persistent buffer and emits
/// the frames.
#[derive(Debug)]
pub struct FrameCompositor {
    drawer: Drawer,
    points: Vec<PositionRect>,
    route_color: [u8; 4],
    marker_color: [u8; 4],
    show_route: bool,
    phase: Phase,
    buffer: Canvas,
    painted: usize,
}

impl FrameCompositor {
    /// The drawer that paints.
    pub closed spec fn drawer(&self) -> Drawer {
        self.drawer
    }

    /// The pixels of the track.
    pub closed spec fn points(&self) -> Seq<PositionRect> {
        self.points@
    }

    /// The colour of the route strokes.
    pub closed spec fn route_color(&self) -> Seq<u8> {
        self.route_color@
    }

    /// The colour of the position marker.
    pub closed spec fn marker_color(&self) -> Seq<u8> {
        self.marker_color@
    }

    /// Whether the route and the marker are drawn.
    pub closed spec fn show_route(&self) -> bool {
        self.show_route
    }

    /// The phase.
    pub closed spec fn phase(&self) -> Phase {
        self.phase
    }

    /// What is on the persistent buffer.
    pub closed spec fn buffer(&self) -> Seq<Primitive> {
        self.buffer@
    }

    /// What was on the persistent buffer when the first frame was due.
    pub closed spec fn ground(&self) -> Seq<Primitive> {
        self.buffer@.take(self.painted as int)
    }

    /// The number of frames emitted so far.
    pub open spec fn emitted(&self) -> nat {
        match self.phase() {
            Phase::Idle => 0,
            Phase::Initialized => 0,
            Phase::Accumulating(next) => next as nat,
            Phase::Finalized => self.points().len(),
        }
    }

    /// What holds of a compositor in every phase: in `Idle` the buffer is
    /// bare; while frames are emitted, and after, the buffer holds what it
    /// held when the first frame was due and, on top, exactly the strokes
    /// that the frames emitted so far have brought.
    pub closed spec fn wf(&self) -> bool {
        match self.phase {
            Phase::Idle => self.buffer@.len() == 0,
            Phase::Initialized => true,
            Phase::Accumulating(next) => {
                &&& next <= self.points@.len()
                &&& self.painted <= self.buffer@.len()
                &&& self.buffer@ == self.buffer@.take(self.painted as int) + strokes(
                    self.drawer,
                    self.points@,
                    self.route_color@,
                    strokes_after(self.show_route, next as nat),
                )
            },
            Phase::Finalized => {
                &&& self.painted <= self.buffer@.len()
                &&& self.buffer@ == self.buffer@.take(self.painted as int) + strokes(
                    self.drawer,
                    self.points@,
                    self.route_color@,
                    strokes_after(self.show_route, self.points@.len()),
                )
            },
        }
    }

    /// While frames are emitted, and after, the buffer is the ground with
    /// the strokes of the emitted frames on top.
    pub proof fn lemma_buffer(&self)
        requires
            self.wf(),
            self.phase() is Accumulating || self.phase() is Finalized,
        ensures
            self.emitted() <= self.points().len(),
            self.buffer() == self.ground() + strokes(
                self.drawer(),
                self.points(),
                self.route_color(),
                strokes_after(self.show_route(), self.emitted()),
            ),
    {
    }

    /// An idle compositor for the track with the pixels `points`.
    pub fn new(
        drawer: Drawer,
        points: Vec<PositionRect>,
        route_color: [u8; 4],
        marker_color: [u8; 4],
        show_route: bool,
    ) -> (compositor: Self)
        ensures
            compositor.wf(),
            compositor.phase() == Phase::Idle,
            compositor.drawer() == drawer,
            compositor.points() == points@,
            compositor.route_color() == route_color@,
            compositor.marker_color() == marker_color@,
            compositor.show_route() == show_route,
            compositor.buffer() == Seq::<Primitive>::empty(),
    {
        FrameCompositor {
            drawer,
            points,
            route_color,
            marker_color,
            show_route,
            phase: Phase::Idle,
            buffer: Canvas::new(),
            painted: 0,
        }
    }

    /// Takes the background as the persistent buffer.
    pub fn initialize(&mut self)
        requires
            old(self).wf(),
            old(self).phase() == Phase::Idle,
        ensures
            final(self).wf(),
            final(self).phase() == Phase::Initialized,
            final(self).buffer() == Seq::<Primitive>::empty(),
            final(self).same_job(old(self)),
    {
        self.phase = Phase::Initialized;
        assert(self.buffer@ =~= Seq::<Primitive>::empty());
    }

    /// Whether `self` works on the track, with the settings, of `other`.
    pub open spec fn same_job(&self, other: &Self) -> bool {
        &&& self.drawer() == other.drawer()
        &&& self.points() == other.points()
        &&& self.route_color() == other.route_color()
        &&& self.marker_color() == other.marker_color()
        &&& self.show_route() == other.show_route()
    }

    /// Paints the lap statistics panel on the persistent buffer, so that it
    /// is under every frame.
    pub fn paint_panel(&mut self, style: &PanelStyle, lap: &LapData, sizes: &Vec<SizeRect>)
        requires
            old(self).wf(),
            old(self).phase() == Phase::Initialized,
            lap@.wf(),
            sizes.len() == lap@.len(),
        ensures
            final(self).wf(),
            final(self).phase() == Phase::Initialized,
            final(self).buffer() == old(self).buffer() + panel_ops(
                old(self).drawer(),
                *style,
                lap@,
                sizes@,
            ),
            final(self).same_job(old(self)),
    {
        lap_panel(&self.drawer, &mut self.buffer, style, lap, sizes);
    }

    /// Ends the set-up: what is on the buffer now is the ground of every
    /// frame, and frame 0 is due.
    pub fn begin(&mut self)
        requires
            old(self).wf(),
            old(self).phase() == Phase::Initialized,
        ensures
            final(self).wf(),
            final(self).phase() == Phase::Accumulating(0),
            final(self).buffer() == old(self).buffer(),
            final(self).ground() == old(self).buffer(),
            final(self).same_job(old(self)),
    {
        self.painted = self.buffer.len();
        self.phase = Phase::Accumulating(0);
        proof {
            let ground = self.buffer@.take(self.painted as int);
            assert(ground =~= self.buffer@);
            assert(self.buffer@ =~= ground + strokes(
                self.drawer,
                self.points@,
                self.route_color@,
                0,
            ));
        }
    }

    /// The index of the frame that is due, while there is one.
    pub fn due(&self) -> (index: Option<usize>)
        requires
            self.wf(),
        ensures
            index == match self.phase() {
                Phase::Accumulating(next) => if next < self.points().len() {
                    Some(next)
                } else {
                    None
                },
                _ => None,
            },
    {
        match self.phase {
            Phase::Accumulating(next) => if next < self.points.len() {
                Some(next)
            } else {
                None
            },
            _ => None,
        }
    }

    /// Emits the frame that is due, or ends the job when none is.
    ///
    /// For frame `i` of a track of `n` points, `i < n`: where the route is
    /// shown and `i > 0`, the stroke from point `i - 1` to point `i` is
    /// painted on the persistent buffer; the frame is the buffer as it then
    /// stands, with the marker at point `i` on the copy. After frame `n - 1`
    /// the next call emits nothing and the compositor is `Finalized`.
    pub fn next_frame(&mut self) -> (frame: Option<Frame>)
        requires
            old(self).wf(),
            old(self).phase() is Accumulating,
        ensures
            final(self).wf(),
            final(self).same_job(old(self)),
            final(self).ground() == old(self).ground(),
            old(self).emitted() < old(self).points().len() ==> {
                &&& frame is Some
                &&& final(self).phase() == Phase::Accumulating((old(self).emitted() + 1) as usize)
                &&& final(self).buffer() == old(self).ground() + strokes(
                    old(self).drawer(),
                    old(self).points(),
                    old(self).route_color(),
                    strokes_after(old(self).show_route(), old(self).emitted() + 1),
                )
                &&& frame->0.base == final(self).buffer().len()
                &&& frame->0.overlay@ == marker_ops(
                    old(self).drawer(),
                    old(self).points()[old(self).emitted() as int],
                    old(self).marker_color(),
                    old(self).show_route(),
                )
            },
            old(self).emitted() >= old(self).points().len() ==> {
                &&& frame is None
                &&& final(self).phase() == Phase::Finalized
                &&& final(self).buffer() == old(self).buffer()
            },
    {
        let next: usize = match self.phase {
            Phase::Accumulating(next) => next,
            _ => 0,
        };
        if next >= self.points.len() {
            self.phase = Phase::Finalized;
            return None;
        }
        let point: PositionRect = self.points[next];
        let ghost ground = self.buffer@.take(self.painted as int);
        let ghost before = self.buffer@;
        if self.show_route && next > 0 {
            let previous: PositionRect = self.points[next - 1];
            self.drawer.line(&mut self.buffer, previous, point, self.route_color);
        }
        proof {
            let after = strokes(
                self.drawer,
                self.points@,
                self.route_color@,
                strokes_after(self.show_route, (next + 1) as nat),
            );
            assert(self.buffer@ =~= ground + after);
            assert(self.buffer@.take(self.painted as int) =~= ground);
        }
        let mut overlay = Canvas::new();
        if self.show_route {
            self.drawer.point(&mut overlay, point, self.marker_color);
        }
        proof {
            assert(overlay@ =~= marker_ops(
                self.drawer,
                point,
                self.marker_color@,
                self.show_route,
            ));
        }
        self.phase = Phase::Accumulating(next + 1);
        Some(Frame { base: self.buffer.len(), overlay })
    }

    /// The persistent buffer.
    pub fn canvas(&self) -> (buffer: &Canvas)
        ensures
            buffer@ == self.buffer(),
    {
        &self.buffer
    }

    /// Gives up the persistent buffer.
    pub fn into_canvas(self) -> (buffer: Canvas)
        ensures
            buffer@ == self.buffer(),
    {
        self.buffer
    }
}

} // verus!
