//! What a render job reads from a recorded activity.

use vstd::prelude::*;

use crate::utils::converter::{pace_seconds, parse_pace};

verus! {

/// The track of an activity, sample by sample.
///
/// `paces` and `gps_points` run in step: entry `i` of each belongs to the
/// same sample. `distances` is recorded on its own and may be shorter or
/// longer.
#[derive(Debug)]
pub struct RouteData {
    /// The pace label of each sample.
    pub paces: Vec<String>,
    /// Latitude and longitude of each sample, in semicircles: 2^31
    /// semicircles are 180 degrees.
    pub gps_points: Vec<(i32, i32)>,
    /// The distance covered, in thousandths of a metre.
    pub distances: Vec<i64>,
}

/// The statistics of an activity, lap by lap.
#[derive(Debug)]
pub struct LapData {
    /// The average heart rate of each lap, in beats per minute.
    pub avg_heart_rate: Vec<u8>,
    /// The pace label of each lap's average speed.
    pub enhanced_avg_speed: Vec<String>,
    /// The average step length of each lap, in thousandths of a millimetre.
    pub avg_step_length: Vec<i64>,
}

/// A track as plain values.
pub struct RouteView {
    pub paces: Seq<Seq<char>>,
    pub gps_points: Seq<(i32, i32)>,
    pub distances: Seq<i64>,
}

/// Lap statistics as plain values.
pub struct LapView {
    pub avg_heart_rate: Seq<u8>,
    pub enhanced_avg_speed: Seq<Seq<char>>,
    pub avg_step_length: Seq<i64>,
}

impl LapView {
    /// The number of laps.
    pub open spec fn len(self) -> nat {
        self.enhanced_avg_speed.len()
    }

    /// Whether the statistics are whole: each lap has a heart rate, a pace
    /// and a step length, and each pace is a label of minutes and seconds
    /// that stands for a number of seconds that fits in 32 bits.
    pub open spec fn wf(self) -> bool {
        &&& self.avg_heart_rate.len() == self.enhanced_avg_speed.len()
        &&& self.avg_step_length.len() == self.enhanced_avg_speed.len()
        &&& forall|i: int|
            0 <= i < self.enhanced_avg_speed.len() ==> {
                &&& pace_seconds(#[trigger] self.enhanced_avg_speed[i]) is Some
                &&& pace_seconds(self.enhanced_avg_speed[i])->0 <= u32::MAX
            }
    }

    /// The pace of each lap in seconds per kilometre.
    pub open spec fn seconds(self) -> Seq<u32> {
        Seq::new(
            self.enhanced_avg_speed.len(),
            |i: int| (pace_seconds(self.enhanced_avg_speed[i])->0) as u32,
        )
    }
}

/// The texts `labels` as plain values.
pub open spec fn texts(labels: Seq<String>) -> Seq<Seq<char>> {
    labels.map_values(|label: String| label@)
}

impl View for RouteData {
    type V = RouteView;

    open spec fn view(&self) -> RouteView {
        RouteView {
            paces: texts(self.paces@),
            gps_points: self.gps_points@,
            distances: self.distances@,
        }
    }
}

impl View for LapData {
    type V = LapView;

    open spec fn view(&self) -> LapView {
        LapView {
            avg_heart_rate: self.avg_heart_rate@,
            enhanced_avg_speed: texts(self.enhanced_avg_speed@),
            avg_step_length: self.avg_step_length@,
        }
    }
}

/// The kinds of message that a recording holds, as far as a render job
/// tells them apart.
#[derive(Debug, Clone, Copy, PartialEq, Eq, Structural)]
pub enum MessageKind {
    /// The summary of one lap.
    Lap,
    /// One sample of the track.
    Record,
    /// Anything else.
    Other,
}

/// The value of a field of a message, as far as a render job reads it. A
/// real number is held in whole thousandths.
#[derive(Debug, Clone, Copy, PartialEq, Eq, Structural)]
pub enum FieldValue {
    /// An unsigned 8-bit integer.
    UInt8(u8),
    /// A signed 32-bit integer.
    SInt32(i32),
    /// A real number recorded in single precision, in thousandths.
    Float32(i64),
    /// A real number recorded in double precision, in thousandths.
    Float64(i64),
    /// A value of any other type.
    Other,
}

/// One named field of a message.
#[derive(Debug, Clone, PartialEq, Eq)]
pub struct FitField {
    pub name: String,
    pub value: FieldValue,
}

/// One decoded message of a recording.
#[derive(Debug, Clone, PartialEq, Eq)]
pub struct FitMessage {
    pub kind: MessageKind,
    pub fields: Vec<FitField>,
}

impl LapData {
    /// Whether the statistics are whole.
    pub fn is_valid(&self) -> (valid: bool)
        ensures
            valid == self@.wf(),
    {
        let n: usize = self.enhanced_avg_speed.len();
        if self.avg_heart_rate.len() != n || self.avg_step_length.len() != n {
            return false;
        }
        let mut i: usize = 0;
        while i < n
            invariant
                i <= n == self.enhanced_avg_speed.len(),
                forall|k: int|
                    0 <= k < i ==> {
                        &&& pace_seconds(#[trigger] self@.enhanced_avg_speed[k]) is Some
                        &&& pace_seconds(self@.enhanced_avg_speed[k])->0 <= u32::MAX
                    },
            decreases n - i,
        {
            assert(self@.enhanced_avg_speed[i as int] == self.enhanced_avg_speed[i as int]@);
            if parse_pace(self.enhanced_avg_speed[i].as_str()).is_none() {
                return false;
            }
            i = i + 1;
        }
        true
    }

    /// The pace of each lap in seconds per kilometre.
    pub fn pace_seconds(&self) -> (seconds: Vec<u32>)
        requires
            self@.wf(),
        ensures
            seconds@ == self@.seconds(),
    {
        let n: usize = self.enhanced_avg_speed.len();
        let mut seconds: Vec<u32> = Vec::new();
        let mut i: usize = 0;
        while i < n
            invariant
                i <= n == self.enhanced_avg_speed.len(),
                self@.wf(),
                seconds.len() == i,
                forall|k: int| 0 <= k < i ==> seconds[k] == self@.seconds()[k],
            decreases n - i,
        {
            assert(self@.enhanced_avg_speed[i as int] == self.enhanced_avg_speed[i as int]@);
            match parse_pace(self.enhanced_avg_speed[i].as_str()) {
                Some(v) => seconds.push(v),
                None => seconds.push(0),
            }
            i = i + 1;
        }
        assert(seconds@ =~= self@.seconds());
        seconds
    }
}

} // verus!
