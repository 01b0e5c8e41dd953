//! From the decoded messages of a recording to the track and the lap
//! statistics.
//!
//! A `Record` message gives one sample of the track if it holds a latitude,
//! a longitude and a speed; the position is kept as it is recorded, in
//! semicircles. Each of its distance fields is taken on its own, whether the
//! sample is complete or not. A `Lap` message gives one lap if it holds a
//! heart rate, a speed and a step length. Where a message holds a field
//! twice, the later one counts.

use vstd::prelude::*;
use vstd::string::*;

use super::converter::{
    lemma_pace_round_trip, lemma_speed_pace_bound, pace_seconds, speed_pace_label, speed_to_pace,
};
use crate::types::fit_data::{
    texts, FieldValue, FitField, FitMessage, LapData, LapView, MessageKind, RouteData, RouteView,
};

verus! {

/// The latitude that a field holds, in semicircles.
pub open spec fn latitude_in(field: FitField) -> Option<i32> {
    match field.value {
        FieldValue::SInt32(v) if field.name@ == "position_lat"@ => Some(v),
        _ => None,
    }
}

/// The longitude that a field holds, in semicircles.
pub open spec fn longitude_in(field: FitField) -> Option<i32> {
    match field.value {
        FieldValue::SInt32(v) if field.name@ == "position_long"@ => Some(v),
        _ => None,
    }
}

/// The pace label of the speed that a field of a sample holds.
pub open spec fn pace_in(field: FitField) -> Option<Seq<char>> {
    match field.value {
        FieldValue::Float32(v) if field.name@ == "enhanced_speed"@ => Some(
            speed_pace_label(v as int),
        ),
        FieldValue::Float64(v) if field.name@ == "enhanced_speed"@ => Some(
            speed_pace_label(v as int),
        ),
        _ => None,
    }
}

/// The distance that a field holds.
pub open spec fn distance_in(field: FitField) -> Option<i64> {
    match field.value {
        FieldValue::Float64(v) if field.name@ == "distance"@ => Some(v),
        _ => None,
    }
}

/// The average heart rate that a field of a lap holds.
pub open spec fn heart_rate_in(field: FitField) -> Option<u8> {
    match field.value {
        FieldValue::UInt8(v) if field.name@ == "avg_heart_rate"@ => Some(v),
        _ => None,
    }
}

/// The pace label of the average speed that a field of a lap holds.
pub open spec fn lap_pace_in(field: FitField) -> Option<Seq<char>> {
    match field.value {
        FieldValue::Float64(v) if field.name@ == "enhanced_avg_speed"@ => Some(
            speed_pace_label(v as int),
        ),
        _ => None,
    }
}

/// The average step length that a field of a lap holds.
pub open spec fn step_length_in(field: FitField) -> Option<i64> {
    match field.value {
        FieldValue::Float64(v) if field.name@ == "avg_step_length"@ => Some(v),
        _ => None,
    }
}

/// What `pick` finds in the last of `fields` in which it finds anything.
pub open spec fn last_of<T>(fields: Seq<FitField>, pick: spec_fn(FitField) -> Option<T>) -> Option<
    T,
>
    decreases fields.len(),
{
    if fields.len() == 0 {
        None
    } else if pick(fields.last()) is Some {
        pick(fields.last())
    } else {
        last_of(fields.drop_last(), pick)
    }
}

/// The distances that `fields` hold, in their order.
pub open spec fn distances_in(fields: Seq<FitField>) -> Seq<i64>
    decreases fields.len(),
{
    if fields.len() == 0 {
        Seq::<i64>::empty()
    } else {
        match distance_in(fields.last()) {
            Some(v) => distances_in(fields.drop_last()).push(v),
            None => distances_in(fields.drop_last()),
        }
    }
}

/// The track after one more message.
pub open spec fn route_with(route: RouteView, message: FitMessage) -> RouteView {
    if message.kind == MessageKind::Record {
        let fields = message.fields@;
        let lat = last_of(fields, |f: FitField| latitude_in(f));
        let lon = last_of(fields, |f: FitField| longitude_in(f));
        let pace = last_of(fields, |f: FitField| pace_in(f));
        let complete = lat is Some && lon is Some && pace is Some;
        RouteView {
            paces: if complete {
                route.paces.push(pace->0)
            } else {
                route.paces
            },
            gps_points: if complete {
                route.gps_points.push((lat->0, lon->0))
            } else {
                route.gps_points
            },
            distances: route.distances + distances_in(fields),
        }
    } else {
        route
    }
}

/// The lap statistics after one more message.
pub open spec fn laps_with(laps: LapView, message: FitMessage) -> LapView {
    if message.kind == MessageKind::Lap {
        let fields = message.fields@;
        let rate = last_of(fields, |f: FitField| heart_rate_in(f));
        let pace = last_of(fields, |f: FitField| lap_pace_in(f));
        let step = last_of(fields, |f: FitField| step_length_in(f));
        if rate is Some && pace is Some && step is Some {
            LapView {
                avg_heart_rate: laps.avg_heart_rate.push(rate->0),
                enhanced_avg_speed: laps.enhanced_avg_speed.push(pace->0),
                avg_step_length: laps.avg_step_length.push(step->0),
            }
        } else {
            laps
        }
    } else {
        laps
    }
}

/// The track that `messages` record.
pub open spec fn route_of(messages: Seq<FitMessage>) -> RouteView
    decreases messages.len(),
{
    if messages.len() == 0 {
        RouteView {
            paces: Seq::<Seq<char>>::empty(),
            gps_points: Seq::<(i32, i32)>::empty(),
            distances: Seq::<i64>::empty(),
        }
    } else {
        route_with(route_of(messages.drop_last()), messages.last())
    }
}

/// The lap statistics that `messages` record.
pub open spec fn laps_of(messages: Seq<FitMessage>) -> LapView
    decreases messages.len(),
{
    if messages.len() == 0 {
        LapView {
            avg_heart_rate: Seq::<u8>::empty(),
            enhanced_avg_speed: Seq::<Seq<char>>::empty(),
            avg_step_length: Seq::<i64>::empty(),
        }
    } else {
        laps_with(laps_of(messages.drop_last()), messages.last())
    }
}

/// The names of the fields that a render job reads.
struct FieldNames {
    position_lat: String,
    position_long: String,
    enhanced_speed: String,
    distance: String,
    avg_heart_rate: String,
    enhanced_avg_speed: String,
    avg_step_length: String,
}

impl FieldNames {
    spec fn wf(&self) -> bool {
        &&& self.position_lat@ == "position_lat"@
        &&& self.position_long@ == "position_long"@
        &&& self.enhanced_speed@ == "enhanced_speed"@
        &&& self.distance@ == "distance"@
        &&& self.avg_heart_rate@ == "avg_heart_rate"@
        &&& self.enhanced_avg_speed@ == "enhanced_avg_speed"@
        &&& self.avg_step_length@ == "avg_step_length"@
    }

    fn new() -> (names: Self)
        ensures
            names.wf(),
    {
        FieldNames {
            position_lat: "position_lat".to_owned(),
            position_long: "position_long".to_owned(),
            enhanced_speed: "enhanced_speed".to_owned(),
            distance: "distance".to_owned(),
            avg_heart_rate: "avg_heart_rate".to_owned(),
            enhanced_avg_speed: "enhanced_avg_speed".to_owned(),
            avg_step_length: "avg_step_length".to_owned(),
        }
    }
}

/// The names of fields that are told apart differ.
proof fn lemma_names_differ()
    ensures
        "position_lat"@ != "position_long"@,
        "enhanced_speed"@ != "distance"@,
        "enhanced_avg_speed"@ != "avg_step_length"@,
{
    reveal_strlit("position_lat");
    reveal_strlit("position_long");
    reveal_strlit("enhanced_speed");
    reveal_strlit("distance");
    reveal_strlit("enhanced_avg_speed");
    reveal_strlit("avg_step_length");
    assert("position_lat"@.len() != "position_long"@.len());
    assert("enhanced_speed"@.len() != "distance"@.len());
    assert("enhanced_avg_speed"@.len() != "avg_step_length"@.len());
}

/// The sample that the fields of a `Record` message give, if they give one;
/// their distances are added to `distances`.
fn sample_of(fields: &Vec<FitField>, names: &FieldNames, distances: &mut Vec<i64>) -> (sample:
    Option<((i32, i32), String)>)
    requires
        names.wf(),
    ensures
        final(distances)@ == old(distances)@ + distances_in(fields@),
        sample is Some <==> last_of(fields@, |f: FitField| latitude_in(f)) is Some && last_of(
            fields@,
            |f: FitField| longitude_in(f),
        ) is Some && last_of(fields@, |f: FitField| pace_in(f)) is Some,
        sample matches Some((point, label)) ==> {
            &&& Some(point.0) == last_of(fields@, |f: FitField| latitude_in(f))
            &&& Some(point.1) == last_of(fields@, |f: FitField| longitude_in(f))
            &&& Some(label@) == last_of(fields@, |f: FitField| pace_in(f))
        },
{
    let mut lat: Option<i32> = None;
    let mut lon: Option<i32> = None;
    let mut pace: Option<String> = None;
    let mut j: usize = 0;
    proof {
        assert(fields@.take(0) =~= Seq::<FitField>::empty());
        assert(distances@ =~= old(distances)@ + distances_in(fields@.take(0)));
    }
    while j < fields.len()
        invariant
            j <= fields.len(),
            names.wf(),
            distances@ == old(distances)@ + distances_in(fields@.take(j as int)),
            lat == last_of(fields@.take(j as int), |f: FitField| latitude_in(f)),
            lon == last_of(fields@.take(j as int), |f: FitField| longitude_in(f)),
            pace is Some <==> last_of(fields@.take(j as int), |f: FitField| pace_in(f)) is Some,
            pace matches Some(label) ==> Some(label@) == last_of(
                fields@.take(j as int),
                |f: FitField| pace_in(f),
            ),
        decreases fields.len() - j,
    {
        let field = &fields[j];
        proof {
            let next = fields@.take(j + 1);
            assert(next.drop_last() =~= fields@.take(j as int));
            assert(next.last() == *field);
            lemma_names_differ();
        }
        let ghost before = distances@;
        match field.value {
            FieldValue::SInt32(v) => {
                if field.name == names.position_lat {
                    lat = Some(v);
                } else if field.name == names.position_long {
                    lon = Some(v);
                }
            },
            FieldValue::Float32(v) => {
                if field.name == names.enhanced_speed {
                    pace = Some(speed_to_pace(v));
                }
            },
            FieldValue::Float64(v) => {
                if field.name == names.enhanced_speed {
                    pace = Some(speed_to_pace(v));
                } else if field.name == names.distance {
                    distances.push(v);
                }
            },
            _ => {},
        }
        j = j + 1;
        proof {
            let next = fields@.take(j as int);
            match distance_in(*field) {
                Some(v) => {
                    assert(distances@ =~= old(distances)@ + distances_in(next));
                },
                None => {
                    assert(distances@ =~= old(distances)@ + distances_in(next));
                },
            }
        }
    }
    proof {
        assert(fields@.take(fields.len() as int) =~= fields@);
    }
    match (lat, lon, pace) {
        (Some(lat), Some(lon), Some(pace)) => Some(((lat, lon), pace)),
        _ => None,
    }
}

/// The lap that the fields of a `Lap` message give, if they give one.
fn lap_of(fields: &Vec<FitField>, names: &FieldNames) -> (lap: Option<(u8, String, i64)>)
    requires
        names.wf(),
    ensures
        lap is Some <==> last_of(fields@, |f: FitField| heart_rate_in(f)) is Some && last_of(
            fields@,
            |f: FitField| lap_pace_in(f),
        ) is Some && last_of(fields@, |f: FitField| step_length_in(f)) is Some,
        lap matches Some((rate, label, step)) ==> {
            &&& Some(rate) == last_of(fields@, |f: FitField| heart_rate_in(f))
            &&& Some(label@) == last_of(fields@, |f: FitField| lap_pace_in(f))
            &&& Some(step) == last_of(fields@, |f: FitField| step_length_in(f))
        },
{
    let mut rate: Option<u8> = None;
    let mut pace: Option<String> = None;
    let mut step: Option<i64> = None;
    let mut j: usize = 0;
    proof {
        assert(fields@.take(0) =~= Seq::<FitField>::empty());
    }
    while j < fields.len()
        invariant
            j <= fields.len(),
            names.wf(),
            rate == last_of(fields@.take(j as int), |f: FitField| heart_rate_in(f)),
            step == last_of(fields@.take(j as int), |f: FitField| step_length_in(f)),
            pace is Some <==> last_of(fields@.take(j as int), |f: FitField| lap_pace_in(f))
                is Some,
            pace matches Some(label) ==> Some(label@) == last_of(
                fields@.take(j as int),
                |f: FitField| lap_pace_in(f),
            ),
        decreases fields.len() - j,
    {
        let field = &fields[j];
        proof {
            let next = fields@.take(j + 1);
            assert(next.drop_last() =~= fields@.take(j as int));
            assert(next.last() == *field);
            lemma_names_differ();
        }
        match field.value {
            FieldValue::UInt8(v) => {
                if field.name == names.avg_heart_rate {
                    rate = Some(v);
                }
            },
            FieldValue::Float64(v) => {
                if field.name == names.enhanced_avg_speed {
                    pace = Some(speed_to_pace(v));
                } else if field.name == names.avg_step_length {
                    step = Some(v);
                }
            },
            _ => {},
        }
        j = j + 1;
    }
    proof {
        assert(fields@.take(fields.len() as int) =~= fields@);
    }
    match (rate, pace, step) {
        (Some(rate), Some(pace), Some(step)) => Some((rate, pace, step)),
        _ => None,
    }
}

/// The track and the lap statistics that the decoded messages of a
/// recording hold.
pub fn fit_reader(messages: &Vec<FitMessage>) -> (data: (RouteData, LapData))
    ensures
        data.0@ == route_of(messages@),
        data.1@ == laps_of(messages@),
{
    let names = FieldNames::new();
    let mut paces: Vec<String> = Vec::new();
    let mut gps_points: Vec<(i32, i32)> = Vec::new();
    let mut distances: Vec<i64> = Vec::new();
    let mut avg_heart_rate: Vec<u8> = Vec::new();
    let mut enhanced_avg_speed: Vec<String> = Vec::new();
    let mut avg_step_length: Vec<i64> = Vec::new();
    let mut i: usize = 0;
    proof {
        assert(messages@.take(0) =~= Seq::<FitMessage>::empty());
        assert(texts(paces@) =~= Seq::<Seq<char>>::empty());
        assert(texts(enhanced_avg_speed@) =~= Seq::<Seq<char>>::empty());
    }
    while i < messages.len()
        invariant
            i <= messages.len(),
            names.wf(),
            (RouteView {
                paces: texts(paces@),
                gps_points: gps_points@,
                distances: distances@,
            }) == route_of(messages@.take(i as int)),
            (LapView {
                avg_heart_rate: avg_heart_rate@,
                enhanced_avg_speed: texts(enhanced_avg_speed@),
                avg_step_length: avg_step_length@,
            }) == laps_of(messages@.take(i as int)),
        decreases messages.len() - i,
    {
        let message = &messages[i];
        proof {
            let next = messages@.take(i + 1);
            assert(next.drop_last() =~= messages@.take(i as int));
            assert(next.last() == *message);
        }
        match message.kind {
            MessageKind::Lap => {
                match lap_of(&message.fields, &names) {
                    Some((rate, label, step)) => {
                        let ghost before = texts(enhanced_avg_speed@);
                        avg_heart_rate.push(rate);
                        enhanced_avg_speed.push(label);
                        avg_step_length.push(step);
                        assert(texts(enhanced_avg_speed@) =~= before.push(label@));
                    },
                    None => {},
                }
            },
            MessageKind::Record => {
                match sample_of(&message.fields, &names, &mut distances) {
                    Some((point, label)) => {
                        let ghost before = texts(paces@);
                        gps_points.push(point);
                        paces.push(label);
                        assert(texts(paces@) =~= before.push(label@));
                    },
                    None => {},
                }
            },
            MessageKind::Other => {},
        }
        i = i + 1;
    }
    proof {
        assert(messages@.take(messages.len() as int) =~= messages@);
    }
    (
        RouteData { paces, gps_points, distances },
        LapData { avg_heart_rate, enhanced_avg_speed, avg_step_length },
    )
}

/// What `last_of` finds, `pick` finds in one of the fields.
pub proof fn lemma_last_of_picked<T>(fields: Seq<FitField>, pick: spec_fn(FitField) -> Option<T>)
    ensures
        last_of(fields, pick) is Some ==> exists|k: int|
            0 <= k < fields.len() && pick(#[trigger] fields[k]) == last_of(fields, pick),
    decreases fields.len(),
{
    if fields.len() > 0 {
        if pick(fields.last()) is Some {
            assert(pick(fields[fields.len() - 1]) == last_of(fields, pick));
        } else {
            let front = fields.drop_last();
            lemma_last_of_picked(front, pick);
            if last_of(front, pick) is Some {
                let k = choose|k: int|
                    0 <= k < front.len() && pick(#[trigger] front[k]) == last_of(front, pick);
                assert(fields[k] == front[k]);
            }
        }
    }
}

/// What is read from a recording is whole: the track has one pace for each
/// position, and the lap statistics have a heart rate, a step length and a
/// pace label that stands for a number of seconds for each lap.
pub proof fn lemma_reader_output(messages: Seq<FitMessage>)
    ensures
        route_of(messages).paces.len() == route_of(messages).gps_points.len(),
        laps_of(messages).wf(),
    decreases messages.len(),
{
    if messages.len() > 0 {
        let front = messages.drop_last();
        let message = messages.last();
        lemma_reader_output(front);
        if message.kind == MessageKind::Lap {
            let fields = message.fields@;
            let pick = |f: FitField| lap_pace_in(f);
            let pace = last_of(fields, pick);
            lemma_last_of_picked(fields, pick);
            if pace is Some {
                let k = choose|k: int|
                    0 <= k < fields.len() && pick(#[trigger] fields[k]) == last_of(fields, pick);
                let speed: int = match fields[k].value {
                    FieldValue::Float64(v) => v as int,
                    _ => 0,
                };
                assert(pace->0 == speed_pace_label(speed));
                lemma_pace_round_trip(speed);
                lemma_speed_pace_bound(speed);
            }
            let before = laps_of(front);
            let after = laps_of(messages);
            assert forall|i: int| 0 <= i < after.enhanced_avg_speed.len() implies {
                &&& pace_seconds(#[trigger] after.enhanced_avg_speed[i]) is Some
                &&& pace_seconds(after.enhanced_avg_speed[i])->0 <= u32::MAX
            } by {
                if i < before.enhanced_avg_speed.len() {
                    assert(after.enhanced_avg_speed[i] == before.enhanced_avg_speed[i]);
                }
            }
        }
    }
}

} // verus!
