use vstd::prelude::*;

use crate::message::StatusMessage;
use crate::sensor::{
    level_after_reading, next_message, next_sensor, toggled, DeviceState, SoilMoistureSensor,
    OPTIMAL_MARGIN, WATER_BUMP,
};

verus! {

/// Whether `p` can be proposed to a tick.
pub open spec fn is_reading(p: int) -> bool {
    i32::MIN <= p <= i32::MAX
}

/// The sensor after one tick per reading, in order.
pub open spec fn run(s: SoilMoistureSensor, readings: Seq<int>) -> SoilMoistureSensor
    decreases readings.len(),
{
    if readings.len() == 0 {
        s
    } else {
        run(next_sensor(s, readings[0]), readings.drop_first())
    }
}

/// A tick keeps the sensor well formed.
pub proof fn lemma_step_well_formed(s: SoilMoistureSensor, p: int)
    requires
        s.wf(),
        is_reading(p),
    ensures
        next_sensor(s, p).wf(),
{
}

/// Once in the error state, the sensor stays there whatever readings come.
pub proof fn lemma_error_absorbing(s: SoilMoistureSensor, readings: Seq<int>)
    requires
        s.state == DeviceState::Error,
    ensures
        run(s, readings).state == DeviceState::Error,
    decreases readings.len(),
{
    if readings.len() > 0 {
        lemma_error_absorbing(next_sensor(s, readings[0]), readings.drop_first());
    }
}

/// In the error state every tick flips the blink phase and reports the error.
pub proof fn lemma_error_blinks(s: SoilMoistureSensor, p: int)
    requires
        s.wf(),
        s.state == DeviceState::Error,
    ensures
        next_sensor(s, p).state == DeviceState::Error,
        next_sensor(s, p).animation_frame == toggled(s.animation_frame),
        next_sensor(s, p).animation_frame != s.animation_frame,
        next_message(s, p) == Some(StatusMessage::ErrorState),
{
}

/// Whether the readings never decrease and start at or above `level`.
pub open spec fn rises_from(level: int, readings: Seq<int>) -> bool {
    &&& forall|i: int, j: int| 0 <= i <= j < readings.len() ==> readings[i] <= readings[j]
    &&& readings.len() > 0 ==> level <= readings[0]
}

/// Whether `m` lies in the band where `Adjusting` neither waters again nor
/// goes idle.
pub open spec fn in_band(s: SoilMoistureSensor, m: int) -> bool {
    s.threshold <= m < s.threshold + OPTIMAL_MARGIN
}

/// In `Adjusting` with the level inside the band, readings that never
/// decrease and stay under the optimal level keep the sensor in `Adjusting`,
/// with the level in the band and no watering pending.
pub proof fn lemma_hysteresis_holds(s: SoilMoistureSensor, readings: Seq<int>)
    requires
        s.wf(),
        s.state == DeviceState::Adjusting,
        in_band(s, s.moisture as int),
        rises_from(s.moisture as int, readings),
        forall|i: int| 0 <= i < readings.len() ==> is_reading(#[trigger] readings[i]),
        forall|i: int| 0 <= i < readings.len() ==> #[trigger] readings[i] < s.threshold + OPTIMAL_MARGIN,
    ensures
        run(s, readings).state == DeviceState::Adjusting,
        run(s, readings).threshold == s.threshold,
        in_band(s, run(s, readings).moisture as int),
        readings.len() > 0 ==> !run(s, readings).just_watered,
        readings.len() > 0 ==> run(s, readings).moisture <= readings.last(),
    decreases readings.len(),
{
    if readings.len() > 0 {
        let s1 = next_sensor(s, readings[0]);
        let rest = readings.drop_first();
        assert(next_message(s, readings[0]) == None::<StatusMessage>);
        assert(s1.moisture as int == level_after_reading(s, readings[0]));
        assert forall|i: int| 0 <= i < rest.len() implies is_reading(#[trigger] rest[i]) by {
            assert(rest[i] == readings[i + 1]);
        }
        assert forall|i: int| 0 <= i < rest.len() implies #[trigger] rest[i] < s.threshold
            + OPTIMAL_MARGIN by {
            assert(rest[i] == readings[i + 1]);
        }
        assert forall|i: int, j: int| 0 <= i <= j < rest.len() implies rest[i] <= rest[j] by {
            assert(rest[i] == readings[i + 1]);
            assert(rest[j] == readings[j + 1]);
        }
        if rest.len() > 0 {
            assert(rest[0] == readings[1]);
            assert(readings[0] <= readings[1]);
        }
        lemma_hysteresis_holds(s1, rest);
        if rest.len() == 0 {
            assert(readings.last() == readings[0]);
        } else {
            assert(readings.last() == rest.last());
        }
    }
}

/// After readings that keep `Adjusting` in the band, the first level at or
/// above the optimal one moves the sensor to `Idle`, once, reporting the
/// level.
pub proof fn lemma_hysteresis_exit(s: SoilMoistureSensor, readings: Seq<int>, p: int)
    requires
        s.wf(),
        s.state == DeviceState::Adjusting,
        in_band(s, s.moisture as int),
        rises_from(s.moisture as int, readings.push(p)),
        forall|i: int| 0 <= i < readings.len() ==> is_reading(#[trigger] readings[i]),
        forall|i: int| 0 <= i < readings.len() ==> #[trigger] readings[i] < s.threshold + OPTIMAL_MARGIN,
        is_reading(p),
        p >= s.threshold + OPTIMAL_MARGIN,
        readings.len() > 0 || !s.just_watered,
    ensures
        next_sensor(run(s, readings), p).state == DeviceState::Idle,
        next_sensor(run(s, readings), p).moisture == p,
        next_message(run(s, readings), p) == Some(StatusMessage::Optimal(p as u64)),
{
    assert forall|i: int, j: int| 0 <= i <= j < readings.len() implies readings[i] <= readings[j] by {
        assert(readings[i] == readings.push(p)[i]);
        assert(readings[j] == readings.push(p)[j]);
    }
    if readings.len() > 0 {
        assert(readings[0] == readings.push(p)[0]);
    }
    lemma_hysteresis_holds(s, readings);
}

/// The tick that moves `Monitoring` to `Activating` is followed by a watering
/// tick that adds exactly the watering amount to the reading it takes in,
/// and then by a tick that ignores its reading and keeps the watered level.
/// Where the watering tick's reading repeats the current level, the level
/// rises by exactly the watering amount.
pub proof fn lemma_watering_suppression(s: SoilMoistureSensor, p1: int, p2: int, p3: int)
    requires
        s.wf(),
        is_reading(p1),
        is_reading(p2),
        is_reading(p3),
        s.state == DeviceState::Monitoring,
        next_sensor(s, p1).state == DeviceState::Activating,
    ensures
        next_sensor(next_sensor(s, p1), p2).moisture == level_after_reading(next_sensor(s, p1), p2)
            + WATER_BUMP,
        p2 == next_sensor(s, p1).moisture ==> next_sensor(next_sensor(s, p1), p2).moisture
            == next_sensor(s, p1).moisture + WATER_BUMP,
        next_sensor(next_sensor(next_sensor(s, p1), p2), p3).moisture == next_sensor(
            next_sensor(s, p1),
            p2,
        ).moisture,
{
}

/// A negative reading, when taken in, sets the level to zero; only a watering
/// tick then adds to it.
pub proof fn lemma_lower_clamp(s: SoilMoistureSensor, p: int)
    requires
        s.wf(),
        is_reading(p),
        p < 0,
        !s.just_watered,
    ensures
        level_after_reading(s, p) == 0,
        s.state != DeviceState::Activating ==> next_sensor(s, p).moisture == 0,
        s.state == DeviceState::Activating ==> next_sensor(s, p).moisture == WATER_BUMP,
        next_sensor(s, p).moisture >= 0,
{
}

} // verus!
