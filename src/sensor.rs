use vstd::prelude::*;

use crate::message::StatusMessage;

verus! {

/// The largest reading a tick can propose, in tenths of a percent.
pub const MAX_READING: i64 = 2147483647;

/// Moisture added by one watering, in tenths of a percent.
pub const WATER_BUMP: u64 = 150;

/// Width of the band above the threshold that counts as optimal, in tenths
/// of a percent.
pub const OPTIMAL_MARGIN: i64 = 100;

/// Moisture of a new sensor, in tenths of a percent.
pub const INITIAL_MOISTURE: u64 = 500;

/// The control state of the device.
#[derive(PartialEq, Eq, Structural, Clone, Copy, Debug)]
pub enum DeviceState {
    /// Checking the moisture level.
    Monitoring,
    /// About to water.
    Activating,
    /// Watering done; waiting for the level to settle.
    Adjusting,
    /// Moisture is at an optimal level.
    Idle,
    /// Forced error; no transition leaves it.
    Error,
}

/// A simulated soil moisture sensor. Moisture and threshold are in tenths of
/// a percent.
pub struct SoilMoistureSensor {
    pub state: DeviceState,
    /// Current level; never negative, with no upper clamp.
    pub moisture: u64,
    /// Level under which watering starts.
    pub threshold: i32,
    /// Set on the tick that waters: the next reading is ignored.
    pub just_watered: bool,
    /// Blink phase, 0 or 1.
    pub animation_frame: usize,
}

/// The level after the reading of a tick is taken in: the proposed reading,
/// clamped below at zero, unless the previous tick watered.
pub open spec fn level_after_reading(s: SoilMoistureSensor, proposed: int) -> int {
    if s.just_watered {
        s.moisture as int
    } else if proposed < 0 {
        0
    } else {
        proposed
    }
}

/// The other blink phase.
pub open spec fn toggled(frame: usize) -> usize {
    if frame == 0 {
        1
    } else {
        0
    }
}

/// The sensor after one tick with the proposed reading.
pub open spec fn next_sensor(s: SoilMoistureSensor, proposed: int) -> SoilMoistureSensor {
    let m = level_after_reading(s, proposed);
    let t = s.threshold as int;
    let base = SoilMoistureSensor { moisture: m as u64, just_watered: false, ..s };
    match s.state {
        DeviceState::Monitoring => {
            if m < t {
                SoilMoistureSensor { state: DeviceState::Activating, animation_frame: 0, ..base }
            } else {
                SoilMoistureSensor { animation_frame: toggled(s.animation_frame), ..base }
            }
        },
        DeviceState::Activating => SoilMoistureSensor {
            state: DeviceState::Adjusting,
            moisture: (m + WATER_BUMP) as u64,
            just_watered: true,
            animation_frame: toggled(s.animation_frame),
            ..base
        },
        DeviceState::Adjusting => {
            let state = if m >= t + OPTIMAL_MARGIN {
                DeviceState::Idle
            } else if m < t {
                DeviceState::Monitoring
            } else {
                DeviceState::Adjusting
            };
            SoilMoistureSensor { state, animation_frame: 0, ..base }
        },
        DeviceState::Idle => {
            let state = if m < t {
                DeviceState::Monitoring
            } else {
                DeviceState::Idle
            };
            SoilMoistureSensor { state, animation_frame: 0, ..base }
        },
        DeviceState::Error => SoilMoistureSensor { animation_frame: toggled(s.animation_frame), ..base },
    }
}

/// The message reported by one tick with the proposed reading.
pub open spec fn next_message(s: SoilMoistureSensor, proposed: int) -> Option<StatusMessage> {
    let m = level_after_reading(s, proposed);
    let t = s.threshold as int;
    match s.state {
        DeviceState::Monitoring => {
            if m < t {
                Some(StatusMessage::MoistureLow(m as u64))
            } else {
                None
            }
        },
        DeviceState::Activating => Some(StatusMessage::Watering((m + WATER_BUMP) as u64)),
        DeviceState::Adjusting => {
            if m >= t + OPTIMAL_MARGIN {
                Some(StatusMessage::Optimal(m as u64))
            } else if m < t {
                Some(StatusMessage::StillLow(m as u64))
            } else {
                None
            }
        },
        DeviceState::Idle => {
            if m < t {
                Some(StatusMessage::Dropping)
            } else {
                None
            }
        },
        DeviceState::Error => Some(StatusMessage::ErrorState),
    }
}

impl SoilMoistureSensor {
    /// The level never leaves what a reading and one watering can give, a
    /// watering always takes in a fresh reading first, and the blink phase is
    /// 0 or 1.
    pub open spec fn wf(&self) -> bool {
        &&& self.moisture <= MAX_READING + WATER_BUMP
        &&& self.state == DeviceState::Activating ==> !self.just_watered
        &&& self.animation_frame <= 1
    }

    /// Whether the sensor is well formed.
    pub fn is_well_formed(&self) -> (r: bool)
        ensures
            r == self.wf(),
    {
        self.moisture <= MAX_READING as u64 + WATER_BUMP && (self.state != DeviceState::Activating
            || !self.just_watered) && self.animation_frame <= 1
    }

    /// A sensor in `Monitoring` at 50.0% with the given threshold.
    pub fn new(threshold: i32) -> (r: Self)
        ensures
            r.wf(),
            r.state == DeviceState::Monitoring,
            r.moisture == INITIAL_MOISTURE,
            r.threshold == threshold,
            !r.just_watered,
            r.animation_frame == 0,
    {
        SoilMoistureSensor {
            state: DeviceState::Monitoring,
            moisture: INITIAL_MOISTURE,
            threshold,
            just_watered: false,
            animation_frame: 0,
        }
    }

    /// Advances the sensor by one tick with a proposed reading, in tenths of
    /// a percent, and returns the message of the tick, if any.
    pub fn transition(&mut self, proposed: i32) -> (r: Option<StatusMessage>)
        requires
            old(self).wf(),
        ensures
            final(self).wf(),
            *final(self) == next_sensor(*old(self), proposed as int),
            r == next_message(*old(self), proposed as int),
    {
        if !self.just_watered {
            self.moisture = if proposed < 0 {
                0
            } else {
                proposed as u64
            };
        }
        self.just_watered = false;
        let m = self.moisture as i64;
        let t = self.threshold as i64;
        match self.state {
            DeviceState::Monitoring => {
                self.animation_frame = (self.animation_frame + 1) % 2;
                if m < t {
                    self.state = DeviceState::Activating;
                    self.animation_frame = 0;
                    Some(StatusMessage::MoistureLow(self.moisture))
                } else {
                    None
                }
            },
            DeviceState::Activating => {
                self.moisture = self.moisture + WATER_BUMP;
                self.state = DeviceState::Adjusting;
                self.just_watered = true;
                self.animation_frame = (self.animation_frame + 1) % 2;
                Some(StatusMessage::Watering(self.moisture))
            },
            DeviceState::Adjusting => {
                self.animation_frame = 0;
                if m >= t + OPTIMAL_MARGIN {
                    self.state = DeviceState::Idle;
                    Some(StatusMessage::Optimal(self.moisture))
                } else if m < t {
                    self.state = DeviceState::Monitoring;
                    Some(StatusMessage::StillLow(self.moisture))
                } else {
                    None
                }
            },
            DeviceState::Idle => {
                self.animation_frame = 0;
                if m < t {
                    self.state = DeviceState::Monitoring;
                    Some(StatusMessage::Dropping)
                } else {
                    None
                }
            },
            DeviceState::Error => {
                self.animation_frame = (self.animation_frame + 1) % 2;
                Some(StatusMessage::ErrorState)
            },
        }
    }

    /// Forces the sensor into its error state, whatever state it is in.
    pub fn force_error(&mut self)
        requires
            old(self).wf(),
        ensures
            final(self).wf(),
            *final(self) == (SoilMoistureSensor { state: DeviceState::Error, ..*old(self) }),
    {
        self.state = DeviceState::Error;
    }
}

} // verus!
