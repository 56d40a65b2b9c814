use crate::random::{get_random_from_range, Range};
use vstd::prelude::*;

verus! {

/// Temperature and humidity bounds of a sensor that reports its surroundings.
#[derive(Debug, Clone, Copy, PartialEq, Eq, Structural)]
pub struct EnvConditions {
    pub temperature_range: Range,
    pub humidity_range: Range,
}

/// One simulated sensor: a fixed identity and reading ranges, and three control
/// parameters that a controller may overwrite.
#[derive(Debug, Clone, Copy, PartialEq, Eq, Structural)]
pub struct PlantObject {
    pub id: u32,
    pub watering_time: u16,
    pub backoff_time: u16,
    pub threshold: u16,
    pub moisture_range: Range,
    pub env_conditions: Option<EnvConditions>,
}

/// A telemetry reading of one sensor, sampled afresh on every request.
#[derive(Debug, Clone, Copy, PartialEq, Eq, Structural)]
pub struct ReturnSensor {
    pub id: u32,
    pub watering_time: u16,
    pub backoff_time: u16,
    pub threshold: u16,
    pub moisture: i32,
    pub temperature: Option<i32>,
    pub humidity: Option<i32>,
}

/// New values for the three control parameters of the sensor `id`.
#[derive(Debug, Clone, Copy, PartialEq, Eq, Structural)]
pub struct SetSensor {
    pub id: u32,
    pub watering_time: u16,
    pub backoff_time: u16,
    pub threshold: u16,
}

impl PlantObject {
    /// Every range the sensor samples from holds at least one value.
    pub open spec fn ranges_valid(self) -> bool {
        &&& self.moisture_range.wf()
        &&& match self.env_conditions {
            Some(env) => env.temperature_range.wf() && env.humidity_range.wf(),
            None => true,
        }
    }

    /// The record with its control parameters overwritten by `u`.
    pub open spec fn with_update(self, u: SetSensor) -> PlantObject {
        PlantObject {
            watering_time: u.watering_time,
            backoff_time: u.backoff_time,
            threshold: u.threshold,
            ..self
        }
    }
}

impl ReturnSensor {
    /// `self` is a reading of `p`: its identity and control parameters are those of
    /// `p`, and each sampled value lies in the range `p` gives for it, present
    /// exactly when `p` has environment conditions.
    pub open spec fn reads(self, p: PlantObject) -> bool {
        &&& self.id == p.id
        &&& self.watering_time == p.watering_time
        &&& self.backoff_time == p.backoff_time
        &&& self.threshold == p.threshold
        &&& p.moisture_range.contains(self.moisture as int)
        &&& match p.env_conditions {
            Some(env) => {
                &&& self.temperature matches Some(t) && env.temperature_range.contains(t as int)
                &&& self.humidity matches Some(h) && env.humidity_range.contains(h as int)
            },
            None => self.temperature is None && self.humidity is None,
        }
    }
}

/// Builds the reading of `sensor` from values already sampled: `moisture`, and
/// the temperature and humidity where the sensor reports its surroundings.
pub fn snapshot_from_readings(sensor: &PlantObject, moisture: i32, env: Option<(i32, i32)>) -> (r:
    ReturnSensor)
    ensures
        r.id == sensor.id,
        r.watering_time == sensor.watering_time,
        r.backoff_time == sensor.backoff_time,
        r.threshold == sensor.threshold,
        r.moisture == moisture,
        r.temperature == (match env {
            Some(e) => Some(e.0),
            None => None::<i32>,
        }),
        r.humidity == (match env {
            Some(e) => Some(e.1),
            None => None::<i32>,
        }),
{
    let (temperature, humidity) = match env {
        Some((t, h)) => (Some(t), Some(h)),
        None => (None, None),
    };
    ReturnSensor {
        id: sensor.id,
        watering_time: sensor.watering_time,
        backoff_time: sensor.backoff_time,
        threshold: sensor.threshold,
        moisture,
        temperature,
        humidity,
    }
}

/// Samples one reading of `sensor`: moisture always, temperature and humidity
/// only where the sensor has environment conditions.
pub fn sensor_snapshot(rng: &mut rand::rngs::ThreadRng, sensor: &PlantObject) -> (r: ReturnSensor)
    requires
        sensor.ranges_valid(),
    ensures
        r.reads(*sensor),
{
    let moisture = get_random_from_range(rng, sensor.moisture_range);
    let env = match sensor.env_conditions {
        Some(env_cond) => {
            let t = get_random_from_range(rng, env_cond.temperature_range);
            let h = get_random_from_range(rng, env_cond.humidity_range);
            Some((t, h))
        },
        None => None,
    };
    snapshot_from_readings(sensor, moisture, env)
}

} // verus!
