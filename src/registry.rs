use crate::sensor::{sensor_snapshot, PlantObject, ReturnSensor, SetSensor};
use vstd::prelude::*;

verus! {

/// The ids of `s`, in order.
pub open spec fn ids_of(s: Seq<PlantObject>) -> Seq<u32> {
    s.map_values(|p: PlantObject| p.id)
}

/// Some record of `s` has the id `id`.
pub open spec fn has_id(s: Seq<PlantObject>, id: u32) -> bool {
    exists|i: int| 0 <= i < s.len() && s[i].id == id
}

/// Every range of every record holds at least one value.
pub open spec fn all_ranges_valid(s: Seq<PlantObject>) -> bool {
    forall|i: int| 0 <= i < s.len() ==> (#[trigger] s[i]).ranges_valid()
}

/// No two records of `s` share an id.
pub open spec fn ids_unique(s: Seq<PlantObject>) -> bool {
    forall|i: int, j: int| 0 <= i < s.len() && 0 <= j < s.len() && i != j ==> s[i].id != s[j].id
}

/// A set of records that a registry can hold.
pub open spec fn valid_records(s: Seq<PlantObject>) -> bool {
    all_ranges_valid(s) && ids_unique(s)
}

/// The record of `s` with the id `id`, if there is one.
pub open spec fn find_record(s: Seq<PlantObject>, id: u32) -> Option<PlantObject> {
    if has_id(s, id) {
        Some(s[choose|i: int| 0 <= i < s.len() && s[i].id == id])
    } else {
        None
    }
}

/// `s` with the control parameters of the record whose id is `u.id` overwritten.
pub open spec fn apply_update(s: Seq<PlantObject>, u: SetSensor) -> Seq<PlantObject> {
    s.map_values(|p: PlantObject| if p.id == u.id { p.with_update(u) } else { p })
}

/// Why a set of records cannot form a registry.
#[derive(Debug, Clone, Copy, PartialEq, Eq, Structural)]
pub enum ConfigError {
    /// Some range of some record has its minimum above its maximum.
    InvalidRange,
    /// Two records share an id.
    DuplicateId,
}

/// What an update request came to.
#[derive(Debug, Clone, Copy, PartialEq, Eq, Structural)]
pub enum SetStatus {
    /// The sensor exists and its control parameters were overwritten.
    Updated,
    /// No sensor has the requested id; nothing changed.
    NotFound,
}

/// The fixed set of simulated sensors. Records are never added or removed after
/// construction: only their control parameters change.
///
/// The three parameters of a record are overwritten together by one call that
/// holds the registry mutably, so a reader never sees a mix of two updates.
pub struct SensorRegistry {
    sensors: Vec<PlantObject>,
}

impl View for SensorRegistry {
    type V = Seq<PlantObject>;

    closed spec fn view(&self) -> Seq<PlantObject> {
        self.sensors@
    }
}

impl SensorRegistry {
    /// Ids are unique and every range holds at least one value.
    pub open spec fn wf(&self) -> bool {
        valid_records(self@)
    }

    /// Takes ownership of `sensors` as the registry's records, in their order.
    /// Fails with `InvalidRange` where some range is empty, else with
    /// `DuplicateId` where two records share an id.
    pub fn new(sensors: Vec<PlantObject>) -> (r: Result<SensorRegistry, ConfigError>)
        ensures
            !all_ranges_valid(sensors@) ==> r == Err::<SensorRegistry, ConfigError>(
                ConfigError::InvalidRange,
            ),
            all_ranges_valid(sensors@) && !ids_unique(sensors@) ==> r == Err::<
                SensorRegistry,
                ConfigError,
            >(ConfigError::DuplicateId),
            valid_records(sensors@) ==> (r matches Ok(reg) && reg@ == sensors@ && reg.wf()),
    {
        let n = sensors.len();
        let mut i: usize = 0;
        while i < n
            invariant
                n == sensors@.len(),
                0 <= i <= n,
                forall|k: int| 0 <= k < i ==> (#[trigger] sensors@[k]).ranges_valid(),
            decreases n - i,
        {
            let s = &sensors[i];
            let ok = s.moisture_range.min <= s.moisture_range.max && match s.env_conditions {
                Some(env) => env.temperature_range.min <= env.temperature_range.max
                    && env.humidity_range.min <= env.humidity_range.max,
                None => true,
            };
            if !ok {
                return Err(ConfigError::InvalidRange);
            }
            i = i + 1;
        }
        let mut i: usize = 0;
        while i < n
            invariant
                n == sensors@.len(),
                0 <= i <= n,
                all_ranges_valid(sensors@),
                forall|a: int, b: int|
                    0 <= a < i && 0 <= b < i && a != b ==> sensors@[a].id != sensors@[b].id,
            decreases n - i,
        {
            let mut j: usize = 0;
            while j < i
                invariant
                    n == sensors@.len(),
                    0 <= j <= i < n,
                    all_ranges_valid(sensors@),
                    forall|b: int| 0 <= b < j ==> sensors@[b].id != sensors@[i as int].id,
                decreases i - j,
            {
                if sensors[j].id == sensors[i].id {
                    return Err(ConfigError::DuplicateId);
                }
                j = j + 1;
            }
            i = i + 1;
        }
        Ok(SensorRegistry { sensors })
    }

    /// Index of the record with the id `id`, if there is one.
    fn position(&self, id: u32) -> (r: Option<usize>)
        requires
            self.wf(),
        ensures
            match r {
                Some(i) => i < self@.len() && self@[i as int].id == id,
                None => !has_id(self@, id),
            },
    {
        let mut i: usize = 0;
        while i < self.sensors.len()
            invariant
                0 <= i <= self@.len(),
                forall|k: int| 0 <= k < i ==> self@[k].id != id,
            decreases self@.len() - i,
        {
            if self.sensors[i].id == id {
                return Some(i);
            }
            i = i + 1;
        }
        None
    }
}

/// A record found at index `i` is the one `find_record` names, ids being unique.
proof fn lemma_find_at(s: Seq<PlantObject>, i: int)
    requires
        ids_unique(s),
        0 <= i < s.len(),
    ensures
        find_record(s, s[i].id) == Some(s[i]),
{
    let id = s[i].id;
    assert(has_id(s, id));
    let j = choose|j: int| 0 <= j < s.len() && s[j].id == id;
    assert(j == i);
}

/// An update of an existing sensor, read back, gives the new control parameters
/// and the record's unchanged identity and ranges.
pub proof fn lemma_update_then_read(s: Seq<PlantObject>, u: SetSensor)
    requires
        valid_records(s),
        has_id(s, u.id),
    ensures
        find_record(s, u.id) matches Some(p) && find_record(apply_update(s, u), u.id) == Some(
            p.with_update(u),
        ),
{
    let i = choose|i: int| 0 <= i < s.len() && s[i].id == u.id;
    lemma_find_at(s, i);
    lemma_update_keeps_ids(s, u);
    lemma_find_at(apply_update(s, u), i);
}

/// An update for an id that no sensor has changes nothing, and a read of that id
/// finds nothing.
pub proof fn lemma_missing_id(s: Seq<PlantObject>, u: SetSensor)
    requires
        !has_id(s, u.id),
    ensures
        find_record(s, u.id) is None,
        apply_update(s, u) == s,
{
    assert(apply_update(s, u) =~= s);
}

/// Updates never change the set of sensors: the ids stay as they were, in order,
/// and a valid registry stays valid.
pub proof fn lemma_update_keeps_ids(s: Seq<PlantObject>, u: SetSensor)
    ensures
        ids_of(apply_update(s, u)) == ids_of(s),
        valid_records(s) ==> valid_records(apply_update(s, u)),
{
    assert(ids_of(apply_update(s, u)) =~= ids_of(s));
}

/// The ids of all sensors, in registry order.
pub fn get_sensor_list(mock_sensors: &SensorRegistry) -> (r: Vec<u32>)
    requires
        mock_sensors.wf(),
    ensures
        r@ == ids_of(mock_sensors@),
        r@.no_duplicates(),
{
    let s = &mock_sensors.sensors;
    let mut r: Vec<u32> = Vec::new();
    let mut i: usize = 0;
    while i < s.len()
        invariant
            0 <= i <= s@.len(),
            s@ == mock_sensors@,
            r@ == ids_of(s@).take(i as int),
        decreases s@.len() - i,
    {
        r.push(s[i].id);
        i = i + 1;
        assert(r@ =~= ids_of(s@).take(i as int));
    }
    assert(r@ =~= ids_of(s@));
    r
}

/// A fresh reading of the sensor `id`, or `None` where no sensor has that id.
pub fn get_sensor(mock_sensors: &SensorRegistry, rng: &mut rand::rngs::ThreadRng, id: u32) -> (r:
    Option<ReturnSensor>)
    requires
        mock_sensors.wf(),
    ensures
        match find_record(mock_sensors@, id) {
            Some(p) => r matches Some(snap) && snap.reads(p),
            None => r is None,
        },
{
    match mock_sensors.position(id) {
        Some(i) => {
            proof {
                lemma_find_at(mock_sensors@, i as int);
            }
            Some(sensor_snapshot(rng, &mock_sensors.sensors[i]))
        },
        None => None,
    }
}

/// Overwrites the control parameters of the sensor `sensor.id`; `NotFound`, with
/// the registry unchanged, where no sensor has that id.
pub fn set_sensor(mock_sensors: &mut SensorRegistry, sensor: SetSensor) -> (r: SetStatus)
    requires
        old(mock_sensors).wf(),
    ensures
        final(mock_sensors).wf(),
        final(mock_sensors)@ == apply_update(old(mock_sensors)@, sensor),
        r == (if has_id(old(mock_sensors)@, sensor.id) {
            SetStatus::Updated
        } else {
            SetStatus::NotFound
        }),
{
    match mock_sensors.position(sensor.id) {
        Some(i) => {
            let mut p = mock_sensors.sensors[i];
            p.watering_time = sensor.watering_time;
            p.backoff_time = sensor.backoff_time;
            p.threshold = sensor.threshold;
            mock_sensors.sensors.set(i, p);
            assert(mock_sensors@ =~= apply_update(old(mock_sensors)@, sensor));
            SetStatus::Updated
        },
        None => {
            assert(mock_sensors@ =~= apply_update(old(mock_sensors)@, sensor));
            SetStatus::NotFound
        },
    }
}

} // verus!
