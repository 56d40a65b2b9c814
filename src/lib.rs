//! In-memory registry of simulated plant-moisture sensors, with randomized
//! telemetry and fault-code generation.
mod faults;
mod random;
mod registry;
mod sensor;
mod site;

pub use faults::{
    error_count, get_errors, lemma_error_sample_distinct, lemma_error_sample_whole_catalog,
    ErrorCodeConfig,
};
pub use random::{get_random_from_range, Range};
pub use registry::{
    get_sensor, get_sensor_list, lemma_missing_id, lemma_update_keeps_ids, lemma_update_then_read,
    set_sensor, ConfigError, SensorRegistry, SetStatus,
};
pub use sensor::{
    sensor_snapshot, snapshot_from_readings, EnvConditions, PlantObject, ReturnSensor, SetSensor,
};
pub use site::redirect_to_static;
