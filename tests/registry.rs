use plant_sensors::{
    get_sensor, get_sensor_list, set_sensor, ConfigError, EnvConditions, PlantObject, Range,
    SensorRegistry, SetSensor, SetStatus,
};

fn plain(id: u32, wt: u16, bt: u16, th: u16, min: i32, max: i32) -> PlantObject {
    PlantObject {
        id,
        watering_time: wt,
        backoff_time: bt,
        threshold: th,
        moisture_range: Range { min, max },
        env_conditions: None,
    }
}

fn with_env(id: u32) -> PlantObject {
    PlantObject {
        id,
        watering_time: 1,
        backoff_time: 2,
        threshold: 3,
        moisture_range: Range { min: 0, max: 100 },
        env_conditions: Some(EnvConditions {
            temperature_range: Range { min: -10, max: 35 },
            humidity_range: Range { min: 40, max: 40 },
        }),
    }
}

#[test]
fn single_sensor_read_update_read() {
    let mut reg = SensorRegistry::new(vec![plain(1, 10, 5, 30, 20, 60)]).unwrap();
    let mut rng = rand::rng();
    let s = get_sensor(&reg, &mut rng, 1).unwrap();
    assert_eq!(s.id, 1);
    assert!(20 <= s.moisture && s.moisture <= 60);
    assert_eq!(s.temperature, None);
    assert_eq!(s.humidity, None);
    assert_eq!((s.watering_time, s.backoff_time, s.threshold), (10, 5, 30));

    let st = set_sensor(
        &mut reg,
        SetSensor { id: 1, watering_time: 15, backoff_time: 6, threshold: 35 },
    );
    assert_eq!(st, SetStatus::Updated);
    let s = get_sensor(&reg, &mut rng, 1).unwrap();
    assert_eq!((s.watering_time, s.backoff_time, s.threshold), (15, 6, 35));
    assert!(20 <= s.moisture && s.moisture <= 60);

    assert_eq!(get_sensor(&reg, &mut rng, 999), None);
}

#[test]
fn update_round_trip_leaves_other_sensors() {
    let mut reg = SensorRegistry::new(vec![
        plain(7, 1, 1, 1, 0, 0),
        plain(3, 2, 2, 2, 5, 5),
        plain(9, 3, 3, 3, -5, -1),
    ])
    .unwrap();
    let mut rng = rand::rng();
    let st = set_sensor(
        &mut reg,
        SetSensor { id: 3, watering_time: 100, backoff_time: 200, threshold: 65535 },
    );
    assert_eq!(st, SetStatus::Updated);
    let s = get_sensor(&reg, &mut rng, 3).unwrap();
    assert_eq!((s.watering_time, s.backoff_time, s.threshold, s.moisture), (100, 200, 65535, 5));
    let s = get_sensor(&reg, &mut rng, 7).unwrap();
    assert_eq!((s.watering_time, s.backoff_time, s.threshold, s.moisture), (1, 1, 1, 0));
    let s = get_sensor(&reg, &mut rng, 9).unwrap();
    assert_eq!((s.watering_time, s.backoff_time, s.threshold), (3, 3, 3));
    assert!(-5 <= s.moisture && s.moisture <= -1);
}

#[test]
fn missing_id_is_absent_and_changes_nothing() {
    let mut reg = SensorRegistry::new(vec![plain(1, 10, 5, 30, 20, 60)]).unwrap();
    let mut rng = rand::rng();
    assert_eq!(get_sensor(&reg, &mut rng, 2), None);
    let st = set_sensor(
        &mut reg,
        SetSensor { id: 2, watering_time: 1, backoff_time: 1, threshold: 1 },
    );
    assert_eq!(st, SetStatus::NotFound);
    let s = get_sensor(&reg, &mut rng, 1).unwrap();
    assert_eq!((s.watering_time, s.backoff_time, s.threshold), (10, 5, 30));
    assert_eq!(get_sensor_list(&reg), vec![1]);
}

#[test]
fn list_keeps_configuration_order() {
    let mut reg = SensorRegistry::new(vec![
        plain(42, 0, 0, 0, 0, 1),
        plain(5, 0, 0, 0, 0, 1),
        plain(17, 0, 0, 0, 0, 1),
    ])
    .unwrap();
    assert_eq!(get_sensor_list(&reg), vec![42, 5, 17]);
    assert_eq!(get_sensor_list(&reg), vec![42, 5, 17]);
    set_sensor(&mut reg, SetSensor { id: 5, watering_time: 9, backoff_time: 9, threshold: 9 });
    assert_eq!(get_sensor_list(&reg), vec![42, 5, 17]);
}

#[test]
fn empty_registry() {
    let mut reg = SensorRegistry::new(vec![]).unwrap();
    let mut rng = rand::rng();
    assert_eq!(get_sensor_list(&reg), Vec::<u32>::new());
    assert_eq!(get_sensor(&reg, &mut rng, 0), None);
    let st = set_sensor(
        &mut reg,
        SetSensor { id: 0, watering_time: 1, backoff_time: 1, threshold: 1 },
    );
    assert_eq!(st, SetStatus::NotFound);
}

#[test]
fn environment_readings_present_and_in_range() {
    let reg = SensorRegistry::new(vec![with_env(4), plain(5, 0, 0, 0, 1, 2)]).unwrap();
    let mut rng = rand::rng();
    for _ in 0..200 {
        let s = get_sensor(&reg, &mut rng, 4).unwrap();
        let t = s.temperature.unwrap();
        assert!(-10 <= t && t <= 35);
        assert_eq!(s.humidity, Some(40));
        assert!(0 <= s.moisture && s.moisture <= 100);
    }
}

#[test]
fn duplicate_ids_are_refused() {
    let r = SensorRegistry::new(vec![plain(1, 0, 0, 0, 0, 1), plain(1, 2, 2, 2, 0, 1)]);
    assert_eq!(r.err(), Some(ConfigError::DuplicateId));
}

#[test]
fn empty_ranges_are_refused() {
    let r = SensorRegistry::new(vec![plain(1, 0, 0, 0, 5, 4)]);
    assert_eq!(r.err(), Some(ConfigError::InvalidRange));
    let mut bad = with_env(2);
    bad.env_conditions = Some(EnvConditions {
        temperature_range: Range { min: 0, max: 1 },
        humidity_range: Range { min: 3, max: 2 },
    });
    let r = SensorRegistry::new(vec![plain(1, 0, 0, 0, 0, 0), bad]);
    assert_eq!(r.err(), Some(ConfigError::InvalidRange));
    // an empty range is reported before a repeated id
    let r = SensorRegistry::new(vec![plain(1, 0, 0, 0, 0, 0), plain(1, 0, 0, 0, 1, 0)]);
    assert_eq!(r.err(), Some(ConfigError::InvalidRange));
}
