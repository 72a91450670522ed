use rpi_home::json::{JsonNumber, JsonValue, Payload};
use rpi_home::services::climate::{Climate, Conditioner, ConditionerMode, Sensors, WeatherSensor};

fn conditioner(enabled: bool, temperature: i32, mode: ConditionerMode) -> Conditioner {
    Conditioner { enabled, temperature, mode }
}

#[test]
fn a_new_climate_has_two_conditioners_that_are_off() {
    let climate = Climate::new();
    let start = conditioner(false, 20, ConditionerMode::Cool);
    assert_eq!(climate.conditioners(), vec![start, start]);
    let sensors = climate.sensors();
    assert!(sensors.weather_sensors.is_empty());
    assert_eq!(format!("{:?}", sensors.sensor_temp), "Real(\"0.0\")");
    assert_eq!(format!("{:?}", sensors.bedroom_temp), "Real(\"0.0\")");
    assert_eq!(format!("{:?}", sensors.living_temp), "Real(\"0.0\")");
}

#[test]
fn set_goes_by_place() {
    let mut climate = Climate::new();
    let first = conditioner(true, 24, ConditionerMode::Heat);
    climate.set(&[first]);
    assert_eq!(climate.conditioners(), vec![first, conditioner(false, 20, ConditionerMode::Cool)]);
    let second = conditioner(true, 17, ConditionerMode::Fan);
    climate.set(&[first, second, conditioner(true, 1, ConditionerMode::Dry)]);
    assert_eq!(climate.conditioners(), vec![first, second]);
    climate.set(&[]);
    assert_eq!(climate.conditioners(), vec![first, second]);
}

#[test]
fn calculate_keeps_the_readings_and_gives_the_conditioners() {
    let mut climate = Climate::new();
    let reading = WeatherSensor {
        channel: 1,
        temperature: JsonNumber::Real("3.5".to_string()),
        humidity: 55,
        low_battery: false,
    };
    let sensors = Sensors::new(
        vec![reading],
        JsonNumber::PosInt(21),
        JsonNumber::NegInt(-2),
        JsonNumber::Real("19.25".to_string()),
    );
    let conditioners = climate.calculate(sensors);
    assert_eq!(conditioners, Climate::new().conditioners());
    let held = climate.sensors();
    assert_eq!(held.weather_sensors.len(), 1);
    assert_eq!(held.weather_sensors[0].channel, 1);
    assert_eq!(held.weather_sensors[0].humidity, 55);
    assert_eq!(format!("{:?}", held.weather_sensors[0].temperature), "Real(\"3.5\")");
    assert_eq!(format!("{:?}", held.sensor_temp), "PosInt(21)");
    assert_eq!(format!("{:?}", held.bedroom_temp), "NegInt(-2)");
    assert_eq!(format!("{:?}", held.living_temp), "Real(\"19.25\")");
}

#[test]
fn modes_have_their_wire_numbers() {
    let modes = [
        (ConditionerMode::Auto, 0),
        (ConditionerMode::Cool, 1),
        (ConditionerMode::Dry, 2),
        (ConditionerMode::Fan, 3),
        (ConditionerMode::Heat, 4),
    ];
    for (mode, code) in modes {
        assert_eq!(mode.code(), code);
        assert_eq!(ConditionerMode::from_code(code), Some(mode));
    }
    assert_eq!(ConditionerMode::from_code(5), None);
    assert_eq!(ConditionerMode::from_code(-1), None);
}

#[test]
fn a_conditioner_reads_back_from_its_tree() {
    for mode in [ConditionerMode::Auto, ConditionerMode::Dry, ConditionerMode::Heat] {
        for temperature in [i32::MIN, -1, 0, 20, i32::MAX] {
            let held = conditioner(temperature % 2 == 0, temperature, mode);
            assert_eq!(Conditioner::from_json(&held.to_json()), Some(held));
        }
    }
}

#[test]
fn a_conditioner_needs_each_of_its_members() {
    let whole = conditioner(true, 5, ConditionerMode::Fan).to_json();
    let members = match whole {
        JsonValue::Object(members) => members,
        other => panic!("no object: {:?}", other),
    };
    assert_eq!(members.len(), 3);
    for left_out in 0..3 {
        let mut tree = JsonValue::record();
        for (i, member) in members.iter().enumerate() {
            if i != left_out {
                let value = match &member.value {
                    JsonValue::Bool(b) => JsonValue::Bool(*b),
                    JsonValue::Number(n) => JsonValue::Number(n.clone()),
                    other => panic!("unexpected member {:?}", other),
                };
                tree = tree.put(&member.name, value);
            }
        }
        assert_eq!(Conditioner::from_json(&tree), None);
    }
    assert_eq!(Conditioner::from_json(&JsonValue::Null), None);
    assert_eq!(Conditioner::from_json(&JsonValue::Array(vec![])), None);
}

#[test]
fn a_temperature_out_of_range_is_refused() {
    let tree = JsonValue::record()
        .put("enabled", JsonValue::Bool(true))
        .put("temperature", JsonValue::integer(i32::MAX as i64 + 1))
        .put("mode", JsonValue::integer(1));
    assert_eq!(Conditioner::from_json(&tree), None);
    let tree = JsonValue::record()
        .put("enabled", JsonValue::Bool(true))
        .put("temperature", JsonValue::integer(i32::MIN as i64 - 1))
        .put("mode", JsonValue::integer(1));
    assert_eq!(Conditioner::from_json(&tree), None);
}

#[test]
fn sensors_read_back_from_their_tree() {
    let sensors = Sensors::new(
        vec![
            WeatherSensor {
                channel: -1,
                temperature: JsonNumber::Real("-0.5".to_string()),
                humidity: 0,
                low_battery: true,
            },
            WeatherSensor {
                channel: 3,
                temperature: JsonNumber::PosInt(7),
                humidity: 99,
                low_battery: false,
            },
        ],
        JsonNumber::Real("1.5".to_string()),
        JsonNumber::NegInt(-4),
        JsonNumber::PosInt(0),
    );
    let back = Sensors::from_json(&sensors.to_json()).unwrap();
    assert_eq!(format!("{:?}", back), format!("{:?}", sensors));
    let copy = sensors.clone();
    assert_eq!(format!("{:?}", copy), format!("{:?}", sensors));
}
