use redfish_monitor::reading::{
    reading_from_body, reading_from_json, Metric, PollFailure, SensorReading,
};

fn absent() -> SensorReading {
    SensorReading {
        psu_pin: None,
        cpu_power: None,
        cpu0_power: None,
        cpu1_power: None,
        fan_power: None,
        cpu0_temp: None,
        cpu1_temp: None,
    }
}

#[test]
fn new_reading_has_no_metric() {
    assert_eq!(SensorReading::new(), absent());
}

#[test]
fn every_recognised_name_has_its_metric() {
    assert_eq!(Metric::from_name("PSU1_PIN"), Some(Metric::PsuInput));
    assert_eq!(Metric::from_name("CPU_Power"), Some(Metric::CpuTotal));
    assert_eq!(Metric::from_name("CPU0_Power"), Some(Metric::Cpu0Power));
    assert_eq!(Metric::from_name("CPU1_Power"), Some(Metric::Cpu1Power));
    assert_eq!(Metric::from_name("CPU0_Temp"), Some(Metric::Cpu0Temp));
    assert_eq!(Metric::from_name("CPU1_Temp"), Some(Metric::Cpu1Temp));
    assert_eq!(Metric::from_name("Fan_Power"), Some(Metric::FanPower));
}

#[test]
fn names_match_exactly() {
    assert_eq!(Metric::from_name(""), None);
    assert_eq!(Metric::from_name("Unknown_Sensor"), None);
    assert_eq!(Metric::from_name("cpu_power"), None);
    assert_eq!(Metric::from_name("CPU_Power "), None);
    assert_eq!(Metric::from_name(" CPU_Power"), None);
    assert_eq!(Metric::from_name("PSU2_PIN"), None);
    assert_eq!(Metric::from_name("CPU2_Temp"), None);
}

#[test]
fn set_and_get_reach_the_same_field() {
    let metrics = [
        Metric::PsuInput,
        Metric::CpuTotal,
        Metric::Cpu0Power,
        Metric::Cpu1Power,
        Metric::FanPower,
        Metric::Cpu0Temp,
        Metric::Cpu1Temp,
    ];
    for (i, metric) in metrics.iter().enumerate() {
        let mut reading = SensorReading::new();
        reading.set(*metric, Some(100 + i as u64));
        for other in metrics.iter() {
            if other == metric {
                assert_eq!(reading.get(*other), Some(100 + i as u64));
            } else {
                assert_eq!(reading.get(*other), None);
            }
        }
    }
    let mut reading = SensorReading::new();
    reading.set(Metric::PsuInput, Some(1));
    reading.set(Metric::CpuTotal, Some(2));
    reading.set(Metric::Cpu0Power, Some(3));
    reading.set(Metric::Cpu1Power, Some(4));
    reading.set(Metric::FanPower, Some(5));
    reading.set(Metric::Cpu0Temp, Some(6));
    reading.set(Metric::Cpu1Temp, Some(7));
    assert_eq!(
        reading,
        SensorReading {
            psu_pin: Some(1),
            cpu_power: Some(2),
            cpu0_power: Some(3),
            cpu1_power: Some(4),
            fan_power: Some(5),
            cpu0_temp: Some(6),
            cpu1_temp: Some(7),
        }
    );
}

#[test]
fn record_stores_value_under_recognised_name() {
    let mut reading = SensorReading::new();
    reading.record("CPU_Power", Some(120));
    reading.record("Fan_Power", Some(15));
    assert_eq!(
        reading,
        SensorReading { cpu_power: Some(120), fan_power: Some(15), ..absent() }
    );
}

#[test]
fn unknown_sensor_is_ignored() {
    let mut reading = SensorReading::new();
    reading.record("Unknown_Sensor", Some(999));
    assert_eq!(reading, absent());

    let mut reading = SensorReading { cpu0_temp: Some(41), psu_pin: Some(300), ..absent() };
    let before = reading;
    reading.record("Unknown_Sensor", Some(999));
    assert_eq!(reading, before);
}

#[test]
fn record_without_value_leaves_metric_absent_not_zero() {
    let mut reading = SensorReading::new();
    reading.record("CPU0_Temp", None);
    assert_eq!(reading.cpu0_temp, None);
    assert_ne!(reading.cpu0_temp, Some(0));

    reading.record("CPU0_Temp", Some(55));
    assert_eq!(reading.cpu0_temp, Some(55));
    reading.record("CPU0_Temp", None);
    assert_eq!(reading.cpu0_temp, None);
}

#[test]
fn body_with_two_sensors_gives_two_metrics() {
    let body = r#"{"Sensors":[{"Name":"CPU_Power","Reading":120},{"Name":"Fan_Power","Reading":15}]}"#;
    assert_eq!(
        reading_from_body(body),
        Ok(SensorReading { cpu_power: Some(120), fan_power: Some(15), ..absent() })
    );
}

#[test]
fn body_with_all_sensors_fills_every_metric() {
    let body = r#"{
        "Sensors": [
            {"Name": "PSU1_PIN", "Reading": 410},
            {"Name": "CPU_Power", "Reading": 230},
            {"Name": "CPU0_Power", "Reading": 118},
            {"Name": "CPU1_Power", "Reading": 112},
            {"Name": "CPU0_Temp", "Reading": 54},
            {"Name": "CPU1_Temp", "Reading": 57},
            {"Name": "Fan_Power", "Reading": 36}
        ]
    }"#;
    assert_eq!(
        reading_from_body(body),
        Ok(SensorReading {
            psu_pin: Some(410),
            cpu_power: Some(230),
            cpu0_power: Some(118),
            cpu1_power: Some(112),
            fan_power: Some(36),
            cpu0_temp: Some(54),
            cpu1_temp: Some(57),
        })
    );
}

#[test]
fn unknown_sensor_in_body_affects_no_field() {
    let body = r#"{"Sensors":[{"Name":"Unknown_Sensor","Reading":999}]}"#;
    assert_eq!(reading_from_body(body), Ok(absent()));

    let body = r#"{"Sensors":[{"Name":"CPU_Power","Reading":120},{"Name":"Unknown_Sensor","Reading":999}]}"#;
    assert_eq!(
        reading_from_body(body),
        Ok(SensorReading { cpu_power: Some(120), ..absent() })
    );
}

#[test]
fn reading_that_is_no_unsigned_integer_is_absent() {
    let bodies = [
        r#"{"Sensors":[{"Name":"CPU_Power"}]}"#,
        r#"{"Sensors":[{"Name":"CPU_Power","Reading":null}]}"#,
        r#"{"Sensors":[{"Name":"CPU_Power","Reading":"120"}]}"#,
        r#"{"Sensors":[{"Name":"CPU_Power","Reading":-5}]}"#,
        r#"{"Sensors":[{"Name":"CPU_Power","Reading":12.5}]}"#,
        r#"{"Sensors":[{"Name":"CPU_Power","Reading":120.0}]}"#,
        r#"{"Sensors":[{"Name":"CPU_Power","Reading":true}]}"#,
        r#"{"Sensors":[{"Name":"CPU_Power","Reading":[120]}]}"#,
        r#"{"Sensors":[{"Name":"CPU_Power","Reading":{"Value":120}}]}"#,
        r#"{"Sensors":[{"Name":"CPU_Power","Reading":18446744073709551616}]}"#,
    ];
    for body in bodies {
        assert_eq!(reading_from_body(body), Ok(absent()), "{}", body);
    }
}

#[test]
fn reading_at_the_ends_of_the_range() {
    let body = r#"{"Sensors":[{"Name":"PSU1_PIN","Reading":0},{"Name":"CPU_Power","Reading":18446744073709551615}]}"#;
    assert_eq!(
        reading_from_body(body),
        Ok(SensorReading { psu_pin: Some(0), cpu_power: Some(u64::MAX), ..absent() })
    );
}

#[test]
fn later_entry_replaces_earlier_one() {
    let body = r#"{"Sensors":[{"Name":"Fan_Power","Reading":15},{"Name":"Fan_Power","Reading":18}]}"#;
    assert_eq!(
        reading_from_body(body),
        Ok(SensorReading { fan_power: Some(18), ..absent() })
    );
    let body = r#"{"Sensors":[{"Name":"Fan_Power","Reading":15},{"Name":"Fan_Power"}]}"#;
    assert_eq!(reading_from_body(body), Ok(absent()));
}

#[test]
fn entries_without_usable_name_are_ignored() {
    let body = r#"{"Sensors":[
        {"Reading":1},
        {"Name":7,"Reading":2},
        {"Name":null,"Reading":3},
        {"Name":["CPU_Power"],"Reading":4},
        "CPU_Power",
        5,
        null,
        ["Name","CPU_Power"],
        {"name":"CPU_Power","Reading":6},
        {"Name":"CPU1_Temp","Reading":61}
    ]}"#;
    assert_eq!(
        reading_from_body(body),
        Ok(SensorReading { cpu1_temp: Some(61), ..absent() })
    );
}

#[test]
fn empty_sensor_list_gives_empty_reading() {
    assert_eq!(reading_from_body(r#"{"Sensors":[]}"#), Ok(absent()));
}

#[test]
fn body_that_is_no_json_is_malformed() {
    assert_eq!(reading_from_body(""), Err(PollFailure::Malformed));
    assert_eq!(reading_from_body("not json"), Err(PollFailure::Malformed));
    assert_eq!(reading_from_body("<html></html>"), Err(PollFailure::Malformed));
    assert_eq!(reading_from_body(r#"{"Sensors":["#), Err(PollFailure::Malformed));
    assert_eq!(reading_from_body(r#"{"Sensors":[]} trailing"#), Err(PollFailure::Malformed));
}

#[test]
fn document_without_sensor_array_has_no_sensors() {
    assert_eq!(reading_from_body("{}"), Err(PollFailure::NoSensors));
    assert_eq!(reading_from_body("null"), Err(PollFailure::NoSensors));
    assert_eq!(reading_from_body("[]"), Err(PollFailure::NoSensors));
    assert_eq!(reading_from_body("42"), Err(PollFailure::NoSensors));
    assert_eq!(reading_from_body(r#""Sensors""#), Err(PollFailure::NoSensors));
    assert_eq!(reading_from_body(r#"{"sensors":[]}"#), Err(PollFailure::NoSensors));
    assert_eq!(reading_from_body(r#"{"Sensors":{}}"#), Err(PollFailure::NoSensors));
    assert_eq!(reading_from_body(r#"{"Sensors":null}"#), Err(PollFailure::NoSensors));
    assert_eq!(reading_from_body(r#"{"Sensors":"none"}"#), Err(PollFailure::NoSensors));
    assert_eq!(
        reading_from_body(r#"{"error":{"code":"Base.1.0.GeneralError"}}"#),
        Err(PollFailure::NoSensors)
    );
    assert_eq!(
        reading_from_body(r#"[{"Sensors":[{"Name":"CPU_Power","Reading":1}]}]"#),
        Err(PollFailure::NoSensors)
    );
}

#[test]
fn reading_from_parsed_document() {
    let doc: serde_json::Value = serde_json::from_str(
        r#"{"Sensors":[{"Name":"CPU0_Power","Reading":60},{"Name":"CPU1_Power","Reading":61}],"Other":1}"#,
    )
    .unwrap();
    assert_eq!(
        reading_from_json(&doc),
        Some(SensorReading { cpu0_power: Some(60), cpu1_power: Some(61), ..absent() })
    );
    let doc: serde_json::Value = serde_json::from_str(r#"{"Other":1}"#).unwrap();
    assert_eq!(reading_from_json(&doc), None);
    assert_eq!(reading_from_json(&serde_json::Value::Null), None);
    assert_eq!(reading_from_json(&serde_json::Value::Array(Vec::new())), None);
}

#[test]
fn reading_from_document_built_by_hand() {
    let mut entry = serde_json::Map::new();
    entry.insert("Name".to_string(), serde_json::Value::String("PSU1_PIN".to_string()));
    entry.insert("Reading".to_string(), serde_json::Value::Number(serde_json::Number::from(350u64)));
    let mut doc = serde_json::Map::new();
    doc.insert(
        "Sensors".to_string(),
        serde_json::Value::Array(vec![serde_json::Value::Object(entry)]),
    );
    assert_eq!(
        reading_from_json(&serde_json::Value::Object(doc)),
        Some(SensorReading { psu_pin: Some(350), ..absent() })
    );
}
